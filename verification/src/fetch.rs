//! Paginated collection of a complete username listing.
//!
//! A listing endpoint hands out usernames one page at a time, starting at
//! page 1; an empty page signals that the listing is exhausted. The caller
//! performs the HTTP requests and feeds each response into [`PageFetcher`],
//! which accumulates the deduplicated set and says whether to request the
//! next page. A transport failure or a malformed body ends the fetch early
//! with the partial set collected so far.

use vstd::prelude::*;
use crate::userset::UserSet;

verus! {

broadcast use vstd::seq_lib::lemma_seq_contains_after_push;

/// How many entries a full page holds; the page size every listing request
/// asks for.
pub const PAGE_SIZE: u64 = 100;

/// What the fetch loop does after one page has been handled.
#[derive(Clone, Copy, Debug, PartialEq, Eq, Structural)]
pub enum FetchStep {
    /// The page held entries: request the next page.
    Continue,
    /// The page was empty: the whole listing has been collected.
    Complete,
    /// Transport failure or malformed body: stop with the partial set.
    Aborted,
}

/// The usernames that a decoded page holds, as a set.
pub open spec fn page_set(items: Seq<Seq<char>>) -> Set<Seq<char>> {
    Set::new(|name: Seq<char>| items.contains(name))
}

/// The usernames a page body decodes to: the string under the `login` key of
/// each object of the JSON array, in array order; `None` when the body is not
/// such a document.
pub uninterp spec fn page_logins(body: Seq<char>) -> Option<Seq<Seq<char>>>;

/// What a fetched page decodes to: `body` is `None` when the transport
/// failed, and a malformed body decodes to `None` as well.
pub open spec fn decoded_of(body: Option<&str>) -> Option<Seq<Seq<char>>> {
    match body {
        None => None,
        Some(b) => page_logins(b@),
    }
}

/// Relies on serde_json (`from_str`, `Value::as_array`, `Value::get`,
/// `Value::as_str`): the body is parsed as a JSON array of objects and the
/// string under each object's `login` key is collected in array order;
/// `None` when the body is not such a document. The result depends on the
/// body text alone.
#[verifier::external_body]
fn decode_page(body: &str) -> (r: Option<Vec<String>>)
    ensures
        r.deep_view() == page_logins(body@),
{
    let parsed: serde_json::Value = match serde_json::from_str(body) {
        Ok(value) => value,
        Err(_) => return None,
    };
    let items = parsed.as_array()?;
    let mut logins: Vec<String> = Vec::new();
    for item in items {
        logins.push(item.get("login")?.as_str()?.to_string());
    }
    Some(logins)
}

/// How one handled page relates the fetcher before (`pre`) and after
/// (`post`): a failure or an empty page leaves it unchanged and ends the
/// fetch, a non-empty page joins its usernames in and advances to the next
/// page number.
pub open spec fn fetch_transition(
    pre: PageFetcher,
    post: PageFetcher,
    decoded: Option<Seq<Seq<char>>>,
    step: FetchStep,
) -> bool {
    match decoded {
        None => step == FetchStep::Aborted && post.set() == pre.set() && post.page() == pre.page(),
        Some(items) => if items.len() == 0 {
            step == FetchStep::Complete && post.set() == pre.set() && post.page() == pre.page()
        } else {
            step == FetchStep::Continue && post.set() == pre.set().union(page_set(items))
                && post.page() == pre.page() + 1
        },
    }
}

/// The state of one listing fetch: the usernames collected so far and the
/// number of the page to request next.
pub struct PageFetcher {
    users: UserSet,
    next_page: usize,
}

impl PageFetcher {
    /// The usernames collected so far.
    pub closed spec fn set(&self) -> Set<Seq<char>> {
        self.users@
    }

    /// The number of the page to request next; listings start at page 1.
    pub closed spec fn page(&self) -> int {
        self.next_page as int
    }

    pub closed spec fn wf(&self) -> bool {
        self.users.wf() && 1 <= self.next_page
    }

    /// A fetch about to request page 1, with nothing collected.
    pub fn new() -> (r: PageFetcher)
        ensures
            r.wf(),
            r.set() == Set::<Seq<char>>::empty(),
            r.page() == 1,
    {
        PageFetcher { users: UserSet::new(), next_page: 1 }
    }

    /// The page number to put in the next listing request.
    pub fn next_page(&self) -> (n: usize)
        ensures
            n == self.page(),
    {
        self.next_page
    }

    /// The set collected so far; the complete listing once a step returned
    /// [`FetchStep::Complete`], a partial one after [`FetchStep::Aborted`].
    pub fn users(&self) -> (u: &UserSet)
        requires
            self.wf(),
        ensures
            u.wf(),
            u@ == self.set(),
    {
        &self.users
    }

    /// Give up the fetcher for the set it collected.
    pub fn into_users(self) -> (u: UserSet)
        requires
            self.wf(),
        ensures
            u.wf(),
            u@ == self.set(),
    {
        self.users
    }

    /// Fold one already-decoded page into the fetch: `page` is `None` when
    /// the transport failed or the body was malformed.
    pub fn apply_page(&mut self, page: Option<Vec<String>>) -> (step: FetchStep)
        requires
            old(self).wf(),
            old(self).page() < usize::MAX,
        ensures
            final(self).wf(),
            fetch_transition(*old(self), *final(self), page.deep_view(), step),
    {
        match page {
            None => FetchStep::Aborted,
            Some(items) => {
                if items.len() == 0 {
                    FetchStep::Complete
                } else {
                    let ghost pre = *self;
                    let n = items.len();
                    let mut i: usize = 0;
                    while i < n
                        invariant
                            n == items.len(),
                            i <= n,
                            self.users.wf(),
                            self.next_page == pre.next_page,
                            forall|x: Seq<char>| #[trigger] self.users@.contains(x) <==> (
                            pre.users@.contains(x) || items.deep_view().take(i as int).contains(
                                x,
                            )),
                        decreases n - i,
                    {
                        proof {
                            assert(items.deep_view().take(i as int + 1) =~= items.deep_view().take(
                                i as int,
                            ).push(items.deep_view()[i as int]));
                        }
                        let ghost prev = self.users@;
                        let name = items[i].clone();
                        proof {
                            assert(name@ == items.deep_view()[i as int]);
                        }
                        self.users.insert(name);
                        proof {
                            assert forall|x: Seq<char>| #[trigger] self.users@.contains(x) <==> (
                            pre.users@.contains(x) || items.deep_view().take(i as int + 1).contains(
                                x,
                            )) by {
                                assert(self.users@.contains(x) <==> (x == items.deep_view()[i as int]
                                    || prev.contains(x)));
                                assert(items.deep_view().take(i as int + 1).contains(x) <==> (
                                items.deep_view().take(i as int).contains(x) || x
                                    == items.deep_view()[i as int]));
                            }
                        }
                        i += 1;
                    }
                    self.next_page += 1;
                    proof {
                        assert(items.deep_view().take(n as int) =~= items.deep_view());
                        assert(self.users@ =~= pre.users@.union(page_set(items.deep_view())));
                    }
                    FetchStep::Continue
                }
            },
        }
    }

    /// Handle the response for page `self.page()` of the listing: `body` is
    /// the response text, or `None` when the transport failed.
    pub fn step(&mut self, body: Option<&str>) -> (step: FetchStep)
        requires
            old(self).wf(),
            old(self).page() < usize::MAX,
        ensures
            final(self).wf(),
            fetch_transition(*old(self), *final(self), decoded_of(body), step),
    {
        let decoded = match body {
            None => None,
            Some(b) => decode_page(b),
        };
        self.apply_page(decoded)
    }
}

} // verus!
