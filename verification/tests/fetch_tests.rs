use follow_unfollow::fetch::{FetchStep, PageFetcher, PAGE_SIZE};

fn page_of(count: usize, offset: usize) -> Option<Vec<String>> {
    Some((0..count).map(|i| format!("user{}", offset + i)).collect())
}

#[test]
fn pagination_terminates_on_empty_page() {
    // pages of 100, 37 and 0 entries: three requests, 137 unique users.
    let mut fetcher = PageFetcher::new();
    assert_eq!(fetcher.next_page(), 1);
    let mut requests = 0;

    requests += 1;
    assert_eq!(fetcher.apply_page(page_of(100, 0)), FetchStep::Continue);
    assert_eq!(fetcher.next_page(), 2);

    requests += 1;
    assert_eq!(fetcher.apply_page(page_of(37, 100)), FetchStep::Continue);
    assert_eq!(fetcher.next_page(), 3);

    requests += 1;
    assert_eq!(fetcher.apply_page(Some(Vec::new())), FetchStep::Complete);

    assert_eq!(requests, 3);
    assert_eq!(fetcher.users().len(), 137);
    assert!(fetcher.users().contains(&"user0".to_string()));
    assert!(fetcher.users().contains(&"user136".to_string()));
    assert!(!fetcher.users().contains(&"user137".to_string()));
}

#[test]
fn pagination_empty_listing() {
    // a first page that is already empty: one request, empty set.
    let mut fetcher = PageFetcher::new();
    let mut requests = 0;
    requests += 1;
    assert_eq!(fetcher.apply_page(Some(Vec::new())), FetchStep::Complete);
    assert_eq!(requests, 1);
    assert!(fetcher.users().is_empty());
    assert_eq!(fetcher.next_page(), 1);
}

#[test]
fn page_size_matches_listing_requests() {
    assert_eq!(PAGE_SIZE, 100);
}

#[test]
fn duplicates_across_pages_collapse() {
    let mut fetcher = PageFetcher::new();
    let p1 = Some(vec!["a".to_string(), "b".to_string()]);
    let p2 = Some(vec!["b".to_string(), "c".to_string()]);
    assert_eq!(fetcher.apply_page(p1), FetchStep::Continue);
    assert_eq!(fetcher.apply_page(p2), FetchStep::Continue);
    assert_eq!(fetcher.apply_page(Some(Vec::new())), FetchStep::Complete);
    assert_eq!(fetcher.users().len(), 3);
}

#[test]
fn step_decodes_page_bodies() {
    // real JSON bodies, decoded by the library itself
    let mut fetcher = PageFetcher::new();
    let body = "[{\"login\":\"alice\"},{\"login\":\"bob\"}]";
    assert_eq!(fetcher.step(Some(body)), FetchStep::Continue);
    assert_eq!(fetcher.next_page(), 2);
    assert_eq!(fetcher.step(Some("[]")), FetchStep::Complete);

    let users = fetcher.users();
    assert_eq!(users.len(), 2);
    assert!(users.contains(&"alice".to_string()));
    assert!(users.contains(&"bob".to_string()));
    // the decoded names are the login fields, not the raw body
    assert!(!users.contains(&body.to_string()));
}

#[test]
fn step_extra_fields_are_ignored() {
    let mut fetcher = PageFetcher::new();
    let body = "[{\"id\":1,\"login\":\"carol\",\"site_admin\":false}]";
    assert_eq!(fetcher.step(Some(body)), FetchStep::Continue);
    assert!(fetcher.users().contains(&"carol".to_string()));
    assert_eq!(fetcher.users().len(), 1);
}

#[test]
fn transport_failure_keeps_partial_set() {
    let mut fetcher = PageFetcher::new();
    assert_eq!(
        fetcher.step(Some("[{\"login\":\"alice\"}]")),
        FetchStep::Continue
    );
    assert_eq!(fetcher.step(None), FetchStep::Aborted);
    let users = fetcher.users();
    assert_eq!(users.len(), 1);
    assert!(users.contains(&"alice".to_string()));
}

#[test]
fn malformed_bodies_abort() {
    // not JSON at all
    let mut fetcher = PageFetcher::new();
    assert_eq!(fetcher.step(Some("not json")), FetchStep::Aborted);
    assert!(fetcher.users().is_empty());

    // valid JSON, but not an array
    let mut fetcher = PageFetcher::new();
    assert_eq!(fetcher.step(Some("{\"login\":\"alice\"}")), FetchStep::Aborted);

    // an array entry without a login field
    let mut fetcher = PageFetcher::new();
    assert_eq!(fetcher.step(Some("[{\"name\":\"alice\"}]")), FetchStep::Aborted);

    // a login that is not a string
    let mut fetcher = PageFetcher::new();
    assert_eq!(fetcher.step(Some("[{\"login\":7}]")), FetchStep::Aborted);
}

#[test]
fn into_users_hands_the_set_over() {
    let mut fetcher = PageFetcher::new();
    assert_eq!(
        fetcher.step(Some("[{\"login\":\"dave\"}]")),
        FetchStep::Continue
    );
    let users = fetcher.into_users();
    assert_eq!(users.len(), 1);
    assert!(users.contains(&"dave".to_string()));
}
