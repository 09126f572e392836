use polybar_reddit::feed::{Children, ChildrenData, FeedError, Post, Response};
use polybar_reddit::fetch::{decide_fetch, dispatch_urls, fetch_all, FetchOutcome};

fn item(title: &str, permalink: &str, subreddit: &str) -> ChildrenData {
    ChildrenData {
        data: Post {
            title: title.to_string(),
            permalink: permalink.to_string(),
            subreddit: subreddit.to_string(),
        },
    }
}

fn titles(items: &[ChildrenData]) -> Vec<String> {
    items.iter().map(|c| c.data.title.clone()).collect()
}

#[test]
fn dispatch_urls_follow_feed_order() {
    let feeds = vec!["politics".to_string(), "movies".to_string()];
    let urls = dispatch_urls(&feeds);
    assert_eq!(
        urls,
        vec![
            "https://www.reddit.com/r/politics.json?limit=10".to_string(),
            "https://www.reddit.com/r/movies.json?limit=10".to_string(),
        ]
    );
}

#[test]
fn decide_fetch_hands_back_items_on_200() {
    let response = Response {
        data: Children { children: vec![item("t1", "/r/a/1", "a"), item("t2", "/r/a/2", "a")] },
    };
    let outcome = FetchOutcome::Responded { status: 200, body: Some(response) };
    let items = decide_fetch(outcome).unwrap();
    assert_eq!(titles(&items), vec!["t1".to_string(), "t2".to_string()]);
}

#[test]
fn decide_fetch_rejects_other_status() {
    let outcome = FetchOutcome::Responded { status: 404, body: None };
    match decide_fetch(outcome) {
        Err(FeedError::HttpStatusError(status)) => assert_eq!(status, 404),
        other => panic!("expected HttpStatusError, got {other:?}"),
    }
}

#[test]
fn decide_fetch_rejects_malformed_body() {
    let outcome = FetchOutcome::Responded { status: 200, body: None };
    assert!(matches!(decide_fetch(outcome), Err(FeedError::ParseError)));
}

#[test]
fn decide_fetch_rejects_transport_failure() {
    assert!(matches!(decide_fetch(FetchOutcome::TransportFailure), Err(FeedError::NetworkError)));
}

#[test]
fn merged_feed_holds_every_item_once() {
    // Three feeds with 2, 3 and 0 items: the merged feed has all 5, in
    // arrival order, with the per-feed order kept.
    let results = vec![
        vec![item("a1", "/r/a/1", "a"), item("a2", "/r/a/2", "a")],
        vec![item("b1", "/r/b/1", "b"), item("b2", "/r/b/2", "b"), item("b3", "/r/b/3", "b")],
        vec![],
    ];
    let merged = fetch_all(results);
    assert_eq!(merged.len(), 5);
    assert_eq!(
        titles(&merged),
        vec![
            "a1".to_string(),
            "a2".to_string(),
            "b1".to_string(),
            "b2".to_string(),
            "b3".to_string(),
        ]
    );
}

#[test]
fn sequential_runs_merge_identically() {
    // With one worker the results arrive in dispatch order, so two runs
    // over the same mocked responses yield the same merged feed.
    let run = || {
        vec![
            vec![item("p1", "/r/politics/1", "politics")],
            vec![item("m1", "/r/movies/1", "movies"), item("m2", "/r/movies/2", "movies")],
        ]
    };
    let first = fetch_all(run());
    let second = fetch_all(run());
    assert_eq!(titles(&first), titles(&second));
    let links = |items: &[ChildrenData]| {
        items.iter().map(|c| c.data.permalink.clone()).collect::<Vec<_>>()
    };
    assert_eq!(links(&first), links(&second));
}

#[test]
fn two_feeds_two_items_each_merge_to_four() {
    // Feeds ["politics", "movies"], each answering 2 mocked items, fetched
    // with a pool of 2 workers: whichever order the two results arrive in,
    // the merged feed holds exactly those 4 items.
    let politics = || vec![item("p1", "/r/politics/1", "politics"), item("p2", "/r/politics/2", "politics")];
    let movies = || vec![item("m1", "/r/movies/1", "movies"), item("m2", "/r/movies/2", "movies")];
    for arrival in [vec![politics(), movies()], vec![movies(), politics()]] {
        let merged = fetch_all(arrival);
        assert_eq!(merged.len(), 4);
        let mut got = titles(&merged);
        got.sort();
        assert_eq!(got, vec!["m1".to_string(), "m2".to_string(), "p1".to_string(), "p2".to_string()]);
    }
}
