use polybar_reddit::display::{classify_sink_write, DisplayCycle};
use polybar_reddit::feed::{ChildrenData, FeedError, Post};

fn item(title: &str, permalink: &str, subreddit: &str) -> ChildrenData {
    ChildrenData {
        data: Post {
            title: title.to_string(),
            permalink: permalink.to_string(),
            subreddit: subreddit.to_string(),
        },
    }
}

#[test]
fn three_steps_wrap_around_two_items() {
    // Items [itemA, itemB] and interval 0 (test override), run for exactly
    // three steps: the sink sees itemA's link, itemB's link, itemA's link.
    let item_a = item("titleA", "/r/a/posta", "a");
    let item_b = item("titleB", "/r/b/postb", "b");
    let mut cycle = DisplayCycle::new(vec![item_a, item_b], 0);
    let mut sink = String::new();
    let mut written: Vec<String> = Vec::new();
    for _ in 0..3 {
        let step = cycle.step();
        // Each write overwrites the sink's whole contents.
        sink = step.link;
        written.push(sink.clone());
    }
    assert_eq!(
        written,
        vec![
            "https://reddit.com/r/a/posta".to_string(),
            "https://reddit.com/r/b/postb".to_string(),
            "https://reddit.com/r/a/posta".to_string(),
        ]
    );
    assert_eq!(sink, "https://reddit.com/r/a/posta");
}

#[test]
fn log_line_names_source_and_title() {
    let mut cycle = DisplayCycle::new(vec![item("hello world", "/r/news/1", "news")], 10_000);
    let step = cycle.step();
    assert_eq!(step.log_line, "[news]hello world");
    assert_eq!(cycle.interval_ms, 10_000);
}

#[test]
fn failed_sink_write_is_fatal() {
    assert!(matches!(classify_sink_write(false), Err(FeedError::SinkWriteError)));
    assert!(matches!(classify_sink_write(true), Ok(())));
}

#[test]
fn single_item_cycles_onto_itself() {
    let mut cycle = DisplayCycle::new(vec![item("only", "/r/x/1", "x")], 0);
    let first = cycle.step();
    let second = cycle.step();
    assert_eq!(first.link, "https://reddit.com/r/x/1");
    assert_eq!(second.link, "https://reddit.com/r/x/1");
}
