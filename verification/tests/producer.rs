use collie::models::feeds::{Feed, FeedStatus};
use collie::models::items::{ItemStatus, ItemToCreate};
use collie::producer::{
    get_links_to_check, latest_item, newer_items, normalize, normalize_all, select_new_items,
    sort_by_date, FeedToCheck, SyncMode,
};
use collie::syndication::RawItem;
use collie::time::Timestamp;

fn entry(title: &str, published: Option<i64>) -> RawItem {
    RawItem {
        title: title.to_string(),
        author: None,
        link: Some(format!("https://example.org/{}", title)),
        content: None,
        published_at: published.map(|secs| Timestamp::new(secs, 0)),
    }
}

fn titles(items: &[RawItem]) -> Vec<String> {
    items.iter().map(|i| i.title.clone()).collect()
}

fn names(expected: &[&str]) -> Vec<String> {
    expected.iter().map(|t| t.to_string()).collect()
}

#[test]
fn sync_mode_follows_the_flag() {
    assert_eq!(SyncMode::of(true), SyncMode::BacklogInclude);
    assert_eq!(SyncMode::of(false), SyncMode::BacklogSkip);
}

#[test]
fn backlog_include_takes_all_in_order_of_date() {
    let batch = vec![entry("c", Some(30)), entry("a", Some(10)), entry("b", Some(20))];
    let taken = select_new_items(SyncMode::BacklogInclude, None, &batch);
    assert_eq!(titles(&taken), names(&["a", "b", "c"]));
    let again = select_new_items(SyncMode::BacklogInclude, Some(Timestamp::new(25, 0)), &batch);
    assert_eq!(titles(&again), names(&["a", "b", "c"]));
}

#[test]
fn backlog_skip_without_stored_items_takes_the_latest_only() {
    let batch = vec![entry("b", Some(20)), entry("c", Some(30)), entry("a", Some(10))];
    let taken = select_new_items(SyncMode::BacklogSkip, None, &batch);
    assert_eq!(titles(&taken), names(&["c"]));
    assert_eq!(taken[0], batch[1]);
}

#[test]
fn backlog_skip_goes_by_date_and_not_by_document_order() {
    let batch = vec![entry("newest", Some(99)), entry("older", Some(1)), entry("old", Some(2))];
    assert_eq!(titles(&select_new_items(SyncMode::BacklogSkip, None, &batch)), names(&["newest"]));
    let reversed = vec![entry("old", Some(2)), entry("older", Some(1)), entry("newest", Some(99))];
    assert_eq!(titles(&select_new_items(SyncMode::BacklogSkip, None, &reversed)), names(&["newest"]));
}

#[test]
fn backlog_skip_of_an_empty_batch_takes_nothing() {
    assert_eq!(select_new_items(SyncMode::BacklogSkip, None, &vec![]), vec![]);
    assert_eq!(select_new_items(SyncMode::BacklogSkip, Some(Timestamp::new(0, 0)), &vec![]), vec![]);
    assert_eq!(select_new_items(SyncMode::BacklogInclude, None, &vec![]), vec![]);
}

#[test]
fn latest_of_equals_is_the_last() {
    let batch = vec![entry("first", Some(5)), entry("second", Some(5)), entry("early", Some(1))];
    assert_eq!(titles(&latest_item(&batch)), names(&["second"]));
}

#[test]
fn latest_prefers_a_date_over_none() {
    let batch = vec![entry("dated", Some(-100)), entry("undated", None)];
    assert_eq!(titles(&latest_item(&batch)), names(&["dated"]));
    let undated = vec![entry("x", None), entry("y", None)];
    assert_eq!(titles(&latest_item(&undated)), names(&["y"]));
}

#[test]
fn incremental_takes_exactly_the_strictly_newer() {
    let than = Timestamp::new(20, 0);
    let batch = vec![
        entry("after2", Some(40)),
        entry("before", Some(10)),
        entry("equal", Some(20)),
        entry("after1", Some(21)),
        entry("undated", None),
    ];
    let taken = select_new_items(SyncMode::BacklogSkip, Some(than), &batch);
    assert_eq!(titles(&taken), names(&["after1", "after2"]));
}

#[test]
fn incremental_compares_nanoseconds() {
    let than = Timestamp::new(20, 500);
    let batch = vec![
        RawItem { published_at: Some(Timestamp::new(20, 500)), ..entry("same", None) },
        RawItem { published_at: Some(Timestamp::new(20, 501)), ..entry("later", None) },
        RawItem { published_at: Some(Timestamp::new(20, 499)), ..entry("sooner", None) },
    ];
    assert_eq!(titles(&newer_items(&batch, than)), names(&["later"]));
}

#[test]
fn newer_items_keep_document_order() {
    let batch = vec![entry("z", Some(9)), entry("y", Some(8)), entry("x", Some(1))];
    assert_eq!(titles(&newer_items(&batch, Timestamp::new(5, 0))), names(&["z", "y"]));
}

#[test]
fn sort_is_stable_and_puts_undated_first() {
    let batch = vec![
        entry("b1", Some(2)),
        entry("n1", None),
        entry("a", Some(1)),
        entry("b2", Some(2)),
        entry("n2", None),
        entry("b3", Some(2)),
    ];
    assert_eq!(titles(&sort_by_date(&batch)), names(&["n1", "n2", "a", "b1", "b2", "b3"]));
}

#[test]
fn sort_agrees_with_std_stable_sort() {
    let batch: Vec<RawItem> = [7, 3, 3, 9, 1, 7, 3, 0, 9, 2]
        .iter()
        .enumerate()
        .map(|(i, secs)| entry(&format!("e{}", i), if *secs == 0 { None } else { Some(*secs) }))
        .collect();
    let mut expected = batch.clone();
    expected.sort_by_key(|x| x.published_at.map(|t| (t.secs, t.nanos)));
    assert_eq!(sort_by_date(&batch), expected);
}

#[test]
fn normalize_trims_and_fills_defaults() {
    let now = Timestamp::new(1_000, 1);
    let raw = RawItem {
        title: "  Title \n".to_string(),
        author: Some(" Ann ".to_string()),
        link: None,
        content: None,
        published_at: None,
    };
    let item = normalize(&raw, 7, now);
    assert_eq!(
        item,
        ItemToCreate {
            author: Some("Ann".to_string()),
            title: "Title".to_string(),
            description: String::new(),
            link: "#".to_string(),
            status: ItemStatus::Unread,
            published_at: now,
            feed: 7,
        }
    );
}

#[test]
fn normalize_keeps_what_is_there() {
    let raw = RawItem {
        title: "T".to_string(),
        author: None,
        link: Some(" https://example.org/x ".to_string()),
        content: Some("\n<p>text</p>\n".to_string()),
        published_at: Some(Timestamp::new(5, 6)),
    };
    let item = normalize(&raw, -3, Timestamp::new(9, 9));
    assert_eq!(item.author, None);
    assert_eq!(item.link, "https://example.org/x");
    assert_eq!(item.description, "<p>text</p>");
    assert_eq!(item.published_at, Timestamp::new(5, 6));
    assert_eq!(item.feed, -3);
    assert_eq!(item.status, ItemStatus::Unread);
}

#[test]
fn normalize_all_keeps_order() {
    let batch = vec![entry(" b ", Some(2)), entry("a", Some(1))];
    let items = normalize_all(&batch, 1, Timestamp::new(0, 0));
    let got: Vec<String> = items.iter().map(|i| i.title.clone()).collect();
    assert_eq!(got, names(&["b", "a"]));
    assert_eq!(normalize_all(&vec![], 1, Timestamp::new(0, 0)), vec![]);
}

#[test]
fn fingerprint_is_the_sha1_of_title_and_link() {
    let item = normalize(
        &RawItem { title: "a".to_string(), author: None, link: Some("b".to_string()), content: None, published_at: None },
        1,
        Timestamp::new(0, 0),
    );
    assert_eq!(item.fingerprint(), "dcea6d9ccd3d20ba1549f6d9b5dde60742158882");
    let linkless = normalize(
        &RawItem { title: "Title".to_string(), author: None, link: None, content: None, published_at: None },
        1,
        Timestamp::new(0, 0),
    );
    assert_eq!(linkless.fingerprint(), "a43cf9d7155ff8f46f760113dab4cf9488d1b3bb");
}

#[test]
fn fingerprint_ignores_white_space_at_the_ends() {
    let plain = RawItem {
        title: "Hello".to_string(),
        author: None,
        link: Some("https://example.org/".to_string()),
        content: None,
        published_at: None,
    };
    let padded = RawItem {
        title: "\n  Hello\t".to_string(),
        author: Some("someone else".to_string()),
        link: Some("  https://example.org/ \n".to_string()),
        content: Some("other content".to_string()),
        published_at: Some(Timestamp::new(77, 0)),
    };
    let a = normalize(&plain, 1, Timestamp::new(10, 0));
    let b = normalize(&padded, 2, Timestamp::new(20, 0));
    assert_eq!(a.fingerprint(), b.fingerprint());
    assert_eq!(a.fingerprint(), "5b969ae73692260d25fcaef4ad616072945be7d4");
}

#[test]
fn fingerprint_is_the_same_each_time() {
    let raw = entry("again", Some(3));
    let first = normalize(&raw, 1, Timestamp::new(1, 0)).fingerprint();
    let second = normalize(&raw, 1, Timestamp::new(2, 0)).fingerprint();
    assert_eq!(first, second);
    assert_eq!(first.len(), 40);
}

#[test]
fn fingerprint_tells_titles_and_links_apart() {
    let a = normalize(&entry("one", None), 1, Timestamp::new(0, 0));
    let b = normalize(&entry("two", None), 1, Timestamp::new(0, 0));
    assert_ne!(a.fingerprint(), b.fingerprint());
    let inner = RawItem { title: "o ne".to_string(), ..entry("one", None) };
    assert_ne!(normalize(&inner, 1, Timestamp::new(0, 0)).fingerprint(), a.fingerprint());
}

fn feed(id: i32, status: FeedStatus, fetch_old_items: bool) -> Feed {
    Feed {
        id,
        title: format!("Feed {}", id),
        link: format!("https://example.org/{}.xml", id),
        status,
        checked_at: Timestamp::new(0, 0),
        fetch_old_items,
    }
}

#[test]
fn only_subscribed_feeds_are_checked() {
    let feeds = vec![
        feed(1, FeedStatus::Subscribed, true),
        feed(2, FeedStatus::Unsubscribed, true),
        feed(3, FeedStatus::Subscribed, false),
    ];
    assert_eq!(
        get_links_to_check(&feeds),
        vec![
            FeedToCheck { id: 1, link: "https://example.org/1.xml".to_string(), fetch_old_items: true },
            FeedToCheck { id: 3, link: "https://example.org/3.xml".to_string(), fetch_old_items: false },
        ]
    );
    assert_eq!(get_links_to_check(&vec![]), vec![]);
    assert_eq!(get_links_to_check(&vec![feed(9, FeedStatus::Unsubscribed, false)]), vec![]);
}
