use chrono::DateTime;
use collie::error::Error;
use collie::models::feeds::{Feed, FeedStatus, FeedToUpdate};
use collie::models::items::{Item, ItemFeed, ItemOrder, ItemReadOption, ItemStatus, ItemToCreate};
use collie::sync::{SyncAction, SyncCycle, SyncEvent, SyncStage};
use collie::time::Timestamp;

struct World {
    feeds: Vec<Feed>,
    documents: Vec<(String, Option<String>)>,
    items: Vec<ItemToCreate>,
    log: Vec<String>,
    listing_fails: bool,
    lookup_fails: bool,
    stamping_fails: bool,
}

fn world(feeds: Vec<Feed>, documents: Vec<(String, Option<String>)>) -> World {
    World {
        feeds,
        documents,
        items: vec![],
        log: vec![],
        listing_fails: false,
        lookup_fails: false,
        stamping_fails: false,
    }
}

fn feed(id: i32, status: FeedStatus, fetch_old_items: bool) -> Feed {
    Feed {
        id,
        title: format!("Feed {}", id),
        link: link_of(id),
        status,
        checked_at: Timestamp::new(0, 0),
        fetch_old_items,
    }
}

fn link_of(id: i32) -> String {
    format!("https://example.org/{}.xml", id)
}

fn rss(entries: &[(&str, Option<i64>)]) -> String {
    let mut doc = String::from("<?xml version=\"1.0\"?><rss version=\"2.0\"><channel><title>T</title><link>https://example.org/</link><description>D</description>");
    for (title, published) in entries {
        doc.push_str(&format!("<item><title>{}</title><link>https://example.org/{}</link>", title, title));
        if let Some(secs) = published {
            let date = DateTime::from_timestamp(*secs, 0).unwrap().to_rfc2822();
            doc.push_str(&format!("<pubDate>{}</pubDate>", date));
        }
        doc.push_str("</item>");
    }
    doc.push_str("</channel></rss>");
    doc
}

fn stored(world: &World, id: i32, item: &ItemToCreate) -> Item {
    Item {
        id,
        fingerprint: item.fingerprint(),
        author: item.author.clone(),
        title: item.title.clone(),
        description: item.description.clone(),
        link: item.link.clone(),
        status: item.status,
        is_saved: false,
        published_at: item.published_at,
        feed: ItemFeed {
            id: item.feed,
            title: world.feeds.iter().find(|f| f.id == item.feed).map(|f| f.title.clone()).unwrap_or_default(),
            link: link_of(item.feed),
        },
    }
}

fn read_items(world: &World, request: &ItemReadOption) -> Vec<Item> {
    let mut found: Vec<Item> = world
        .items
        .iter()
        .enumerate()
        .filter(|(_, item)| request.feed.map_or(true, |feed| item.feed == feed))
        .map(|(at, item)| stored(world, at as i32 + 1, item))
        .collect();
    if request.order_by == Some(ItemOrder::PublishedDateDesc) {
        found.sort_by_key(|item| std::cmp::Reverse((item.published_at.secs, item.published_at.nanos)));
    }
    if let Some(limit) = request.limit {
        found.truncate(limit as usize);
    }
    found
}

fn answer(world: &mut World, action: SyncAction) -> Result<SyncEvent, Result<Vec<ItemToCreate>, Error>> {
    match action {
        SyncAction::ListFeeds => {
            world.log.push("list".to_string());
            if world.listing_fails {
                Ok(SyncEvent::Failed(Error::RusqliteError("no such table: feeds".to_string())))
            } else {
                Ok(SyncEvent::FeedsListed(world.feeds.clone()))
            }
        }
        SyncAction::UpdateFeed(change) => {
            world.log.push(format!("stamp {} at {}", change.id, change.checked_at.unwrap().secs));
            assert_eq!(
                change,
                FeedToUpdate { id: change.id, title: None, link: None, status: None, checked_at: change.checked_at, fetch_old_items: None }
            );
            if world.stamping_fails {
                Ok(SyncEvent::Failed(Error::RusqliteError("database is locked".to_string())))
            } else {
                Ok(SyncEvent::FeedUpdated)
            }
        }
        SyncAction::ReadItems(request) => {
            world.log.push(format!("look {}", request.feed.unwrap()));
            assert_eq!(request, ItemReadOption::most_recent_of(request.feed.unwrap()));
            if world.lookup_fails {
                Ok(SyncEvent::Failed(Error::RusqliteError("disk I/O error".to_string())))
            } else {
                Ok(SyncEvent::ItemsRead(read_items(world, &request)))
            }
        }
        SyncAction::Fetch(link) => {
            world.log.push(format!("fetch {}", link));
            match world.documents.iter().find(|(l, _)| *l == link) {
                Some((_, Some(content))) => Ok(SyncEvent::Fetched(content.clone())),
                _ => Ok(SyncEvent::Failed(Error::ReqwestError("connection refused".to_string()))),
            }
        }
        SyncAction::CreateItem(item) => {
            let fingerprint = item.fingerprint();
            if world.items.iter().any(|held| held.fingerprint() == fingerprint) {
                world.log.push(format!("refuse {}", item.title));
                Ok(SyncEvent::Failed(Error::RusqliteError("UNIQUE constraint failed: items.fingerprint".to_string())))
            } else {
                world.log.push(format!("create {}", item.title));
                world.items.push(item);
                Ok(SyncEvent::ItemCreated)
            }
        }
        SyncAction::Finish(inserted) => Err(Ok(inserted)),
        SyncAction::Fail(error) => Err(Err(error)),
    }
}

fn run(world: &mut World, now: i64) -> Result<Vec<ItemToCreate>, Error> {
    world.log.clear();
    let mut cycle = SyncCycle::new();
    let mut event = SyncEvent::Start;
    for _ in 0..10_000 {
        let (next, action) = cycle.step(event, Timestamp::new(now, 0));
        cycle = next;
        match answer(world, action) {
            Ok(e) => event = e,
            Err(outcome) => {
                assert_eq!(cycle.stage(), SyncStage::Done);
                return outcome;
            }
        }
    }
    panic!("the cycle does not end");
}

fn titles(items: &[ItemToCreate]) -> Vec<String> {
    items.iter().map(|i| i.title.clone()).collect()
}

fn names(expected: &[&str]) -> Vec<String> {
    expected.iter().map(|t| t.to_string()).collect()
}

#[test]
fn first_sync_with_backlog_inserts_all_in_order_of_date() {
    let mut w = world(
        vec![feed(1, FeedStatus::Subscribed, true)],
        vec![(link_of(1), Some(rss(&[("t2", Some(200)), ("t3", Some(300)), ("t1", Some(100))])))],
    );
    let inserted = run(&mut w, 1_000).unwrap();
    assert_eq!(titles(&inserted), names(&["t1", "t2", "t3"]));
    assert_eq!(titles(&w.items), names(&["t1", "t2", "t3"]));
    let mut fingerprints: Vec<String> = inserted.iter().map(|i| i.fingerprint()).collect();
    fingerprints.sort();
    fingerprints.dedup();
    assert_eq!(fingerprints.len(), 3);
    for (item, secs) in inserted.iter().zip([100, 200, 300]) {
        assert_eq!(item.published_at, Timestamp::new(secs, 0));
        assert_eq!(item.feed, 1);
        assert_eq!(item.status, ItemStatus::Unread);
    }
    assert_eq!(
        w.log,
        names(&["list", "stamp 1 at 1000", "fetch https://example.org/1.xml", "create t1", "create t2", "create t3"])
    );
}

#[test]
fn second_cycle_without_new_entries_inserts_nothing() {
    for fetch_old_items in [true, false] {
        let mut w = world(
            vec![feed(1, FeedStatus::Subscribed, fetch_old_items), feed(2, FeedStatus::Subscribed, !fetch_old_items)],
            vec![
                (link_of(1), Some(rss(&[("a", Some(10)), ("b", Some(30)), ("c", Some(20))]))),
                (link_of(2), Some(rss(&[("d", None), ("e", Some(5)), ("f", Some(5))]))),
            ],
        );
        let first = run(&mut w, 1_000).unwrap();
        assert!(!first.is_empty());
        let held = w.items.clone();
        let second = run(&mut w, 2_000).unwrap();
        assert_eq!(second, vec![]);
        assert_eq!(w.items, held);
        let third = run(&mut w, 3_000).unwrap();
        assert_eq!(third, vec![]);
    }
}

#[test]
fn second_cycle_of_undated_entries_inserts_nothing() {
    let mut w = world(
        vec![feed(1, FeedStatus::Subscribed, false)],
        vec![(link_of(1), Some(rss(&[("x", None), ("y", None)])))],
    );
    let first = run(&mut w, 1_000).unwrap();
    assert_eq!(titles(&first), names(&["y"]));
    assert_eq!(first[0].published_at, Timestamp::new(1_000, 0));
    assert_eq!(run(&mut w, 2_000).unwrap(), vec![]);
}

#[test]
fn backlog_skip_bootstraps_with_the_latest_entry() {
    let mut w = world(
        vec![feed(4, FeedStatus::Subscribed, false)],
        vec![(link_of(4), Some(rss(&[("old", Some(10)), ("new", Some(30)), ("mid", Some(20)), ("older", Some(5))])))],
    );
    let inserted = run(&mut w, 1_000).unwrap();
    assert_eq!(titles(&inserted), names(&["new"]));
    assert_eq!(w.log, names(&["list", "stamp 4 at 1000", "look 4", "fetch https://example.org/4.xml", "create new"]));
}

#[test]
fn backlog_skip_takes_what_is_newer_than_the_newest_stored() {
    let mut w = world(
        vec![feed(4, FeedStatus::Subscribed, false)],
        vec![(link_of(4), Some(rss(&[("stored", Some(20))])))],
    );
    assert_eq!(titles(&run(&mut w, 1_000).unwrap()), names(&["stored"]));
    w.documents = vec![(
        link_of(4),
        Some(rss(&[("later2", Some(40)), ("before", Some(10)), ("stored", Some(20)), ("undated", None), ("later1", Some(21))])),
    )];
    let inserted = run(&mut w, 2_000).unwrap();
    assert_eq!(titles(&inserted), names(&["later1", "later2"]));
    assert_eq!(run(&mut w, 3_000).unwrap(), vec![]);
}

#[test]
fn a_failing_feed_does_not_stop_the_others() {
    let mut w = world(
        vec![feed(1, FeedStatus::Subscribed, true), feed(2, FeedStatus::Subscribed, true)],
        vec![(link_of(1), None), (link_of(2), Some(rss(&[("b1", Some(1)), ("b2", Some(2))])))],
    );
    let inserted = run(&mut w, 1_000).unwrap();
    assert_eq!(titles(&inserted), names(&["b1", "b2"]));
    assert!(inserted.iter().all(|i| i.feed == 2));
    assert!(w.log.contains(&"fetch https://example.org/1.xml".to_string()));
}

#[test]
fn a_document_that_is_no_feed_does_not_stop_the_others() {
    let mut w = world(
        vec![feed(1, FeedStatus::Subscribed, true), feed(2, FeedStatus::Subscribed, true), feed(3, FeedStatus::Subscribed, false)],
        vec![
            (link_of(1), Some(rss(&[("a", Some(1))]))),
            (link_of(2), Some("<html><body>404</body></html>".to_string())),
            (link_of(3), Some(rss(&[("c", Some(3))]))),
        ],
    );
    assert_eq!(titles(&run(&mut w, 1_000).unwrap()), names(&["a", "c"]));
}

#[test]
fn a_failing_last_feed_still_reports_the_others() {
    let mut w = world(
        vec![feed(1, FeedStatus::Subscribed, true), feed(2, FeedStatus::Subscribed, true)],
        vec![(link_of(1), Some(rss(&[("a", Some(1))]))), (link_of(2), None)],
    );
    assert_eq!(titles(&run(&mut w, 1_000).unwrap()), names(&["a"]));
}

#[test]
fn unsubscribed_feeds_are_left_alone() {
    let mut w = world(
        vec![feed(1, FeedStatus::Unsubscribed, true), feed(2, FeedStatus::Subscribed, true)],
        vec![(link_of(1), Some(rss(&[("a", Some(1))]))), (link_of(2), Some(rss(&[("b", Some(1))])))],
    );
    assert_eq!(titles(&run(&mut w, 50).unwrap()), names(&["b"]));
    assert_eq!(w.log, names(&["list", "stamp 2 at 50", "fetch https://example.org/2.xml", "create b"]));
}

#[test]
fn every_feed_is_stamped_before_anything_is_fetched() {
    let mut w = world(
        vec![feed(1, FeedStatus::Subscribed, false), feed(2, FeedStatus::Subscribed, true), feed(3, FeedStatus::Subscribed, false)],
        vec![(link_of(1), None), (link_of(2), None), (link_of(3), None)],
    );
    assert_eq!(run(&mut w, 7).unwrap(), vec![]);
    assert_eq!(
        w.log,
        names(&[
            "list",
            "stamp 1 at 7",
            "stamp 2 at 7",
            "stamp 3 at 7",
            "look 1",
            "look 3",
            "fetch https://example.org/1.xml",
            "fetch https://example.org/2.xml",
            "fetch https://example.org/3.xml",
        ])
    );
}

#[test]
fn a_stamp_that_fails_is_ignored() {
    let mut w = world(
        vec![feed(1, FeedStatus::Subscribed, true)],
        vec![(link_of(1), Some(rss(&[("a", Some(1))])))],
    );
    w.stamping_fails = true;
    assert_eq!(titles(&run(&mut w, 1).unwrap()), names(&["a"]));
}

#[test]
fn a_store_that_cannot_list_feeds_fails_the_cycle() {
    let mut w = world(vec![feed(1, FeedStatus::Subscribed, true)], vec![]);
    w.listing_fails = true;
    assert_eq!(run(&mut w, 1), Err(Error::RusqliteError("no such table: feeds".to_string())));
    assert_eq!(w.log, names(&["list"]));
}

#[test]
fn a_store_that_cannot_look_up_items_fails_the_cycle() {
    let mut w = world(
        vec![feed(1, FeedStatus::Subscribed, false)],
        vec![(link_of(1), Some(rss(&[("a", Some(1))])))],
    );
    w.lookup_fails = true;
    assert_eq!(run(&mut w, 1), Err(Error::RusqliteError("disk I/O error".to_string())));
    assert_eq!(w.log, names(&["list", "stamp 1 at 1", "look 1"]));
    assert_eq!(w.items, vec![]);
}

#[test]
fn an_item_that_the_store_refuses_is_passed_over() {
    let mut w = world(
        vec![feed(1, FeedStatus::Subscribed, true), feed(2, FeedStatus::Subscribed, true)],
        vec![
            (link_of(1), Some(rss(&[("same", Some(1)), ("one", Some(2))]))),
            (link_of(2), Some(rss(&[("same", Some(3)), ("two", Some(4))]))),
        ],
    );
    let inserted = run(&mut w, 1).unwrap();
    assert_eq!(titles(&inserted), names(&["same", "one", "two"]));
    assert_eq!(inserted.iter().map(|i| i.feed).collect::<Vec<i32>>(), vec![1, 1, 2]);
    assert!(w.log.contains(&"refuse same".to_string()));
}

#[test]
fn no_feeds_no_items() {
    let mut w = world(vec![], vec![]);
    assert_eq!(run(&mut w, 1), Ok(vec![]));
    assert_eq!(w.log, names(&["list"]));
}

#[test]
fn an_event_out_of_turn_ends_the_cycle() {
    let (cycle, action) = SyncCycle::new().step(SyncEvent::ItemCreated, Timestamp::new(0, 0));
    assert_eq!(action, SyncAction::Fail(Error::Unknown));
    assert_eq!(cycle.stage(), SyncStage::Done);
    let (cycle, action) = cycle.step(SyncEvent::Start, Timestamp::new(0, 0));
    assert_eq!(action, SyncAction::Fail(Error::Unknown));
    assert_eq!(cycle.stage(), SyncStage::Done);

    let (cycle, action) = SyncCycle::new().step(SyncEvent::Start, Timestamp::new(0, 0));
    assert_eq!(action, SyncAction::ListFeeds);
    assert_eq!(cycle.stage(), SyncStage::Listing);
    let (_, action) = cycle.step(SyncEvent::Fetched(String::new()), Timestamp::new(0, 0));
    assert_eq!(action, SyncAction::Fail(Error::Unknown));
}

#[test]
fn a_new_cycle_is_idle() {
    assert_eq!(SyncCycle::new().stage(), SyncStage::Idle);
}
