//! A cycle driven to its end against a model of the world around it.
//!
//! [`run`] plays the caller: it performs each action that the cycle asks
//! for against a world in which the store lists its feeds, every link either
//! leads to a document or fails, and the store takes an item unless it holds
//! one of the same fingerprint. This module proves what such a run comes to,
//! and from that what a second run comes to.

use vstd::prelude::*;

use crate::error::Error;
use crate::models::feeds::FeedModel;
use crate::models::items::ItemToCreateModel;
use crate::producer::{
    all_normalized,
    ascending,
    batch_for,
    lemma_sorted_by_date,
    links_to_check,
    sorted_by_date,
    FeedToCheckModel,
};
use crate::store::{
    distinct_feeds,
    distinct_fingerprints,
    feed_synced,
    feeds_synced,
    lemma_new_items_are_all_taken,
    lemma_offer_all,
    lemma_second_cycle_takes_nothing,
    StoreModel,
};
use crate::sync::{SyncActionModel, SyncCycleModel, SyncEventModel};
use crate::syndication::{feed_items, parsed_feed, RawItemModel};
use crate::time::Timestamp;

verus! {

/// The world around a cycle.
pub struct WorldModel {
    /// The feeds that the store lists.
    pub feeds: Seq<FeedModel>,
    /// What is behind each link. A link that is not here cannot be fetched.
    pub documents: Map<Seq<char>, Seq<char>>,
    /// The items that the store holds.
    pub store: StoreModel,
}

impl WorldModel {
    /// The entries of the feed behind `link`, or nothing where the link
    /// cannot be fetched or leads to no feed.
    pub open spec fn document(self, link: Seq<char>) -> Option<Seq<RawItemModel>> {
        if self.documents.dom().contains(link) {
            match parsed_feed(self.documents[link]) {
                Some(feed) => Some(feed_items(feed)),
                None => None,
            }
        } else {
            None
        }
    }

    /// For each of `feeds`, the entries behind its link.
    pub open spec fn documents_for(self, feeds: Seq<FeedToCheckModel>) -> Seq<
        Option<Seq<RawItemModel>>,
    > {
        Seq::new(feeds.len(), |k: int| self.document(feeds[k].link))
    }

    /// The world after `action` was performed, and what came of it.
    pub open spec fn respond(self, action: SyncActionModel) -> (WorldModel, SyncEventModel) {
        match action {
            SyncActionModel::ListFeeds => (self, SyncEventModel::FeedsListed(self.feeds)),
            SyncActionModel::UpdateFeed(_) => (self, SyncEventModel::FeedUpdated),
            SyncActionModel::ReadItems(request) => (
                self,
                SyncEventModel::ItemsRead(
                    match request.feed {
                        Some(feed) => self.store.most_recent(feed),
                        None => None,
                    },
                ),
            ),
            SyncActionModel::Fetch(link) => if self.documents.dom().contains(link) {
                (self, SyncEventModel::Fetched(self.documents[link]))
            } else {
                (self, SyncEventModel::Failed(Error::Unknown))
            },
            SyncActionModel::CreateItem(item) => if self.store.holds(item.fingerprint()) {
                (self, SyncEventModel::Failed(Error::Unknown))
            } else {
                (WorldModel { store: self.store.offer(item), ..self }, SyncEventModel::ItemCreated)
            },
            SyncActionModel::Finish(_) => (self, SyncEventModel::Start),
            SyncActionModel::Fail(_) => (self, SyncEventModel::Start),
        }
    }
}

/// Where a cycle in the state `cycle`, which has asked for `action`, ends
/// when it is driven against `world` for at most `fuel` actions: the last
/// action and the world then.
pub open spec fn run_from(
    cycle: SyncCycleModel,
    action: SyncActionModel,
    world: WorldModel,
    now: Timestamp,
    fuel: nat,
) -> (SyncActionModel, WorldModel)
    decreases fuel,
{
    if fuel == 0 || action is Finish || action is Fail {
        (action, world)
    } else {
        let (answered, event) = world.respond(action);
        let (after, next) = cycle.next(event, now);
        run_from(after, next, answered, now, (fuel - 1) as nat)
    }
}

/// Where a new cycle ends when it is driven against `world` for at most
/// `fuel` actions.
pub open spec fn run(world: WorldModel, now: Timestamp, fuel: nat) -> (
    SyncActionModel,
    WorldModel,
) {
    let (cycle, action) = SyncCycleModel::idle().next(SyncEventModel::Start, now);
    run_from(cycle, action, world, now, fuel)
}

/// The items of the feed at `p` that go to the store, given the dates
/// `recent` that were looked up.
pub open spec fn batch_here(
    feeds: Seq<FeedToCheckModel>,
    recent: Seq<Option<Timestamp>>,
    world: WorldModel,
    now: Timestamp,
    p: int,
) -> Seq<ItemToCreateModel> {
    match world.document(feeds[p].link) {
        Some(entries) => batch_for(feeds[p], recent[p], entries, now),
        None => Seq::empty(),
    }
}

/// The store after the feeds from `p` on were synchronised in their order,
/// given the dates `recent` that were looked up.
pub open spec fn rest_synced(
    feeds: Seq<FeedToCheckModel>,
    recent: Seq<Option<Timestamp>>,
    world: WorldModel,
    now: Timestamp,
    store: StoreModel,
    p: int,
) -> StoreModel
    decreases feeds.len() - p,
{
    if p < 0 || p >= feeds.len() {
        store
    } else {
        rest_synced(
            feeds,
            recent,
            world,
            now,
            store.offer_all(batch_here(feeds, recent, world, now, p)),
            p + 1,
        )
    }
}

/// The number of actions that it takes to fetch the feeds from `p` on and to
/// offer their items.
pub open spec fn fetch_steps(
    feeds: Seq<FeedToCheckModel>,
    recent: Seq<Option<Timestamp>>,
    world: WorldModel,
    now: Timestamp,
    p: int,
) -> nat
    decreases feeds.len() - p,
{
    if p < 0 || p >= feeds.len() {
        0
    } else {
        1 + batch_here(feeds, recent, world, now, p).len() + fetch_steps(
            feeds,
            recent,
            world,
            now,
            p + 1,
        )
    }
}

/// Synchronising feeds only adds to the store.
proof fn lemma_rest_synced_within(
    feeds: Seq<FeedToCheckModel>,
    recent: Seq<Option<Timestamp>>,
    world: WorldModel,
    now: Timestamp,
    store: StoreModel,
    p: int,
)
    ensures
        store.within(rest_synced(feeds, recent, world, now, store, p)),
    decreases feeds.len() - p,
{
    if 0 <= p < feeds.len() {
        let batch = batch_here(feeds, recent, world, now, p);
        lemma_offer_all(store, batch);
        lemma_rest_synced_within(feeds, recent, world, now, store.offer_all(batch), p + 1);
    }
}

/// What a run comes to from the moment at which the feed at `p` is fetched.
proof fn lemma_run_fetch(
    cycle: SyncCycleModel,
    world: WorldModel,
    p: int,
    now: Timestamp,
    fuel: nat,
)
    requires
        cycle.recent.len() == cycle.feeds.len(),
        0 <= p <= cycle.feeds.len(),
        fuel >= fetch_steps(cycle.feeds, cycle.recent, world, now, p),
    ensures
        ({
            let (after, action) = cycle.fetch_from(p);
            let end = rest_synced(cycle.feeds, cycle.recent, world, now, world.store, p);
            run_from(after, action, world, now, fuel) == (
                SyncActionModel::Finish(
                    cycle.inserted + end.items.skip(world.store.items.len() as int),
                ),
                WorldModel { store: end, ..world },
            )
        }),
    decreases cycle.feeds.len() - p, 2 + batch_here(cycle.feeds, cycle.recent, world, now, p).len(),
{
    let (after, action) = cycle.fetch_from(p);
    if p < cycle.feeds.len() {
        let link = cycle.feeds[p].link;
        // One action further: the world answers, the cycle takes the answer.
        let (answered, event) = world.respond(action);
        let (next_cycle, next_action) = after.next(event, now);
        let batch = batch_here(cycle.feeds, cycle.recent, world, now, p);
        if world.documents.dom().contains(link) {
            let content = world.documents[link];
            let loaded = SyncCycleModel { batch: after.batch_of(content, now), ..after };
            lemma_run_store(loaded, world, world.store, 0, now, (fuel - 1) as nat);
        } else {
            lemma_run_fetch(after, world, p + 1, now, (fuel - 1) as nat);
        }
    }
}

/// What a run comes to from the moment at which the item at `k` of the batch
/// in hand is offered, the items before it having been offered to the store
/// `before`.
proof fn lemma_run_store(
    cycle: SyncCycleModel,
    world: WorldModel,
    before: StoreModel,
    k: int,
    now: Timestamp,
    fuel: nat,
)
    requires
        cycle.recent.len() == cycle.feeds.len(),
        0 <= cycle.position < cycle.feeds.len(),
        0 <= k <= cycle.batch.len(),
        world.store == before.offer_all(cycle.batch.take(k)),
        fuel >= cycle.batch.len() - k + fetch_steps(
            cycle.feeds,
            cycle.recent,
            world,
            now,
            cycle.position + 1,
        ),
    ensures
        ({
            let (after, action) = cycle.store_from(k);
            let end = rest_synced(
                cycle.feeds,
                cycle.recent,
                world,
                now,
                before.offer_all(cycle.batch),
                cycle.position + 1,
            );
            run_from(after, action, world, now, fuel) == (
                SyncActionModel::Finish(
                    cycle.inserted + end.items.skip(world.store.items.len() as int),
                ),
                WorldModel { store: end, ..world },
            )
        }),
    decreases cycle.feeds.len() - cycle.position, 1 + cycle.batch.len() - k,
{
    let (after, action) = cycle.store_from(k);
    let full = before.offer_all(cycle.batch);
    let end = rest_synced(cycle.feeds, cycle.recent, world, now, full, cycle.position + 1);
    if k >= cycle.batch.len() {
        assert(cycle.batch.take(k) == cycle.batch);
        lemma_run_fetch(cycle, world, cycle.position + 1, now, fuel);
    } else {
        let item = cycle.batch[k];
        // One action further: the world answers, the cycle takes the answer.
        let (answered, event) = world.respond(action);
        let (next_cycle, next_action) = after.next(event, now);
        assert(cycle.batch.take(k + 1).drop_last() == cycle.batch.take(k));
        assert(fetch_steps(cycle.feeds, cycle.recent, answered, now, cycle.position + 1)
            == fetch_steps(cycle.feeds, cycle.recent, world, now, cycle.position + 1)) by {
            lemma_steps_ignore_store(cycle.feeds, cycle.recent, world, answered, now, cycle.position + 1);
        }
        assert(rest_synced(cycle.feeds, cycle.recent, answered, now, full, cycle.position + 1)
            == end) by {
            lemma_rest_ignores_store(cycle.feeds, cycle.recent, world, answered, now, full, cycle.position + 1);
        }
        if world.store.holds(item.fingerprint()) {
            lemma_run_store(after, world, before, k + 1, now, (fuel - 1) as nat);
        } else {
            let taken = SyncCycleModel { inserted: after.inserted.push(item), ..after };
            lemma_run_store(taken, answered, before, k + 1, now, (fuel - 1) as nat);
            let n = world.store.items.len() as int;
            assert(answered.store.within(end)) by {
                lemma_offer_all(answered.store, cycle.batch.skip(k + 1));
                lemma_offer_all_split(before, cycle.batch, k + 1);
                lemma_rest_synced_within(
                    cycle.feeds,
                    cycle.recent,
                    world,
                    now,
                    full,
                    cycle.position + 1,
                );
            }
            assert(end.items[n] == item);
        }
    }
}

/// Offering a batch is offering its front and then its rest.
proof fn lemma_offer_all_split(store: StoreModel, batch: Seq<ItemToCreateModel>, k: int)
    requires
        0 <= k <= batch.len(),
    ensures
        store.offer_all(batch) == store.offer_all(batch.take(k)).offer_all(batch.skip(k)),
    decreases batch.len(),
{
    if k == batch.len() {
        assert(batch.take(k) == batch);
    } else {
        let rest = batch.skip(k);
        let front = batch.drop_last();
        assert(rest.drop_last() == front.skip(k));
        assert(front.take(k) == batch.take(k));
        lemma_offer_all_split(store, front, k);
    }
}

/// The number of actions does not depend on what the store holds.
proof fn lemma_steps_ignore_store(
    feeds: Seq<FeedToCheckModel>,
    recent: Seq<Option<Timestamp>>,
    world: WorldModel,
    other: WorldModel,
    now: Timestamp,
    p: int,
)
    requires
        other.documents == world.documents,
    ensures
        fetch_steps(feeds, recent, other, now, p) == fetch_steps(feeds, recent, world, now, p),
    decreases feeds.len() - p,
{
    if 0 <= p < feeds.len() {
        lemma_steps_ignore_store(feeds, recent, world, other, now, p + 1);
    }
}

/// What the feeds bring does not depend on what the world's store holds,
/// only on the store that they are offered to.
proof fn lemma_rest_ignores_store(
    feeds: Seq<FeedToCheckModel>,
    recent: Seq<Option<Timestamp>>,
    world: WorldModel,
    other: WorldModel,
    now: Timestamp,
    store: StoreModel,
    p: int,
)
    requires
        other.documents == world.documents,
    ensures
        rest_synced(feeds, recent, other, now, store, p) == rest_synced(
            feeds,
            recent,
            world,
            now,
            store,
            p,
        ),
    decreases feeds.len() - p,
{
    if 0 <= p < feeds.len() {
        lemma_rest_ignores_store(
            feeds,
            recent,
            world,
            other,
            now,
            store.offer_all(batch_here(feeds, recent, world, now, p)),
            p + 1,
        );
    }
}

/// The dates that were looked up once the feeds from `p` on are through:
/// for each of them that skips its backlog, the date of its newest stored
/// item; the others as in `recent`.
pub open spec fn looked(
    feeds: Seq<FeedToCheckModel>,
    recent: Seq<Option<Timestamp>>,
    store: StoreModel,
    p: int,
) -> Seq<Option<Timestamp>>
    decreases feeds.len() - p,
{
    if p < 0 || p >= feeds.len() {
        recent
    } else if !feeds[p].fetch_old_items {
        looked(feeds, recent.update(p, store.most_recent(feeds[p].id)), store, p + 1)
    } else {
        looked(feeds, recent, store, p + 1)
    }
}

/// The number of feeds from `p` on that skip their backlog.
pub open spec fn look_steps(feeds: Seq<FeedToCheckModel>, p: int) -> nat
    decreases feeds.len() - p,
{
    if p < 0 || p >= feeds.len() {
        0
    } else if !feeds[p].fetch_old_items {
        1 + look_steps(feeds, p + 1)
    } else {
        look_steps(feeds, p + 1)
    }
}

/// What [`looked`] holds at each place.
proof fn lemma_looked(
    feeds: Seq<FeedToCheckModel>,
    recent: Seq<Option<Timestamp>>,
    store: StoreModel,
    p: int,
)
    requires
        recent.len() == feeds.len(),
        0 <= p,
    ensures
        looked(feeds, recent, store, p).len() == feeds.len(),
        forall|k: int|
            0 <= k < feeds.len() ==> #[trigger] looked(feeds, recent, store, p)[k] == if k >= p
                && !feeds[k].fetch_old_items {
                store.most_recent(feeds[k].id)
            } else {
                recent[k]
            },
    decreases feeds.len() - p,
{
    if p < feeds.len() {
        if !feeds[p].fetch_old_items {
            lemma_looked(feeds, recent.update(p, store.most_recent(feeds[p].id)), store, p + 1);
        } else {
            lemma_looked(feeds, recent, store, p + 1);
        }
    }
}

/// What a run comes to from the moment at which the newest stored items of
/// the feeds from `p` on are looked up.
proof fn lemma_run_look(cycle: SyncCycleModel, world: WorldModel, p: int, now: Timestamp, fuel: nat)
    requires
        cycle.recent.len() == cycle.feeds.len(),
        0 <= p <= cycle.feeds.len(),
        fuel >= look_steps(cycle.feeds, p) + fetch_steps(
            cycle.feeds,
            looked(cycle.feeds, cycle.recent, world.store, p),
            world,
            now,
            0,
        ),
    ensures
        ({
            let (after, action) = cycle.look_from(p);
            let end = rest_synced(
                cycle.feeds,
                looked(cycle.feeds, cycle.recent, world.store, p),
                world,
                now,
                world.store,
                0,
            );
            run_from(after, action, world, now, fuel) == (
                SyncActionModel::Finish(
                    cycle.inserted + end.items.skip(world.store.items.len() as int),
                ),
                WorldModel { store: end, ..world },
            )
        }),
    decreases cycle.feeds.len() - p,
{
    if p >= cycle.feeds.len() {
        lemma_run_fetch(cycle, world, 0, now, fuel);
    } else if cycle.feeds[p].fetch_old_items {
        lemma_run_look(cycle, world, p + 1, now, fuel);
    } else {
        let (after, action) = cycle.look_from(p);
        let (answered, event) = world.respond(action);
        let (next_cycle, next_action) = after.next(event, now);
        let noted = SyncCycleModel {
            recent: cycle.recent.update(p, world.store.most_recent(cycle.feeds[p].id)),
            ..after
        };
        lemma_run_look(noted, world, p + 1, now, (fuel - 1) as nat);
    }
}

/// What a run comes to from the moment at which the feeds from `p` on are
/// marked as checked.
proof fn lemma_run_stamp(cycle: SyncCycleModel, world: WorldModel, p: int, now: Timestamp, fuel: nat)
    requires
        cycle.recent.len() == cycle.feeds.len(),
        0 <= p <= cycle.feeds.len(),
        fuel >= cycle.feeds.len() - p + look_steps(cycle.feeds, 0) + fetch_steps(
            cycle.feeds,
            looked(cycle.feeds, cycle.recent, world.store, 0),
            world,
            now,
            0,
        ),
    ensures
        ({
            let (after, action) = cycle.stamp_from(p, now);
            let end = rest_synced(
                cycle.feeds,
                looked(cycle.feeds, cycle.recent, world.store, 0),
                world,
                now,
                world.store,
                0,
            );
            run_from(after, action, world, now, fuel) == (
                SyncActionModel::Finish(
                    cycle.inserted + end.items.skip(world.store.items.len() as int),
                ),
                WorldModel { store: end, ..world },
            )
        }),
    decreases cycle.feeds.len() - p,
{
    if p >= cycle.feeds.len() {
        lemma_run_look(cycle, world, 0, now, fuel);
    } else {
        let (after, action) = cycle.stamp_from(p, now);
        let (answered, event) = world.respond(action);
        let (next_cycle, next_action) = after.next(event, now);
        lemma_run_stamp(after, world, p + 1, now, (fuel - 1) as nat);
    }
}

/// Synchronising the feeds from `p` on, after those before `p`, comes to
/// synchronising all of them, where the dates that were looked up are those
/// of the store at the start.
proof fn lemma_rest_is_feeds_synced(
    feeds: Seq<FeedToCheckModel>,
    recent: Seq<Option<Timestamp>>,
    world: WorldModel,
    now: Timestamp,
    start: StoreModel,
    p: int,
)
    requires
        recent.len() == feeds.len(),
        0 <= p <= feeds.len(),
        forall|k: int|
            0 <= k < feeds.len() && !feeds[k].fetch_old_items ==> #[trigger] recent[k]
                == start.most_recent(feeds[k].id),
    ensures
        rest_synced(
            feeds,
            recent,
            world,
            now,
            feeds_synced(
                start,
                feeds.take(p),
                world.documents_for(feeds).take(p),
                now,
            ),
            p,
        ) == feeds_synced(start, feeds, world.documents_for(feeds), now),
    decreases feeds.len() - p,
{
    let documents = world.documents_for(feeds);
    if p == feeds.len() {
        assert(feeds.take(p) == feeds);
        assert(documents.take(p) == documents);
    } else {
        assert(feeds.take(p + 1).drop_last() == feeds.take(p));
        assert(documents.take(p + 1).drop_last() == documents.take(p));
        lemma_rest_is_feeds_synced(feeds, recent, world, now, start, p + 1);
    }
}

/// The number of actions that a cycle asks for in `world`.
pub open spec fn run_steps(world: WorldModel, now: Timestamp) -> nat {
    let checked = links_to_check(world.feeds);
    let recent = looked(
        checked,
        Seq::new(checked.len(), |i: int| None::<Timestamp>),
        world.store,
        0,
    );
    1 + checked.len() + look_steps(checked, 0) + fetch_steps(checked, recent, world, now, 0)
}

/// A cycle that is driven to its end synchronises the subscribed feeds in
/// their order, each with the document behind its link, and reports the
/// items that the store took, in the order in which it took them. A feed
/// whose link cannot be fetched or leads to no feed adds nothing and keeps
/// no other feed from being synchronised.
pub proof fn lemma_run_synchronises(world: WorldModel, now: Timestamp, fuel: nat)
    requires
        fuel >= run_steps(world, now),
    ensures
        ({
            let checked = links_to_check(world.feeds);
            let end = feeds_synced(world.store, checked, world.documents_for(checked), now);
            run(world, now, fuel) == (
                SyncActionModel::Finish(end.items.skip(world.store.items.len() as int)),
                WorldModel { store: end, ..world },
            )
        }),
{
    let checked = links_to_check(world.feeds);
    let nothing = Seq::new(checked.len(), |i: int| None::<Timestamp>);
    let (begun, first) = SyncCycleModel::idle().next(SyncEventModel::Start, now);
    let (answered, event) = world.respond(first);
    let (next_cycle, next_action) = begun.next(event, now);
    let listed = SyncCycleModel { feeds: checked, recent: nothing, ..begun };
    lemma_run_stamp(listed, world, 0, now, (fuel - 1) as nat);
    let recent = looked(checked, nothing, world.store, 0);
    lemma_looked(checked, nothing, world.store, 0);
    lemma_rest_is_feeds_synced(checked, recent, world, now, world.store, 0);
}

/// A cycle that is driven to its end a second time, with the same feeds
/// behind the same links, takes nothing in: it reports no item, and leaves
/// the store as the first cycle left it.
pub proof fn lemma_second_run_takes_nothing(
    world: WorldModel,
    now1: Timestamp,
    now2: Timestamp,
    fuel1: nat,
    fuel2: nat,
)
    requires
        distinct_feeds(links_to_check(world.feeds)),
        fuel1 >= run_steps(world, now1),
        fuel2 >= run_steps(run(world, now1, fuel1).1, now2),
    ensures
        run(run(world, now1, fuel1).1, now2, fuel2) == (
            SyncActionModel::Finish(Seq::empty()),
            run(world, now1, fuel1).1,
        ),
{
    let checked = links_to_check(world.feeds);
    let documents = world.documents_for(checked);
    let after = run(world, now1, fuel1).1;
    lemma_run_synchronises(world, now1, fuel1);
    lemma_run_synchronises(after, now2, fuel2);
    assert(after.documents_for(checked) =~= documents);
    lemma_second_cycle_takes_nothing(world.store, checked, documents, now1, now2);
}

/// The first cycle of a feed that includes its backlog, against an empty
/// store: where no two entries of the document come to the same fingerprint,
/// every entry is taken in, and the items are stored and reported in
/// ascending order of publication, whatever their order in the document.
pub proof fn lemma_first_run_takes_all_in_order(
    world: WorldModel,
    feed: FeedToCheckModel,
    entries: Seq<RawItemModel>,
    now: Timestamp,
    fuel: nat,
)
    requires
        world.store.items.len() == 0,
        links_to_check(world.feeds) == seq![feed],
        feed.fetch_old_items,
        world.document(feed.link) == Some(entries),
        distinct_fingerprints(all_normalized(sorted_by_date(entries), feed.id, now)),
        fuel >= run_steps(world, now),
    ensures
        ({
            let items = all_normalized(sorted_by_date(entries), feed.id, now);
            &&& run(world, now, fuel) == (
                SyncActionModel::Finish(items),
                WorldModel { store: StoreModel { items }, ..world },
            )
            &&& items.len() == entries.len()
            &&& ascending(sorted_by_date(entries))
        }),
{
    let checked = links_to_check(world.feeds);
    let documents = world.documents_for(checked);
    let items = all_normalized(sorted_by_date(entries), feed.id, now);
    lemma_run_synchronises(world, now, fuel);
    lemma_sorted_by_date(entries);
    assert(checked.drop_last() =~= Seq::<FeedToCheckModel>::empty());
    assert(documents.drop_last() =~= Seq::<Option<Seq<RawItemModel>>>::empty());
    assert(documents.last() == Some(entries));
    assert(batch_for(feed, world.store.most_recent(feed.id), entries, now) == items);
    lemma_new_items_are_all_taken(world.store, items);
    let end = feeds_synced(world.store, checked, documents, now);
    assert(checked.len() == 1 && checked.last() == feed);
    assert(feeds_synced(world.store, checked.drop_last(), documents.drop_last(), now)
        == world.store);
    assert(end == world.store.offer_all(items));
    assert(end.items =~= items);
    assert(end.items.skip(world.store.items.len() as int) =~= items);
}

} // verus!
