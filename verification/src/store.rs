//! The store as a cycle sees it, and what follows for a cycle that is run
//! twice.
//!
//! The store itself is the caller's. What a cycle relies on is little: the
//! store takes an item unless it holds one of the same fingerprint, and it
//! can name the newest item of a feed. This module states that much as a
//! model and proves, over the model, that a second cycle over the same
//! documents takes nothing in.

use vstd::prelude::*;

use crate::models::items::ItemToCreateModel;
use crate::producer::{
    accepted,
    batch_for,
    is_newer,
    latest_index,
    lemma_backlog_skip_takes_the_strictly_newer,
    lemma_latest_index,
    normalized,
    FeedToCheckModel,
    SyncMode,
};
use crate::syndication::RawItemModel;
use crate::time::{published_at_most, Timestamp};

verus! {

/// The items that the store took, in the order in which it took them.
pub struct StoreModel {
    pub items: Seq<ItemToCreateModel>,
}

impl StoreModel {
    /// The store holds an item of this fingerprint.
    pub open spec fn holds(self, fingerprint: Seq<char>) -> bool {
        exists|i: int| 0 <= i < self.items.len() && #[trigger] self.items[i].fingerprint() == fingerprint
    }

    /// The date of the most recently published item that the store holds of
    /// `feed`, or nothing where it holds no item of that feed.
    pub open spec fn most_recent(self, feed: i32) -> Option<Timestamp>
        decreases self.items.len(),
    {
        if self.items.len() == 0 {
            None
        } else {
            let earlier = (StoreModel { items: self.items.drop_last() }).most_recent(feed);
            let last = self.items.last();
            if last.feed == feed && published_at_most(earlier, Some(last.published_at)) {
                Some(last.published_at)
            } else {
                earlier
            }
        }
    }

    /// The store after `item` was offered to it: it takes the item unless it
    /// holds one of the same fingerprint.
    pub open spec fn offer(self, item: ItemToCreateModel) -> StoreModel {
        if self.holds(item.fingerprint()) {
            self
        } else {
            StoreModel { items: self.items.push(item) }
        }
    }

    /// The store after the items of `batch` were offered to it in their
    /// order.
    pub open spec fn offer_all(self, batch: Seq<ItemToCreateModel>) -> StoreModel
        decreases batch.len(),
    {
        if batch.len() == 0 {
            self
        } else {
            self.offer_all(batch.drop_last()).offer(batch.last())
        }
    }

    /// Everything that `self` holds, `later` holds too, in the same places.
    pub open spec fn within(self, later: StoreModel) -> bool {
        self.items.is_prefix_of(later.items)
    }
}

/// The store after `feed` was synchronised: its batch was offered, or
/// nothing happened where there was no document.
pub open spec fn feed_synced(
    store: StoreModel,
    recent: Option<Timestamp>,
    feed: FeedToCheckModel,
    document: Option<Seq<RawItemModel>>,
    now: Timestamp,
) -> StoreModel {
    match document {
        Some(entries) => store.offer_all(batch_for(feed, recent, entries, now)),
        None => store,
    }
}

/// The store after the feeds `feeds` were synchronised in their order, each
/// with its document of `documents`, in a cycle that began with the store
/// `start`: the newest stored item of each feed is looked up in `start`,
/// before anything is fetched.
pub open spec fn feeds_synced(
    start: StoreModel,
    feeds: Seq<FeedToCheckModel>,
    documents: Seq<Option<Seq<RawItemModel>>>,
    now: Timestamp,
) -> StoreModel
    decreases feeds.len(),
{
    if feeds.len() == 0 {
        start
    } else {
        let feed = feeds.last();
        feed_synced(
            feeds_synced(start, feeds.drop_last(), documents.drop_last(), now),
            start.most_recent(feed.id),
            feed,
            documents.last(),
            now,
        )
    }
}

/// No two of `feeds` have the same identity.
pub open spec fn distinct_feeds(feeds: Seq<FeedToCheckModel>) -> bool {
    forall|i: int, j: int|
        0 <= i < j < feeds.len() ==> #[trigger] feeds[i].id != #[trigger] feeds[j].id
}

proof fn lemma_holds_later(store: StoreModel, later: StoreModel, fingerprint: Seq<char>)
    requires
        store.within(later),
        store.holds(fingerprint),
    ensures
        later.holds(fingerprint),
{
}

/// What offering a batch does: the store keeps what it held; it then holds
/// the fingerprint of every item of the batch; and whatever it holds then,
/// it held before or is an item of the batch.
pub proof fn lemma_offer_all(store: StoreModel, batch: Seq<ItemToCreateModel>)
    ensures
        store.within(store.offer_all(batch)),
        forall|k: int|
            0 <= k < batch.len() ==> store.offer_all(batch).holds(
                #[trigger] batch[k].fingerprint(),
            ),
        forall|i: int|
            store.items.len() <= i < store.offer_all(batch).items.len() ==> batch.contains(
                #[trigger] store.offer_all(batch).items[i],
            ),
    decreases batch.len(),
{
    if batch.len() > 0 {
        let front = batch.drop_last();
        let middle = store.offer_all(front);
        let after = store.offer_all(batch);
        lemma_offer_all(store, front);
        assert forall|k: int| 0 <= k < batch.len() implies after.holds(
            #[trigger] batch[k].fingerprint(),
        ) by {
            if k < batch.len() - 1 {
                assert(front[k] == batch[k]);
                lemma_holds_later(middle, after, batch[k].fingerprint());
            } else if !middle.holds(batch.last().fingerprint()) {
                assert(after.items[middle.items.len() as int] == batch.last());
            }
        }
    }
}

/// A store that holds the fingerprint of every item of a batch takes none
/// of them.
proof fn lemma_offer_all_held(store: StoreModel, batch: Seq<ItemToCreateModel>)
    requires
        forall|k: int| 0 <= k < batch.len() ==> store.holds(#[trigger] batch[k].fingerprint()),
    ensures
        store.offer_all(batch) == store,
    decreases batch.len(),
{
    if batch.len() > 0 {
        let front = batch.drop_last();
        lemma_offer_all_held(store, front);
    }
}

/// No two items of `batch` have the same fingerprint.
pub open spec fn distinct_fingerprints(batch: Seq<ItemToCreateModel>) -> bool {
    forall|i: int, j: int|
        0 <= i < j < batch.len() ==> (#[trigger] batch[i]).fingerprint() != (
        #[trigger] batch[j]).fingerprint()
}

/// A store that holds none of the fingerprints of a batch, in which no
/// fingerprint occurs twice, takes every item of the batch, in the order of
/// the batch.
pub proof fn lemma_new_items_are_all_taken(store: StoreModel, batch: Seq<ItemToCreateModel>)
    requires
        distinct_fingerprints(batch),
        forall|k: int| 0 <= k < batch.len() ==> !store.holds(#[trigger] batch[k].fingerprint()),
    ensures
        store.offer_all(batch).items == store.items + batch,
    decreases batch.len(),
{
    if batch.len() > 0 {
        let front = batch.drop_last();
        let last = batch.last();
        assert(distinct_fingerprints(front));
        lemma_new_items_are_all_taken(store, front);
        let middle = store.offer_all(front);
        assert(!middle.holds(last.fingerprint()));
    }
}

/// What [`StoreModel::most_recent`] names: nothing exactly where the store
/// holds no item of the feed; else the date of an item of the feed that the
/// store holds.
proof fn lemma_most_recent(store: StoreModel, feed: i32)
    ensures
        store.most_recent(feed) is None ==> forall|i: int|
            0 <= i < store.items.len() ==> (#[trigger] store.items[i]).feed != feed,
        store.most_recent(feed) matches Some(at) ==> exists|i: int|
            0 <= i < store.items.len() && (#[trigger] store.items[i]).feed == feed
                && store.items[i].published_at == at,
    decreases store.items.len(),
{
    if store.items.len() > 0 {
        let front = StoreModel { items: store.items.drop_last() };
        lemma_most_recent(front, feed);
        if store.most_recent(feed) is None {
            assert forall|i: int| 0 <= i < store.items.len() implies (
            #[trigger] store.items[i]).feed != feed by {
                if i < store.items.len() - 1 {
                    assert(front.items[i] == store.items[i]);
                }
            }
        }
    }
}

/// A store that grows keeps or advances the date of the newest item of a
/// feed.
proof fn lemma_most_recent_later(store: StoreModel, later: StoreModel, feed: i32)
    requires
        store.within(later),
    ensures
        published_at_most(store.most_recent(feed), later.most_recent(feed)),
    decreases later.items.len(),
{
    if later.items.len() > store.items.len() {
        let front = StoreModel { items: later.items.drop_last() };
        lemma_most_recent_later(store, front, feed);
    } else {
        assert(later.items =~= store.items);
    }
}

/// The batch of the feed at `k` in a cycle that began with the store
/// `start`; empty where the feed has no document.
pub open spec fn batch_at(
    start: StoreModel,
    feeds: Seq<FeedToCheckModel>,
    documents: Seq<Option<Seq<RawItemModel>>>,
    now: Timestamp,
    k: int,
) -> Seq<ItemToCreateModel> {
    match documents[k] {
        Some(entries) => batch_for(feeds[k], start.most_recent(feeds[k].id), entries, now),
        None => Seq::empty(),
    }
}

/// After the feeds were synchronised, the store holds what it held at the
/// start; it holds the fingerprint of every item of every batch; and whatever
/// it holds more than at the start is an item of one of the batches.
proof fn lemma_feeds_synced(
    start: StoreModel,
    feeds: Seq<FeedToCheckModel>,
    documents: Seq<Option<Seq<RawItemModel>>>,
    now: Timestamp,
)
    requires
        feeds.len() == documents.len(),
    ensures
        start.within(feeds_synced(start, feeds, documents, now)),
        forall|k: int, j: int|
            0 <= k < feeds.len() && 0 <= j < batch_at(start, feeds, documents, now, k).len()
                ==> feeds_synced(start, feeds, documents, now).holds(
                (#[trigger] batch_at(start, feeds, documents, now, k)[j]).fingerprint(),
            ),
        forall|i: int|
            start.items.len() <= i < feeds_synced(start, feeds, documents, now).items.len()
                ==> exists|k: int|
                0 <= k < feeds.len() && (#[trigger] batch_at(
                    start,
                    feeds,
                    documents,
                    now,
                    k,
                )).contains(#[trigger] feeds_synced(start, feeds, documents, now).items[i]),
    decreases feeds.len(),
{
    if feeds.len() > 0 {
        let front_feeds = feeds.drop_last();
        let front_documents = documents.drop_last();
        let middle = feeds_synced(start, front_feeds, front_documents, now);
        let after = feeds_synced(start, feeds, documents, now);
        let last = feeds.len() - 1;
        lemma_feeds_synced(start, front_feeds, front_documents, now);
        let own = batch_at(start, feeds, documents, now, last);
        lemma_offer_all(middle, own);
        assert forall|k: int, j: int|
            0 <= k < feeds.len() && 0 <= j < batch_at(
                start,
                feeds,
                documents,
                now,
                k,
            ).len() implies after.holds(
            (#[trigger] batch_at(start, feeds, documents, now, k)[j]).fingerprint(),
        ) by {
            if k < last {
                let same = batch_at(start, front_feeds, front_documents, now, k);
                lemma_holds_later(middle, after, same[j].fingerprint());
            }
        }
        assert forall|i: int| start.items.len() <= i < after.items.len() implies exists|k: int|
            0 <= k < feeds.len() && (#[trigger] batch_at(start, feeds, documents, now, k)).contains(
                #[trigger] after.items[i],
            ) by {
            if i < middle.items.len() {
                let k = choose|k: int|
                    0 <= k < front_feeds.len() && (#[trigger] batch_at(
                        start,
                        front_feeds,
                        front_documents,
                        now,
                        k,
                    )).contains(middle.items[i]);
                assert(batch_at(start, feeds, documents, now, k).contains(after.items[i]));
            }
        }
    }
}

/// The heart of the matter for one feed. Let a first cycle have begun with
/// the store `start` and ended with the store `after`, which holds the
/// fingerprint of every item of the feed's first batch, and of the feed
/// nothing new but items of that batch. Then `after` holds the fingerprint of
/// every item of the batch that a second cycle makes of the same entries.
proof fn lemma_second_batch_is_held(
    start: StoreModel,
    after: StoreModel,
    feed: FeedToCheckModel,
    entries: Seq<RawItemModel>,
    now1: Timestamp,
    now2: Timestamp,
)
    requires
        start.within(after),
        forall|j: int|
            0 <= j < batch_for(feed, start.most_recent(feed.id), entries, now1).len()
                ==> after.holds(
                (#[trigger] batch_for(
                    feed,
                    start.most_recent(feed.id),
                    entries,
                    now1,
                )[j]).fingerprint(),
            ),
        forall|i: int|
            start.items.len() <= i < after.items.len() && (#[trigger] after.items[i]).feed
                == feed.id ==> batch_for(feed, start.most_recent(feed.id), entries, now1).contains(
                after.items[i],
            ),
    ensures
        forall|j: int|
            0 <= j < batch_for(feed, after.most_recent(feed.id), entries, now2).len()
                ==> after.holds(
                (#[trigger] batch_for(
                    feed,
                    after.most_recent(feed.id),
                    entries,
                    now2,
                )[j]).fingerprint(),
            ),
{
    let mode = SyncMode::of_flag(feed.fetch_old_items);
    let recent1 = start.most_recent(feed.id);
    let recent2 = after.most_recent(feed.id);
    let taken1 = accepted(mode, recent1, entries);
    let taken2 = accepted(mode, recent2, entries);
    let batch1 = batch_for(feed, recent1, entries, now1);
    let batch2 = batch_for(feed, recent2, entries, now2);
    lemma_most_recent_later(start, after, feed.id);
    assert forall|j: int| 0 <= j < batch2.len() implies after.holds(
        (#[trigger] batch2[j]).fingerprint(),
    ) by {
        let entry = taken2[j];
        assert(taken2.contains(entry));
        assert(taken1.contains(entry)) by {
            if mode is BacklogSkip {
                if recent1 is Some {
                    let than1 = recent1->Some_0;
                    let than2 = recent2->Some_0;
                    lemma_backlog_skip_takes_the_strictly_newer(entries, than1);
                    lemma_backlog_skip_takes_the_strictly_newer(entries, than2);
                } else if recent2 is Some {
                    let than = recent2->Some_0;
                    lemma_most_recent(start, feed.id);
                    lemma_most_recent(after, feed.id);
                    let i = choose|i: int|
                        0 <= i < after.items.len() && (#[trigger] after.items[i]).feed == feed.id
                            && after.items[i].published_at == than;
                    if i < start.items.len() {
                        assert(start.items[i] == after.items[i]);
                    }
                    lemma_latest_index(entries);
                    lemma_backlog_skip_takes_the_strictly_newer(entries, than);
                }
            }
        }
        let k = choose|k: int| 0 <= k < taken1.len() && taken1[k] == entry;
        assert(batch1[k].fingerprint() == batch2[j].fingerprint());
    }
}

proof fn lemma_second_cycle_prefix(
    start: StoreModel,
    feeds: Seq<FeedToCheckModel>,
    documents: Seq<Option<Seq<RawItemModel>>>,
    now1: Timestamp,
    now2: Timestamp,
    n: int,
)
    requires
        feeds.len() == documents.len(),
        distinct_feeds(feeds),
        0 <= n <= feeds.len(),
    ensures
        ({
            let after = feeds_synced(start, feeds, documents, now1);
            feeds_synced(after, feeds.take(n), documents.take(n), now2) == after
        }),
    decreases n,
{
    let after = feeds_synced(start, feeds, documents, now1);
    if n > 0 {
        let k = n - 1;
        lemma_second_cycle_prefix(start, feeds, documents, now1, now2, k);
        assert(feeds.take(n).drop_last() == feeds.take(k));
        assert(documents.take(n).drop_last() == documents.take(k));
        if documents[k] is Some {
            let feed = feeds[k];
            let entries = documents[k]->Some_0;
            let batch1 = batch_for(feed, start.most_recent(feed.id), entries, now1);
            lemma_feeds_synced(start, feeds, documents, now1);
            assert(batch1 == batch_at(start, feeds, documents, now1, k));
            assert forall|i: int|
                start.items.len() <= i < after.items.len() && (#[trigger] after.items[i]).feed
                    == feed.id implies batch1.contains(after.items[i]) by {
                let other = choose|other: int|
                    0 <= other < feeds.len() && (#[trigger] batch_at(
                        start,
                        feeds,
                        documents,
                        now1,
                        other,
                    )).contains(after.items[i]);
                if other < k {
                } else if k < other {
                }
            }
            lemma_second_batch_is_held(start, after, feed, entries, now1, now2);
            lemma_offer_all_held(
                after,
                batch_for(feed, after.most_recent(feed.id), entries, now2),
            );
        }
    }
}

/// A cycle that is run again over the same feeds and the same documents
/// takes nothing in: the store is after the second cycle what it was after
/// the first. This holds whenever the two cycles run, for feeds of either
/// mode, with or without documents, and whatever the store held before.
pub proof fn lemma_second_cycle_takes_nothing(
    start: StoreModel,
    feeds: Seq<FeedToCheckModel>,
    documents: Seq<Option<Seq<RawItemModel>>>,
    now1: Timestamp,
    now2: Timestamp,
)
    requires
        feeds.len() == documents.len(),
        distinct_feeds(feeds),
    ensures
        ({
            let after = feeds_synced(start, feeds, documents, now1);
            feeds_synced(after, feeds, documents, now2) == after
        }),
{
    lemma_second_cycle_prefix(start, feeds, documents, now1, now2, feeds.len() as int);
    assert(feeds.take(feeds.len() as int) == feeds);
    assert(documents.take(documents.len() as int) == documents);
}

} // verus!
