//! One synchronisation cycle, as a machine that the caller drives.
//!
//! The machine decides; the caller acts. Each call of [`SyncCycle::step`]
//! takes the outcome of the last action and answers with the next one, until
//! the cycle ends with [`SyncAction::Finish`] or [`SyncAction::Fail`].

use vstd::prelude::*;

use crate::error::Error;
use crate::models::feeds::{checked_update, Feed, FeedModel, FeedToUpdate, FeedToUpdateModel};
use crate::models::items::{
    most_recent_query,
    Item,
    ItemReadOption,
    ItemReadOptionModel,
    ItemToCreate,
    ItemToCreateModel,
};
use crate::producer::{
    batch_for,
    get_links_to_check,
    links_to_check,
    normalize_all,
    select_new_items,
    FeedToCheck,
    FeedToCheckModel,
    SyncMode,
};
use crate::syndication::{feed_items, fetch_feed_items, parsed_feed};
use crate::time::Timestamp;

verus! {

/// What the caller is asked to do next.
#[derive(Debug, PartialEq, Eq)]
pub enum SyncAction {
    /// Read all feeds from the store.
    ListFeeds,
    /// Apply this change to a feed in the store.
    UpdateFeed(FeedToUpdate),
    /// Read the items that this request selects from the store.
    ReadItems(ItemReadOption),
    /// Fetch what is behind this link.
    Fetch(String),
    /// Put this item into the store.
    CreateItem(ItemToCreate),
    /// The cycle is over; these items were put into the store, in this order.
    Finish(Vec<ItemToCreate>),
    /// The cycle is over; it failed with this error.
    Fail(Error),
}

/// What came of the action that the caller was asked for.
#[derive(Debug, PartialEq, Eq)]
pub enum SyncEvent {
    /// Nothing yet: the cycle begins.
    Start,
    /// The store holds these feeds.
    FeedsListed(Vec<Feed>),
    /// The change to the feed was applied.
    FeedUpdated,
    /// The store returned these items, in the order that was asked for.
    ItemsRead(Vec<Item>),
    /// This was behind the link.
    Fetched(String),
    /// The store took the item.
    ItemCreated,
    /// The action failed.
    Failed(Error),
}

/// Where a cycle stands.
#[derive(Debug, Clone, Copy, PartialEq, Eq, Structural)]
pub enum SyncStage {
    /// Not begun.
    Idle,
    /// Waiting for the list of feeds.
    Listing,
    /// Waiting for a feed to be marked as checked.
    Stamping,
    /// Waiting for the newest stored item of a feed.
    Looking,
    /// Waiting for the document of a feed.
    Fetching,
    /// Waiting for the store to take an item.
    Storing,
    /// Over.
    Done,
}

/// What a [`SyncAction`] holds.
#[verifier::ext_equal]
pub enum SyncActionModel {
    ListFeeds,
    UpdateFeed(FeedToUpdateModel),
    ReadItems(ItemReadOptionModel),
    Fetch(Seq<char>),
    CreateItem(ItemToCreateModel),
    Finish(Seq<ItemToCreateModel>),
    Fail(Error),
}

/// What a [`SyncEvent`] holds.
pub enum SyncEventModel {
    Start,
    FeedsListed(Seq<FeedModel>),
    FeedUpdated,
    /// The date of the first of the items that were read, if there is one.
    ItemsRead(Option<Timestamp>),
    Fetched(Seq<char>),
    ItemCreated,
    Failed(Error),
}

impl DeepView for SyncAction {
    type V = SyncActionModel;

    open spec fn deep_view(&self) -> SyncActionModel {
        match self {
            SyncAction::ListFeeds => SyncActionModel::ListFeeds,
            SyncAction::UpdateFeed(change) => SyncActionModel::UpdateFeed(change@),
            SyncAction::ReadItems(request) => SyncActionModel::ReadItems(request@),
            SyncAction::Fetch(link) => SyncActionModel::Fetch(link@),
            SyncAction::CreateItem(item) => SyncActionModel::CreateItem(item@),
            SyncAction::Finish(items) => SyncActionModel::Finish(items.deep_view()),
            SyncAction::Fail(error) => SyncActionModel::Fail(*error),
        }
    }
}

impl View for SyncAction {
    type V = SyncActionModel;

    open spec fn view(&self) -> SyncActionModel {
        self.deep_view()
    }
}

impl DeepView for SyncEvent {
    type V = SyncEventModel;

    open spec fn deep_view(&self) -> SyncEventModel {
        match self {
            SyncEvent::Start => SyncEventModel::Start,
            SyncEvent::FeedsListed(feeds) => SyncEventModel::FeedsListed(feeds.deep_view()),
            SyncEvent::FeedUpdated => SyncEventModel::FeedUpdated,
            SyncEvent::ItemsRead(items) => SyncEventModel::ItemsRead(
                if items.len() > 0 {
                    Some(items[0].published_at)
                } else {
                    None
                },
            ),
            SyncEvent::Fetched(content) => SyncEventModel::Fetched(content@),
            SyncEvent::ItemCreated => SyncEventModel::ItemCreated,
            SyncEvent::Failed(error) => SyncEventModel::Failed(*error),
        }
    }
}

impl View for SyncEvent {
    type V = SyncEventModel;

    open spec fn view(&self) -> SyncEventModel {
        self.deep_view()
    }
}

/// The state of a cycle.
#[verifier::ext_equal]
pub struct SyncCycleModel {
    pub stage: SyncStage,
    /// The subscribed feeds, in the order in which they are checked.
    pub feeds: Seq<FeedToCheckModel>,
    /// For each feed, the date of its newest stored item as far as it was
    /// looked up and found.
    pub recent: Seq<Option<Timestamp>>,
    /// The feed in hand.
    pub position: int,
    /// The items of the feed in hand that go to the store.
    pub batch: Seq<ItemToCreateModel>,
    /// The item of `batch` that the store was asked to take.
    pub offered: int,
    /// The items that the store took so far.
    pub inserted: Seq<ItemToCreateModel>,
}

impl SyncCycleModel {
    /// A cycle that has not begun.
    pub open spec fn idle() -> SyncCycleModel {
        SyncCycleModel {
            stage: SyncStage::Idle,
            feeds: Seq::empty(),
            recent: Seq::empty(),
            position: 0,
            batch: Seq::empty(),
            offered: 0,
            inserted: Seq::empty(),
        }
    }

    /// The positions and lengths fit together.
    pub open spec fn well_formed(self) -> bool {
        &&& self.recent.len() == self.feeds.len()
        &&& self.stage is Stamping || self.stage is Looking || self.stage is Fetching
            || self.stage is Storing ==> 0 <= self.position < self.feeds.len()
        &&& self.stage is Storing ==> 0 <= self.offered < self.batch.len()
    }

    /// The cycle ends in failure.
    pub open spec fn fail(self, error: Error) -> (SyncCycleModel, SyncActionModel) {
        (SyncCycleModel { stage: SyncStage::Done, ..self }, SyncActionModel::Fail(error))
    }

    /// Marks the feeds from `position` on as checked, one by one; then looks
    /// up the newest stored items.
    pub open spec fn stamp_from(self, position: int, now: Timestamp) -> (
        SyncCycleModel,
        SyncActionModel,
    ) {
        if position < self.feeds.len() {
            (
                SyncCycleModel { stage: SyncStage::Stamping, position, ..self },
                SyncActionModel::UpdateFeed(checked_update(self.feeds[position].id, now)),
            )
        } else {
            self.look_from(0)
        }
    }

    /// The first position from `position` on of a feed that skips its
    /// backlog, or the number of feeds where there is none.
    pub open spec fn next_skipping(self, position: int) -> int
        decreases self.feeds.len() - position,
    {
        if position < 0 || position >= self.feeds.len() {
            self.feeds.len() as int
        } else if !self.feeds[position].fetch_old_items {
            position
        } else {
            self.next_skipping(position + 1)
        }
    }

    /// Looks up the newest stored item of each feed from `position` on that
    /// skips its backlog, one by one; then fetches the feeds.
    pub open spec fn look_from(self, position: int) -> (SyncCycleModel, SyncActionModel) {
        let found = self.next_skipping(position);
        if found < self.feeds.len() {
            (
                SyncCycleModel { stage: SyncStage::Looking, position: found, ..self },
                SyncActionModel::ReadItems(most_recent_query(self.feeds[found].id)),
            )
        } else {
            self.fetch_from(0)
        }
    }

    /// Fetches the feed at `position`, or ends the cycle where there is
    /// none left.
    pub open spec fn fetch_from(self, position: int) -> (SyncCycleModel, SyncActionModel) {
        if position < self.feeds.len() {
            (
                SyncCycleModel { stage: SyncStage::Fetching, position, ..self },
                SyncActionModel::Fetch(self.feeds[position].link),
            )
        } else {
            (
                SyncCycleModel { stage: SyncStage::Done, ..self },
                SyncActionModel::Finish(self.inserted),
            )
        }
    }

    /// Offers the item at `offered` of the batch to the store, or goes on to
    /// the next feed where the batch is through.
    pub open spec fn store_from(self, offered: int) -> (SyncCycleModel, SyncActionModel) {
        if offered < self.batch.len() {
            (
                SyncCycleModel { stage: SyncStage::Storing, offered, ..self },
                SyncActionModel::CreateItem(self.batch[offered]),
            )
        } else {
            self.fetch_from(self.position + 1)
        }
    }

    /// The items of the feed in hand that go to the store, given the
    /// document `content` that was fetched at `now`: those that the feed's
    /// mode accepts, made ready. Nothing where `content` is no feed.
    pub open spec fn batch_of(self, content: Seq<char>, now: Timestamp) -> Seq<ItemToCreateModel> {
        let feed = self.feeds[self.position];
        match parsed_feed(content) {
            Some(document) => batch_for(
                feed,
                self.recent[self.position],
                feed_items(document),
                now,
            ),
            None => Seq::empty(),
        }
    }

    /// The state after `event`, and the action that the caller is asked for.
    ///
    /// The cycle lists the feeds; marks each subscribed feed as checked at
    /// `now`, whatever comes of that; looks up the newest stored item of each
    /// feed that skips its backlog; then, feed by feed, fetches the document
    /// and offers the accepted items to the store one by one.
    ///
    /// A failure to list the feeds or to look up an item ends the cycle with
    /// that error. A failure to fetch, or a document that is no feed, passes
    /// over that feed. An item that the store does not take is passed over.
    /// An event that does not answer the pending action ends the cycle with
    /// `Unknown`.
    pub open spec fn next(self, event: SyncEventModel, now: Timestamp) -> (
        SyncCycleModel,
        SyncActionModel,
    ) {
        match (self.stage, event) {
            (SyncStage::Idle, SyncEventModel::Start) => (
                SyncCycleModel { stage: SyncStage::Listing, ..self },
                SyncActionModel::ListFeeds,
            ),
            (SyncStage::Listing, SyncEventModel::FeedsListed(feeds)) => {
                let checked = links_to_check(feeds);
                SyncCycleModel {
                    feeds: checked,
                    recent: Seq::new(checked.len(), |i: int| None::<Timestamp>),
                    ..self
                }.stamp_from(0, now)
            },
            (SyncStage::Listing, SyncEventModel::Failed(error)) => self.fail(error),
            (SyncStage::Stamping, SyncEventModel::FeedUpdated) => self.stamp_from(
                self.position + 1,
                now,
            ),
            (SyncStage::Stamping, SyncEventModel::Failed(_)) => self.stamp_from(
                self.position + 1,
                now,
            ),
            (SyncStage::Looking, SyncEventModel::ItemsRead(newest)) => SyncCycleModel {
                recent: self.recent.update(self.position, newest),
                ..self
            }.look_from(self.position + 1),
            (SyncStage::Looking, SyncEventModel::Failed(error)) => self.fail(error),
            (SyncStage::Fetching, SyncEventModel::Fetched(content)) => SyncCycleModel {
                batch: self.batch_of(content, now),
                ..self
            }.store_from(0),
            (SyncStage::Fetching, SyncEventModel::Failed(_)) => self.fetch_from(self.position + 1),
            (SyncStage::Storing, SyncEventModel::ItemCreated) => SyncCycleModel {
                inserted: self.inserted.push(self.batch[self.offered]),
                ..self
            }.store_from(self.offered + 1),
            (SyncStage::Storing, SyncEventModel::Failed(_)) => self.store_from(self.offered + 1),
            _ => self.fail(Error::Unknown),
        }
    }
}

/// The position that [`SyncCycleModel::next_skipping`] names is not before
/// `position` nor past the end; where it names a feed, that feed skips its
/// backlog.
pub proof fn lemma_next_skipping(cycle: SyncCycleModel, position: int)
    requires
        0 <= position <= cycle.feeds.len(),
    ensures
        position <= cycle.next_skipping(position) <= cycle.feeds.len(),
        cycle.next_skipping(position) < cycle.feeds.len() ==> !cycle.feeds[cycle.next_skipping(
            position,
        )].fetch_old_items,
    decreases cycle.feeds.len() - position,
{
    if position < cycle.feeds.len() && cycle.feeds[position].fetch_old_items {
        lemma_next_skipping(cycle, position + 1);
    }
}

/// Every step leads from a well-formed state to a well-formed state.
pub proof fn lemma_next_keeps_well_formed(
    cycle: SyncCycleModel,
    event: SyncEventModel,
    now: Timestamp,
)
    requires
        cycle.well_formed(),
    ensures
        cycle.next(event, now).0.well_formed(),
{
    match (cycle.stage, event) {
        (SyncStage::Listing, SyncEventModel::FeedsListed(feeds)) => {
            let checked = links_to_check(feeds);
            let listed = SyncCycleModel {
                feeds: checked,
                recent: Seq::new(checked.len(), |i: int| None::<Timestamp>),
                ..cycle
            };
            lemma_next_skipping(listed, 0);
        },
        (SyncStage::Stamping, SyncEventModel::FeedUpdated) => {
            lemma_next_skipping(cycle, 0);
        },
        (SyncStage::Stamping, SyncEventModel::Failed(_)) => {
            lemma_next_skipping(cycle, 0);
        },
        (SyncStage::Looking, SyncEventModel::ItemsRead(newest)) => {
            let looked = SyncCycleModel {
                recent: cycle.recent.update(cycle.position, newest),
                ..cycle
            };
            lemma_next_skipping(looked, cycle.position + 1);
        },
        _ => {},
    }
}

/// A feed that cannot be fetched is passed over: nothing is lost of what
/// the store took so far, and the cycle goes on with the next feed, or ends
/// in success where that feed was the last.
pub proof fn lemma_failed_fetch_passes_over_the_feed(
    cycle: SyncCycleModel,
    error: Error,
    now: Timestamp,
)
    requires
        cycle.well_formed(),
        cycle.stage is Fetching,
    ensures
        ({
            let (after, action) = cycle.next(SyncEventModel::Failed(error), now);
            &&& after.inserted == cycle.inserted
            &&& after.feeds == cycle.feeds
            &&& after.recent == cycle.recent
            &&& cycle.position + 1 < cycle.feeds.len() ==> after.stage is Fetching
                && after.position == cycle.position + 1 && action == SyncActionModel::Fetch(
                cycle.feeds[cycle.position + 1].link,
            )
            &&& cycle.position + 1 == cycle.feeds.len() ==> after.stage is Done && action
                == SyncActionModel::Finish(cycle.inserted)
        }),
{
}

/// A document that is neither Atom nor RSS is passed over like a feed that
/// cannot be fetched.
pub proof fn lemma_unreadable_document_passes_over_the_feed(
    cycle: SyncCycleModel,
    content: Seq<char>,
    now: Timestamp,
)
    requires
        cycle.well_formed(),
        cycle.stage is Fetching,
        parsed_feed(content) is None,
    ensures
        ({
            let (after, action) = cycle.next(SyncEventModel::Fetched(content), now);
            &&& after.inserted == cycle.inserted
            &&& after.feeds == cycle.feeds
            &&& after.recent == cycle.recent
            &&& cycle.position + 1 < cycle.feeds.len() ==> after.stage is Fetching
                && after.position == cycle.position + 1 && action == SyncActionModel::Fetch(
                cycle.feeds[cycle.position + 1].link,
            )
            &&& cycle.position + 1 == cycle.feeds.len() ==> after.stage is Done && action
                == SyncActionModel::Finish(cycle.inserted)
        }),
{
}

/// A fetched feed has its accepted entries offered to the store in their
/// order, the first one at once; a feed of which nothing is accepted is left
/// for the next.
pub proof fn lemma_fetched_feed_is_offered(
    cycle: SyncCycleModel,
    content: Seq<char>,
    now: Timestamp,
)
    requires
        cycle.well_formed(),
        cycle.stage is Fetching,
    ensures
        ({
            let (after, action) = cycle.next(SyncEventModel::Fetched(content), now);
            let batch = cycle.batch_of(content, now);
            &&& after.inserted == cycle.inserted
            &&& after.batch == batch
            &&& batch.len() > 0 ==> after.stage is Storing && after.offered == 0
                && after.position == cycle.position && action == SyncActionModel::CreateItem(
                batch[0],
            )
            &&& batch.len() == 0 ==> (after, action) == (SyncCycleModel {
                batch,
                ..cycle
            }).fetch_from(cycle.position + 1)
        }),
{
}

/// An item that the store takes is reported at the end; one that it does
/// not take is passed over. Either way the next item of the batch is offered,
/// or the next feed is fetched.
pub proof fn lemma_item_outcome(cycle: SyncCycleModel, error: Error, now: Timestamp)
    requires
        cycle.well_formed(),
        cycle.stage is Storing,
    ensures
        ({
            let (taken, _) = cycle.next(SyncEventModel::ItemCreated, now);
            let (refused, _) = cycle.next(SyncEventModel::Failed(error), now);
            &&& taken.inserted == cycle.inserted.push(cycle.batch[cycle.offered])
            &&& refused.inserted == cycle.inserted
            &&& taken.stage == refused.stage
            &&& taken.position == refused.position
            &&& taken.offered == refused.offered
            &&& !(refused.stage is Done) && cycle.offered + 1 < cycle.batch.len()
                ==> refused.stage is Storing && refused.offered == cycle.offered + 1
        }),
{
}

/// A failure of the store to list the feeds or to look up an item ends the
/// cycle with that failure.
pub proof fn lemma_store_failure_ends_the_cycle(
    cycle: SyncCycleModel,
    error: Error,
    now: Timestamp,
)
    requires
        cycle.stage is Listing || cycle.stage is Looking,
    ensures
        cycle.next(SyncEventModel::Failed(error), now).0.stage is Done,
        cycle.next(SyncEventModel::Failed(error), now).1 == SyncActionModel::Fail(error),
{
}

/// A feed is marked as checked whether or not the store confirms it, and
/// before anything is fetched.
pub proof fn lemma_stamping_ignores_failure(cycle: SyncCycleModel, error: Error, now: Timestamp)
    requires
        cycle.stage is Stamping,
    ensures
        cycle.next(SyncEventModel::Failed(error), now) == cycle.next(
            SyncEventModel::FeedUpdated,
            now,
        ),
        !(cycle.next(SyncEventModel::FeedUpdated, now).0.stage is Fetching)
            || cycle.position + 1 >= cycle.feeds.len(),
{
}

/// No step takes back what the store took: the items reported so far stay,
/// in their order, at the front of those reported later.
pub proof fn lemma_inserted_grows(cycle: SyncCycleModel, event: SyncEventModel, now: Timestamp)
    ensures
        cycle.inserted.is_prefix_of(cycle.next(event, now).0.inserted),
{
}

/// A synchronisation cycle in progress.
pub struct SyncCycle {
    stage: SyncStage,
    feeds: Vec<FeedToCheck>,
    recent: Vec<Option<Timestamp>>,
    position: usize,
    batch: Vec<ItemToCreate>,
    offered: usize,
    inserted: Vec<ItemToCreate>,
}

impl View for SyncCycle {
    type V = SyncCycleModel;

    closed spec fn view(&self) -> SyncCycleModel {
        SyncCycleModel {
            stage: self.stage,
            feeds: self.feeds.deep_view(),
            recent: self.recent@,
            position: self.position as int,
            batch: self.batch.deep_view(),
            offered: self.offered as int,
            inserted: self.inserted.deep_view(),
        }
    }
}

fn clone_items(items: &Vec<ItemToCreate>) -> (r: Vec<ItemToCreate>)
    ensures
        r.deep_view() == items.deep_view(),
{
    let mut out: Vec<ItemToCreate> = Vec::new();
    let mut i: usize = 0;
    while i < items.len()
        invariant
            i <= items.len(),
            out.len() == i,
            forall|k: int| 0 <= k < i ==> out[k].deep_view() == #[trigger] items[k].deep_view(),
        decreases items.len() - i,
    {
        out.push(items[i].clone());
        i += 1;
    }
    out
}

impl SyncCycle {
    #[verifier::type_invariant]
    spec fn type_invariant(self) -> bool {
        self@.well_formed()
    }

    /// A cycle that has not begun. Its first event is [`SyncEvent::Start`].
    pub fn new() -> (r: SyncCycle)
        ensures
            r@ == SyncCycleModel::idle(),
    {
        SyncCycle {
            stage: SyncStage::Idle,
            feeds: Vec::new(),
            recent: Vec::new(),
            position: 0,
            batch: Vec::new(),
            offered: 0,
            inserted: Vec::new(),
        }
    }

    /// Where the cycle stands.
    pub fn stage(&self) -> (r: SyncStage)
        ensures
            r == self@.stage,
    {
        self.stage
    }

    fn fail(self, error: Error) -> (r: (SyncCycle, SyncAction))
        ensures
            r.0@ == self@.fail(error).0,
            r.1@ == self@.fail(error).1,
    {
        proof {
            use_type_invariant(&self);
        }
        (SyncCycle { stage: SyncStage::Done, ..self }, SyncAction::Fail(error))
    }

    fn stamp_from(self, position: usize, now: Timestamp) -> (r: (SyncCycle, SyncAction))
        ensures
            r.0@ == self@.stamp_from(position as int, now).0,
            r.1@ == self@.stamp_from(position as int, now).1,
    {
        proof {
            use_type_invariant(&self);
        }
        if position < self.feeds.len() {
            let change = FeedToUpdate::checked(self.feeds[position].id, now);
            (SyncCycle { stage: SyncStage::Stamping, position, ..self }, SyncAction::UpdateFeed(change))
        } else {
            self.look_from(0)
        }
    }

    fn look_from(self, position: usize) -> (r: (SyncCycle, SyncAction))
        ensures
            r.0@ == self@.look_from(position as int).0,
            r.1@ == self@.look_from(position as int).1,
    {
        proof {
            use_type_invariant(&self);
        }
        let mut found: usize = position;
        while found < self.feeds.len() && self.feeds[found].fetch_old_items
            invariant
                self@.next_skipping(position as int) == self@.next_skipping(found as int),
            decreases self.feeds.len() - found,
        {
            found += 1;
        }
        if found < self.feeds.len() {
            let request = ItemReadOption::most_recent_of(self.feeds[found].id);
            (
                SyncCycle { stage: SyncStage::Looking, position: found, ..self },
                SyncAction::ReadItems(request),
            )
        } else {
            self.fetch_from(0)
        }
    }

    fn fetch_from(self, position: usize) -> (r: (SyncCycle, SyncAction))
        ensures
            r.0@ == self@.fetch_from(position as int).0,
            r.1@ == self@.fetch_from(position as int).1,
    {
        proof {
            use_type_invariant(&self);
        }
        if position < self.feeds.len() {
            let link = self.feeds[position].link.clone();
            (SyncCycle { stage: SyncStage::Fetching, position, ..self }, SyncAction::Fetch(link))
        } else {
            let inserted = clone_items(&self.inserted);
            (SyncCycle { stage: SyncStage::Done, ..self }, SyncAction::Finish(inserted))
        }
    }

    fn store_from(self, offered: usize) -> (r: (SyncCycle, SyncAction))
        requires
            self@.position < self@.feeds.len(),
        ensures
            r.0@ == self@.store_from(offered as int).0,
            r.1@ == self@.store_from(offered as int).1,
    {
        proof {
            use_type_invariant(&self);
            assert(self.feeds.deep_view().len() == self.feeds.len());
        }
        if offered < self.batch.len() {
            let item = self.batch[offered].clone();
            (SyncCycle { stage: SyncStage::Storing, offered, ..self }, SyncAction::CreateItem(item))
        } else {
            let position = self.position + 1;
            self.fetch_from(position)
        }
    }

    /// Takes the outcome of the last action and answers with the state that
    /// follows and the next action; see [`SyncCycleModel::next`].
    ///
    /// `now` is the time of the call. The first event of a cycle is
    /// [`SyncEvent::Start`]; after [`SyncAction::Finish`] or
    /// [`SyncAction::Fail`] the cycle is over.
    pub fn step(self, event: SyncEvent, now: Timestamp) -> (r: (SyncCycle, SyncAction))
        ensures
            r.0@ == self@.next(event@, now).0,
            r.1@ == self@.next(event@, now).1,
    {
        proof {
            use_type_invariant(&self);
            assert(self.feeds.deep_view().len() == self.feeds.len());
            assert(self.batch.deep_view().len() == self.batch.len());
        }
        match (self.stage, event) {
            (SyncStage::Idle, SyncEvent::Start) => (
                SyncCycle { stage: SyncStage::Listing, ..self },
                SyncAction::ListFeeds,
            ),
            (SyncStage::Listing, SyncEvent::FeedsListed(listed)) => {
                let feeds = get_links_to_check(&listed);
                let mut recent: Vec<Option<Timestamp>> = Vec::new();
                let mut i: usize = 0;
                while i < feeds.len()
                    invariant
                        i <= feeds.len(),
                        recent.len() == i,
                        forall|k: int| 0 <= k < i ==> recent[k] is None,
                    decreases feeds.len() - i,
                {
                    recent.push(None);
                    i += 1;
                }
                SyncCycle { feeds, recent, ..self }.stamp_from(0, now)
            },
            (SyncStage::Listing, SyncEvent::Failed(error)) => self.fail(error),
            (SyncStage::Stamping, SyncEvent::FeedUpdated) => {
                let position = self.position + 1;
                self.stamp_from(position, now)
            },
            (SyncStage::Stamping, SyncEvent::Failed(_)) => {
                let position = self.position + 1;
                self.stamp_from(position, now)
            },
            (SyncStage::Looking, SyncEvent::ItemsRead(items)) => {
                let newest = if items.len() > 0 {
                    Some(items[0].published_at)
                } else {
                    None
                };
                let SyncCycle { stage, feeds, mut recent, position, batch, offered, inserted } = self;
                recent.set(position, newest);
                SyncCycle { stage, feeds, recent, position, batch, offered, inserted }.look_from(
                    position + 1,
                )
            },
            (SyncStage::Looking, SyncEvent::Failed(error)) => self.fail(error),
            (SyncStage::Fetching, SyncEvent::Fetched(content)) => {
                let feed = &self.feeds[self.position];
                let batch = match fetch_feed_items(content.as_str()) {
                    Ok(items) => {
                        let chosen = select_new_items(
                            SyncMode::of(feed.fetch_old_items),
                            self.recent[self.position],
                            &items,
                        );
                        normalize_all(&chosen, feed.id, now)
                    },
                    Err(_) => Vec::new(),
                };
                SyncCycle { batch, ..self }.store_from(0)
            },
            (SyncStage::Fetching, SyncEvent::Failed(_)) => {
                let position = self.position + 1;
                self.fetch_from(position)
            },
            (SyncStage::Storing, SyncEvent::ItemCreated) => {
                let SyncCycle { stage, feeds, recent, position, batch, offered, mut inserted } = self;
                inserted.push(batch[offered].clone());
                SyncCycle { stage, feeds, recent, position, batch, offered, inserted }.store_from(
                    offered + 1,
                )
            },
            (SyncStage::Storing, SyncEvent::Failed(_)) => {
                let offered = self.offered + 1;
                self.store_from(offered)
            },
            (_, _) => self.fail(Error::Unknown),
        }
    }
}

} // verus!
