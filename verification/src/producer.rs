//! Which entries of a fetched feed are new, and how they are made ready for
//! the store.

use vstd::prelude::*;

use crate::models::feeds::{Feed, FeedModel, FeedStatus};
use crate::models::items::{fingerprint_of, ItemStatus, ItemToCreate, ItemToCreateModel};
use crate::syndication::{RawItem, RawItemModel};
use crate::text::{lemma_trimmed_is_fixed, trim, trimmed};
use crate::time::{is_published_before, published_at_most, published_before, Timestamp};

verus! {

/// How the entries of a feed are taken in.
#[derive(Debug, Clone, Copy, PartialEq, Eq, Structural)]
pub enum SyncMode {
    /// Every fetched entry is taken in; the store turns away what it has.
    BacklogInclude,
    /// Only what is newer than the newest stored item is taken in, and of a
    /// feed without stored items only the latest entry.
    BacklogSkip,
}

impl SyncMode {
    /// The mode of a feed with this `fetch_old_items` flag.
    pub open spec fn of_flag(fetch_old_items: bool) -> SyncMode {
        if fetch_old_items {
            SyncMode::BacklogInclude
        } else {
            SyncMode::BacklogSkip
        }
    }

    /// The mode of a feed with this `fetch_old_items` flag.
    pub fn of(fetch_old_items: bool) -> (r: SyncMode)
        ensures
            r == SyncMode::of_flag(fetch_old_items),
    {
        if fetch_old_items {
            SyncMode::BacklogInclude
        } else {
            SyncMode::BacklogSkip
        }
    }
}

/// The position of the most recently published of `items`; of several that
/// are equally recent, the last. An item without a date counts as older than
/// any with one.
pub open spec fn latest_index(items: Seq<RawItemModel>) -> int
    decreases items.len(),
{
    if items.len() <= 1 {
        0
    } else {
        let earlier = latest_index(items.drop_last());
        if published_before(items.last().published_at, items[earlier].published_at) {
            earlier
        } else {
            items.len() - 1
        }
    }
}

/// The most recently published of `items` alone, or nothing where there are
/// no items.
pub open spec fn latest(items: Seq<RawItemModel>) -> Seq<RawItemModel> {
    if items.len() == 0 {
        Seq::empty()
    } else {
        seq![items[latest_index(items)]]
    }
}

/// `item` has a date, and it lies strictly after `than`.
pub open spec fn is_newer(item: RawItemModel, than: Timestamp) -> bool {
    item.published_at matches Some(at) && than.before(at)
}

/// Those of `items` that were published strictly after `than`, in their
/// order.
pub open spec fn newer_than(items: Seq<RawItemModel>, than: Timestamp) -> Seq<RawItemModel> {
    items.filter(|item: RawItemModel| is_newer(item, than))
}

/// `sorted` with `item` put in behind every item that was not published
/// after it.
pub open spec fn insert_by_date(sorted: Seq<RawItemModel>, item: RawItemModel) -> Seq<
    RawItemModel,
>
    decreases sorted.len(),
{
    if sorted.len() > 0 && published_before(item.published_at, sorted.last().published_at) {
        insert_by_date(sorted.drop_last(), item).push(sorted.last())
    } else {
        sorted.push(item)
    }
}

/// `items` in ascending order of publication, items without a date first;
/// items of the same date keep their order.
pub open spec fn sorted_by_date(items: Seq<RawItemModel>) -> Seq<RawItemModel>
    decreases items.len(),
{
    if items.len() == 0 {
        Seq::empty()
    } else {
        insert_by_date(sorted_by_date(items.drop_last()), items.last())
    }
}

/// No item of `items` was published before an item that precedes it.
pub open spec fn ascending(items: Seq<RawItemModel>) -> bool {
    forall|i: int, j: int|
        0 <= i < j < items.len() ==> published_at_most(
            #[trigger] items[i].published_at,
            #[trigger] items[j].published_at,
        )
}

/// The entries of a fetched batch that are taken in, in the order in which
/// they go to the store: ascending by date of publication.
///
/// - Backlog included: all of them.
/// - Backlog skipped, nothing stored yet for the feed: the latest one alone.
/// - Backlog skipped, `most_recent` the date of the newest stored item: those
///   published strictly after it; an entry without a date is not among them.
pub open spec fn accepted(
    mode: SyncMode,
    most_recent: Option<Timestamp>,
    items: Seq<RawItemModel>,
) -> Seq<RawItemModel> {
    match mode {
        SyncMode::BacklogInclude => sorted_by_date(items),
        SyncMode::BacklogSkip => match most_recent {
            None => latest(items),
            Some(than) => sorted_by_date(newer_than(items, than)),
        },
    }
}

/// The position that [`latest_index`] names is in range, and no item was
/// published after the one it names; every item behind it was published
/// strictly before.
pub proof fn lemma_latest_index(items: Seq<RawItemModel>)
    requires
        items.len() > 0,
    ensures
        0 <= latest_index(items) < items.len(),
        forall|j: int|
            0 <= j < items.len() ==> published_at_most(
                #[trigger] items[j].published_at,
                items[latest_index(items)].published_at,
            ),
        forall|j: int|
            latest_index(items) < j < items.len() ==> published_before(
                #[trigger] items[j].published_at,
                items[latest_index(items)].published_at,
            ),
    decreases items.len(),
{
    if items.len() > 1 {
        let front = items.drop_last();
        lemma_latest_index(front);
        assert forall|j: int| 0 <= j < items.len() implies published_at_most(
            #[trigger] items[j].published_at,
            items[latest_index(items)].published_at,
        ) by {
            if j < items.len() - 1 {
                assert(front[j] == items[j]);
            }
        }
        assert forall|j: int| latest_index(items) < j < items.len() implies published_before(
            #[trigger] items[j].published_at,
            items[latest_index(items)].published_at,
        ) by {
            if j < items.len() - 1 {
                assert(front[j] == items[j]);
            }
        }
    }
}

/// Putting an item into an ascending sequence keeps it ascending, adds that
/// item and no other, and loses none.
pub proof fn lemma_insert_by_date(sorted: Seq<RawItemModel>, item: RawItemModel)
    requires
        ascending(sorted),
    ensures
        ascending(insert_by_date(sorted, item)),
        insert_by_date(sorted, item).len() == sorted.len() + 1,
        insert_by_date(sorted, item).to_multiset() == sorted.to_multiset().insert(item),
    decreases sorted.len(),
{
    broadcast use vstd::seq_lib::group_to_multiset_ensures;

    let out = insert_by_date(sorted, item);
    if sorted.len() > 0 && published_before(item.published_at, sorted.last().published_at) {
        let front = sorted.drop_last();
        lemma_insert_by_date(front, item);
        let inner = insert_by_date(front, item);
        assert(sorted == front.push(sorted.last()));
        assert forall|x: RawItemModel| inner.contains(x) implies published_at_most(
            x.published_at,
            sorted.last().published_at,
        ) by {
            assert(inner.to_multiset().count(x) > 0);
        }
        assert forall|i: int, j: int| 0 <= i < j < out.len() implies published_at_most(
            #[trigger] out[i].published_at,
            #[trigger] out[j].published_at,
        ) by {
            if j == out.len() - 1 {
                assert(inner.contains(inner[i]));
            }
        }
    }
}

/// Sorting by date gives an ascending sequence of the same items, each as
/// often as before.
pub proof fn lemma_sorted_by_date(items: Seq<RawItemModel>)
    ensures
        ascending(sorted_by_date(items)),
        sorted_by_date(items).len() == items.len(),
        sorted_by_date(items).to_multiset() == items.to_multiset(),
    decreases items.len(),
{
    broadcast use vstd::seq_lib::group_to_multiset_ensures;

    if items.len() > 0 {
        lemma_sorted_by_date(items.drop_last());
        lemma_insert_by_date(sorted_by_date(items.drop_last()), items.last());
        assert(items == items.drop_last().push(items.last()));
    }
}

/// Filtering by date keeps each newer item as often as it occurs, and no
/// other item.
pub proof fn lemma_newer_than(items: Seq<RawItemModel>, than: Timestamp)
    ensures
        forall|x: RawItemModel|
            #[trigger] newer_than(items, than).to_multiset().count(x) == if is_newer(x, than) {
                items.to_multiset().count(x)
            } else {
                0
            },
    decreases items.len(),
{
    broadcast use vstd::seq_lib::group_to_multiset_ensures;

    let wanted = |item: RawItemModel| is_newer(item, than);
    let kept = newer_than(items, than);
    if items.len() == 0 {
        reveal(Seq::filter);
    } else {
        let front = items.drop_last();
        let last = items.last();
        lemma_newer_than(front, than);
        assert(items == front.push(last));
        front.lemma_filter_push(last, wanted);
        assert forall|x: RawItemModel| #[trigger] kept.to_multiset().count(x) == if is_newer(
            x,
            than,
        ) {
            items.to_multiset().count(x)
        } else {
            0
        } by {
            let before = newer_than(front, than);
        }
    }
}

/// With the backlog included, every entry of the batch is taken in, each as
/// often as it occurs, in ascending order of publication.
pub proof fn lemma_backlog_include_takes_all(
    most_recent: Option<Timestamp>,
    items: Seq<RawItemModel>,
)
    ensures
        accepted(SyncMode::BacklogInclude, most_recent, items).to_multiset()
            == items.to_multiset(),
        accepted(SyncMode::BacklogInclude, most_recent, items).len() == items.len(),
        ascending(accepted(SyncMode::BacklogInclude, most_recent, items)),
{
    lemma_sorted_by_date(items);
}

/// With the backlog skipped and nothing stored, exactly one entry of a
/// batch is taken in, whatever the size of the batch: an entry of the batch
/// that no other entry was published after. Of an empty batch nothing is
/// taken in.
pub proof fn lemma_backlog_skip_takes_the_latest(items: Seq<RawItemModel>)
    ensures
        items.len() == 0 ==> accepted(SyncMode::BacklogSkip, None, items).len() == 0,
        items.len() > 0 ==> {
            let taken = accepted(SyncMode::BacklogSkip, None, items);
            &&& taken.len() == 1
            &&& items.contains(taken[0])
            &&& forall|j: int|
                0 <= j < items.len() ==> published_at_most(
                    #[trigger] items[j].published_at,
                    taken[0].published_at,
                )
        },
{
    if items.len() > 0 {
        lemma_latest_index(items);
    }
}

/// With the backlog skipped and `than` the date of the newest stored item,
/// the entries taken in are exactly those of the batch that were published
/// strictly after `than`, each as often as it occurs, in ascending order of
/// publication. An entry published at `than` or before it, or without a date,
/// is not among them.
pub proof fn lemma_backlog_skip_takes_the_strictly_newer(
    items: Seq<RawItemModel>,
    than: Timestamp,
)
    ensures
        forall|x: RawItemModel|
            #[trigger] accepted(SyncMode::BacklogSkip, Some(than), items).to_multiset().count(x)
                == if is_newer(x, than) {
                items.to_multiset().count(x)
            } else {
                0
            },
        forall|x: RawItemModel|
            #[trigger] accepted(SyncMode::BacklogSkip, Some(than), items).contains(x) <==> (
            items.contains(x) && is_newer(x, than)),
        ascending(accepted(SyncMode::BacklogSkip, Some(than), items)),
{
    broadcast use vstd::seq_lib::group_to_multiset_ensures;

    lemma_newer_than(items, than);
    lemma_sorted_by_date(newer_than(items, than));
    let taken = accepted(SyncMode::BacklogSkip, Some(than), items);
    assert forall|x: RawItemModel| #[trigger] taken.contains(x) <==> (items.contains(x)
        && is_newer(x, than)) by {
        assert(taken.to_multiset().count(x) == newer_than(items, than).to_multiset().count(x));
    }
}

/// The most recently published of `items` alone; see [`latest`].
pub fn latest_item(items: &Vec<RawItem>) -> (r: Vec<RawItem>)
    ensures
        r.deep_view() == latest(items.deep_view()),
{
    let ghost all = items.deep_view();
    let mut out: Vec<RawItem> = Vec::new();
    if items.len() == 0 {
        return out;
    }
    let mut best: usize = 0;
    let mut i: usize = 1;
    while i < items.len()
        invariant
            1 <= i <= items.len(),
            all == items.deep_view(),
            best == latest_index(all.take(i as int)),
            best < i,
        decreases items.len() - i,
    {
        proof {
            let seen = all.take(i + 1);
            assert(seen.drop_last() == all.take(i as int));
        }
        if !is_published_before(&items[i].published_at, &items[best].published_at) {
            best = i;
        }
        i += 1;
    }
    assert(all.take(i as int) == all);
    out.push(items[best].clone());
    out
}

/// Those of `items` that were published strictly after `than`, in their
/// order; see [`newer_than`].
pub fn newer_items(items: &Vec<RawItem>, than: Timestamp) -> (r: Vec<RawItem>)
    ensures
        r.deep_view() == newer_than(items.deep_view(), than),
{
    let ghost all = items.deep_view();
    let ghost wanted = |item: RawItemModel| is_newer(item, than);
    let mut out: Vec<RawItem> = Vec::new();
    let mut i: usize = 0;
    proof {
        reveal(Seq::filter);
    }
    while i < items.len()
        invariant
            i <= items.len(),
            all == items.deep_view(),
            wanted == (|item: RawItemModel| is_newer(item, than)),
            out.deep_view() == all.take(i as int).filter(wanted),
        decreases items.len() - i,
    {
        proof {
            assert(all.take(i + 1) == all.take(i as int).push(items[i as int]@));
            all.take(i as int).lemma_filter_push(items[i as int]@, wanted);
        }
        let newer = match items[i].published_at {
            Some(at) => than.is_before(&at),
            None => false,
        };
        if newer {
            out.push(items[i].clone());
        }
        i += 1;
    }
    assert(all.take(i as int) == all);
    out
}

/// `items` in ascending order of publication; see [`sorted_by_date`].
pub fn sort_by_date(items: &Vec<RawItem>) -> (r: Vec<RawItem>)
    ensures
        r.deep_view() == sorted_by_date(items.deep_view()),
{
    let ghost all = items.deep_view();
    let mut out: Vec<RawItem> = Vec::new();
    let mut i: usize = 0;
    while i < items.len()
        invariant
            i <= items.len(),
            all == items.deep_view(),
            out.len() == i,
            out.deep_view() == sorted_by_date(all.take(i as int)),
        decreases items.len() - i,
    {
        let ghost sorted = out.deep_view();
        let ghost item = items[i as int]@;
        let mut at: usize = out.len();
        assert(sorted.take(at as int) == sorted);
        while at > 0 && is_published_before(&items[i].published_at, &out[at - 1].published_at)
            invariant
                at <= out.len(),
                i < items.len(),
                sorted == out.deep_view(),
                item == items[i as int]@,
                insert_by_date(sorted, item) == insert_by_date(sorted.take(at as int), item)
                    + sorted.skip(at as int),
            decreases at,
        {
            proof {
                let head = sorted.take(at as int);
                assert(head.drop_last() == sorted.take(at - 1));
            }
            at -= 1;
        }
        proof {
            assert(all.take(i + 1).drop_last() == all.take(i as int));
        }
        out.insert(at, items[i].clone());
        i += 1;
    }
    assert(all.take(i as int) == all);
    out
}

/// The entries of the fetched batch `items` that are taken in, in the order
/// in which they go to the store; see [`accepted`].
///
/// `most_recent` is the date of the newest item that the store holds of the
/// feed, if it holds any.
pub fn select_new_items(mode: SyncMode, most_recent: Option<Timestamp>, items: &Vec<RawItem>) -> (r:
    Vec<RawItem>)
    ensures
        r.deep_view() == accepted(mode, most_recent, items.deep_view()),
{
    match mode {
        SyncMode::BacklogInclude => sort_by_date(items),
        SyncMode::BacklogSkip => match most_recent {
            None => latest_item(items),
            Some(than) => {
                let newer = newer_items(items, than);
                sort_by_date(&newer)
            },
        },
    }
}

/// The link of an item whose entry has none.
pub open spec fn missing_link() -> Seq<char> {
    "#"@
}

/// The item that the store receives for the entry `raw` of the feed `feed`,
/// fetched at `now`: every text trimmed, "#" for a missing link, the empty
/// text for a missing content, `now` for a missing date, and unread.
pub open spec fn normalized(raw: RawItemModel, feed: i32, now: Timestamp) -> ItemToCreateModel {
    ItemToCreateModel {
        author: match raw.author {
            Some(author) => Some(trimmed(author)),
            None => None,
        },
        title: trimmed(raw.title),
        description: trimmed(
            match raw.content {
                Some(content) => content,
                None => Seq::empty(),
            },
        ),
        link: trimmed(
            match raw.link {
                Some(link) => link,
                None => missing_link(),
            },
        ),
        status: ItemStatus::Unread,
        published_at: match raw.published_at {
            Some(at) => at,
            None => now,
        },
        feed,
    }
}

/// Each of `items` made ready for the store, in their order.
pub open spec fn all_normalized(items: Seq<RawItemModel>, feed: i32, now: Timestamp) -> Seq<
    ItemToCreateModel,
> {
    items.map_values(|raw: RawItemModel| normalized(raw, feed, now))
}

/// Makes the entry `raw` of the feed `feed`, fetched at `now`, ready for the
/// store; see [`normalized`].
pub fn normalize(raw: &RawItem, feed: i32, now: Timestamp) -> (r: ItemToCreate)
    ensures
        r@ == normalized(raw@, feed, now),
{
    let author = match &raw.author {
        Some(author) => Some(trim(author.as_str())),
        None => None,
    };
    let description = match &raw.content {
        Some(content) => trim(content.as_str()),
        None => trim(String::new().as_str()),
    };
    let link = match &raw.link {
        Some(link) => trim(link.as_str()),
        None => trim("#"),
    };
    let published_at = match raw.published_at {
        Some(at) => at,
        None => now,
    };
    ItemToCreate {
        author,
        title: trim(raw.title.as_str()),
        description,
        link,
        status: ItemStatus::Unread,
        published_at,
        feed,
    }
}

/// Makes each of `items` ready for the store, in their order.
pub fn normalize_all(items: &Vec<RawItem>, feed: i32, now: Timestamp) -> (r: Vec<ItemToCreate>)
    ensures
        r.deep_view() == all_normalized(items.deep_view(), feed, now),
{
    let mut out: Vec<ItemToCreate> = Vec::new();
    let mut i: usize = 0;
    while i < items.len()
        invariant
            i <= items.len(),
            out.len() == i,
            forall|k: int|
                0 <= k < i ==> out[k]@ == normalized(#[trigger] items[k].deep_view(), feed, now),
        decreases items.len() - i,
    {
        out.push(normalize(&items[i], feed, now));
        i += 1;
    }
    out
}

/// The title of an entry as the fingerprint sees it.
pub open spec fn fingerprint_title(raw: RawItemModel) -> Seq<char> {
    trimmed(raw.title)
}

/// The link of an entry as the fingerprint sees it.
pub open spec fn fingerprint_link(raw: RawItemModel) -> Seq<char> {
    trimmed(
        match raw.link {
            Some(link) => link,
            None => missing_link(),
        },
    )
}

/// The fingerprint of a normalized item is a function of the trimmed title
/// and the trimmed link of its entry, and of nothing else: not of the feed,
/// the time of the fetch, the author, the content or the date.
pub proof fn lemma_fingerprint_of_normalized(raw: RawItemModel, feed: i32, now: Timestamp)
    ensures
        normalized(raw, feed, now).fingerprint() == fingerprint_of(
            fingerprint_title(raw),
            fingerprint_link(raw),
        ),
{
}

/// Two entries whose titles and links differ only in white space at the
/// ends get the same fingerprint, whatever else differs between them and
/// whenever and for whichever feed they are normalized.
pub proof fn lemma_fingerprint_ignores_outer_white_space(
    a: RawItemModel,
    b: RawItemModel,
    feed_a: i32,
    feed_b: i32,
    now_a: Timestamp,
    now_b: Timestamp,
)
    requires
        fingerprint_title(a) == fingerprint_title(b),
        fingerprint_link(a) == fingerprint_link(b),
    ensures
        normalized(a, feed_a, now_a).fingerprint() == normalized(b, feed_b, now_b).fingerprint(),
{
}

/// Normalizing an item that is already normalized changes none of its texts,
/// so it keeps its fingerprint.
pub proof fn lemma_normalized_is_fixed(raw: RawItemModel, feed: i32, now: Timestamp)
    ensures
        ({
            let once = normalized(raw, feed, now);
            let again = normalized(
                RawItemModel {
                    title: once.title,
                    author: once.author,
                    link: Some(once.link),
                    content: Some(once.description),
                    published_at: Some(once.published_at),
                },
                feed,
                now,
            );
            again == once
        }),
{
    lemma_trimmed_is_fixed(raw.title);
    lemma_trimmed_is_fixed(
        match raw.link {
            Some(link) => link,
            None => missing_link(),
        },
    );
    lemma_trimmed_is_fixed(
        match raw.content {
            Some(content) => content,
            None => Seq::empty(),
        },
    );
    if raw.author is Some {
        lemma_trimmed_is_fixed(raw.author->Some_0);
    }
}

/// A subscribed feed that a cycle has to check.
#[derive(Debug, PartialEq, Eq)]
pub struct FeedToCheck {
    pub id: i32,
    pub link: String,
    pub fetch_old_items: bool,
}

/// What a [`FeedToCheck`] holds.
pub struct FeedToCheckModel {
    pub id: i32,
    pub link: Seq<char>,
    pub fetch_old_items: bool,
}

impl DeepView for FeedToCheck {
    type V = FeedToCheckModel;

    open spec fn deep_view(&self) -> FeedToCheckModel {
        FeedToCheckModel { id: self.id, link: self.link@, fetch_old_items: self.fetch_old_items }
    }
}

impl View for FeedToCheck {
    type V = FeedToCheckModel;

    open spec fn view(&self) -> FeedToCheckModel {
        self.deep_view()
    }
}

impl Clone for FeedToCheck {
    fn clone(&self) -> (r: FeedToCheck)
        ensures
            r@ == self@,
    {
        FeedToCheck { id: self.id, link: self.link.clone(), fetch_old_items: self.fetch_old_items }
    }
}

/// The feed takes part in synchronisation.
pub open spec fn is_subscribed(feed: FeedModel) -> bool {
    feed.status == FeedStatus::Subscribed
}

/// What a cycle needs to know of `feed` to check it.
pub open spec fn to_check(feed: FeedModel) -> FeedToCheckModel {
    FeedToCheckModel { id: feed.id, link: feed.link, fetch_old_items: feed.fetch_old_items }
}

/// The items of `feed` that go to the store when its document holds
/// `entries`, `recent` is the date of its newest stored item and the document
/// was fetched at `now`.
pub open spec fn batch_for(
    feed: FeedToCheckModel,
    recent: Option<Timestamp>,
    entries: Seq<RawItemModel>,
    now: Timestamp,
) -> Seq<ItemToCreateModel> {
    all_normalized(accepted(SyncMode::of_flag(feed.fetch_old_items), recent, entries), feed.id, now)
}

/// The feeds that a cycle checks: those of `feeds` that are subscribed, in
/// their order.
pub open spec fn links_to_check(feeds: Seq<FeedModel>) -> Seq<FeedToCheckModel> {
    feeds.filter(|feed: FeedModel| is_subscribed(feed)).map_values(
        |feed: FeedModel| to_check(feed),
    )
}

/// The feeds that a cycle checks: those of `feeds` that are subscribed, in
/// their order. An unsubscribed feed is never among them.
pub fn get_links_to_check(feeds: &Vec<Feed>) -> (r: Vec<FeedToCheck>)
    ensures
        r.deep_view() == links_to_check(feeds.deep_view()),
{
    let ghost all = feeds.deep_view();
    let ghost wanted = |feed: FeedModel| is_subscribed(feed);
    let ghost shape = |feed: FeedModel| to_check(feed);
    let mut out: Vec<FeedToCheck> = Vec::new();
    let mut i: usize = 0;
    proof {
        reveal(Seq::filter);
    }
    while i < feeds.len()
        invariant
            i <= feeds.len(),
            all == feeds.deep_view(),
            wanted == (|feed: FeedModel| is_subscribed(feed)),
            shape == (|feed: FeedModel| to_check(feed)),
            out.deep_view() == all.take(i as int).filter(wanted).map_values(shape),
        decreases feeds.len() - i,
    {
        let ghost before = out.deep_view();
        proof {
            assert(all.take(i + 1) == all.take(i as int).push(feeds[i as int]@));
            all.take(i as int).lemma_filter_push(feeds[i as int]@, wanted);
        }
        let feed = &feeds[i];
        match feed.status {
            FeedStatus::Subscribed => {
                out.push(
                    FeedToCheck {
                        id: feed.id,
                        link: feed.link.clone(),
                        fetch_old_items: feed.fetch_old_items,
                    },
                );
                assert(all.take(i as int).filter(wanted).push(feeds[i as int]@).map_values(shape)
                    =~= before.push(to_check(feeds[i as int]@)));
            },
            FeedStatus::Unsubscribed => {},
        }
        i += 1;
    }
    assert(all.take(i as int) == all);
    out
}

} // verus!
