//! Items of feeds, and the requests that create, change and read them.

use vstd::prelude::*;
use vstd::string::StringExecFns;

use crate::error::Error;
use crate::text::{clone_text, same_text};
use crate::time::Timestamp;

verus! {

/// Whether the user has read an item.
#[derive(Debug, Clone, Copy, PartialEq, Eq, Structural)]
pub enum ItemStatus {
    Unread,
    Read,
}

impl ItemStatus {
    /// The word that the store keeps for this status.
    pub open spec fn key(self) -> Seq<char> {
        match self {
            ItemStatus::Unread => "unread"@,
            ItemStatus::Read => "read"@,
        }
    }

    /// The status that `key` is the word for.
    pub open spec fn of_key(key: Seq<char>) -> Option<ItemStatus> {
        if key == "unread"@ {
            Some(ItemStatus::Unread)
        } else if key == "read"@ {
            Some(ItemStatus::Read)
        } else {
            None
        }
    }

    /// The word that the store keeps for this status.
    pub fn to_string(&self) -> (r: String)
        ensures
            r@ == self.key(),
    {
        match self {
            ItemStatus::Unread => String::from_str("unread"),
            ItemStatus::Read => String::from_str("read"),
        }
    }

    /// Reads a status from its word. Any other text fails with
    /// `InvalidEnumKey`, which names the text and this enum.
    pub fn from_str(x: &str) -> (r: Result<ItemStatus, Error>)
        ensures
            match ItemStatus::of_key(x@) {
                Some(status) => r == Ok::<ItemStatus, Error>(status),
                None => r matches Err(Error::InvalidEnumKey(key, name)) && key@ == x@ && name@
                    == "ItemStatus"@,
            },
    {
        if same_text(x, "unread") {
            Ok(ItemStatus::Unread)
        } else if same_text(x, "read") {
            Ok(ItemStatus::Read)
        } else {
            Err(Error::InvalidEnumKey(x.to_owned(), String::from_str("ItemStatus")))
        }
    }
}

/// Reading back the word of a status gives that status.
pub proof fn lemma_item_status_round_trip(status: ItemStatus)
    ensures
        ItemStatus::of_key(status.key()) == Some(status),
{
    reveal_strlit("unread");
    reveal_strlit("read");
    assert("unread"@.len() != "read"@.len());
}

/// The feed that an item belongs to, as far as a reader of items needs it.
#[derive(Debug, Clone, PartialEq, Eq)]
pub struct ItemFeed {
    pub id: i32,
    pub title: String,
    pub link: String,
}

/// An item as the store keeps it.
#[derive(Debug, Clone, PartialEq, Eq)]
pub struct Item {
    pub id: i32,
    pub fingerprint: String,
    pub author: Option<String>,
    pub title: String,
    pub description: String,
    pub link: String,
    pub status: ItemStatus,
    pub is_saved: bool,
    pub published_at: Timestamp,
    pub feed: ItemFeed,
}

/// An item that is ready for the store.
#[derive(Debug, PartialEq, Eq)]
pub struct ItemToCreate {
    pub author: Option<String>,
    pub title: String,
    pub description: String,
    pub link: String,
    pub status: ItemStatus,
    pub published_at: Timestamp,
    pub feed: i32,
}

/// What an [`ItemToCreate`] holds.
pub struct ItemToCreateModel {
    pub author: Option<Seq<char>>,
    pub title: Seq<char>,
    pub description: Seq<char>,
    pub link: Seq<char>,
    pub status: ItemStatus,
    pub published_at: Timestamp,
    pub feed: i32,
}

impl DeepView for ItemToCreate {
    type V = ItemToCreateModel;

    open spec fn deep_view(&self) -> ItemToCreateModel {
        ItemToCreateModel {
            author: self.author.deep_view(),
            title: self.title@,
            description: self.description@,
            link: self.link@,
            status: self.status,
            published_at: self.published_at,
            feed: self.feed,
        }
    }
}

impl View for ItemToCreate {
    type V = ItemToCreateModel;

    open spec fn view(&self) -> ItemToCreateModel {
        self.deep_view()
    }
}

impl Clone for ItemToCreate {
    fn clone(&self) -> (r: ItemToCreate)
        ensures
            r@ == self@,
    {
        ItemToCreate {
            author: clone_text(&self.author),
            title: self.title.clone(),
            description: self.description.clone(),
            link: self.link.clone(),
            status: self.status,
            published_at: self.published_at,
            feed: self.feed,
        }
    }
}

/// The SHA-1 digest of the UTF-8 bytes of `text`, as 40 lower-case
/// hexadecimal digits.
pub uninterp spec fn sha1_hex(text: Seq<char>) -> Seq<char>;

/// Hashes the bytes of `text` with `sha1_smol::Sha1::from` and renders the
/// digest with `Sha1::hexdigest`: the result is `sha1_hex(text)`.
#[verifier::external_body]
fn sha1_hexdigest(text: &str) -> (r: String)
    ensures
        r@ == sha1_hex(text@),
{
    sha1_smol::Sha1::from(text).hexdigest()
}

/// The fingerprint of an item with this title and link: the digest of the
/// two, joined by a colon. The store accepts each fingerprint once.
pub open spec fn fingerprint_of(title: Seq<char>, link: Seq<char>) -> Seq<char> {
    sha1_hex(title + ":"@ + link)
}

impl ItemToCreateModel {
    /// The fingerprint of the item.
    pub open spec fn fingerprint(self) -> Seq<char> {
        fingerprint_of(self.title, self.link)
    }
}

impl ItemToCreate {
    /// The fingerprint of the item, by which the store tells whether it has
    /// the item already. It depends on the title and the link alone.
    pub fn fingerprint(&self) -> (r: String)
        ensures
            r@ == self@.fingerprint(),
    {
        let mut text = self.title.clone();
        text.append(":");
        text.append(self.link.as_str());
        sha1_hexdigest(text.as_str())
    }
}

/// A request to change the item `id`: each field that is present replaces
/// the stored one.
#[derive(Debug, Clone, PartialEq, Eq)]
pub struct ItemToUpdate {
    pub id: i32,
    pub status: Option<ItemStatus>,
    pub is_saved: Option<bool>,
}

/// The order in which items are read.
#[derive(Debug, Clone, Copy, PartialEq, Eq, Structural)]
pub enum ItemOrder {
    ReceivedDateDesc,
    PublishedDateDesc,
    UnreadFirst,
}

/// Which items to read, in what order, and which page of them.
#[derive(Debug, Clone, PartialEq, Eq)]
pub struct ItemReadOption {
    pub ids: Option<Vec<i32>>,
    pub feed: Option<i32>,
    pub status: Option<ItemStatus>,
    pub is_saved: Option<bool>,
    pub order_by: Option<ItemOrder>,
    /// The size of a page.
    pub limit: Option<u64>,
    /// The number of the page where there is a `limit`, else the number of
    /// items to pass over.
    pub offset: Option<u64>,
}

/// What an [`ItemReadOption`] holds.
pub struct ItemReadOptionModel {
    pub ids: Option<Seq<i32>>,
    pub feed: Option<i32>,
    pub status: Option<ItemStatus>,
    pub is_saved: Option<bool>,
    pub order_by: Option<ItemOrder>,
    pub limit: Option<u64>,
    pub offset: Option<u64>,
}

impl DeepView for ItemReadOption {
    type V = ItemReadOptionModel;

    open spec fn deep_view(&self) -> ItemReadOptionModel {
        ItemReadOptionModel {
            ids: self.ids.deep_view(),
            feed: self.feed,
            status: self.status,
            is_saved: self.is_saved,
            order_by: self.order_by,
            limit: self.limit,
            offset: self.offset,
        }
    }
}

impl View for ItemReadOption {
    type V = ItemReadOptionModel;

    open spec fn view(&self) -> ItemReadOptionModel {
        self.deep_view()
    }
}

/// The request for the most recently published item of `feed`.
pub open spec fn most_recent_query(feed: i32) -> ItemReadOptionModel {
    ItemReadOptionModel {
        ids: None,
        feed: Some(feed),
        status: None,
        is_saved: None,
        order_by: Some(ItemOrder::PublishedDateDesc),
        limit: Some(1),
        offset: None,
    }
}

impl ItemReadOptionModel {
    /// The number of items that the store passes over before the first one
    /// it returns: `offset` pages of `limit` items, or `offset` items where
    /// there is no `limit`. `None` where there is no `offset`.
    pub open spec fn rows_to_skip(self) -> Option<int> {
        match self.offset {
            None => None,
            Some(offset) => match self.limit {
                Some(limit) => Some(offset * limit),
                None => Some(offset as int),
            },
        }
    }
}

impl ItemReadOption {
    /// The request for the most recently published item of `feed`.
    pub fn most_recent_of(feed: i32) -> (r: ItemReadOption)
        ensures
            r@ == most_recent_query(feed),
    {
        ItemReadOption {
            ids: None,
            feed: Some(feed),
            status: None,
            is_saved: None,
            order_by: Some(ItemOrder::PublishedDateDesc),
            limit: Some(1),
            offset: None,
        }
    }

    /// The number of items to pass over, for a store that counts items and
    /// not pages.
    pub fn row_offset(&self) -> (r: Option<u64>)
        requires
            self@.rows_to_skip() matches Some(rows) ==> rows <= u64::MAX,
        ensures
            match self@.rows_to_skip() {
                Some(rows) => r == Some(rows as u64),
                None => r is None,
            },
    {
        match self.offset {
            None => None,
            Some(offset) => match self.limit {
                Some(limit) => Some(offset * limit),
                None => Some(offset),
            },
        }
    }
}

/// A request to change every item that `opt` selects, or every item where
/// there is no `opt`.
#[derive(Debug, Clone, PartialEq, Eq)]
pub struct ItemToUpdateAll {
    pub status: Option<ItemStatus>,
    pub is_saved: Option<bool>,
    pub opt: Option<ItemReadOption>,
}

} // verus!
