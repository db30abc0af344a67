//! Subscribed feeds.

use vstd::prelude::*;
use vstd::string::StringExecFns;

use crate::error::Error;
use crate::text::same_text;
use crate::time::Timestamp;

verus! {

/// Whether a feed takes part in synchronisation.
#[derive(Debug, Clone, Copy, PartialEq, Eq, Structural)]
pub enum FeedStatus {
    Subscribed,
    Unsubscribed,
}

impl FeedStatus {
    /// The word that the store keeps for this status.
    pub open spec fn key(self) -> Seq<char> {
        match self {
            FeedStatus::Subscribed => "subscribed"@,
            FeedStatus::Unsubscribed => "unsubscribed"@,
        }
    }

    /// The status that `key` is the word for.
    pub open spec fn of_key(key: Seq<char>) -> Option<FeedStatus> {
        if key == "subscribed"@ {
            Some(FeedStatus::Subscribed)
        } else if key == "unsubscribed"@ {
            Some(FeedStatus::Unsubscribed)
        } else {
            None
        }
    }

    /// The word that the store keeps for this status.
    pub fn to_string(&self) -> (r: String)
        ensures
            r@ == self.key(),
    {
        match self {
            FeedStatus::Subscribed => String::from_str("subscribed"),
            FeedStatus::Unsubscribed => String::from_str("unsubscribed"),
        }
    }

    /// Reads a status from its word. Any other text fails with
    /// `InvalidEnumKey`, which names the text and this enum.
    pub fn from_str(x: &str) -> (r: Result<FeedStatus, Error>)
        ensures
            match FeedStatus::of_key(x@) {
                Some(status) => r == Ok::<FeedStatus, Error>(status),
                None => r matches Err(Error::InvalidEnumKey(key, name)) && key@ == x@ && name@
                    == "FeedStatus"@,
            },
    {
        if same_text(x, "subscribed") {
            Ok(FeedStatus::Subscribed)
        } else if same_text(x, "unsubscribed") {
            Ok(FeedStatus::Unsubscribed)
        } else {
            Err(Error::InvalidEnumKey(x.to_owned(), String::from_str("FeedStatus")))
        }
    }
}

/// Reading back the word of a status gives that status.
pub proof fn lemma_feed_status_round_trip(status: FeedStatus)
    ensures
        FeedStatus::of_key(status.key()) == Some(status),
{
    reveal_strlit("subscribed");
    reveal_strlit("unsubscribed");
    assert("subscribed"@.len() != "unsubscribed"@.len());
}

/// A feed as the store keeps it.
#[derive(Debug, Clone, PartialEq, Eq)]
pub struct Feed {
    pub id: i32,
    pub title: String,
    pub link: String,
    pub status: FeedStatus,
    pub checked_at: Timestamp,
    pub fetch_old_items: bool,
}

/// What a [`Feed`] holds.
pub struct FeedModel {
    pub id: i32,
    pub title: Seq<char>,
    pub link: Seq<char>,
    pub status: FeedStatus,
    pub checked_at: Timestamp,
    pub fetch_old_items: bool,
}

impl DeepView for Feed {
    type V = FeedModel;

    open spec fn deep_view(&self) -> FeedModel {
        FeedModel {
            id: self.id,
            title: self.title@,
            link: self.link@,
            status: self.status,
            checked_at: self.checked_at,
            fetch_old_items: self.fetch_old_items,
        }
    }
}

impl View for Feed {
    type V = FeedModel;

    open spec fn view(&self) -> FeedModel {
        self.deep_view()
    }
}

/// A request to subscribe to a feed.
#[derive(Debug, Clone, PartialEq, Eq)]
pub struct FeedToCreate {
    pub title: String,
    pub link: String,
    pub fetch_old_items: bool,
}

/// A request to change the feed `id`: each field that is present replaces
/// the stored one.
#[derive(Debug, Clone, PartialEq, Eq)]
pub struct FeedToUpdate {
    pub id: i32,
    pub title: Option<String>,
    pub link: Option<String>,
    pub status: Option<FeedStatus>,
    pub checked_at: Option<Timestamp>,
    pub fetch_old_items: Option<bool>,
}

/// What a [`FeedToUpdate`] holds.
pub struct FeedToUpdateModel {
    pub id: i32,
    pub title: Option<Seq<char>>,
    pub link: Option<Seq<char>>,
    pub status: Option<FeedStatus>,
    pub checked_at: Option<Timestamp>,
    pub fetch_old_items: Option<bool>,
}

impl DeepView for FeedToUpdate {
    type V = FeedToUpdateModel;

    open spec fn deep_view(&self) -> FeedToUpdateModel {
        FeedToUpdateModel {
            id: self.id,
            title: self.title.deep_view(),
            link: self.link.deep_view(),
            status: self.status,
            checked_at: self.checked_at,
            fetch_old_items: self.fetch_old_items,
        }
    }
}

impl View for FeedToUpdate {
    type V = FeedToUpdateModel;

    open spec fn view(&self) -> FeedToUpdateModel {
        self.deep_view()
    }
}

/// The request that records that the feed `id` was checked at `at`, and
/// changes nothing else.
pub open spec fn checked_update(id: i32, at: Timestamp) -> FeedToUpdateModel {
    FeedToUpdateModel {
        id,
        title: None,
        link: None,
        status: None,
        checked_at: Some(at),
        fetch_old_items: None,
    }
}

impl FeedToUpdate {
    /// The request that records that the feed `id` was checked at `at`, and
    /// changes nothing else.
    pub fn checked(id: i32, at: Timestamp) -> (r: FeedToUpdate)
        ensures
            r@ == checked_update(id, at),
    {
        FeedToUpdate {
            id,
            title: None,
            link: None,
            status: None,
            checked_at: Some(at),
            fetch_old_items: None,
        }
    }
}

} // verus!
