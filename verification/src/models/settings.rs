//! The user's settings, and the rules on changing them.

use vstd::prelude::*;
use vstd::string::StringExecFns;

use crate::error::Error;
use crate::text::same_text;

verus! {

/// The settings that a user can read.
#[derive(Debug, Clone, Copy, PartialEq, Eq, Structural)]
pub enum SettingKey {
    /// The pause between two cycles, in seconds.
    PollingFrequency,
    /// Whether new items are announced.
    Notification,
    DbSchemeVersion,
    Theme,
    ItemsOrder,
    /// The proxy through which feeds are fetched.
    Proxy,
}

impl SettingKey {
    /// The word that the store keeps for this key.
    pub open spec fn key(self) -> Seq<char> {
        match self {
            SettingKey::PollingFrequency => "polling_frequency"@,
            SettingKey::Notification => "notification"@,
            SettingKey::DbSchemeVersion => "db_scheme_version"@,
            SettingKey::Theme => "theme"@,
            SettingKey::ItemsOrder => "items_order"@,
            SettingKey::Proxy => "proxy"@,
        }
    }

    /// The key that `key` is the word for.
    pub open spec fn of_key(key: Seq<char>) -> Option<SettingKey> {
        if key == "polling_frequency"@ {
            Some(SettingKey::PollingFrequency)
        } else if key == "notification"@ {
            Some(SettingKey::Notification)
        } else if key == "db_scheme_version"@ {
            Some(SettingKey::DbSchemeVersion)
        } else if key == "theme"@ {
            Some(SettingKey::Theme)
        } else if key == "items_order"@ {
            Some(SettingKey::ItemsOrder)
        } else if key == "proxy"@ {
            Some(SettingKey::Proxy)
        } else {
            None
        }
    }

    /// The word that the store keeps for this key.
    pub fn to_string(&self) -> (r: String)
        ensures
            r@ == self.key(),
    {
        match self {
            SettingKey::PollingFrequency => String::from_str("polling_frequency"),
            SettingKey::Notification => String::from_str("notification"),
            SettingKey::DbSchemeVersion => String::from_str("db_scheme_version"),
            SettingKey::Theme => String::from_str("theme"),
            SettingKey::ItemsOrder => String::from_str("items_order"),
            SettingKey::Proxy => String::from_str("proxy"),
        }
    }

    /// Reads a key from its word. Any other text fails with
    /// `InvalidEnumKey`, which names the text and this enum.
    pub fn from_str(x: &str) -> (r: Result<SettingKey, Error>)
        ensures
            match SettingKey::of_key(x@) {
                Some(key) => r == Ok::<SettingKey, Error>(key),
                None => r matches Err(Error::InvalidEnumKey(key, name)) && key@ == x@ && name@
                    == "SettingKey"@,
            },
    {
        if same_text(x, "polling_frequency") {
            Ok(SettingKey::PollingFrequency)
        } else if same_text(x, "notification") {
            Ok(SettingKey::Notification)
        } else if same_text(x, "db_scheme_version") {
            Ok(SettingKey::DbSchemeVersion)
        } else if same_text(x, "theme") {
            Ok(SettingKey::Theme)
        } else if same_text(x, "items_order") {
            Ok(SettingKey::ItemsOrder)
        } else if same_text(x, "proxy") {
            Ok(SettingKey::Proxy)
        } else {
            Err(Error::InvalidEnumKey(x.to_owned(), String::from_str("SettingKey")))
        }
    }
}

/// Reading back the word of a key gives that key.
pub proof fn lemma_setting_key_round_trip(key: SettingKey)
    ensures
        SettingKey::of_key(key.key()) == Some(key),
{
    reveal_strlit("polling_frequency");
    reveal_strlit("notification");
    reveal_strlit("db_scheme_version");
    reveal_strlit("theme");
    reveal_strlit("items_order");
    reveal_strlit("proxy");
    // The six words differ in length or in their first letter.
    assert("polling_frequency"@.len() == 17 && "polling_frequency"@[0] == 'p');
    assert("notification"@.len() == 12);
    assert("db_scheme_version"@.len() == 17 && "db_scheme_version"@[0] == 'd');
    assert("theme"@.len() == 5 && "theme"@[0] == 't');
    assert("items_order"@.len() == 11);
    assert("proxy"@.len() == 5 && "proxy"@[0] == 'p');
}

/// A setting as the store keeps it.
#[derive(Debug, Clone, PartialEq, Eq)]
pub struct Setting {
    pub key: SettingKey,
    pub value: String,
}

/// A request to give the setting `key` the value `value`.
#[derive(Debug, Clone, PartialEq, Eq)]
pub struct SettingToUpdate {
    pub key: SettingKey,
    pub value: String,
}

/// The 32-bit signed integer that `text` is as `str::parse` reads it: decimal
/// digits with an optional sign in front and nothing else; `None` where it
/// is none.
pub uninterp spec fn i32_of_text(text: Seq<char>) -> Option<i32>;

/// Calls `str::parse::<i32>`: the result is `i32_of_text(text)`, and `None`
/// exactly where std reports an error.
#[verifier::external_body]
fn parse_i32(text: &str) -> (r: Option<i32>)
    ensures
        r == i32_of_text(text@),
{
    text.parse::<i32>().ok()
}

/// The truth value that `text` spells: "true" or "false", and nothing else.
pub open spec fn bool_of_text(text: Seq<char>) -> Option<bool> {
    if text == "true"@ {
        Some(true)
    } else if text == "false"@ {
        Some(false)
    } else {
        None
    }
}

/// Reads a truth value: "true" or "false", and nothing else.
pub fn parse_bool(text: &str) -> (r: Option<bool>)
    ensures
        r == bool_of_text(text@),
{
    if same_text(text, "true") {
        Some(true)
    } else if same_text(text, "false") {
        Some(false)
    } else {
        None
    }
}

/// The shortest pause between two cycles that can be set, in seconds.
pub const MIN_POLLING_FREQUENCY: i32 = 30;

/// Why a change of a setting is refused, if it is:
///
/// - the version of the database scheme is never changed: `Forbidden`;
/// - a polling frequency that is a number under thirty: `Unknown`;
/// - the word "true" as the notification flag: `Unknown`.
///
/// Every other change is accepted.
pub open spec fn refusal(key: SettingKey, value: Seq<char>) -> Option<Error> {
    match key {
        SettingKey::DbSchemeVersion => Some(Error::Forbidden),
        SettingKey::PollingFrequency => match i32_of_text(value) {
            Some(seconds) if seconds < MIN_POLLING_FREQUENCY => Some(Error::Unknown),
            _ => None,
        },
        SettingKey::Notification => if bool_of_text(value) == Some(true) {
            Some(Error::Unknown)
        } else {
            None
        },
        _ => None,
    }
}

/// Decides, for a polling frequency, whether `parsed`, the number that the
/// new value is, is refused.
pub fn check_polling_frequency(parsed: Option<i32>) -> (r: Result<(), Error>)
    ensures
        match parsed {
            Some(seconds) if seconds < MIN_POLLING_FREQUENCY => r == Err::<(), Error>(
                Error::Unknown,
            ),
            _ => r is Ok,
        },
{
    match parsed {
        Some(seconds) => if seconds < MIN_POLLING_FREQUENCY {
            Err(Error::Unknown)
        } else {
            Ok(())
        },
        None => Ok(()),
    }
}

impl SettingToUpdate {
    /// Whether the store may apply this change; see [`refusal`].
    pub fn validate(&self) -> (r: Result<(), Error>)
        ensures
            match refusal(self.key, self.value@) {
                Some(error) => r == Err::<(), Error>(error),
                None => r is Ok,
            },
    {
        match self.key {
            SettingKey::PollingFrequency => check_polling_frequency(parse_i32(self.value.as_str())),
            SettingKey::Notification => match parse_bool(self.value.as_str()) {
                Some(true) => Err(Error::Unknown),
                _ => Ok(()),
            },
            SettingKey::DbSchemeVersion => Err(Error::Forbidden),
            _ => Ok(()),
        }
    }
}

} // verus!
