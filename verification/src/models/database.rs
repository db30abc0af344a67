//! The table of settings: its names, and what it holds at first.

use vstd::prelude::*;
use vstd::string::StringExecFns;

verus! {

/// The table of settings and its columns.
#[derive(Debug, Clone, Copy, PartialEq, Eq, Structural)]
pub enum Settings {
    Table,
    Key,
    Value,
}

impl Settings {
    /// The name under which the store knows the table or the column.
    pub open spec fn name(self) -> Seq<char> {
        match self {
            Settings::Table => "settings"@,
            Settings::Key => "key"@,
            Settings::Value => "value"@,
        }
    }

    /// The name under which the store knows the table or the column.
    pub fn to_string(&self) -> (r: String)
        ensures
            r@ == self.name(),
    {
        match self {
            Settings::Table => String::from_str("settings"),
            Settings::Key => String::from_str("key"),
            Settings::Value => String::from_str("value"),
        }
    }
}

/// The settings of a new installation, each as key and value.
pub open spec fn initial_settings() -> Seq<(Seq<char>, Seq<char>)> {
    seq![
        ("db_scheme_version"@, "1"@),
        ("polling_frequency"@, "300"@),
        ("notification"@, "1"@),
        ("theme"@, "system"@),
        ("items_order"@, "ReceivedDateDesc"@),
        ("proxy"@, ""@),
        ("fetch_old_items"@, "1"@),
        ("upstream_url"@, ""@),
    ]
}

fn pair(key: &str, value: &str) -> (r: (String, String))
    ensures
        r.deep_view() == (key@, value@),
{
    (String::from_str(key), String::from_str(value))
}

/// The settings that are put into the store of a new installation, each as
/// key and value. A setting that the store holds already keeps its value.
pub fn default_settings() -> (r: Vec<(String, String)>)
    ensures
        r.deep_view() == initial_settings(),
{
    let mut out: Vec<(String, String)> = Vec::new();
    out.push(pair("db_scheme_version", "1"));
    out.push(pair("polling_frequency", "300"));
    out.push(pair("notification", "1"));
    out.push(pair("theme", "system"));
    out.push(pair("items_order", "ReceivedDateDesc"));
    out.push(pair("proxy", ""));
    out.push(pair("fetch_old_items", "1"));
    out.push(pair("upstream_url", ""));
    out
}

} // verus!
