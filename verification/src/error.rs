//! The library's error type.

use vstd::prelude::*;
use vstd::string::StringExecFns;

verus! {

/// What can go wrong in the library, and what the caller reports of its own
/// collaborators (the store, the query builder, the network, the file system).
#[derive(Debug, Clone, PartialEq, Eq)]
pub enum Error {
    /// A value that a setting does not accept.
    InvalidValue(String),
    /// A key (first) that is no variant of the named enum (second).
    InvalidEnumKey(String, String),
    /// A link behind which no feed was found.
    InvalidFeedLink(String),
    /// The operation is not allowed.
    Forbidden,
    /// The document is neither Atom nor RSS.
    SyndicationParsingFailure,
    /// An empty string where text was needed.
    EmptyString,
    /// Anything else.
    Unknown,
    /// The store failed; the text is its own message.
    RusqliteError(String),
    /// A query could not be built; the text is the builder's message.
    SeaQueryError(String),
    /// The network failed; the text is the client's message.
    ReqwestError(String),
    /// Reading or writing failed; the text is the system's message.
    IoError(String),
}

impl Error {
    /// The text that describes `self`.
    pub open spec fn message(self) -> Seq<char> {
        match self {
            Error::InvalidValue(v) => "invalid value `"@ + v@ + "`"@,
            Error::InvalidEnumKey(k, e) => "invalid key `"@ + k@ + "` for `"@ + e@ + "`"@,
            Error::InvalidFeedLink(l) => "invalid feed link `"@ + l@ + "`"@,
            Error::Forbidden => "forbidden"@,
            Error::SyndicationParsingFailure => "failed to parse syndication feed"@,
            Error::EmptyString => "empty string"@,
            Error::Unknown => "unknown"@,
            Error::RusqliteError(m) => m@,
            Error::SeaQueryError(m) => m@,
            Error::ReqwestError(m) => m@,
            Error::IoError(m) => m@,
        }
    }

    /// Describes the error in words, for a user to read.
    pub fn to_string(&self) -> (r: String)
        ensures
            r@ == self.message(),
    {
        match self {
            Error::InvalidValue(v) => {
                let mut s = String::from_str("invalid value `");
                s.append(v.as_str());
                s.append("`");
                s
            },
            Error::InvalidEnumKey(k, e) => {
                let mut s = String::from_str("invalid key `");
                s.append(k.as_str());
                s.append("` for `");
                s.append(e.as_str());
                s.append("`");
                s
            },
            Error::InvalidFeedLink(l) => {
                let mut s = String::from_str("invalid feed link `");
                s.append(l.as_str());
                s.append("`");
                s
            },
            Error::Forbidden => String::from_str("forbidden"),
            Error::SyndicationParsingFailure => String::from_str("failed to parse syndication feed"),
            Error::EmptyString => String::from_str("empty string"),
            Error::Unknown => String::from_str("unknown"),
            Error::RusqliteError(m) => m.clone(),
            Error::SeaQueryError(m) => m.clone(),
            Error::ReqwestError(m) => m.clone(),
            Error::IoError(m) => m.clone(),
        }
    }
}

} // verus!
