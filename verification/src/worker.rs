//! What the background worker decides between two cycles: how long to pause,
//! whether and what to announce.

use vstd::prelude::*;
use vstd::string::StringExecFns;

use crate::error::Error;
use crate::models::items::{ItemToCreate, ItemToCreateModel};
use crate::models::settings::{bool_of_text, parse_bool, Setting};

verus! {

/// The pause between two cycles where none is set, in seconds.
pub const DEFAULT_POLLING_FREQUENCY: u64 = 300;

/// The largest number of new items that are announced one by one.
pub const MAX_SINGLE_NOTICES: usize = 3;

/// The 64-bit unsigned integer that `text` is as `str::parse` reads it:
/// decimal digits with an optional "+" in front and nothing else; `None`
/// where it is none.
pub uninterp spec fn u64_of_text(text: Seq<char>) -> Option<u64>;

/// Calls `str::parse::<u64>`: the result is `u64_of_text(text)`, and `None`
/// exactly where std reports an error.
#[verifier::external_body]
fn parse_u64(text: &str) -> (r: Option<u64>)
    ensures
        r == u64_of_text(text@),
{
    text.parse::<u64>().ok()
}

/// `text` with every match of the regular expression `pattern` replaced by
/// `replacement`, from left to right and without overlap; `None` where
/// `pattern` is no regular expression.
pub uninterp spec fn regex_replaced(
    pattern: Seq<char>,
    text: Seq<char>,
    replacement: Seq<char>,
) -> Option<Seq<char>>;

/// Compiles `pattern` with `regex::Regex::new` and applies
/// `Regex::replace_all` to `text`: the result is
/// `regex_replaced(pattern, text, replacement)`, and `None` exactly where the
/// pattern does not compile.
#[verifier::external_body]
fn regex_replace_all(pattern: &str, text: &str, replacement: &str) -> (r: Option<String>)
    ensures
        r.deep_view() == regex_replaced(pattern@, text@, replacement@),
{
    regex::Regex::new(pattern).ok().map(|re| re.replace_all(text, replacement).into_owned())
}

/// The digit `d` as a character.
pub open spec fn digit(d: nat) -> char
    recommends
        d < 10,
{
    if d == 0 {
        '0'
    } else if d == 1 {
        '1'
    } else if d == 2 {
        '2'
    } else if d == 3 {
        '3'
    } else if d == 4 {
        '4'
    } else if d == 5 {
        '5'
    } else if d == 6 {
        '6'
    } else if d == 7 {
        '7'
    } else if d == 8 {
        '8'
    } else {
        '9'
    }
}

/// `n` in decimal notation, without leading zeros.
pub open spec fn decimal(n: nat) -> Seq<char>
    decreases n,
{
    if n < 10 {
        seq![digit(n)]
    } else {
        decimal(n / 10).push(digit(n % 10))
    }
}

/// Calls `usize::to_string`, which writes the number in decimal notation:
/// the result is `decimal(n)`.
#[verifier::external_body]
fn count_to_string(n: usize) -> (r: String)
    ensures
        r@ == decimal(n as nat),
{
    n.to_string()
}

/// The proxy through which feeds are fetched: the stored value, or none
/// where the setting could not be read.
pub fn proxy(read: Result<Setting, Error>) -> (r: Option<String>)
    ensures
        match read {
            Ok(setting) => r == Some(setting.value),
            Err(_) => r is None,
        },
{
    match read {
        Ok(setting) => Some(setting.value),
        Err(_) => None,
    }
}

/// The pause for the stored text `value`, given `parsed`, the number that
/// the text is.
pub fn polling_frequency_of(parsed: Option<u64>) -> (r: u64)
    ensures
        r == match parsed {
            Some(seconds) => seconds,
            None => DEFAULT_POLLING_FREQUENCY,
        },
{
    match parsed {
        Some(seconds) => seconds,
        None => DEFAULT_POLLING_FREQUENCY,
    }
}

/// The pause between two cycles, in seconds: the stored number, or 300
/// where the setting could not be read or is no number.
pub fn polling_frequency(read: &Result<Setting, Error>) -> (r: u64)
    ensures
        r == match read {
            Ok(setting) => match u64_of_text(setting.value@) {
                Some(seconds) => seconds,
                None => DEFAULT_POLLING_FREQUENCY,
            },
            Err(_) => DEFAULT_POLLING_FREQUENCY,
        },
{
    match read {
        Ok(setting) => polling_frequency_of(parse_u64(setting.value.as_str())),
        Err(_) => DEFAULT_POLLING_FREQUENCY,
    }
}

/// Whether new items are announced: always, unless the stored value is the
/// word "false".
pub fn notification(read: &Result<Setting, Error>) -> (r: bool)
    ensures
        r == match read {
            Ok(setting) => bool_of_text(setting.value@) != Some(false),
            Err(_) => true,
        },
{
    match read {
        Ok(setting) => match parse_bool(setting.value.as_str()) {
            Some(flag) => flag,
            None => true,
        },
        Err(_) => true,
    }
}

/// An announcement for the user.
#[derive(Debug, PartialEq, Eq)]
pub struct Notice {
    pub title: String,
    pub body: String,
}

/// What a [`Notice`] holds.
pub struct NoticeModel {
    pub title: Seq<char>,
    pub body: Seq<char>,
}

impl DeepView for Notice {
    type V = NoticeModel;

    open spec fn deep_view(&self) -> NoticeModel {
        NoticeModel { title: self.title@, body: self.body@ }
    }
}

impl View for Notice {
    type V = NoticeModel;

    open spec fn view(&self) -> NoticeModel {
        self.deep_view()
    }
}

/// The regular expression for a tag of markup: from "<" to the nearest ">".
pub open spec fn tag_pattern() -> Seq<char> {
    "<.*?>"@
}

/// `description` without its tags of markup, or as it is where the tags
/// could not be searched for.
pub open spec fn plain_text(description: Seq<char>) -> Seq<char> {
    match regex_replaced(tag_pattern(), description, Seq::empty()) {
        Some(text) => text,
        None => description,
    }
}

/// The announcement of one new item: its title, and its description without
/// tags.
pub open spec fn notice_of(item: ItemToCreateModel) -> NoticeModel {
    NoticeModel { title: item.title, body: plain_text(item.description) }
}

/// The announcement of `count` new items at once.
pub open spec fn summary_of(count: nat) -> NoticeModel {
    NoticeModel {
        title: "New items arrived"@,
        body: "There are "@ + decimal(count) + " items to read"@,
    }
}

/// The announcements for the new items `items`: one for each where there are
/// at most three, and a single summary where there are more.
pub open spec fn notices(items: Seq<ItemToCreateModel>) -> Seq<NoticeModel> {
    if items.len() <= MAX_SINGLE_NOTICES {
        items.map_values(|item: ItemToCreateModel| notice_of(item))
    } else {
        seq![summary_of(items.len())]
    }
}

/// The announcement of `item`, given `stripped`, its description without
/// tags where the tags could be searched for: the body is `stripped`, or the
/// description as it is.
pub fn notice_for(item: &ItemToCreate, stripped: Option<String>) -> (r: Notice)
    ensures
        r@.title == item@.title,
        r@.body == match stripped {
            Some(text) => text@,
            None => item@.description,
        },
{
    let body = match stripped {
        Some(text) => text,
        None => item.description.clone(),
    };
    Notice { title: item.title.clone(), body }
}

/// The announcements for the new items `args`; see [`notices`].
pub fn notify(args: &Vec<ItemToCreate>) -> (r: Vec<Notice>)
    ensures
        r.deep_view() == notices(args.deep_view()),
{
    let mut out: Vec<Notice> = Vec::new();
    if args.len() <= MAX_SINGLE_NOTICES {
        let mut i: usize = 0;
        while i < args.len()
            invariant
                i <= args.len(),
                out.len() == i,
                forall|k: int|
                    0 <= k < i ==> out[k].deep_view() == notice_of(#[trigger] args[k].deep_view()),
            decreases args.len() - i,
        {
            let stripped = regex_replace_all("<.*?>", args[i].description.as_str(), "");
            proof {
                reveal_strlit("");
                assert(""@ =~= Seq::<char>::empty());
            }
            out.push(notice_for(&args[i], stripped));
            i += 1;
        }
    } else {
        let mut body = String::from_str("There are ");
        body.append(count_to_string(args.len()).as_str());
        body.append(" items to read");
        out.push(Notice { title: String::from_str("New items arrived"), body });
    }
    out
}

/// What the worker does after a cycle.
#[derive(Debug, PartialEq, Eq)]
pub struct CycleReport {
    /// The announcements to show.
    pub notices: Vec<Notice>,
    /// Whether the user interface is told that feeds were updated.
    pub refresh: bool,
    /// The complaint to write to the error log.
    pub complaint: Option<String>,
}

/// What a [`CycleReport`] holds.
#[verifier::ext_equal]
pub struct CycleReportModel {
    pub notices: Seq<NoticeModel>,
    pub refresh: bool,
    pub complaint: Option<Seq<char>>,
}

impl DeepView for CycleReport {
    type V = CycleReportModel;

    open spec fn deep_view(&self) -> CycleReportModel {
        CycleReportModel {
            notices: self.notices.deep_view(),
            refresh: self.refresh,
            complaint: self.complaint.deep_view(),
        }
    }
}

impl View for CycleReport {
    type V = CycleReportModel;

    open spec fn view(&self) -> CycleReportModel {
        self.deep_view()
    }
}

/// What follows a cycle that took `inserted` into the store, or failed:
///
/// - new items: the user interface is refreshed, and the items are announced
///   where `notification` is on;
/// - no new items: nothing;
/// - a failure: a complaint that names it.
pub open spec fn report_of(
    outcome: Result<Seq<ItemToCreateModel>, Error>,
    notification: bool,
) -> CycleReportModel {
    match outcome {
        Ok(inserted) => CycleReportModel {
            notices: if inserted.len() > 0 && notification {
                notices(inserted)
            } else {
                Seq::empty()
            },
            refresh: inserted.len() > 0,
            complaint: None,
        },
        Err(error) => CycleReportModel {
            notices: Seq::empty(),
            refresh: false,
            complaint: Some("Error fetching new items: "@ + error.message()),
        },
    }
}

/// The outcome of a cycle as [`report_of`] reads it.
pub open spec fn outcome_model(outcome: Result<Vec<ItemToCreate>, Error>) -> Result<
    Seq<ItemToCreateModel>,
    Error,
> {
    match outcome {
        Ok(inserted) => Ok(inserted.deep_view()),
        Err(error) => Err(error),
    }
}

/// Decides what follows a cycle with this `outcome`; see [`report_of`].
///
/// `notification` says whether new items are announced.
pub fn report_cycle(outcome: &Result<Vec<ItemToCreate>, Error>, notification: bool) -> (r:
    CycleReport)
    ensures
        r@ == report_of(outcome_model(*outcome), notification),
{
    match outcome {
        Ok(inserted) => {
            let announced = if inserted.len() > 0 && notification {
                notify(inserted)
            } else {
                Vec::new()
            };
            CycleReport { notices: announced, refresh: inserted.len() > 0, complaint: None }
        },
        Err(error) => {
            let mut complaint = String::from_str("Error fetching new items: ");
            complaint.append(error.to_string().as_str());
            CycleReport { notices: Vec::new(), refresh: false, complaint: Some(complaint) }
        },
    }
}

} // verus!
