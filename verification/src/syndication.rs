//! Feed documents: telling Atom from RSS, and turning the entries of either
//! into one common shape.

use vstd::prelude::*;

use crate::error::Error;
use crate::text::{all_trimmed, clone_text, join, joined, trim, trim_all, trimmed};
use crate::time::Timestamp;

verus! {

/// One entry of a feed as the document gives it, before it is made ready for
/// the store.
#[derive(Debug, PartialEq, Eq)]
pub struct RawItem {
    pub title: String,
    pub author: Option<String>,
    pub link: Option<String>,
    pub content: Option<String>,
    pub published_at: Option<Timestamp>,
}

/// What a [`RawItem`] holds.
pub struct RawItemModel {
    pub title: Seq<char>,
    pub author: Option<Seq<char>>,
    pub link: Option<Seq<char>>,
    pub content: Option<Seq<char>>,
    pub published_at: Option<Timestamp>,
}

impl DeepView for RawItem {
    type V = RawItemModel;

    open spec fn deep_view(&self) -> RawItemModel {
        RawItemModel {
            title: self.title@,
            author: self.author.deep_view(),
            link: self.link.deep_view(),
            content: self.content.deep_view(),
            published_at: self.published_at,
        }
    }
}

impl View for RawItem {
    type V = RawItemModel;

    open spec fn view(&self) -> RawItemModel {
        self.deep_view()
    }
}

impl Clone for RawItem {
    fn clone(&self) -> (r: RawItem)
        ensures
            r@ == self@,
    {
        RawItem {
            title: self.title.clone(),
            author: clone_text(&self.author),
            link: clone_text(&self.link),
            content: clone_text(&self.content),
            published_at: self.published_at,
        }
    }
}

/// The content element of an Atom entry.
#[derive(Debug, Clone, PartialEq, Eq)]
pub struct AtomContent {
    /// The text inside the element, if it has any.
    pub value: Option<String>,
}

/// An entry of an Atom document: the parts of it that this library reads.
#[derive(Debug, Clone, PartialEq, Eq)]
pub struct AtomEntry {
    pub title: String,
    /// The names of the authors, in document order.
    pub authors: Vec<String>,
    /// The targets of the links, in document order.
    pub links: Vec<String>,
    pub content: Option<AtomContent>,
    pub published: Option<Timestamp>,
    pub updated: Timestamp,
}

/// An Atom document: its title and its entries in document order.
#[derive(Debug, Clone, PartialEq, Eq)]
pub struct AtomFeed {
    pub title: String,
    pub entries: Vec<AtomEntry>,
}

/// An item of an RSS document: the parts of it that this library reads.
#[derive(Debug, Clone, PartialEq, Eq)]
pub struct RssItem {
    pub title: Option<String>,
    pub author: Option<String>,
    /// The Dublin Core creators, where the item carries that extension.
    pub creators: Option<Vec<String>>,
    pub link: Option<String>,
    pub description: Option<String>,
    /// The publication date as written in the document.
    pub pub_date: Option<String>,
}

/// An RSS document: its title and its items in document order.
#[derive(Debug, Clone, PartialEq, Eq)]
pub struct RssChannel {
    pub title: String,
    pub items: Vec<RssItem>,
}

/// What an [`AtomEntry`] holds.
pub struct AtomEntryModel {
    pub title: Seq<char>,
    pub authors: Seq<Seq<char>>,
    pub links: Seq<Seq<char>>,
    pub content: Option<Option<Seq<char>>>,
    pub published: Option<Timestamp>,
    pub updated: Timestamp,
}

/// What an [`AtomFeed`] holds.
pub struct AtomFeedModel {
    pub title: Seq<char>,
    pub entries: Seq<AtomEntryModel>,
}

/// What an [`RssItem`] holds.
pub struct RssItemModel {
    pub title: Option<Seq<char>>,
    pub author: Option<Seq<char>>,
    pub creators: Option<Seq<Seq<char>>>,
    pub link: Option<Seq<char>>,
    pub description: Option<Seq<char>>,
    pub pub_date: Option<Seq<char>>,
}

/// What an [`RssChannel`] holds.
pub struct RssChannelModel {
    pub title: Seq<char>,
    pub items: Seq<RssItemModel>,
}

impl DeepView for AtomContent {
    type V = Option<Seq<char>>;

    open spec fn deep_view(&self) -> Option<Seq<char>> {
        self.value.deep_view()
    }
}

impl DeepView for AtomEntry {
    type V = AtomEntryModel;

    open spec fn deep_view(&self) -> AtomEntryModel {
        AtomEntryModel {
            title: self.title@,
            authors: self.authors.deep_view(),
            links: self.links.deep_view(),
            content: self.content.deep_view(),
            published: self.published,
            updated: self.updated,
        }
    }
}

impl DeepView for AtomFeed {
    type V = AtomFeedModel;

    open spec fn deep_view(&self) -> AtomFeedModel {
        AtomFeedModel { title: self.title@, entries: self.entries.deep_view() }
    }
}

impl DeepView for RssItem {
    type V = RssItemModel;

    open spec fn deep_view(&self) -> RssItemModel {
        RssItemModel {
            title: self.title.deep_view(),
            author: self.author.deep_view(),
            creators: self.creators.deep_view(),
            link: self.link.deep_view(),
            description: self.description.deep_view(),
            pub_date: self.pub_date.deep_view(),
        }
    }
}

impl DeepView for RssChannel {
    type V = RssChannelModel;

    open spec fn deep_view(&self) -> RssChannelModel {
        RssChannelModel { title: self.title@, items: self.items.deep_view() }
    }
}

/// The Atom document that `content` is, or `None` where it is none.
pub uninterp spec fn atom_document(content: Seq<char>) -> Option<AtomFeedModel>;

/// The RSS document that `content` is, or `None` where it is none.
pub uninterp spec fn rss_document(content: Seq<char>) -> Option<RssChannelModel>;

/// The instant that `text` names when read as an RFC 2822 date, or `None`
/// where it is no such date.
pub uninterp spec fn rfc2822_instant(text: Seq<char>) -> Option<Timestamp>;

/// Parses `content` with `atom_syndication::Feed::from_str` and copies out the
/// title and, of each entry, the title, the authors' names, the links'
/// targets, the content's value and the two dates, each date as the instant
/// that `chrono::DateTime::timestamp` and `timestamp_subsec_nanos` give. The
/// result is `atom_document(content)`, and `None` exactly where the parser
/// fails.
#[verifier::external_body]
fn parse_atom(content: &str) -> (r: Option<AtomFeed>)
    ensures
        r.deep_view() == atom_document(content@),
{
    let feed = content.parse::<atom_syndication::Feed>().ok()?;
    let at = |d: chrono::DateTime<chrono::FixedOffset>| Timestamp { secs: d.timestamp(), nanos: d.timestamp_subsec_nanos() };
    Some(AtomFeed {
        title: feed.title.value,
        entries: feed.entries.into_iter().map(|e| AtomEntry {
            title: e.title.value,
            authors: e.authors.into_iter().map(|a| a.name).collect(),
            links: e.links.into_iter().map(|l| l.href).collect(),
            content: e.content.map(|c| AtomContent { value: c.value }),
            published: e.published.map(at),
            updated: at(e.updated),
        }).collect(),
    })
}

/// Parses `content` with `rss::Channel::from_str` and copies out the title
/// and, of each item, the title, author, Dublin Core creators, link,
/// description and publication date as written. The result is
/// `rss_document(content)`, and `None` exactly where the parser fails.
#[verifier::external_body]
fn parse_rss(content: &str) -> (r: Option<RssChannel>)
    ensures
        r.deep_view() == rss_document(content@),
{
    let channel = content.parse::<rss::Channel>().ok()?;
    Some(RssChannel {
        title: channel.title,
        items: channel.items.into_iter().map(|i| RssItem {
            title: i.title,
            author: i.author,
            creators: i.dublin_core_ext.map(|d| d.creators),
            link: i.link,
            description: i.description,
            pub_date: i.pub_date,
        }).collect(),
    })
}

/// Parses `text` with `chrono::DateTime::parse_from_rfc2822` and gives the
/// instant of the date it found, as `DateTime::timestamp` and
/// `timestamp_subsec_nanos` give it: `rfc2822_instant(text)`, which is `None`
/// exactly where chrono rejects the text.
#[verifier::external_body]
fn parse_rfc2822(text: &str) -> (r: Option<Timestamp>)
    ensures
        r == rfc2822_instant(text@),
{
    chrono::DateTime::parse_from_rfc2822(text).ok().map(
        |d| Timestamp { secs: d.timestamp(), nanos: d.timestamp_subsec_nanos() },
    )
}

/// The separator between the names of several authors.
pub open spec fn author_separator() -> Seq<char> {
    ","@
}

/// The title of an RSS item that has none.
pub open spec fn untitled() -> Seq<char> {
    "Untitled"@
}

/// The raw item that an Atom entry stands for: the title as written; the
/// authors' names, trimmed and joined; the first link; the content's text;
/// and the date of publication or, without one, of the last update.
pub open spec fn atom_raw_item(e: AtomEntryModel) -> RawItemModel {
    RawItemModel {
        title: e.title,
        author: Some(joined(all_trimmed(e.authors), author_separator())),
        link: if e.links.len() > 0 {
            Some(e.links[0])
        } else {
            None
        },
        content: match e.content {
            Some(value) => value,
            None => None,
        },
        published_at: match e.published {
            Some(at) => Some(at),
            None => Some(e.updated),
        },
    }
}

/// The raw item that an RSS item stands for: the trimmed title, or
/// "Untitled"; the trimmed author or, without one, the joined Dublin Core
/// creators; the link; the description; and the publication date where it is
/// a date of RFC 2822.
pub open spec fn rss_raw_item(i: RssItemModel) -> RawItemModel {
    RawItemModel {
        title: trimmed(
            match i.title {
                Some(t) => t,
                None => untitled(),
            },
        ),
        author: match i.author {
            Some(a) => Some(trimmed(a)),
            None => match i.creators {
                Some(c) => Some(joined(c, author_separator())),
                None => None,
            },
        },
        link: i.link,
        content: i.description,
        published_at: match i.pub_date {
            Some(d) => rfc2822_instant(d),
            None => None,
        },
    }
}

/// An Atom entry and an RSS item that say the same come to the same raw
/// item: the format of the document leaves no trace in it. They say the
/// same where the title is the same and has no white space at its ends, the
/// one author of the entry is the author of the item, the first link of the
/// entry is the link of the item, the text of the content is the
/// description, and the date of publication is the date that the item
/// spells.
pub proof fn lemma_formats_agree(entry: AtomEntryModel, item: RssItemModel)
    requires
        item.title == Some(entry.title),
        trimmed(entry.title) == entry.title,
        entry.authors.len() == 1,
        item.author == Some(entry.authors[0]),
        item.link == (if entry.links.len() > 0 {
            Some(entry.links[0])
        } else {
            None
        }),
        item.description == (match entry.content {
            Some(value) => value,
            None => None,
        }),
        entry.published is Some,
        item.pub_date matches Some(date) && rfc2822_instant(date) == entry.published,
    ensures
        atom_raw_item(entry) == rss_raw_item(item),
{
    let names = all_trimmed(entry.authors);
    assert(names.len() == 1);
    assert(joined(names, author_separator()) == trimmed(entry.authors[0]));
}

impl AtomEntry {
    /// The raw item that this entry stands for.
    pub fn raw_item(&self) -> (r: RawItem)
        ensures
            r@ == atom_raw_item(self.deep_view()),
    {
        let names = trim_all(&self.authors);
        let author = join(&names, ",");
        let link = if self.links.len() > 0 {
            Some(self.links[0].clone())
        } else {
            None
        };
        let content = match &self.content {
            Some(c) => clone_text(&c.value),
            None => None,
        };
        let published_at = match self.published {
            Some(at) => Some(at),
            None => Some(self.updated),
        };
        RawItem { title: self.title.clone(), author: Some(author), link, content, published_at }
    }
}

impl RssItem {
    /// The raw item that this item stands for.
    pub fn raw_item(&self) -> (r: RawItem)
        ensures
            r@ == rss_raw_item(self.deep_view()),
    {
        let title = match &self.title {
            Some(t) => trim(t.as_str()),
            None => trim("Untitled"),
        };
        let author = match &self.author {
            Some(a) => Some(trim(a.as_str())),
            None => match &self.creators {
                Some(c) => Some(join(c, ",")),
                None => None,
            },
        };
        let published_at = match &self.pub_date {
            Some(d) => parse_rfc2822(d.as_str()),
            None => None,
        };
        RawItem {
            title,
            author,
            link: clone_text(&self.link),
            content: clone_text(&self.description),
            published_at,
        }
    }
}

/// A feed document of either format.
#[derive(Debug, Clone, PartialEq, Eq)]
pub enum Feed {
    Atom(AtomFeed),
    RSS(RssChannel),
}

/// What a [`Feed`] holds.
pub enum FeedModel {
    Atom(AtomFeedModel),
    RSS(RssChannelModel),
}

impl DeepView for Feed {
    type V = FeedModel;

    open spec fn deep_view(&self) -> FeedModel {
        match self {
            Feed::Atom(a) => FeedModel::Atom(a.deep_view()),
            Feed::RSS(c) => FeedModel::RSS(c.deep_view()),
        }
    }
}

impl View for Feed {
    type V = FeedModel;

    open spec fn view(&self) -> FeedModel {
        self.deep_view()
    }
}

/// The feed that `content` is: the Atom document where it is one, else the
/// RSS document where it is one, else nothing.
pub open spec fn parsed_feed(content: Seq<char>) -> Option<FeedModel> {
    match atom_document(content) {
        Some(a) => Some(FeedModel::Atom(a)),
        None => match rss_document(content) {
            Some(c) => Some(FeedModel::RSS(c)),
            None => None,
        },
    }
}

/// The title of a feed.
pub open spec fn feed_title(f: FeedModel) -> Seq<char> {
    match f {
        FeedModel::Atom(a) => a.title,
        FeedModel::RSS(c) => c.title,
    }
}

/// The raw items of a feed, in document order.
pub open spec fn feed_items(f: FeedModel) -> Seq<RawItemModel> {
    match f {
        FeedModel::Atom(a) => a.entries.map_values(|e: AtomEntryModel| atom_raw_item(e)),
        FeedModel::RSS(c) => c.items.map_values(|i: RssItemModel| rss_raw_item(i)),
    }
}

impl Feed {
    /// Reads `s` as an Atom document or, failing that, as an RSS document.
    /// Fails with `SyndicationParsingFailure` where it is neither.
    pub fn from_str(s: &str) -> (r: Result<Feed, Error>)
        ensures
            match parsed_feed(s@) {
                Some(f) => r is Ok && r->Ok_0@ == f,
                None => r == Err::<Feed, Error>(Error::SyndicationParsingFailure),
            },
    {
        match parse_atom(s) {
            Some(feed) => Ok(Feed::Atom(feed)),
            None => match parse_rss(s) {
                Some(channel) => Ok(Feed::RSS(channel)),
                None => Err(Error::SyndicationParsingFailure),
            },
        }
    }

    /// The title of the feed.
    pub fn title(&self) -> (r: String)
        ensures
            r@ == feed_title(self@),
    {
        match self {
            Feed::Atom(a) => a.title.clone(),
            Feed::RSS(c) => c.title.clone(),
        }
    }

    /// The entries of the feed as raw items, in document order.
    pub fn items(&self) -> (r: Vec<RawItem>)
        ensures
            r.deep_view() == feed_items(self@),
    {
        let mut out: Vec<RawItem> = Vec::new();
        match self {
            Feed::Atom(a) => {
                let mut i: usize = 0;
                while i < a.entries.len()
                    invariant
                        i <= a.entries.len(),
                        out.len() == i,
                        forall|k: int|
                            0 <= k < i ==> out[k]@ == atom_raw_item(
                                #[trigger] a.entries[k].deep_view(),
                            ),
                    decreases a.entries.len() - i,
                {
                    out.push(a.entries[i].raw_item());
                    i += 1;
                }
            },
            Feed::RSS(c) => {
                let mut i: usize = 0;
                while i < c.items.len()
                    invariant
                        i <= c.items.len(),
                        out.len() == i,
                        forall|k: int|
                            0 <= k < i ==> out[k]@ == rss_raw_item(
                                #[trigger] c.items[k].deep_view(),
                            ),
                    decreases c.items.len() - i,
                {
                    out.push(c.items[i].raw_item());
                    i += 1;
                }
            },
        }
        out
    }
}

/// The title of the feed that `content` is.
///
/// `content` is what was fetched from the feed's link. Fails with
/// `SyndicationParsingFailure` where it is neither Atom nor RSS.
pub fn fetch_feed_title(content: &str) -> (r: Result<String, Error>)
    ensures
        match parsed_feed(content@) {
            Some(f) => r is Ok && r->Ok_0@ == feed_title(f),
            None => r == Err::<String, Error>(Error::SyndicationParsingFailure),
        },
{
    match Feed::from_str(content) {
        Ok(feed) => Ok(feed.title()),
        Err(e) => Err(e),
    }
}

/// The raw items of the feed that `content` is, in document order.
///
/// `content` is what was fetched from the feed's link. Fails with
/// `SyndicationParsingFailure` where it is neither Atom nor RSS. Whichever
/// format the document has, the items come out in the one shape of
/// [`RawItem`], each made by [`atom_raw_item`] or [`rss_raw_item`].
pub fn fetch_feed_items(content: &str) -> (r: Result<Vec<RawItem>, Error>)
    ensures
        match parsed_feed(content@) {
            Some(f) => r is Ok && r->Ok_0.deep_view() == feed_items(f),
            None => r == Err::<Vec<RawItem>, Error>(Error::SyndicationParsingFailure),
        },
{
    match Feed::from_str(content) {
        Ok(feed) => Ok(feed.items()),
        Err(e) => Err(e),
    }
}

/// For each element of the HTML document `html` that the CSS selector
/// `selector` matches, in document order: the value of its attribute `name`,
/// or `None` where it has no such attribute. `None` as a whole where
/// `selector` is no selector.
pub uninterp spec fn selected_attributes(
    html: Seq<char>,
    selector: Seq<char>,
    name: Seq<char>,
) -> Option<Seq<Option<Seq<char>>>>;

/// Parses `selector` with `scraper::Selector::parse` and `html` with
/// `scraper::Html::parse_document`, walks `Html::select` and reads the
/// attribute `name` of each match with `Element::attr`. The result is
/// `selected_attributes(html, selector, name)`, and `None` exactly where the
/// selector does not parse.
#[verifier::external_body]
fn select_attributes(html: &str, selector: &str, name: &str) -> (r: Option<Vec<Option<String>>>)
    ensures
        r.deep_view() == selected_attributes(html@, selector@, name@),
{
    let selector = scraper::Selector::parse(selector).ok()?;
    let document = scraper::Html::parse_document(html);
    Some(document.select(&selector).map(|e| e.value().attr(name).map(|v| v.to_string())).collect())
}

/// The selector for the `link` elements that announce a feed.
pub open spec fn feed_link_selector() -> Seq<char> {
    "link[type='application/rss+xml'], link[type='application/atom+xml']"@
}

/// The attribute that holds a link's target.
pub open spec fn link_target_attribute() -> Seq<char> {
    "href"@
}

/// The first of `candidates` that is present.
pub open spec fn first_present(candidates: Seq<Option<Seq<char>>>) -> Option<Seq<char>>
    decreases candidates.len(),
{
    if candidates.len() == 0 {
        None
    } else if candidates[0] is Some {
        candidates[0]
    } else {
        first_present(candidates.drop_first())
    }
}

/// The first link target among `candidates`, which hold, for each `link`
/// element that announces a feed, its target where it has one.
pub fn first_link(candidates: &Vec<Option<String>>) -> (r: Option<String>)
    ensures
        r.deep_view() == first_present(candidates.deep_view()),
{
    let ghost all = candidates.deep_view();
    let mut i: usize = 0;
    assert(all.skip(0) == all);
    while i < candidates.len()
        invariant
            i <= candidates.len(),
            all == candidates.deep_view(),
            first_present(all) == first_present(all.skip(i as int)),
        decreases candidates.len() - i,
    {
        proof {
            assert(all.skip(i as int).drop_first() == all.skip(i + 1));
        }
        match &candidates[i] {
            Some(target) => {
                return Some(target.clone());
            },
            None => {},
        }
        i += 1;
    }
    None
}

/// The feed that the HTML page `html_content` announces: the target of its
/// first `link` element of type `application/rss+xml` or
/// `application/atom+xml` that has a target. `Ok(None)` where it announces
/// none; `Err(Unknown)` where the page could not be searched.
pub fn find_feed_link(html_content: &str) -> (r: Result<Option<String>, Error>)
    ensures
        match selected_attributes(html_content@, feed_link_selector(), link_target_attribute()) {
            Some(c) => r is Ok && r->Ok_0.deep_view() == first_present(c),
            None => r == Err::<Option<String>, Error>(Error::Unknown),
        },
{
    let found = select_attributes(
        html_content,
        "link[type='application/rss+xml'], link[type='application/atom+xml']",
        "href",
    );
    match found {
        Some(candidates) => Ok(first_link(&candidates)),
        None => Err(Error::Unknown),
    }
}

/// The link of the feed behind `candidate`, given the `content` fetched from
/// it: `candidate` itself where the content is a feed; else the feed that the
/// content, read as an HTML page, announces. Fails with `InvalidFeedLink`
/// where there is neither.
pub fn resolve_feed_link(candidate: &str, content: &str) -> (r: Result<String, Error>)
    ensures
        parsed_feed(content@) is Some ==> r is Ok && r->Ok_0@ == candidate@,
        parsed_feed(content@) is None ==> match selected_attributes(
            content@,
            feed_link_selector(),
            link_target_attribute(),
        ) {
            Some(c) => match first_present(c) {
                Some(target) => r is Ok && r->Ok_0@ == target,
                None => r matches Err(Error::InvalidFeedLink(l)) && l@ == candidate@,
            },
            None => r == Err::<String, Error>(Error::Unknown),
        },
{
    match Feed::from_str(content) {
        Ok(_) => Ok(candidate.to_owned()),
        Err(_) => match find_feed_link(content) {
            Ok(Some(target)) => Ok(target),
            Ok(None) => Err(Error::InvalidFeedLink(candidate.to_owned())),
            Err(e) => Err(e),
        },
    }
}

} // verus!
