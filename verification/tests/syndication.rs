use chrono::DateTime;
use collie::error::Error;
use collie::syndication::{
    fetch_feed_items, fetch_feed_title, find_feed_link, first_link, resolve_feed_link, AtomContent,
    AtomEntry, AtomFeed, Feed, RawItem, RssChannel, RssItem,
};
use collie::time::Timestamp;

fn rss_fixture() -> String {
    let mut doc = String::new();
    doc.push_str("<?xml version=\"1.0\" encoding=\"UTF-8\"?>\n");
    doc.push_str("<rss version=\"2.0\" xmlns:dc=\"http://purl.org/dc/elements/1.1/\" xmlns:atom=\"http://www.w3.org/2005/Atom\">\n");
    doc.push_str("<channel>\n<title>Hacker News: Front Page</title>\n<link>https://news.ycombinator.com/</link>\n");
    doc.push_str("<description>Hacker News RSS</description>\n<docs>https://hnrss.org/</docs>\n<generator>hnrss v2.1.1</generator>\n");
    doc.push_str("<lastBuildDate>Mon, 28 Aug 2023 02:26:19 +0000</lastBuildDate>\n");
    doc.push_str("<atom:link href=\"https://hnrss.org/frontpage\" rel=\"self\" type=\"application/rss+xml\"></atom:link>\n");
    for (title, link, id, points, comments, date, creator) in stories() {
        doc.push_str("<item>\n<title><![CDATA[");
        doc.push_str(title);
        doc.push_str("]]></title>\n<description><![CDATA[");
        doc.push_str(&story_content(link, id, points, comments));
        doc.push_str("]]></description>\n<pubDate>");
        doc.push_str(date.0);
        doc.push_str("</pubDate>\n<link>");
        doc.push_str(link);
        doc.push_str("</link>\n<dc:creator>");
        doc.push_str(creator);
        doc.push_str("</dc:creator>\n<comments>https://news.ycombinator.com/item?id=");
        doc.push_str(id);
        doc.push_str("</comments>\n<guid isPermaLink=\"false\">https://news.ycombinator.com/item?id=");
        doc.push_str(id);
        doc.push_str("</guid>\n</item>\n");
    }
    doc.push_str("</channel>\n</rss>\n");
    doc
}

fn atom_fixture() -> String {
    let mut doc = String::new();
    doc.push_str("<?xml version=\"1.0\" encoding=\"UTF-8\"?>\n<feed xmlns=\"http://www.w3.org/2005/Atom\">\n");
    doc.push_str("<title>Hacker News: Front Page</title>\n<id>https://hnrss.org/frontpage.atom</id>\n");
    doc.push_str("<updated>2023-08-28T02:26:24Z</updated>\n<link href=\"https://news.ycombinator.com/\"></link>\n");
    doc.push_str("<link rel=\"self\" href=\"https://hnrss.org/frontpage.atom\"></link>\n");
    for (title, link, id, points, comments, date, creator) in stories() {
        doc.push_str("<entry>\n<title type=\"html\"><![CDATA[");
        doc.push_str(title);
        doc.push_str("]]></title>\n<id>https://news.ycombinator.com/item?id=");
        doc.push_str(id);
        doc.push_str("</id>\n<updated>");
        doc.push_str(date.1);
        doc.push_str("</updated>\n<published>");
        doc.push_str(date.1);
        doc.push_str("</published>\n<link href=\"");
        doc.push_str(link);
        doc.push_str("\"></link>\n<author><name>");
        doc.push_str(creator);
        doc.push_str("</name></author>\n<content type=\"html\"><![CDATA[");
        doc.push_str(&story_content(link, id, points, comments));
        doc.push_str("]]></content>\n</entry>\n");
    }
    doc.push_str("</feed>\n");
    doc
}

type Story = (
    &'static str,
    &'static str,
    &'static str,
    &'static str,
    &'static str,
    (&'static str, &'static str),
    &'static str,
);

fn stories() -> Vec<Story> {
    vec![
        (
            "Hacker Smacker: Friend/foe individual writers on Hacker News",
            "https://github.com/samuelclay/hackersmacker",
            "37288627",
            "36",
            "14",
            ("Mon, 28 Aug 2023 01:33:24 +0000", "2023-08-28T01:33:24Z"),
            "swyx",
        ),
        (
            "Writing Linux Modules in Ada – Part 1",
            "http://www.nihamkin.com/2016/10/23/writing-linux-modules-in-ada-part-1/#writing-linux-modules-in-ada-part-1",
            "37288446",
            "27",
            "5",
            ("Mon, 28 Aug 2023 01:05:24 +0000", "2023-08-28T01:05:24Z"),
            "slondr",
        ),
        (
            "Federal study links testicular cancer to ‘forever chemicals’",
            "https://undark.org/2023/08/22/federal-study-links-testicular-cancer-to-forever-chemicals/",
            "37288208",
            "62",
            "15",
            ("Mon, 28 Aug 2023 00:32:34 +0000", "2023-08-28T00:32:34Z"),
            "EA-3167",
        ),
    ]
}

fn story_content(link: &str, id: &str, points: &str, comments: &str) -> String {
    format!(
        "\n<p>Article URL: <a href=\"{link}\">{link}</a></p>\n<p>Comments URL: <a href=\"https://news.ycombinator.com/item?id={id}\">https://news.ycombinator.com/item?id={id}</a></p>\n<p>Points: {points}</p>\n<p># Comments: {comments}</p>\n"
    )
}

fn at(text: &str) -> Option<Timestamp> {
    let date = DateTime::parse_from_rfc3339(text).unwrap();
    Some(Timestamp::new(date.timestamp(), date.timestamp_subsec_nanos()))
}

fn expected_items() -> Vec<RawItem> {
    vec![
        RawItem {
            title: "Hacker Smacker: Friend/foe individual writers on Hacker News".to_string(),
            author: Some("swyx".to_string()),
            link: Some("https://github.com/samuelclay/hackersmacker".to_string()),
            content: Some("\n<p>Article URL: <a href=\"https://github.com/samuelclay/hackersmacker\">https://github.com/samuelclay/hackersmacker</a></p>\n<p>Comments URL: <a href=\"https://news.ycombinator.com/item?id=37288627\">https://news.ycombinator.com/item?id=37288627</a></p>\n<p>Points: 36</p>\n<p># Comments: 14</p>\n".to_string()),
            published_at: at("2023-08-28T01:33:24+00:00"),
        },
        RawItem {
            title: "Writing Linux Modules in Ada – Part 1".to_string(),
            author: Some("slondr".to_string()),
            link: Some("http://www.nihamkin.com/2016/10/23/writing-linux-modules-in-ada-part-1/#writing-linux-modules-in-ada-part-1".to_string()),
            content: Some("\n<p>Article URL: <a href=\"http://www.nihamkin.com/2016/10/23/writing-linux-modules-in-ada-part-1/#writing-linux-modules-in-ada-part-1\">http://www.nihamkin.com/2016/10/23/writing-linux-modules-in-ada-part-1/#writing-linux-modules-in-ada-part-1</a></p>\n<p>Comments URL: <a href=\"https://news.ycombinator.com/item?id=37288446\">https://news.ycombinator.com/item?id=37288446</a></p>\n<p>Points: 27</p>\n<p># Comments: 5</p>\n".to_string()),
            published_at: at("2023-08-28T01:05:24+00:00"),
        },
        RawItem {
            title: "Federal study links testicular cancer to ‘forever chemicals’".to_string(),
            author: Some("EA-3167".to_string()),
            link: Some("https://undark.org/2023/08/22/federal-study-links-testicular-cancer-to-forever-chemicals/".to_string()),
            content: Some("\n<p>Article URL: <a href=\"https://undark.org/2023/08/22/federal-study-links-testicular-cancer-to-forever-chemicals/\">https://undark.org/2023/08/22/federal-study-links-testicular-cancer-to-forever-chemicals/</a></p>\n<p>Comments URL: <a href=\"https://news.ycombinator.com/item?id=37288208\">https://news.ycombinator.com/item?id=37288208</a></p>\n<p>Points: 62</p>\n<p># Comments: 15</p>\n".to_string()),
            published_at: at("2023-08-28T00:32:34+00:00"),
        },
    ]
}

#[test]
fn fetch_feed_title_rss() {
    let title = fetch_feed_title(&rss_fixture()).unwrap();
    assert_eq!(title, "Hacker News: Front Page");
}

#[test]
fn fetch_feed_title_atom() {
    let title = fetch_feed_title(&atom_fixture()).unwrap();
    assert_eq!(title, "Hacker News: Front Page");
}

#[test]
fn fetch_feed_items_rss() {
    let items = fetch_feed_items(&rss_fixture()).unwrap();
    assert_eq!(expected_items(), items);
}

#[test]
fn fetch_feed_items_atom() {
    let items = fetch_feed_items(&atom_fixture()).unwrap();
    assert_eq!(expected_items(), items);
}

#[test]
fn both_formats_give_the_same_items() {
    assert_eq!(fetch_feed_items(&rss_fixture()).unwrap(), fetch_feed_items(&atom_fixture()).unwrap());
}

#[test]
fn neither_atom_nor_rss_is_a_parsing_failure() {
    assert_eq!(fetch_feed_items("<html><body>hello</body></html>"), Err(Error::SyndicationParsingFailure));
    assert_eq!(fetch_feed_title("not even markup"), Err(Error::SyndicationParsingFailure));
    assert_eq!(Feed::from_str(""), Err(Error::SyndicationParsingFailure));
    assert_eq!(Error::SyndicationParsingFailure.to_string(), "failed to parse syndication feed");
}

#[test]
fn atom_is_tried_before_rss() {
    assert!(matches!(Feed::from_str(&atom_fixture()), Ok(Feed::Atom(_))));
    assert!(matches!(Feed::from_str(&rss_fixture()), Ok(Feed::RSS(_))));
}

#[test]
fn atom_entry_fields() {
    let entry = AtomEntry {
        title: "  Kept as written ".to_string(),
        authors: vec![" Ada ".to_string(), "Grace".to_string(), "\tAlan\n".to_string()],
        links: vec!["https://first.example/".to_string(), "https://second.example/".to_string()],
        content: Some(AtomContent { value: Some(" body ".to_string()) }),
        published: None,
        updated: Timestamp::new(1_700_000_000, 0),
    };
    let item = entry.raw_item();
    assert_eq!(item.title, "  Kept as written ");
    assert_eq!(item.author, Some("Ada,Grace,Alan".to_string()));
    assert_eq!(item.link, Some("https://first.example/".to_string()));
    assert_eq!(item.content, Some(" body ".to_string()));
    assert_eq!(item.published_at, Some(Timestamp::new(1_700_000_000, 0)));
}

#[test]
fn atom_entry_without_authors_links_or_content() {
    let entry = AtomEntry {
        title: String::new(),
        authors: vec![],
        links: vec![],
        content: Some(AtomContent { value: None }),
        published: Some(Timestamp::new(5, 7)),
        updated: Timestamp::new(9, 0),
    };
    let item = entry.raw_item();
    assert_eq!(item.author, Some(String::new()));
    assert_eq!(item.link, None);
    assert_eq!(item.content, None);
    assert_eq!(item.published_at, Some(Timestamp::new(5, 7)));
    let bare = AtomEntry { content: None, ..entry };
    assert_eq!(bare.raw_item().content, None);
}

#[test]
fn rss_item_fields() {
    let item = RssItem {
        title: Some("  A title\n".to_string()),
        author: Some(" someone@example.org ".to_string()),
        creators: Some(vec!["ignored".to_string()]),
        link: Some(" https://example.org/a ".to_string()),
        description: Some(" text ".to_string()),
        pub_date: Some("Wed, 18 Feb 2015 23:16:09 GMT".to_string()),
    };
    let raw = item.raw_item();
    assert_eq!(raw.title, "A title");
    assert_eq!(raw.author, Some("someone@example.org".to_string()));
    assert_eq!(raw.link, Some(" https://example.org/a ".to_string()));
    assert_eq!(raw.content, Some(" text ".to_string()));
    assert_eq!(raw.published_at, at("2015-02-18T23:16:09+00:00"));
}

#[test]
fn rss_item_defaults() {
    let item = RssItem {
        title: None,
        author: None,
        creators: Some(vec!["one".to_string(), " two ".to_string()]),
        link: None,
        description: None,
        pub_date: Some("yesterday, around noon".to_string()),
    };
    let raw = item.raw_item();
    assert_eq!(raw.title, "Untitled");
    assert_eq!(raw.author, Some("one, two ".to_string()));
    assert_eq!(raw.link, None);
    assert_eq!(raw.content, None);
    assert_eq!(raw.published_at, None);
    let anonymous = RssItem { creators: None, pub_date: None, ..item };
    assert_eq!(anonymous.raw_item().author, None);
    assert_eq!(anonymous.raw_item().published_at, None);
    let nobody = RssItem { creators: Some(vec![]), ..anonymous };
    assert_eq!(nobody.raw_item().author, Some(String::new()));
}

#[test]
fn rss_date_is_taken_to_utc() {
    let item = RssItem {
        title: None,
        author: None,
        creators: None,
        link: None,
        description: None,
        pub_date: Some("Mon, 28 Aug 2023 10:33:24 +0900".to_string()),
    };
    assert_eq!(item.raw_item().published_at, at("2023-08-28T01:33:24+00:00"));
}

#[test]
fn feed_items_keep_document_order() {
    let feed = Feed::RSS(RssChannel {
        title: "Channel".to_string(),
        items: vec![
            RssItem { title: Some("b".to_string()), author: None, creators: None, link: None, description: None, pub_date: None },
            RssItem { title: Some("a".to_string()), author: None, creators: None, link: None, description: None, pub_date: None },
        ],
    });
    let titles: Vec<String> = feed.items().into_iter().map(|i| i.title).collect();
    assert_eq!(titles, vec!["b".to_string(), "a".to_string()]);
    assert_eq!(feed.title(), "Channel");
    let empty = Feed::Atom(AtomFeed { title: "Atom".to_string(), entries: vec![] });
    assert_eq!(empty.items(), vec![]);
    assert_eq!(empty.title(), "Atom");
}

#[test]
fn find_feed_link_takes_the_first_announced_feed() {
    let page = "<html><head><link rel=\"stylesheet\" href=\"style.css\"><link rel=\"alternate\" type=\"application/rss+xml\" href=\"https://example.org/rss.xml\"><link type=\"application/atom+xml\" href=\"https://example.org/atom.xml\"></head><body></body></html>";
    assert_eq!(find_feed_link(page), Ok(Some("https://example.org/rss.xml".to_string())));
    let atom_only = "<link type='application/atom+xml' href='/feed.atom'>";
    assert_eq!(find_feed_link(atom_only), Ok(Some("/feed.atom".to_string())));
}

#[test]
fn find_feed_link_passes_over_links_without_target() {
    let page = "<head><link type=\"application/rss+xml\"><link type=\"application/atom+xml\" href=\"X\"></head>";
    assert_eq!(find_feed_link(page), Ok(Some("X".to_string())));
}

#[test]
fn find_feed_link_without_feed() {
    assert_eq!(find_feed_link("<html><head><link rel=\"stylesheet\" href=\"a.css\"></head></html>"), Ok(None));
    assert_eq!(find_feed_link(""), Ok(None));
}

#[test]
fn first_link_is_the_first_present() {
    assert_eq!(first_link(&vec![]), None);
    assert_eq!(first_link(&vec![None, None]), None);
    assert_eq!(first_link(&vec![None, Some("b".to_string()), Some("c".to_string())]), Some("b".to_string()));
}

#[test]
fn resolve_feed_link_of_a_feed_is_the_link_itself() {
    assert_eq!(resolve_feed_link("https://hnrss.org/frontpage", &rss_fixture()), Ok("https://hnrss.org/frontpage".to_string()));
    assert_eq!(resolve_feed_link("https://hnrss.org/frontpage.atom", &atom_fixture()), Ok("https://hnrss.org/frontpage.atom".to_string()));
}

#[test]
fn resolve_feed_link_of_a_page_is_the_announced_feed() {
    let page = "<html><head><link type=\"application/rss+xml\" href=\"X\"></head></html>";
    assert_eq!(resolve_feed_link("https://example.org/", page), Ok("X".to_string()));
}

#[test]
fn resolve_feed_link_without_feed_fails() {
    let page = "<html><head><title>No feed here</title></head></html>";
    assert_eq!(resolve_feed_link("https://example.org/", page), Err(Error::InvalidFeedLink("https://example.org/".to_string())));
    assert_eq!(Error::InvalidFeedLink("https://example.org/".to_string()).to_string(), "invalid feed link `https://example.org/`");
}
