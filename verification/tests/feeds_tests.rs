//! Feed URLs, feed options, and Atom/RSS post-processing.

use edgarkit::parsing::atom::AtomConfig;
use edgarkit::parsing::atom::AtomDocument;
use edgarkit::parsing::atom::AtomEntry;
use edgarkit::parsing::atom::AtomParser;
use edgarkit::parsing::atom::Category;
use edgarkit::parsing::atom::Link;
use edgarkit::parsing::rss::Channel;
use edgarkit::parsing::rss::Item;
use edgarkit::parsing::rss::RssConfig;
use edgarkit::parsing::rss::RssDocument;
use edgarkit::parsing::rss::RssParser;
use edgarkit::parsing::rss::select_channel_links;
use edgarkit::parsing::rss::LinkEvent;
use edgarkit::Edgar;
use edgarkit::EdgarError;
use edgarkit::FeedOptions;

fn entry(title: &str, links: Vec<Link>, category: Option<&str>) -> AtomEntry {
    AtomEntry {
        title: title.to_string(),
        links,
        link: String::new(),
        published: None,
        pub_date: None,
        updated: None,
        id: title.to_string(),
        content: None,
        description: None,
        author: None,
        category: category.map(|term| Category {
            term: term.to_string(),
            scheme: None,
            label: None,
        }),
    }
}

fn link(href: &str, rel: Option<&str>) -> Link {
    Link { href: href.to_string(), rel: rel.map(|r| r.to_string()), link_type: None }
}

#[test]
fn feed_options_defaults_and_merge() {
    let opts = FeedOptions::new(None);
    assert_eq!(opts.params(), &vec![("output".to_string(), "atom".to_string())]);

    let custom = FeedOptions::new(None)
        .with_param("count", "50")
        .with_param("type", "10-K")
        .with_param("count", "25");
    let opts = FeedOptions::new(Some(custom));
    let params = opts.params();
    assert_eq!(
        params,
        &vec![
            ("output".to_string(), "atom".to_string()),
            ("count".to_string(), "25".to_string()),
            ("type".to_string(), "10-K".to_string()),
        ]
    );
}

#[test]
fn feed_urls() {
    let edgar = Edgar::new("test_agent example@example.com").unwrap();
    let url = edgar.current_feed_url(None).unwrap();
    assert_eq!(
        url,
        "https://www.sec.gov/cgi-bin/browse-edgar?action=getcurrent&output=atom"
    );
    let opts = FeedOptions::new(None).with_param("count", "25");
    let url = edgar.company_feed_url("1018724", Some(opts)).unwrap();
    assert_eq!(
        url,
        "https://www.sec.gov/cgi-bin/browse-edgar?action=getcompany&output=atom&count=25&CIK=1018724"
    );
    assert_eq!(
        edgar.press_release_feed_url(),
        "https://www.sec.gov/news/pressreleases.rss"
    );
    assert_eq!(
        edgar.xbrl_feed_url(),
        "https://www.sec.gov/Archives/edgar/xbrlrss.all.xml"
    );
}

#[test]
fn test_historical_xbrl_feed_invalid_year() {
    let edgar = Edgar::new("test_agent example@example.com").unwrap();
    let result = edgar.historical_xbrl_feed_url(2004, 1);
    assert!(matches!(result, Err(EdgarError::InvalidXBRLYear)));
}

#[test]
fn test_historical_xbrl_feed_invalid_month() {
    let edgar = Edgar::new("test_agent example@example.com").unwrap();
    let result = edgar.historical_xbrl_feed_url(2005, 13);
    assert!(matches!(result, Err(EdgarError::InvalidMonth)));
}

#[test]
fn historical_xbrl_feed_url_shape() {
    let edgar = Edgar::new("test_agent example@example.com").unwrap();
    assert_eq!(
        edgar.historical_xbrl_feed_url(2019, 3).unwrap(),
        "https://www.sec.gov/Archives/edgar/monthly/xbrlrss-2019-03.xml"
    );
}

#[test]
fn channel_link_selection_takes_the_last_of_each() {
    let events = vec![
        LinkEvent::ChannelLink("https://example.test/old".to_string()),
        LinkEvent::Autodiscovery {
            href: "https://example.test/feed1".to_string(),
            rel: Some("self".to_string()),
            link_type: None,
        },
        LinkEvent::ChannelLink("https://example.test/new".to_string()),
        LinkEvent::Autodiscovery { href: String::new(), rel: None, link_type: None },
    ];
    let (link, atom_link) = select_channel_links(&events);
    assert_eq!(link, "https://example.test/new");
    // The empty-href element does not displace the earlier autodiscovery link.
    let a = atom_link.unwrap();
    assert_eq!(a.href, "https://example.test/feed1");
    assert_eq!(a.rel.as_deref(), Some("self"));

    let (link, atom_link) = select_channel_links(&Vec::new());
    assert_eq!(link, "");
    assert!(atom_link.is_none());
}

#[test]
fn atom_finalize_sets_primary_links() {
    let doc = AtomDocument {
        author: None,
        company_info: None,
        title: "feed".to_string(),
        links: Vec::new(),
        description: None,
        updated: "2023-01-01".to_string(),
        entries: vec![
            entry(
                "a",
                vec![
                    link("https://example.test/self", Some("self")),
                    link("https://example.test/alt", Some("alternate")),
                ],
                None,
            ),
            entry("b", vec![link("https://example.test/first", None)], None),
            entry("c", Vec::new(), None),
        ],
    };
    let parser = AtomParser::new(AtomConfig::default());
    let out = parser.finalize(doc);
    assert_eq!(out.entries.len(), 3);
    assert_eq!(out.entries[0].link, "https://example.test/alt");
    assert_eq!(out.entries[1].link, "https://example.test/first");
    assert_eq!(out.entries[2].link, "");
}

#[test]
fn atom_finalize_caps_and_filters() {
    let doc = AtomDocument {
        author: None,
        company_info: None,
        title: "feed".to_string(),
        links: Vec::new(),
        description: None,
        updated: "2023-01-01".to_string(),
        entries: vec![
            entry("a", Vec::new(), Some("10-K")),
            entry("b", Vec::new(), Some("8-K")),
            entry("c", Vec::new(), Some("10-K")),
            entry("d", Vec::new(), None),
        ],
    };
    let parser = AtomParser::new(AtomConfig {
        follow_links: false,
        max_entries: Some(3),
        filter_categories: vec!["10-K".to_string()],
    });
    let out = parser.finalize(doc);
    // Cap first (a, b, c), then the category filter (a, c).
    assert_eq!(out.entries.len(), 2);
    assert_eq!(out.entries[0].title, "a");
    assert_eq!(out.entries[1].title, "c");
}

#[test]
fn rss_finalize_installs_links_and_caps() {
    let doc = RssDocument {
        channel: Channel {
            title: "Empty Feed".to_string(),
            link: String::new(),
            atom_link: None,
            description: "Empty feed for testing".to_string(),
            language: None,
            last_build_date: None,
            pub_date: None,
            items: vec![
                Item {
                    title: "one".to_string(),
                    link: "https://example.test/1".to_string(),
                    description: None,
                    pub_date: None,
                    guid: None,
                    xbrl_filing: None,
                    enclosure: None,
                },
                Item {
                    title: "two".to_string(),
                    link: "https://example.test/2".to_string(),
                    description: None,
                    pub_date: None,
                    guid: None,
                    xbrl_filing: None,
                    enclosure: None,
                },
            ],
        },
    };
    let parser = RssParser::new(RssConfig { max_entries: Some(1), filter_categories: Vec::new() });
    let out = parser.finalize(doc, "http://example.com".to_string(), None);
    assert_eq!(out.channel.title, "Empty Feed");
    assert_eq!(out.channel.description, "Empty feed for testing");
    assert_eq!(out.channel.link, "http://example.com");
    assert_eq!(out.channel.items.len(), 1);
    assert_eq!(out.channel.items[0].title, "one");
}
