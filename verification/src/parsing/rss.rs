//! The RSS feed document model and its post-processing.
//!
//! The SEC's news and dissemination feeds are RSS 2.0 documents. The XML
//! deserialization itself is the caller's business; this module holds the
//! document types and the verified post-processing: installing the channel
//! links, which XML namespace handling forces the caller to extract by hand,
//! and cutting the item list to a configured cap.

use vstd::prelude::*;

verus! {

/// Options for RSS feed processing.
pub struct RssConfig {
    /// Keep at most this many items.
    pub max_entries: Option<usize>,
    /// Categories of interest; carried for symmetry with the Atom options.
    pub filter_categories: Vec<String>,
}

impl Default for RssConfig {
    /// No cap, no category filter.
    fn default() -> (r: Self)
        ensures
            r.max_entries is None,
            r.filter_categories@.len() == 0,
    {
        RssConfig { max_entries: None, filter_categories: Vec::new() }
    }
}

/// A processor for parsed RSS documents.
pub struct RssParser {
    /// The processor's configuration.
    pub config: RssConfig,
}

/// An Atom-style link element used for feed autodiscovery.
#[derive(Debug, Clone)]
pub struct AtomLink {
    pub href: String,
    pub rel: Option<String>,
    pub link_type: Option<String>,
}

/// One XBRL file reference of a filing.
#[derive(Debug, Clone)]
pub struct XbrlFile {
    pub sequence: Option<String>,
    pub file_type: Option<String>,
    pub size: Option<String>,
    pub description: Option<String>,
    pub url: Option<String>,
    pub date: Option<String>,
}

/// The XBRL file list of a filing.
#[derive(Debug, Clone)]
pub struct XbrlFiles {
    pub files: Vec<XbrlFile>,
}

/// XBRL filing metadata of an item.
#[derive(Debug, Clone)]
pub struct XbrlFiling {
    pub xmlns: Option<String>,
    pub accession_number: Option<String>,
    pub act_number: Option<String>,
    pub file_number: Option<String>,
    pub film_number: Option<String>,
    pub form_type: Option<String>,
    pub items: Option<String>,
    pub period: Option<String>,
    pub xbrl_files: Option<XbrlFiles>,
}

/// A file attachment of an item.
#[derive(Debug, Clone)]
pub struct Enclosure {
    pub url: String,
    pub length: Option<u64>,
    pub enclosure_type: Option<String>,
}

/// One item of an RSS feed: a filing or a news article.
#[derive(Debug, Clone)]
pub struct Item {
    pub title: String,
    pub link: String,
    pub description: Option<String>,
    pub pub_date: Option<String>,
    pub guid: Option<String>,
    pub xbrl_filing: Option<XbrlFiling>,
    pub enclosure: Option<Enclosure>,
}

/// The channel of an RSS feed.
#[derive(Debug, Clone)]
pub struct Channel {
    pub title: String,
    /// The channel's website link, extracted by hand by the caller.
    pub link: String,
    /// The Atom autodiscovery link, extracted by hand by the caller.
    pub atom_link: Option<AtomLink>,
    pub description: String,
    pub language: Option<String>,
    pub last_build_date: Option<String>,
    pub pub_date: Option<String>,
    pub items: Vec<Item>,
}

/// A whole RSS document.
#[derive(Debug, Clone)]
pub struct RssDocument {
    /// The single channel.
    pub channel: Channel,
}

/// One link-bearing element of an RSS channel, as the caller's XML tokenizer
/// hands it over in document order.
#[derive(Debug, Clone)]
pub enum LinkEvent {
    /// The text of a `<link>` element that carries no `href` attribute.
    ChannelLink(String),
    /// The attributes of an `<atom:link>` element.
    Autodiscovery { href: String, rel: Option<String>, link_type: Option<String> },
}

/// The channel's website link: the text of the last plain `<link>` element,
/// or empty when none came.
pub open spec fn channel_link_of(events: Seq<LinkEvent>) -> Seq<char>
    decreases events.len(),
{
    if events.len() == 0 {
        Seq::empty()
    } else {
        match events.last() {
            LinkEvent::ChannelLink(t) => t@,
            _ => channel_link_of(events.drop_last()),
        }
    }
}

/// The autodiscovery link: the last `<atom:link>` element with a nonempty
/// `href`, or nothing when none came.
pub open spec fn last_autodiscovery(events: Seq<LinkEvent>) -> Option<LinkEvent>
    decreases events.len(),
{
    if events.len() == 0 {
        None
    } else {
        match events.last() {
            LinkEvent::Autodiscovery { href, rel, link_type } => {
                if href@.len() > 0 {
                    Some(events.last())
                } else {
                    last_autodiscovery(events.drop_last())
                }
            },
            _ => last_autodiscovery(events.drop_last()),
        }
    }
}

/// An equal copy of an optional string.
fn clone_opt_string(v: &Option<String>) -> (r: Option<String>)
    ensures
        r == *v,
{
    match v {
        None => None,
        Some(s) => Some(s.clone()),
    }
}

/// Picks the channel's links from the link-bearing elements, in document
/// order: the website link is the text of the last plain `<link>` (empty when
/// none), and the autodiscovery link is the last `<atom:link>` whose `href`
/// is nonempty (absent when none).
pub fn select_channel_links(events: &Vec<LinkEvent>) -> (r: (String, Option<AtomLink>))
    ensures
        r.0@ == channel_link_of(events@),
        last_autodiscovery(events@) is None ==> r.1 is None,
        last_autodiscovery(events@) matches Some(ev) ==> (ev matches LinkEvent::Autodiscovery {
            href,
            rel,
            link_type,
        } && r.1 matches Some(a) && a.href@ == href@ && a.rel == rel && a.link_type == link_type),
{
    let n = events.len();
    let mut link = String::new();
    let mut atom_link: Option<AtomLink> = None;
    let mut i: usize = 0;
    while i < n
        invariant
            n == events@.len(),
            i <= n,
            link@ == channel_link_of(events@.take(i as int)),
            last_autodiscovery(events@.take(i as int)) is None ==> atom_link is None,
            last_autodiscovery(events@.take(i as int)) matches Some(ev) ==> (ev matches
                LinkEvent::Autodiscovery { href, rel, link_type } && atom_link matches Some(a)
                && a.href@ == href@ && a.rel == rel && a.link_type == link_type),
        decreases n - i,
    {
        proof {
            assert(events@.take(i + 1).drop_last() =~= events@.take(i as int));
            assert(events@.take(i + 1).last() == events@[i as int]);
        }
        match &events[i] {
            LinkEvent::ChannelLink(t) => {
                link = t.clone();
            },
            LinkEvent::Autodiscovery { href, rel, link_type } => {
                if href.as_str().unicode_len() > 0 {
                    atom_link = Some(
                        AtomLink {
                            href: href.clone(),
                            rel: clone_opt_string(rel),
                            link_type: clone_opt_string(link_type),
                        },
                    );
                }
            },
        }
        i = i + 1;
    }
    proof {
        assert(events@.take(n as int) =~= events@);
    }
    (link, atom_link)
}

/// The first `m` items, or all of them when fewer.
pub open spec fn take_items(s: Seq<Item>, m: int) -> Seq<Item> {
    if m <= s.len() {
        s.take(m)
    } else {
        s
    }
}

impl RssParser {
    /// A processor with the given configuration.
    pub fn new(config: RssConfig) -> (r: Self)
        ensures
            r.config == config,
    {
        RssParser { config }
    }

    /// Post-processes a parsed document: installs the channel link and the
    /// Atom autodiscovery link the caller extracted, and cuts the item list
    /// to the configured cap. The rest of the channel is unchanged.
    pub fn finalize(&self, doc: RssDocument, link: String, atom_link: Option<AtomLink>) -> (r:
        RssDocument)
        ensures
            r.channel.link == link,
            r.channel.atom_link == atom_link,
            r.channel.title == doc.channel.title,
            r.channel.description == doc.channel.description,
            r.channel.language == doc.channel.language,
            r.channel.last_build_date == doc.channel.last_build_date,
            r.channel.pub_date == doc.channel.pub_date,
            r.channel.items@ == (match self.config.max_entries {
                Some(m) => take_items(doc.channel.items@, m as int),
                None => doc.channel.items@,
            }),
    {
        let channel = doc.channel;
        let mut items = channel.items;
        if let Some(max) = self.config.max_entries {
            let ghost before = items@;
            items.truncate(max);
            proof {
                if max <= before.len() {
                    assert(items@ =~= before.take(max as int));
                } else {
                    assert(before.take(before.len() as int) =~= before);
                }
            }
        }
        RssDocument {
            channel: Channel {
                title: channel.title,
                link,
                atom_link,
                description: channel.description,
                language: channel.language,
                last_build_date: channel.last_build_date,
                pub_date: channel.pub_date,
                items,
            },
        }
    }
}

} // verus!
