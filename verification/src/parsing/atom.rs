//! The Atom feed document model and its post-processing.
//!
//! EDGAR's browse endpoints serve filing lists as Atom feeds. The XML
//! deserialization itself is the caller's business; this module holds the
//! document types and the verified post-processing a parsed document goes
//! through: picking each entry's primary link, cutting the entry list to a
//! configured cap, and filtering by category.

use vstd::prelude::*;

verus! {

/// Options for Atom feed processing.
pub struct AtomConfig {
    /// Whether to follow links in the feed.
    pub follow_links: bool,
    /// Keep at most this many entries.
    pub max_entries: Option<usize>,
    /// When nonempty, keep only entries of these categories.
    pub filter_categories: Vec<String>,
}

impl Default for AtomConfig {
    /// No link following, no cap, no category filter.
    fn default() -> (r: Self)
        ensures
            !r.follow_links,
            r.max_entries is None,
            r.filter_categories@.len() == 0,
    {
        AtomConfig { follow_links: false, max_entries: None, filter_categories: Vec::new() }
    }
}

/// A processor for parsed Atom documents.
pub struct AtomParser {
    /// The processor's configuration.
    pub config: AtomConfig,
}

/// A hyperlink of a feed or entry.
#[derive(Debug, Clone)]
pub struct Link {
    /// Target URL.
    pub href: String,
    /// Relationship (`self`, `alternate`, ...).
    pub rel: Option<String>,
    /// Media type of the target.
    pub link_type: Option<String>,
}

/// Author or publisher information.
#[derive(Debug, Clone)]
pub struct Author {
    pub name: String,
    pub email: Option<String>,
}

/// Category information of an entry, usually the form type.
#[derive(Debug, Clone)]
pub struct Category {
    pub term: String,
    pub scheme: Option<String>,
    pub label: Option<String>,
}

/// A single address record of a company.
#[derive(Debug, Clone)]
pub struct Address {
    pub address_type: String,
    pub city: String,
    pub state: String,
    pub street1: String,
    pub street2: Option<String>,
    pub zip: String,
}

/// One or more company addresses.
#[derive(Debug, Clone)]
pub struct Addresses {
    pub address: Vec<Address>,
}

/// Company identification carried by EDGAR Atom feeds.
#[derive(Debug, Clone)]
pub struct CompanyInfo {
    pub addresses: Addresses,
    pub assigned_sic: String,
    pub assigned_sic_desc: String,
    pub cik: String,
    pub conformed_name: String,
    pub fiscal_year_end: String,
    pub state_location: String,
}

/// Filing content and metadata of an entry.
#[derive(Debug, Clone)]
pub struct Content {
    pub content_type: Option<String>,
    pub text: Option<String>,
    pub accession_number: Option<String>,
    pub act: Option<String>,
    pub amend: Option<String>,
    pub file_number: Option<String>,
    pub file_number_href: Option<String>,
    pub filing_date: Option<String>,
    pub filing_href: Option<String>,
    pub filing_type: Option<String>,
    pub film_number: Option<String>,
    pub form_name: Option<String>,
    pub size: Option<String>,
    pub xbrl_href: Option<String>,
    pub items_desc: Option<String>,
}

/// One entry of an Atom feed: a filing or an update.
#[derive(Debug, Clone)]
pub struct AtomEntry {
    pub title: String,
    pub links: Vec<Link>,
    /// The primary link, extracted from `links`.
    pub link: String,
    pub published: Option<String>,
    pub pub_date: Option<String>,
    pub updated: Option<String>,
    pub id: String,
    pub content: Option<Content>,
    pub description: Option<String>,
    pub author: Option<Author>,
    pub category: Option<Category>,
}

/// A whole Atom document.
#[derive(Debug, Clone)]
pub struct AtomDocument {
    pub author: Option<Author>,
    pub company_info: Option<CompanyInfo>,
    pub title: String,
    pub links: Vec<Link>,
    pub description: Option<String>,
    pub updated: String,
    pub entries: Vec<AtomEntry>,
}

// ---------------------------------------------------------------------------
// Primary links
// ---------------------------------------------------------------------------

/// The first link whose relationship is `alternate`, or `-1`.
pub open spec fn first_alternate_idx(links: Seq<Link>) -> int
    decreases links.len(),
{
    if links.len() == 0 {
        -1
    } else if links[0].rel matches Some(rl) && rl@ == "alternate"@ {
        0
    } else {
        let r = first_alternate_idx(links.drop_first());
        if r < 0 {
            -1
        } else {
            r + 1
        }
    }
}

/// The primary link of a link list: the first `alternate` link, else the
/// first link, else empty.
pub open spec fn primary_link_of(links: Seq<Link>) -> Seq<char> {
    let a = first_alternate_idx(links);
    if a >= 0 {
        links[a].href@
    } else if links.len() > 0 {
        links[0].href@
    } else {
        Seq::empty()
    }
}

proof fn lemma_alternate_at(links: Seq<Link>, i: int)
    requires
        0 <= i < links.len(),
        links[i].rel matches Some(rl) && rl@ == "alternate"@,
        forall|j: int|
            0 <= j < i ==> !((#[trigger] links[j]).rel matches Some(rl) && rl@ == "alternate"@),
    ensures
        first_alternate_idx(links) == i,
    decreases links.len(),
{
    if i > 0 {
        lemma_alternate_at(links.drop_first(), i - 1);
    }
}

proof fn lemma_alternate_none(links: Seq<Link>)
    requires
        forall|j: int|
            0 <= j < links.len() ==> !((#[trigger] links[j]).rel matches Some(rl) && rl@
                == "alternate"@),
    ensures
        first_alternate_idx(links) == -1,
    decreases links.len(),
{
    if links.len() > 0 {
        lemma_alternate_none(links.drop_first());
    }
}

impl AtomEntry {
    /// The entry's primary link: the first `alternate` link, else the first
    /// link of any kind, else empty.
    pub fn get_primary_link(&self) -> (r: String)
        ensures
            r@ == primary_link_of(self.links@),
    {
        let n = self.links.len();
        let mut i: usize = 0;
        while i < n
            invariant
                n == self.links@.len(),
                i <= n,
                forall|j: int|
                    0 <= j < i ==> !((#[trigger] self.links@[j]).rel matches Some(rl) && rl@
                        == "alternate"@),
            decreases n - i,
        {
            let is_alternate = match &self.links[i].rel {
                Some(rl) => crate::text::str_eq(rl.as_str(), "alternate"),
                None => false,
            };
            if is_alternate {
                proof {
                    lemma_alternate_at(self.links@, i as int);
                }
                return self.links[i].href.clone();
            }
            i = i + 1;
        }
        proof {
            lemma_alternate_none(self.links@);
        }
        if n > 0 {
            self.links[0].href.clone()
        } else {
            String::new()
        }
    }
}

// ---------------------------------------------------------------------------
// Post-processing
// ---------------------------------------------------------------------------

/// `b` is `a` with its primary link filled in and everything else unchanged.
pub open spec fn entry_with_link(a: AtomEntry, b: AtomEntry) -> bool {
    &&& b.link@ == primary_link_of(a.links@)
    &&& b.title == a.title
    &&& b.links == a.links
    &&& b.published == a.published
    &&& b.pub_date == a.pub_date
    &&& b.updated == a.updated
    &&& b.id == a.id
    &&& b.content == a.content
    &&& b.description == a.description
    &&& b.author == a.author
    &&& b.category == a.category
}

/// The first `m` entries, or all of them when fewer.
pub open spec fn take_entries(s: Seq<AtomEntry>, m: int) -> Seq<AtomEntry> {
    if m <= s.len() {
        s.take(m)
    } else {
        s
    }
}

/// The entry carries a category among the wanted ones.
pub open spec fn entry_category_matches(e: AtomEntry, cats: Seq<String>) -> bool {
    e.category matches Some(c) && exists|i: int|
        0 <= i < cats.len() && (#[trigger] cats[i])@ == c.term@
}

/// The entries whose category is among the wanted ones.
pub open spec fn filter_entries(es: Seq<AtomEntry>, cats: Seq<String>) -> Seq<AtomEntry>
    decreases es.len(),
{
    if es.len() == 0 {
        Seq::empty()
    } else if entry_category_matches(es.last(), cats) {
        filter_entries(es.drop_last(), cats).push(es.last())
    } else {
        filter_entries(es.drop_last(), cats)
    }
}

impl AtomParser {
    /// A processor with the given configuration.
    pub fn new(config: AtomConfig) -> (r: Self)
        ensures
            r.config == config,
    {
        AtomParser { config }
    }

    /// Post-processes a parsed document: fills in each entry's primary link,
    /// cuts the entry list to the configured cap, and, when a category filter
    /// is configured, keeps only the entries of those categories. The rest of
    /// the document is unchanged.
    pub fn finalize(&self, doc: AtomDocument) -> (r: AtomDocument)
        ensures
            r.author == doc.author,
            r.company_info == doc.company_info,
            r.title == doc.title,
            r.links == doc.links,
            r.description == doc.description,
            r.updated == doc.updated,
            exists|linked: Seq<AtomEntry>|
                #![trigger linked.len()]
                linked.len() == doc.entries@.len() && (forall|k: int|
                    0 <= k < linked.len() ==> entry_with_link(
                        doc.entries@[k],
                        #[trigger] linked[k],
                    )) && r.entries@ == ({
                    let capped = match self.config.max_entries {
                        Some(m) => take_entries(linked, m as int),
                        None => linked,
                    };
                    if self.config.filter_categories@.len() > 0 {
                        filter_entries(capped, self.config.filter_categories@)
                    } else {
                        capped
                    }
                }),
    {
        let mut rest = doc.entries;
        let n = rest.len();
        let ghost orig = rest@;
        let mut linked: Vec<AtomEntry> = Vec::new();
        let mut i: usize = 0;
        while i < n
            invariant
                n == orig.len(),
                i <= n,
                rest@ == orig.skip(i as int),
                linked@.len() == i,
                forall|k: int|
                    0 <= k < i ==> entry_with_link(orig[k], #[trigger] linked@[k]),
            decreases n - i,
        {
            proof {
                assert(orig.skip(i as int)[0] == orig[i as int]);
                assert(orig.skip(i as int).subrange(1, orig.skip(i as int).len() as int) =~= orig.skip(
                    i + 1,
                ));
            }
            let mut e = rest.remove(0);
            let p = e.get_primary_link();
            e.link = p;
            linked.push(e);
            i = i + 1;
        }
        let mut entries = linked;
        let ghost linked_view = entries@;
        if let Some(max) = self.config.max_entries {
            let ghost before = entries@;
            entries.truncate(max);
            proof {
                if max <= before.len() {
                    assert(entries@ =~= before.take(max as int));
                } else {
                    assert(before.take(before.len() as int) =~= before);
                }
            }
        }
        if self.config.filter_categories.len() > 0 {
            entries = retain_categories(entries, &self.config.filter_categories);
        }
        AtomDocument {
            author: doc.author,
            company_info: doc.company_info,
            title: doc.title,
            links: doc.links,
            description: doc.description,
            updated: doc.updated,
            entries,
        }
    }
}

/// Keeps the entries whose category is among the wanted ones.
fn retain_categories(es: Vec<AtomEntry>, cats: &Vec<String>) -> (r: Vec<AtomEntry>)
    ensures
        r@ == filter_entries(es@, cats@),
{
    let n = es.len();
    let m = cats.len();
    let mut r: Vec<AtomEntry> = Vec::new();
    let mut es = es;
    let ghost orig = es@;
    let mut i: usize = 0;
    while i < n
        invariant
            n == orig.len(),
            i <= n,
            es@ == orig.skip(i as int),
            m == cats@.len(),
            r@ == filter_entries(orig.take(i as int), cats@),
        decreases n - i,
    {
        proof {
            assert(orig.take(i + 1).drop_last() =~= orig.take(i as int));
            assert(orig.take(i + 1).last() == orig[i as int]);
            assert(orig.skip(i as int)[0] == orig[i as int]);
            assert(orig.skip(i as int).subrange(1, orig.skip(i as int).len() as int) =~= orig.skip(
                i + 1,
            ));
        }
        let e = es.remove(0);
        let mut matched = false;
        match &e.category {
            Some(c) => {
                let mut j: usize = 0;
                while j < m
                    invariant
                        m == cats@.len(),
                        j <= m,
                        i < n == orig.len(),
                        e == orig[i as int],
                        e.category matches Some(cc) && cc == c,
                        matched ==> entry_category_matches(orig[i as int], cats@),
                        !matched ==> forall|k: int|
                            0 <= k < j ==> (#[trigger] cats@[k])@ != c.term@,
                    decreases m - j,
                {
                    if crate::text::str_eq(cats[j].as_str(), c.term.as_str()) {
                        matched = true;
                        j = m;
                    } else {
                        j = j + 1;
                    }
                }
            },
            None => {},
        }
        if matched {
            r.push(e);
        } else {
            proof {
                assert(!entry_category_matches(orig[i as int], cats@));
            }
        }
        i = i + 1;
    }
    proof {
        assert(orig.take(n as int) =~= orig);
    }
    r
}

} // verus!
