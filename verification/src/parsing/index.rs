//! The parser for EDGAR index files.
//!
//! An index file is a manifest of filings, one per line, after a free-form
//! header that ends at a separator line of dashes. Three layouts exist:
//! company and crawler indices use fixed-width columns, master indices use
//! pipe-delimited columns. The parser detects the layout from the header when
//! it is not configured, skips the header, and turns each nonempty line into
//! an [`IndexEntry`].

use vstd::prelude::*;
use vstd::string::StringExecFns;

use crate::error::EdgarError;
use crate::text::chars_contain;
use crate::text::chars_start_with;
use crate::text::chars_to_string;
use crate::text::contains_seq;
use crate::text::dec_val;
use crate::text::lower_chars;
use crate::text::lower_seq;
use crate::text::parse_u64_chars;
use crate::text::parses_as_u64;
use crate::text::split_char;
use crate::text::split_seq;
use crate::text::starts_with_seq;
use crate::text::str_chars;
use crate::text::strip_leading;
use crate::text::strip_leading_seq;
use crate::text::trim_chars;
use crate::text::trim_seq;

verus! {

/// Every index entry's URL is joined to this archive root.
pub const ARCHIVES_PREFIX: &'static str = "https://www.sec.gov/Archives/";

/// Configuration for the parser: explicit column widths or delimiter, an
/// entry cap, and the index layout when it is known up front.
pub struct IndexConfig {
    /// Fixed column widths, overriding the layout's defaults.
    pub field_widths: Option<Vec<usize>>,
    /// An explicit delimiter, used when no widths are given.
    pub delimiter: Option<char>,
    /// Keep at most this many entries.
    pub max_entries: Option<usize>,
    /// The layout; detected from the header when absent.
    pub index_type: Option<IndexType>,
}

impl Default for IndexConfig {
    /// Nothing configured: layout detected, no cap.
    fn default() -> (r: Self)
        ensures
            r.field_widths is None,
            r.delimiter is None,
            r.max_entries is None,
            r.index_type is None,
    {
        IndexConfig { field_widths: None, delimiter: None, max_entries: None, index_type: None }
    }
}

/// A parser for EDGAR index files.
pub struct IndexParser {
    /// The parser's configuration.
    pub config: IndexConfig,
}

/// One filing listed in an index file.
#[derive(Debug, Clone)]
pub struct IndexEntry {
    pub company_name: String,
    pub form_type: String,
    pub cik: u64,
    pub date_filed: String,
    pub url: String,
}

/// The index file layouts.
#[derive(Debug, Clone, Copy, PartialEq, Eq, Structural)]
pub enum IndexType {
    /// Fixed-width, sorted by company name.
    Company,
    /// Fixed-width, with absolute URLs.
    Crawler,
    /// Pipe-delimited; the most stable layout, and the default.
    Master,
}

impl Default for IndexType {
    /// The master layout.
    fn default() -> (r: Self)
        ensures
            r is Master,
    {
        IndexType::Master
    }
}

impl IndexType {
    /// The layout's name, as index file names carry it.
    pub fn as_str(&self) -> (r: &'static str)
        ensures
            self is Company ==> r@ == "company"@,
            self is Crawler ==> r@ == "crawler"@,
            self is Master ==> r@ == "master"@,
    {
        match self {
            IndexType::Company => "company",
            IndexType::Crawler => "crawler",
            IndexType::Master => "master",
        }
    }

    /// Reads a layout from a name that holds one of the layout names (ASCII
    /// case folded), trying `company`, then `crawler`, then `master`.
    pub fn from_name(s: &str) -> (r: Result<IndexType, EdgarError>)
        ensures
            contains_seq(lower_seq(s@), "company"@) ==> r == Ok::<IndexType, EdgarError>(
                IndexType::Company,
            ),
            !contains_seq(lower_seq(s@), "company"@) && contains_seq(lower_seq(s@), "crawler"@)
                ==> r == Ok::<IndexType, EdgarError>(IndexType::Crawler),
            !contains_seq(lower_seq(s@), "company"@) && !contains_seq(lower_seq(s@), "crawler"@)
                && contains_seq(lower_seq(s@), "master"@) ==> r == Ok::<IndexType, EdgarError>(
                IndexType::Master,
            ),
            !contains_seq(lower_seq(s@), "company"@) && !contains_seq(lower_seq(s@), "crawler"@)
                && !contains_seq(lower_seq(s@), "master"@) ==> (r matches Err(e) && e matches
                EdgarError::InvalidFormat(m) && m@ == "Unknown index type"@),
    {
        let low = lower_chars(s);
        if chars_contain(&low, "company") {
            Ok(IndexType::Company)
        } else if chars_contain(&low, "crawler") {
            Ok(IndexType::Crawler)
        } else if chars_contain(&low, "master") {
            Ok(IndexType::Master)
        } else {
            Err(EdgarError::InvalidFormat(String::from_str("Unknown index type")))
        }
    }
}

impl core::str::FromStr for IndexType {
    type Err = EdgarError;

    /// Reads a layout name, as [`IndexType::from_name`] does.
    fn from_str(s: &str) -> Result<IndexType, EdgarError> {
        IndexType::from_name(s)
    }
}

// ---------------------------------------------------------------------------
// Field extraction
// ---------------------------------------------------------------------------

/// The fields a fixed-width line splits into from position `start`: one
/// trimmed field per width, cut short at the line's end, and whatever follows
/// the last width as one trimmed rest field.
pub open spec fn fixed_fields(line: Seq<char>, widths: Seq<usize>, start: int) -> Seq<Seq<char>>
    decreases widths.len(),
{
    if start >= line.len() {
        Seq::empty()
    } else if widths.len() == 0 {
        seq![trim_seq(line.skip(start))]
    } else {
        let end = if start + widths[0] <= line.len() {
            start + widths[0]
        } else {
            line.len() as int
        };
        seq![trim_seq(line.subrange(start, end))] + fixed_fields(line, widths.drop_first(), end)
    }
}

/// The view of a field list.
pub open spec fn fields_view(v: Seq<Vec<char>>) -> Seq<Seq<char>> {
    v.map_values(|p: Vec<char>| p@)
}

/// Each part trimmed.
pub open spec fn trim_all(parts: Seq<Seq<char>>) -> Seq<Seq<char>> {
    parts.map_values(|p: Seq<char>| trim_seq(p))
}

/// Splits a fixed-width line into its trimmed fields.
fn parse_fixed_width(line: &[char], widths: &Vec<usize>) -> (r: Vec<Vec<char>>)
    ensures
        fields_view(r@) == fixed_fields(line@, widths@, 0),
{
    let n = line.len();
    let m = widths.len();
    let mut r: Vec<Vec<char>> = Vec::new();
    let mut start: usize = 0;
    let mut j: usize = 0;
    proof {
        assert(widths@.skip(0) =~= widths@);
        assert(fields_view(r@) + fixed_fields(line@, widths@, 0) =~= fixed_fields(
            line@,
            widths@,
            0,
        ));
    }
    while j < m && start < n
        invariant
            n == line@.len(),
            m == widths@.len(),
            j <= m,
            start <= n,
            fixed_fields(line@, widths@, 0) == fields_view(r@) + fixed_fields(
                line@,
                widths@.skip(j as int),
                start as int,
            ),
        decreases m - j,
    {
        let width = widths[j];
        let end = if width < n - start {
            start + width
        } else {
            n
        };
        let ghost oldfields = fields_view(r@);
        let sub = crate::text::subrange_chars(line, start, end);
        let t = trim_chars(sub.as_slice());
        r.push(t);
        proof {
            assert(widths@.skip(j as int).drop_first() =~= widths@.skip(j + 1));
            assert(fields_view(r@) =~~= oldfields.push(trim_seq(line@.subrange(
                start as int,
                end as int,
            ))));
            assert(oldfields.push(trim_seq(line@.subrange(start as int, end as int)))
                + fixed_fields(line@, widths@.skip(j + 1), end as int) =~~= oldfields + (seq![
                trim_seq(line@.subrange(start as int, end as int)),
            ] + fixed_fields(line@, widths@.skip(j + 1), end as int)));
        }
        start = end;
        j = j + 1;
    }
    if start < n {
        let ghost oldfields = fields_view(r@);
        proof {
            assert(widths@.skip(j as int) =~= Seq::<usize>::empty());
            assert(line@.skip(start as int) =~= line@.subrange(start as int, n as int));
        }
        let t = trim_chars(crate::text::subrange_chars(line, start, n).as_slice());
        r.push(t);
        proof {
            assert(fields_view(r@) =~~= oldfields.push(trim_seq(line@.skip(start as int))));
            assert(oldfields.push(trim_seq(line@.skip(start as int))) =~~= oldfields + seq![
                trim_seq(line@.skip(start as int)),
            ]);
        }
    }
    r
}

/// Splits at the delimiter and trims each part.
fn split_trim(line: &[char], d: char) -> (r: Vec<Vec<char>>)
    ensures
        fields_view(r@) == trim_all(split_seq(line@, d)),
{
    let parts = split_char(line, d);
    let n = parts.len();
    let mut r: Vec<Vec<char>> = Vec::new();
    let mut i: usize = 0;
    while i < n
        invariant
            n == parts@.len(),
            i <= n,
            fields_view(parts@) == split_seq(line@, d),
            fields_view(r@) == trim_all(fields_view(parts@).take(i as int)),
        decreases n - i,
    {
        let t = trim_chars(parts[i].as_slice());
        let ghost oldviews = fields_view(r@);
        let ghost tv = t@;
        r.push(t);
        proof {
            let pv = fields_view(parts@);
            assert(tv == trim_seq(pv[i as int]));
            assert(fields_view(r@) =~~= oldviews.push(tv));
            assert(oldviews.push(tv) =~~= trim_all(pv.take(i + 1)));
        }
        i = i + 1;
    }
    proof {
        assert(fields_view(parts@).take(n as int) =~= fields_view(parts@));
    }
    r
}

/// The fields of one line, under this parser's configuration and layout:
/// explicit widths first, then an explicit delimiter, then the layout's
/// default (fixed widths for company and crawler, pipes for master).
pub open spec fn spec_fields(p: IndexParser, line: Seq<char>, t: IndexType) -> Seq<Seq<char>> {
    match p.config.field_widths {
        Some(w) => fixed_fields(line, w@, 0),
        None => match p.config.delimiter {
            Some(d) => trim_all(split_seq(line, d)),
            None => match t {
                IndexType::Master => trim_all(split_seq(line, '|')),
                _ => fixed_fields(line, seq![62usize, 12usize, 12usize, 12usize, 74usize], 0),
            },
        },
    }
}

// ---------------------------------------------------------------------------
// One line
// ---------------------------------------------------------------------------

/// The column of the company name in each layout.
pub open spec fn name_col(t: IndexType) -> int {
    match t {
        IndexType::Master => 1,
        _ => 0,
    }
}

/// The column of the form type in each layout.
pub open spec fn form_col(t: IndexType) -> int {
    match t {
        IndexType::Master => 2,
        _ => 1,
    }
}

/// The column of the CIK in each layout.
pub open spec fn cik_col(t: IndexType) -> int {
    match t {
        IndexType::Master => 0,
        _ => 2,
    }
}

/// The CIK text of a field list: the CIK column trimmed, leading zeros
/// stripped.
pub open spec fn cik_text(f: Seq<Seq<char>>, t: IndexType) -> Seq<char> {
    strip_leading_seq(trim_seq(f[cik_col(t)]), '0')
}

/// The URL of a field list: the fifth field, joined to the archives root in
/// the layouts that carry relative paths, or empty when there is no fifth
/// field.
pub open spec fn spec_url(f: Seq<Seq<char>>, t: IndexType) -> Seq<char> {
    if f.len() >= 5 {
        match t {
            IndexType::Crawler => f[4],
            _ => "https://www.sec.gov/Archives/"@ + f[4],
        }
    } else {
        Seq::empty()
    }
}

/// The entry carries exactly the line's fields: name, form, CIK value, date,
/// and URL.
pub open spec fn entry_matches(f: Seq<Seq<char>>, t: IndexType, e: IndexEntry) -> bool {
    &&& e.company_name@ == f[name_col(t)]
    &&& e.form_type@ == f[form_col(t)]
    &&& e.cik == dec_val(crate::text::dec_body(cik_text(f, t)))
    &&& e.date_filed@ == f[date_col(t)]
    &&& e.url@ == spec_url(f, t)
}

/// The column of the filing date in each layout.
pub open spec fn date_col(t: IndexType) -> int {
    3
}

/// The line has enough fields and its CIK parses.
pub open spec fn line_yields(p: IndexParser, line: Seq<char>, t: IndexType) -> bool {
    spec_fields(p, line, t).len() >= 4 && parses_as_u64(cik_text(spec_fields(p, line, t), t))
}

/// The line has enough fields but its CIK does not parse.
pub open spec fn line_bad(p: IndexParser, line: Seq<char>, t: IndexType) -> bool {
    spec_fields(p, line, t).len() >= 4 && !parses_as_u64(cik_text(spec_fields(p, line, t), t))
}

impl IndexParser {
    /// A parser with the given configuration.
    pub fn new(config: IndexConfig) -> (r: Self)
        ensures
            r.config == config,
    {
        IndexParser { config }
    }

    /// Parses a single line into an entry. A line of nothing but whitespace,
    /// or one with fewer than four fields, yields nothing; a CIK field that
    /// is not a number is an `InvalidFormat` error; otherwise the entry
    /// carries exactly the line's fields.
    pub fn parse_line(&self, line: &str, index_type: &IndexType) -> (r: Result<
        Option<IndexEntry>,
        EdgarError,
    >)
        ensures
            trim_seq(line@).len() == 0 ==> r == Ok::<Option<IndexEntry>, EdgarError>(None),
            trim_seq(line@).len() > 0 && spec_fields(*self, line@, *index_type).len() < 4 ==> r
                == Ok::<Option<IndexEntry>, EdgarError>(None),
            trim_seq(line@).len() > 0 && line_bad(*self, line@, *index_type) ==> (r matches Err(
            e) && e matches EdgarError::InvalidFormat(m) && m@ == "Invalid CIK: "@ + cik_text(
                spec_fields(*self, line@, *index_type),
                *index_type,
            )),
            trim_seq(line@).len() > 0 && line_yields(*self, line@, *index_type) ==> (r matches Ok(
            o) && o matches Some(e) && entry_matches(
                spec_fields(*self, line@, *index_type),
                *index_type,
                e,
            )),
    {
        let chars = str_chars(line);
        let trimmed = trim_chars(chars.as_slice());
        if trimmed.len() == 0 {
            return Ok(None);
        }
        let fields: Vec<Vec<char>> = match (&self.config.field_widths, &self.config.delimiter) {
            (Some(w), _) => parse_fixed_width(chars.as_slice(), w),
            (None, Some(d)) => split_trim(chars.as_slice(), *d),
            (None, None) => {
                match index_type {
                    IndexType::Master => split_trim(chars.as_slice(), '|'),
                    _ => {
                        let mut widths: Vec<usize> = Vec::new();
                        widths.push(62);
                        widths.push(12);
                        widths.push(12);
                        widths.push(12);
                        widths.push(74);
                        proof {
                            assert(widths@ =~= seq![62usize, 12usize, 12usize, 12usize, 74usize]);
                        }
                        parse_fixed_width(chars.as_slice(), &widths)
                    },
                }
            },
        };
        let ghost fv = spec_fields(*self, line@, *index_type);
        proof {
            assert(fields_view(fields@) == fv);
        }
        if fields.len() < 4 {
            return Ok(None);
        }
        let (ni, fi, ci, di): (usize, usize, usize, usize) = match index_type {
            IndexType::Master => (1, 2, 0, 3),
            _ => (0, 1, 2, 3),
        };
        let cik_trimmed = trim_chars(fields[ci].as_slice());
        let cik_chars = strip_leading(cik_trimmed.as_slice(), '0');
        proof {
            assert(cik_chars@ == cik_text(fv, *index_type));
        }
        let cik = match parse_u64_chars(cik_chars.as_slice()) {
            Some(v) => v,
            None => {
                let mut m = String::from_str("Invalid CIK: ");
                let cs = chars_to_string(&cik_chars);
                m.append(cs.as_str());
                return Err(EdgarError::InvalidFormat(m));
            },
        };
        let url: String = if fields.len() >= 5 {
            match index_type {
                IndexType::Crawler => chars_to_string(&fields[4]),
                _ => {
                    let mut u = String::from_str(ARCHIVES_PREFIX);
                    let rest = chars_to_string(&fields[4]);
                    u.append(rest.as_str());
                    u
                },
            }
        } else {
            String::new()
        };
        let entry = IndexEntry {
            company_name: chars_to_string(&fields[ni]),
            form_type: chars_to_string(&fields[fi]),
            cik,
            date_filed: chars_to_string(&fields[di]),
            url,
        };
        Ok(Some(entry))
    }
}

// ---------------------------------------------------------------------------
// Lines, detection, header
// ---------------------------------------------------------------------------

/// A line with its trailing carriage return removed, as reading by lines
/// strips it.
pub open spec fn strip_cr(l: Seq<char>) -> Seq<char> {
    if l.len() > 0 && l.last() == '\r' {
        l.drop_last()
    } else {
        l
    }
}

/// The lines of a text: split at each line feed, carriage returns stripped.
pub open spec fn lines_of(s: Seq<char>) -> Seq<Seq<char>> {
    split_seq(s, '\n').map_values(|l: Seq<char>| strip_cr(l))
}

/// Splits a text into its lines.
fn split_lines(content: &str) -> (r: Vec<Vec<char>>)
    ensures
        fields_view(r@) == lines_of(content@),
{
    let chars = str_chars(content);
    let parts = split_char(chars.as_slice(), '\n');
    let n = parts.len();
    let mut r: Vec<Vec<char>> = Vec::new();
    let mut i: usize = 0;
    while i < n
        invariant
            n == parts@.len(),
            i <= n,
            fields_view(parts@) == split_seq(content@, '\n'),
            fields_view(r@) == fields_view(parts@).take(i as int).map_values(
                |l: Seq<char>| strip_cr(l),
            ),
        decreases n - i,
    {
        let part = &parts[i];
        let m = part.len();
        let stripped: Vec<char> = if m > 0 && part[m - 1] == '\r' {
            crate::text::subrange_chars(part.as_slice(), 0, m - 1)
        } else {
            crate::text::subrange_chars(part.as_slice(), 0, m)
        };
        proof {
            if m > 0 && part@[m - 1] == '\r' {
                assert(part@.subrange(0, m - 1) =~= part@.drop_last());
            } else {
                assert(part@.subrange(0, m as int) =~= part@);
            }
            assert(stripped@ == strip_cr(part@));
        }
        let ghost oldviews = fields_view(r@);
        let ghost sv = stripped@;
        r.push(stripped);
        proof {
            assert(fields_view(r@) =~~= oldviews.push(sv));
            assert(oldviews.push(sv) =~~= fields_view(parts@).take(i + 1).map_values(
                |l: Seq<char>| strip_cr(l),
            ));
        }
        i = i + 1;
    }
    proof {
        assert(fields_view(parts@).take(n as int) =~= fields_view(parts@));
    }
    r
}

/// How many of the leading lines the detection reads: ten, or all of them.
pub open spec fn detect_limit(n: int) -> int {
    if n < 10 {
        n
    } else {
        10
    }
}

/// The layout the header detection finds, scanning from line `i`: company,
/// crawler, master and XBRL markers in that order per line; crawler when no
/// marker occurs in the first ten lines.
pub open spec fn spec_detect(lines: Seq<Seq<char>>, i: int) -> IndexType
    decreases 10 - i when 0 <= i
{
    if i < 0 || i >= detect_limit(lines.len() as int) {
        IndexType::Crawler
    } else if contains_seq(lines[i], "Daily Index of EDGAR Dissemination Feed by Company Name"@) {
        IndexType::Company
    } else if contains_seq(lines[i], "Daily Crawler Index"@) {
        IndexType::Crawler
    } else if contains_seq(lines[i], "Master Index"@) || contains_seq(lines[i], "XBRL Index"@) {
        IndexType::Master
    } else {
        spec_detect(lines, i + 1)
    }
}

/// How many lines the detection consumes, scanning from line `i`: everything
/// up to and including the marker line, or the whole ten-line budget.
pub open spec fn spec_detect_pos(lines: Seq<Seq<char>>, i: int) -> int
    decreases 10 - i when 0 <= i
{
    if i < 0 || i >= detect_limit(lines.len() as int) {
        detect_limit(lines.len() as int)
    } else if contains_seq(lines[i], "Daily Index of EDGAR Dissemination Feed by Company Name"@)
        || contains_seq(lines[i], "Daily Crawler Index"@) || contains_seq(
        lines[i],
        "Master Index"@,
    ) || contains_seq(lines[i], "XBRL Index"@) {
        i + 1
    } else {
        spec_detect_pos(lines, i + 1)
    }
}

/// Detects the layout from the first ten lines, returning it and how many
/// lines were consumed.
fn detect_type(lines: &Vec<Vec<char>>) -> (r: (IndexType, usize))
    ensures
        r.0 == spec_detect(fields_view(lines@), 0),
        r.1 == spec_detect_pos(fields_view(lines@), 0),
        r.1 <= fields_view(lines@).len(),
{
    let n = lines.len();
    let limit = if n < 10 {
        n
    } else {
        10
    };
    let mut i: usize = 0;
    while i < limit
        invariant
            n == lines@.len(),
            limit == detect_limit(n as int),
            i <= limit,
            spec_detect(fields_view(lines@), 0) == spec_detect(fields_view(lines@), i as int),
            spec_detect_pos(fields_view(lines@), 0) == spec_detect_pos(
                fields_view(lines@),
                i as int,
            ),
        decreases limit - i,
    {
        let line = &lines[i];
        if chars_contain(line, "Daily Index of EDGAR Dissemination Feed by Company Name") {
            return (IndexType::Company, i + 1);
        }
        if chars_contain(line, "Daily Crawler Index") {
            return (IndexType::Crawler, i + 1);
        }
        if chars_contain(line, "Master Index") || chars_contain(line, "XBRL Index") {
            return (IndexType::Master, i + 1);
        }
        i = i + 1;
    }
    (IndexType::Crawler, limit)
}

/// Where the entries start, scanning from line `i` with `budget` lines left
/// to try: just past the first line holding `---`, or past the whole budget.
pub open spec fn spec_header_end(lines: Seq<Seq<char>>, i: int, budget: int) -> int
    decreases budget when 0 <= budget
{
    if budget <= 0 || i >= lines.len() {
        if i <= lines.len() {
            i
        } else {
            lines.len() as int
        }
    } else if contains_seq(lines[i], "---"@) {
        i + 1
    } else {
        spec_header_end(lines, i + 1, budget - 1)
    }
}

/// Skips the header: consumes lines until one holding `---` went by, trying
/// at most fifty.
fn header_end(lines: &Vec<Vec<char>>, start: usize) -> (r: usize)
    requires
        start <= lines@.len(),
    ensures
        r == spec_header_end(fields_view(lines@), start as int, 50),
        start <= r <= lines@.len(),
{
    let n = lines.len();
    let mut i: usize = start;
    let mut budget: usize = 50;
    while budget > 0 && i < n
        invariant
            n == lines@.len(),
            start <= i <= n,
            budget <= 50,
            spec_header_end(fields_view(lines@), start as int, 50) == spec_header_end(
                fields_view(lines@),
                i as int,
                budget as int,
            ),
        decreases budget,
    {
        if chars_contain(&lines[i], "---") {
            return i + 1;
        }
        i = i + 1;
        budget = budget - 1;
    }
    i
}

// ---------------------------------------------------------------------------
// The whole file
// ---------------------------------------------------------------------------

/// The line produces an entry or an error (rather than being skipped): its
/// trimmed text is nonempty, it does not start with `---`, and it splits into
/// at least four fields.
pub open spec fn line_included(p: IndexParser, line: Seq<char>, t: IndexType) -> bool {
    trim_seq(line).len() > 0 && !starts_with_seq(line, "---"@) && spec_fields(p, line, t).len()
        >= 4
}

/// The layout `parse` uses: configured, or detected from the header.
pub open spec fn parse_layout(p: IndexParser, lines: Seq<Seq<char>>) -> IndexType {
    match p.config.index_type {
        Some(tt) => tt,
        None => spec_detect(lines, 0),
    }
}

/// The line `parse` starts reading entries at: past the header separator,
/// after whatever the detection consumed.
pub open spec fn parse_start(p: IndexParser, lines: Seq<Seq<char>>) -> int {
    spec_header_end(
        lines,
        match p.config.index_type {
            Some(tt) => 0int,
            None => spec_detect_pos(lines, 0),
        },
        50,
    )
}

/// The first `m` elements, or all of them when fewer.
pub open spec fn take_at_most(s: Seq<IndexEntry>, m: int) -> Seq<IndexEntry> {
    if m <= s.len() {
        s.take(m)
    } else {
        s
    }
}

/// `es` is exactly the entries of `lines[i..j)`: skipped lines contribute
/// nothing, each included line with a readable CIK contributes the next
/// entry, and a line with an unreadable CIK admits no entry list at all.
pub open spec fn entries_between(
    p: IndexParser,
    lines: Seq<Seq<char>>,
    t: IndexType,
    i: int,
    j: int,
    es: Seq<IndexEntry>,
) -> bool
    decreases j - i,
{
    if i < 0 || i >= j {
        es.len() == 0
    } else if !line_included(p, lines[i], t) {
        entries_between(p, lines, t, i + 1, j, es)
    } else if !parses_as_u64(cik_text(spec_fields(p, lines[i], t), t)) {
        false
    } else {
        es.len() >= 1 && entry_matches(spec_fields(p, lines[i], t), t, es[0]) && entries_between(
            p,
            lines,
            t,
            i + 1,
            j,
            es.drop_first(),
        )
    }
}

/// The first line of `lines[i..)` that is included but has an unreadable
/// CIK, or `-1`.
pub open spec fn first_bad_line(p: IndexParser, lines: Seq<Seq<char>>, t: IndexType, i: int) -> int
    decreases lines.len() - i when i <= lines.len()
{
    if i < 0 || i >= lines.len() {
        -1
    } else if line_included(p, lines[i], t) && !parses_as_u64(
        cik_text(spec_fields(p, lines[i], t), t),
    ) {
        i
    } else {
        first_bad_line(p, lines, t, i + 1)
    }
}

proof fn lemma_entries_extend_skip(
    p: IndexParser,
    lines: Seq<Seq<char>>,
    t: IndexType,
    i: int,
    j: int,
    es: Seq<IndexEntry>,
)
    requires
        0 <= i <= j < lines.len(),
        entries_between(p, lines, t, i, j, es),
        !line_included(p, lines[j], t),
    ensures
        entries_between(p, lines, t, i, j + 1, es),
    decreases j - i,
{
    if i == j {
        assert(es.len() == 0);
        assert(entries_between(p, lines, t, j + 1, j + 1, es));
    } else {
        if !line_included(p, lines[i], t) {
            lemma_entries_extend_skip(p, lines, t, i + 1, j, es);
        } else {
            lemma_entries_extend_skip(p, lines, t, i + 1, j, es.drop_first());
        }
    }
}

proof fn lemma_entries_extend_push(
    p: IndexParser,
    lines: Seq<Seq<char>>,
    t: IndexType,
    i: int,
    j: int,
    es: Seq<IndexEntry>,
    e: IndexEntry,
)
    requires
        0 <= i <= j < lines.len(),
        entries_between(p, lines, t, i, j, es),
        line_included(p, lines[j], t),
        parses_as_u64(cik_text(spec_fields(p, lines[j], t), t)),
        entry_matches(spec_fields(p, lines[j], t), t, e),
    ensures
        entries_between(p, lines, t, i, j + 1, es.push(e)),
    decreases j - i,
{
    if i == j {
        assert(es.len() == 0);
        assert(es.push(e)[0] == e);
        assert(es.push(e).drop_first() =~= es);
        assert(entries_between(p, lines, t, j + 1, j + 1, es.push(e).drop_first()));
    } else {
        if !line_included(p, lines[i], t) {
            lemma_entries_extend_push(p, lines, t, i + 1, j, es, e);
        } else {
            lemma_entries_extend_push(p, lines, t, i + 1, j, es.drop_first(), e);
            assert(es.push(e).drop_first() =~= es.drop_first().push(e));
            assert(es.push(e)[0] == es[0]);
        }
    }
}

proof fn lemma_first_bad_none(p: IndexParser, lines: Seq<Seq<char>>, t: IndexType, i: int, j: int)
    requires
        0 <= i <= j == lines.len(),
        forall|k: int|
            i <= k < j ==> !(line_included(p, lines[k], t) && !parses_as_u64(
                cik_text(spec_fields(p, #[trigger] lines[k], t), t),
            )),
    ensures
        first_bad_line(p, lines, t, i) == -1,
    decreases j - i,
{
    if i < j {
        lemma_first_bad_none(p, lines, t, i + 1, j);
    }
}

proof fn lemma_first_bad_at(p: IndexParser, lines: Seq<Seq<char>>, t: IndexType, i: int, b: int)
    requires
        0 <= i <= b < lines.len(),
        forall|k: int|
            i <= k < b ==> !(line_included(p, lines[k], t) && !parses_as_u64(
                cik_text(spec_fields(p, #[trigger] lines[k], t), t),
            )),
        line_included(p, lines[b], t),
        !parses_as_u64(cik_text(spec_fields(p, lines[b], t), t)),
    ensures
        first_bad_line(p, lines, t, i) == b,
    decreases b - i,
{
    if i < b {
        lemma_first_bad_at(p, lines, t, i + 1, b);
    }
}

impl IndexParser {
    /// Parses a whole index file. The layout comes from the configuration or
    /// is detected from the header; the header is skipped up to and including
    /// its `---` separator line; every remaining line that is not blank and
    /// does not itself start with `---` becomes an entry; and the result is
    /// cut to the configured cap. An included line whose CIK does not parse
    /// fails the whole file with `InvalidFormat`, and that happens exactly
    /// when such a line exists.
    pub fn parse(&self, content: &str) -> (r: Result<Vec<IndexEntry>, EdgarError>)
        ensures
            r is Ok <==> first_bad_line(
                *self,
                lines_of(content@),
                parse_layout(*self, lines_of(content@)),
                parse_start(*self, lines_of(content@)),
            ) == -1,
            r matches Ok(es) ==> exists|full: Seq<IndexEntry>|
                entries_between(
                    *self,
                    lines_of(content@),
                    parse_layout(*self, lines_of(content@)),
                    parse_start(*self, lines_of(content@)),
                    lines_of(content@).len() as int,
                    full,
                ) && es@ == (match self.config.max_entries {
                    Some(m) => take_at_most(full, m as int),
                    None => full,
                }),
            r matches Err(e) ==> (e matches EdgarError::InvalidFormat(m) && m@ == "Invalid CIK: "@
                + cik_text(
                spec_fields(
                    *self,
                    lines_of(content@)[first_bad_line(
                        *self,
                        lines_of(content@),
                        parse_layout(*self, lines_of(content@)),
                        parse_start(*self, lines_of(content@)),
                    )],
                    parse_layout(*self, lines_of(content@)),
                ),
                parse_layout(*self, lines_of(content@)),
            )),
    {
        let lines = split_lines(content);
        let ghost lv = fields_view(lines@);
        let n = lines.len();
        let (index_type, dpos): (IndexType, usize) = match &self.config.index_type {
            Some(t) => (*t, 0),
            None => detect_type(&lines),
        };
        let start = header_end(&lines, dpos);
        let ghost t = index_type;
        let mut entries: Vec<IndexEntry> = Vec::new();
        let mut i: usize = start;
        while i < n
            invariant
                n == lines@.len(),
                start <= i <= n,
                lv == fields_view(lines@),
                lv == lines_of(content@),
                entries_between(*self, lv, t, start as int, i as int, entries@),
                t == index_type,
                t == (match self.config.index_type {
                    Some(tt) => tt,
                    None => spec_detect(lv, 0),
                }),
                start as int == spec_header_end(
                    lv,
                    match self.config.index_type {
                        Some(tt) => 0int,
                        None => spec_detect_pos(lv, 0),
                    },
                    50,
                ),
                forall|k: int|
                    start <= k < i ==> !(line_included(*self, lv[k], t) && !parses_as_u64(
                        cik_text(spec_fields(*self, #[trigger] lv[k], t), t),
                    )),
            decreases n - i,
        {
            let line = &lines[i];
            let ltrim = trim_chars(line.as_slice());
            if ltrim.len() > 0 && !chars_start_with(line.as_slice(), "---") {
                let s = chars_to_string(line);
                match self.parse_line(s.as_str(), &index_type) {
                    Ok(Some(entry)) => {
                        proof {
                            lemma_entries_extend_push(
                                *self,
                                lv,
                                t,
                                start as int,
                                i as int,
                                entries@,
                                entry,
                            );
                        }
                        entries.push(entry);
                    },
                    Ok(None) => {
                        proof {
                            lemma_entries_extend_skip(*self, lv, t, start as int, i as int, entries@);
                        }
                    },
                    Err(e) => {
                        proof {
                            lemma_first_bad_at(*self, lv, t, start as int, i as int);
                        }
                        return Err(e);
                    },
                }
            } else {
                proof {
                    lemma_entries_extend_skip(*self, lv, t, start as int, i as int, entries@);
                }
            }
            i = i + 1;
        }
        proof {
            lemma_first_bad_none(*self, lv, t, start as int, n as int);
        }
        let ghost full = entries@;
        if let Some(max) = self.config.max_entries {
            entries.truncate(max);
            proof {
                if max <= full.len() {
                    assert(entries@ =~= full.take(max as int));
                } else {
                    assert(full.take(full.len() as int) =~= full);
                }
            }
        }
        proof {
            let linesg = lines_of(content@);
            let tg = match self.config.index_type {
                Some(tt) => tt,
                None => spec_detect(linesg, 0),
            };
            let dposg: int = match self.config.index_type {
                Some(tt) => 0,
                None => spec_detect_pos(linesg, 0),
            };
            let startg = spec_header_end(linesg, dposg, 50);
            assert(tg == t);
            assert(startg == start as int);
            assert(first_bad_line(*self, linesg, tg, startg) == -1);
            let cut = entries@;
            assert(entries_between(*self, linesg, t, start as int, linesg.len() as int, full));
            assert(cut == (match self.config.max_entries {
                Some(m) => take_at_most(full, m as int),
                None => full,
            }));
            assert(exists|f: Seq<IndexEntry>|
                entries_between(*self, linesg, t, start as int, linesg.len() as int, f) && cut == (
                match self.config.max_entries {
                    Some(m) => take_at_most(f, m as int),
                    None => f,
                }));
        }
        Ok(entries)
    }
}

} // verus!
