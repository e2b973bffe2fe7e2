//! Daily and quarterly filing indices.
//!
//! EDGAR publishes index files as manifests of filings, for one day or for a
//! whole quarter, under predictable directory listings. This module holds the
//! validated date types, the directory-listing types, the URL builders for
//! the listings and the index files, the choice of index file from a listing,
//! the decompression of `.gz` index files, and the in-memory filters applied
//! to parsed entries.

use vstd::prelude::*;
use vstd::string::StringExecFns;
use vstd::utf8::encode_utf8;
use vstd::utf8::valid_utf8;

use crate::client::Edgar;
use crate::error::EdgarError;
use crate::options::FilingOptions;
use crate::parsing::index::IndexEntry;
use crate::parsing::index::IndexType;
use crate::text::chars_to_string;
use crate::text::dec_seq;
use crate::text::dec_seq_signed;
use crate::text::ends_with_seq;
use crate::text::i64_chars;
use crate::text::pad_zeros;
use crate::text::pad_zeros_seq;
use crate::text::str_chars;
use crate::text::str_ends_with;
use crate::text::str_eq;
use crate::text::trim_chars;
use crate::text::trim_seq;
use crate::text::u64_chars;

verus! {

// ---------------------------------------------------------------------------
// Directory listings
// ---------------------------------------------------------------------------

/// Whether a directory item is a file or a subdirectory.
#[derive(Debug, Clone, Copy, PartialEq, Eq, Structural)]
pub enum ItemType {
    /// A subdirectory.
    Dir,
    /// A file.
    File,
}

/// One item of a directory listing.
#[derive(Debug, Clone)]
pub struct DirectoryItem {
    /// Last modified timestamp, as the listing renders it
    /// (`MM/DD/YYYY HH:MM:SS AM/PM`).
    pub last_modified: String,
    /// Item name.
    pub name: String,
    /// File or directory.
    pub type_: ItemType,
    /// Relative URL path.
    pub href: String,
    /// Human-readable size.
    pub size: String,
}

/// A directory listing.
#[derive(Debug, Clone)]
pub struct Directory {
    /// The items.
    pub item: Vec<DirectoryItem>,
    /// Directory name.
    pub name: String,
    /// Parent directory path.
    pub parent_dir: String,
}

/// The payload of an `index.json` directory listing.
#[derive(Debug, Clone)]
pub struct IndexResponse {
    /// The listing.
    pub directory: Directory,
}

// ---------------------------------------------------------------------------
// Quarters and dates
// ---------------------------------------------------------------------------

/// A fiscal quarter. Index directories are grouped by quarter.
#[derive(Debug, Clone, Copy, PartialEq, Eq, Structural)]
pub enum Quarter {
    Q1,
    Q2,
    Q3,
    Q4,
}

impl Quarter {
    /// The quarter a month belongs to; `InvalidMonth` outside 1 to 12.
    pub fn from_month(month: u32) -> (r: Result<Self, EdgarError>)
        ensures
            1 <= month <= 3 ==> r == Ok::<Quarter, EdgarError>(Quarter::Q1),
            4 <= month <= 6 ==> r == Ok::<Quarter, EdgarError>(Quarter::Q2),
            7 <= month <= 9 ==> r == Ok::<Quarter, EdgarError>(Quarter::Q3),
            10 <= month <= 12 ==> r == Ok::<Quarter, EdgarError>(Quarter::Q4),
            month == 0 || month > 12 ==> r == Err::<Quarter, EdgarError>(EdgarError::InvalidMonth),
    {
        if 1 <= month && month <= 3 {
            Ok(Quarter::Q1)
        } else if 4 <= month && month <= 6 {
            Ok(Quarter::Q2)
        } else if 7 <= month && month <= 9 {
            Ok(Quarter::Q3)
        } else if 10 <= month && month <= 12 {
            Ok(Quarter::Q4)
        } else {
            Err(EdgarError::InvalidMonth)
        }
    }

    /// The quarter's number, 1 to 4.
    pub fn as_i32(&self) -> (r: i32)
        ensures
            r == self.spec_number(),
    {
        match self {
            Quarter::Q1 => 1,
            Quarter::Q2 => 2,
            Quarter::Q3 => 3,
            Quarter::Q4 => 4,
        }
    }

    /// The quarter's number, 1 to 4.
    pub open spec fn spec_number(self) -> int {
        match self {
            Quarter::Q1 => 1,
            Quarter::Q2 => 2,
            Quarter::Q3 => 3,
            Quarter::Q4 => 4,
        }
    }
}

/// A validated calendar date used to locate a daily index file. EDGAR data
/// starts in 1994.
#[derive(Debug, Clone, Copy)]
pub struct EdgarDay {
    /// Calendar year, at least 1994.
    pub year: i32,
    /// Calendar month, 1 to 12.
    pub month: u32,
    /// Calendar day, 1 to 31.
    pub day: u32,
}

impl EdgarDay {
    /// The validation every constructed day satisfies.
    pub open spec fn wf(self) -> bool {
        self.year >= 1994 && 1 <= self.month <= 12 && 1 <= self.day <= 31
    }

    /// A validated day. Fails with `InvalidYear` before 1994, `InvalidMonth`
    /// outside 1 to 12, `InvalidDay` outside 1 to 31, checked in that order.
    pub fn new(year: i32, month: u32, day: u32) -> (r: Result<Self, EdgarError>)
        ensures
            year < 1994 ==> r == Err::<EdgarDay, EdgarError>(EdgarError::InvalidYear),
            year >= 1994 && (month < 1 || month > 12) ==> r == Err::<EdgarDay, EdgarError>(
                EdgarError::InvalidMonth,
            ),
            year >= 1994 && 1 <= month <= 12 && (day < 1 || day > 31) ==> r == Err::<
                EdgarDay,
                EdgarError,
            >(EdgarError::InvalidDay),
            year >= 1994 && 1 <= month <= 12 && 1 <= day <= 31 ==> (r matches Ok(d) && d.wf()
                && d.year == year && d.month == month && d.day == day),
    {
        if year < 1994 {
            return Err(EdgarError::InvalidYear);
        }
        if month < 1 || month > 12 {
            return Err(EdgarError::InvalidMonth);
        }
        if day < 1 || day > 31 {
            return Err(EdgarError::InvalidDay);
        }
        Ok(EdgarDay { year, month, day })
    }

    /// The `YYYYMMDD` rendering: each part in decimal, zero-padded to four,
    /// two and two digits.
    pub open spec fn spec_format_date(self) -> Seq<char> {
        pad_zeros_seq(dec_seq(self.year as int), 4) + pad_zeros_seq(dec_seq(self.month as int), 2)
            + pad_zeros_seq(dec_seq(self.day as int), 2)
    }

    /// Renders the day as `YYYYMMDD`.
    pub fn format_date(&self) -> (r: String)
        requires
            self.wf(),
        ensures
            r@ == self.spec_format_date(),
    {
        let y = pad_zeros(u64_chars(self.year as u64).as_slice(), 4);
        let m = pad_zeros(u64_chars(self.month as u64).as_slice(), 2);
        let d = pad_zeros(u64_chars(self.day as u64).as_slice(), 2);
        let mut s = chars_to_string(&y);
        let ms = chars_to_string(&m);
        let ds = chars_to_string(&d);
        s.append(ms.as_str());
        s.append(ds.as_str());
        s
    }

    /// The quarter directory this day falls in.
    pub fn quarter(&self) -> (r: Quarter)
        requires
            self.wf(),
        ensures
            1 <= self.month <= 3 ==> r is Q1,
            4 <= self.month <= 6 ==> r is Q2,
            7 <= self.month <= 9 ==> r is Q3,
            10 <= self.month <= 12 ==> r is Q4,
    {
        match Quarter::from_month(self.month) {
            Ok(q) => q,
            Err(_) => Quarter::Q1,
        }
    }

    /// The year.
    pub fn year(&self) -> (r: i32)
        ensures
            r == self.year,
    {
        self.year
    }
}

/// A validated fiscal period: a year from 1994 on and a quarter.
#[derive(Debug, Clone, Copy)]
pub struct EdgarPeriod {
    /// Calendar year, at least 1994.
    pub year: i32,
    /// The quarter.
    pub quarter: Quarter,
}

impl EdgarPeriod {
    /// The validation every constructed period satisfies.
    pub open spec fn wf(self) -> bool {
        self.year >= 1994
    }

    /// A validated period; `InvalidYear` before 1994.
    pub fn new(year: i32, quarter: Quarter) -> (r: Result<Self, EdgarError>)
        ensures
            year < 1994 ==> r == Err::<EdgarPeriod, EdgarError>(EdgarError::InvalidYear),
            year >= 1994 ==> (r matches Ok(p) && p.wf() && p.year == year && p.quarter == quarter),
    {
        if year < 1994 {
            return Err(EdgarError::InvalidYear);
        }
        Ok(EdgarPeriod { year, quarter })
    }

    /// The year.
    pub fn year(&self) -> (r: i32)
        ensures
            r == self.year,
    {
        self.year
    }

    /// The quarter.
    pub fn quarter(&self) -> (r: Quarter)
        ensures
            r == self.quarter,
    {
        self.quarter
    }
}

/// What a directory search is for: a daily index file, whose name carries the
/// date, or a quarterly one, whose name is fixed within its folder.
#[derive(Debug, Clone, Copy)]
pub enum EdgarDate {
    /// A daily index file.
    Day(EdgarDay),
    /// A quarterly index file.
    Period,
}

// ---------------------------------------------------------------------------
// Trusted conversions
// ---------------------------------------------------------------------------

/// What a gzip stream decompresses to, read as UTF-8 text; nothing, if the
/// stream is broken or the bytes are not UTF-8.
pub uninterp spec fn gunzip_text_of(bytes: Seq<u8>) -> Option<Seq<char>>;

/// Relies on `flate2::read::GzDecoder` (with `Read::read_to_string` driving
/// it): decompresses one gzip stream to text. The result is a function of the
/// bytes alone; a broken stream or non-UTF-8 output is an error.
#[verifier::external_body]
fn gunzip_to_string(content: &Vec<u8>) -> (r: Result<String, EdgarError>)
    ensures
        r is Ok <==> gunzip_text_of(content@) is Some,
        r matches Ok(s) ==> Some(s@) == gunzip_text_of(content@),
        r matches Err(e) ==> e is FileError,
{
    let mut decoder = flate2::read::GzDecoder::new(&content[..]);
    let mut result = String::new();
    match std::io::Read::read_to_string(&mut decoder, &mut result) {
        Ok(_) => Ok(result),
        Err(e) => Err(EdgarError::FileError(e.to_string())),
    }
}

/// Relies on `String::from_utf8`: accepts exactly the valid UTF-8 byte
/// sequences and keeps the bytes.
#[verifier::external_body]
fn string_from_utf8(bytes: Vec<u8>) -> (r: Result<String, EdgarError>)
    ensures
        r is Ok <==> valid_utf8(bytes@),
        r matches Ok(s) ==> encode_utf8(s@) == bytes@,
        r matches Err(e) ==> e is Utf8Error,
{
    String::from_utf8(bytes).map_err(|e| EdgarError::Utf8Error(e.to_string()))
}

/// Relies on `chrono::Local::now` and `Datelike::year`: the current civil
/// year by the system clock. Nothing is promised of a clock reading.
#[verifier::external_body]
fn current_year() -> i32 {
    chrono::Datelike::year(&chrono::Local::now())
}

// ---------------------------------------------------------------------------
// Index file choice
// ---------------------------------------------------------------------------

/// The layout's name as a character sequence.
pub open spec fn layout_name(t: IndexType) -> Seq<char> {
    match t {
        IndexType::Company => "company"@,
        IndexType::Crawler => "crawler"@,
        IndexType::Master => "master"@,
    }
}

/// The file name a search looks for: `name.YYYYMMDD.ext` for a day,
/// `name.ext` within a quarter folder.
pub open spec fn index_file_pattern(t: IndexType, date: EdgarDate, ext: Seq<char>) -> Seq<char> {
    match date {
        EdgarDate::Day(d) => layout_name(t) + "."@ + d.spec_format_date() + "."@ + ext,
        EdgarDate::Period => layout_name(t) + "."@ + ext,
    }
}

/// The first index of a file item with the given name, or `-1`.
pub open spec fn first_file_idx(items: Seq<DirectoryItem>, pattern: Seq<char>) -> int
    decreases items.len(),
{
    if items.len() == 0 {
        -1
    } else if items[0].name@ == pattern && items[0].type_ is File {
        0
    } else {
        let r = first_file_idx(items.drop_first(), pattern);
        if r < 0 {
            -1
        } else {
            r + 1
        }
    }
}

/// Which item a directory search picks: the first file named after the `gz`
/// pattern, else the first named after the `idx` pattern, else none.
pub open spec fn spec_find_index_file(items: Seq<DirectoryItem>, t: IndexType, date: EdgarDate) -> int {
    let gz = first_file_idx(items, index_file_pattern(t, date, "gz"@));
    if gz >= 0 {
        gz
    } else {
        first_file_idx(items, index_file_pattern(t, date, "idx"@))
    }
}

proof fn lemma_first_file_at(items: Seq<DirectoryItem>, pattern: Seq<char>, i: int)
    requires
        0 <= i < items.len(),
        items[i].name@ == pattern && items[i].type_ is File,
        forall|j: int|
            0 <= j < i ==> !((#[trigger] items[j]).name@ == pattern && items[j].type_ is File),
    ensures
        first_file_idx(items, pattern) == i,
    decreases items.len(),
{
    if i > 0 {
        lemma_first_file_at(items.drop_first(), pattern, i - 1);
    }
}

proof fn lemma_first_file_none(items: Seq<DirectoryItem>, pattern: Seq<char>)
    requires
        forall|j: int|
            0 <= j < items.len() ==> !((#[trigger] items[j]).name@ == pattern && items[j].type_
                is File),
    ensures
        first_file_idx(items, pattern) == -1,
    decreases items.len(),
{
    if items.len() > 0 {
        lemma_first_file_none(items.drop_first(), pattern);
    }
}

/// Finds the first file item matching `pattern`.
fn find_named_file(items: &Vec<DirectoryItem>, pattern: &str) -> (r: Option<usize>)
    ensures
        first_file_idx(items@, pattern@) < 0 ==> r is None,
        first_file_idx(items@, pattern@) >= 0 ==> r == Some(
            first_file_idx(items@, pattern@) as usize,
        ),
{
    let n = items.len();
    let mut i: usize = 0;
    while i < n
        invariant
            n == items@.len(),
            i <= n,
            forall|j: int|
                0 <= j < i ==> !((#[trigger] items@[j]).name@ == pattern@ && items@[j].type_
                    is File),
        decreases n - i,
    {
        let is_file = match items[i].type_ {
            ItemType::File => true,
            ItemType::Dir => false,
        };
        if is_file && str_eq(items[i].name.as_str(), pattern) {
            proof {
                lemma_first_file_at(items@, pattern@, i as int);
            }
            return Some(i);
        }
        i = i + 1;
    }
    proof {
        lemma_first_file_none(items@, pattern@);
    }
    None
}

impl Edgar {
    /// The index file is compressed.
    pub fn is_archive(filename: &str) -> (r: bool)
        ensures
            r == ends_with_seq(filename@, ".gz"@),
    {
        str_ends_with(filename, ".gz")
    }

    /// Turns raw index-file bytes into text: `.gz` files are decompressed,
    /// anything else is read as UTF-8.
    pub fn extract_archive(&self, content: Vec<u8>, filename: &str) -> (r: Result<
        String,
        EdgarError,
    >)
        ensures
            ends_with_seq(filename@, ".gz"@) ==> (r is Ok <==> gunzip_text_of(content@) is Some),
            ends_with_seq(filename@, ".gz"@) ==> (r matches Ok(s) ==> Some(s@) == gunzip_text_of(
                content@,
            )),
            ends_with_seq(filename@, ".gz"@) ==> (r matches Err(e) ==> e is FileError),
            !ends_with_seq(filename@, ".gz"@) ==> (r is Ok <==> valid_utf8(content@)),
            !ends_with_seq(filename@, ".gz"@) ==> (r matches Ok(s) ==> encode_utf8(s@)
                == content@),
            !ends_with_seq(filename@, ".gz"@) ==> (r matches Err(e) ==> e is Utf8Error),
    {
        if str_ends_with(filename, ".gz") {
            gunzip_to_string(&content)
        } else {
            string_from_utf8(content)
        }
    }

    /// Picks the most appropriate index file from a directory listing: the
    /// first file item named after the `gz` pattern, else after the `idx`
    /// pattern. For a day the pattern carries the date (`company.YYYYMMDD.idx`);
    /// within a quarter folder the name is bare (`company.idx`).
    pub fn find_index_file(items: &Vec<DirectoryItem>, date: EdgarDate, index_type: IndexType) -> (r:
        Option<usize>)
        requires
            date matches EdgarDate::Day(d) ==> d.wf(),
        ensures
            spec_find_index_file(items@, index_type, date) < 0 ==> r is None,
            spec_find_index_file(items@, index_type, date) >= 0 ==> r == Some(
                spec_find_index_file(items@, index_type, date) as usize,
            ),
    {
        let prefix = index_type.as_str();
        let mut base = String::from_str(prefix);
        base.append(".");
        match date {
            EdgarDate::Day(day) => {
                let ds = day.format_date();
                base.append(ds.as_str());
                base.append(".");
            },
            EdgarDate::Period => {},
        }
        let mut gz_pattern = base.clone();
        gz_pattern.append("gz");
        proof {
            assert(gz_pattern@ == index_file_pattern(index_type, date, "gz"@));
        }
        match find_named_file(items, gz_pattern.as_str()) {
            Some(i) => Some(i),
            None => {
                let mut idx_pattern = base;
                idx_pattern.append("idx");
                proof {
                    assert(idx_pattern@ == index_file_pattern(index_type, date, "idx"@));
                }
                find_named_file(items, idx_pattern.as_str())
            },
        }
    }

    /// The `index.json` URL that lists available index files, for the whole
    /// collection, one year, or one quarter. When a quarter is asked for
    /// without a year, the clock supplies the year, so only the URL's shape
    /// is known.
    pub fn build_index_url(&self, index_type: &str, year: Option<i32>, quarter: Option<i32>) -> (r:
        Result<String, EdgarError>)
        ensures
            year is None && quarter is None ==> (r matches Ok(u) && u@ == self.edgar_archives_url@
                + "/"@ + index_type@ + "-index"@ + "/index.json"@),
            year matches Some(y) ==> (quarter is None ==> (r matches Ok(u) && u@
                == self.edgar_archives_url@ + "/"@ + index_type@ + "-index"@ + "/"@ + dec_seq_signed(
                y as int,
            ) + "/index.json"@)),
            quarter matches Some(q) ==> (year is None ==> (r matches Ok(u) && exists|cy: int|
                u@ == self.edgar_archives_url@ + "/"@ + index_type@ + "-index"@ + "/"@ + dec_seq_signed(
                    cy,
                ) + "/QTR"@ + dec_seq_signed(q as int) + "/index.json"@)),
            year matches Some(y) ==> (quarter matches Some(q) ==> (r matches Ok(u) && u@
                == self.edgar_archives_url@ + "/"@ + index_type@ + "-index"@ + "/"@ + dec_seq_signed(
                y as int,
            ) + "/QTR"@ + dec_seq_signed(q as int) + "/index.json"@)),
    {
        let mut u = self.edgar_archives_url.clone();
        u.append("/");
        u.append(index_type);
        u.append("-index");
        match (year, quarter) {
            (None, None) => {
                u.append("/index.json");
                Ok(u)
            },
            (Some(y), None) => {
                u.append("/");
                let ys = chars_to_string(&i64_chars(y as i64));
                u.append(ys.as_str());
                u.append("/index.json");
                Ok(u)
            },
            (None, Some(q)) => {
                let cy = current_year();
                u.append("/");
                let ys = chars_to_string(&i64_chars(cy as i64));
                u.append(ys.as_str());
                u.append("/QTR");
                let qs = chars_to_string(&i64_chars(q as i64));
                u.append(qs.as_str());
                u.append("/index.json");
                Ok(u)
            },
            (Some(y), Some(q)) => {
                u.append("/");
                let ys = chars_to_string(&i64_chars(y as i64));
                u.append(ys.as_str());
                u.append("/QTR");
                let qs = chars_to_string(&i64_chars(q as i64));
                u.append(qs.as_str());
                u.append("/index.json");
                Ok(u)
            },
        }
    }

    /// Validates a listing request and builds its URL: a year before 1994 is
    /// `InvalidYear`, a quarter outside 1 to 4 is `InvalidQuarter`, in that
    /// order; otherwise exactly `build_index_url`'s result.
    pub fn fetch_index_url(&self, index_type: &str, year: Option<i32>, quarter: Option<i32>) -> (r:
        Result<String, EdgarError>)
        ensures
            year matches Some(y) && y < 1994 ==> r == Err::<String, EdgarError>(
                EdgarError::InvalidYear,
            ),
            quarter matches Some(q) ==> ((q < 1 || q > 4) && (year matches Some(y) ==> y >= 1994)
                ==> r == Err::<String, EdgarError>(EdgarError::InvalidQuarter)),
            (year matches Some(y) ==> y >= 1994) && (quarter matches Some(q) ==> 1 <= q <= 4)
                ==> r is Ok,
            year is None && quarter is None ==> (r matches Ok(u) && u@ == self.edgar_archives_url@
                + "/"@ + index_type@ + "-index"@ + "/index.json"@),
            year matches Some(y) ==> (y >= 1994 && quarter is None ==> (r matches Ok(u) && u@
                == self.edgar_archives_url@ + "/"@ + index_type@ + "-index"@ + "/"@ + dec_seq_signed(
                y as int,
            ) + "/index.json"@)),
            year matches Some(y) ==> (quarter matches Some(q) ==> (y >= 1994 && 1 <= q <= 4 ==> (
            r matches Ok(u) && u@ == self.edgar_archives_url@ + "/"@ + index_type@ + "-index"@ + "/"@
                + dec_seq_signed(y as int) + "/QTR"@ + dec_seq_signed(q as int)
                + "/index.json"@))),
    {
        match (year, quarter) {
            (Some(y), _) if y < 1994 => Err(EdgarError::InvalidYear),
            (_, Some(q)) if q < 1 || q > 4 => Err(EdgarError::InvalidQuarter),
            _ => self.build_index_url(index_type, year, quarter),
        }
    }

    /// The URL of one index file inside a daily or full index quarter folder.
    pub fn index_file_url(&self, collection: &str, year: i32, quarter: i32, href: &str) -> (r:
        String)
        ensures
            r@ == self.edgar_archives_url@ + "/"@ + collection@ + "-index/"@ + dec_seq_signed(
                year as int,
            ) + "/QTR"@ + dec_seq_signed(quarter as int) + "/"@ + href@,
    {
        let mut u = self.edgar_archives_url.clone();
        u.append("/");
        u.append(collection);
        u.append("-index/");
        let ys = chars_to_string(&i64_chars(year as i64));
        u.append(ys.as_str());
        u.append("/QTR");
        let qs = chars_to_string(&i64_chars(quarter as i64));
        u.append(qs.as_str());
        u.append("/");
        u.append(href);
        u
    }
}

// ---------------------------------------------------------------------------
// Entry filters
// ---------------------------------------------------------------------------

/// The entry's trimmed form type equals one of the wanted forms.
pub open spec fn form_matches(e: IndexEntry, forms: Seq<String>) -> bool {
    exists|i: int| 0 <= i < forms.len() && (#[trigger] forms[i])@ == trim_seq(e.form_type@)
}

/// The entries whose trimmed form type is among the wanted forms.
pub open spec fn filter_forms(entries: Seq<IndexEntry>, forms: Seq<String>) -> Seq<IndexEntry>
    decreases entries.len(),
{
    if entries.len() == 0 {
        Seq::empty()
    } else if form_matches(entries.last(), forms) {
        filter_forms(entries.drop_last(), forms).push(entries.last())
    } else {
        filter_forms(entries.drop_last(), forms)
    }
}

/// The entries whose CIK is among the wanted CIKs.
pub open spec fn filter_ciks(entries: Seq<IndexEntry>, ciks: Seq<u64>) -> Seq<IndexEntry>
    decreases entries.len(),
{
    if entries.len() == 0 {
        Seq::empty()
    } else if ciks.contains(entries.last().cik) {
        filter_ciks(entries.drop_last(), ciks).push(entries.last())
    } else {
        filter_ciks(entries.drop_last(), ciks)
    }
}

/// The filters of `FilingOptions` on parsed index entries, in order: keep the
/// wanted forms, keep the wanted CIKs, skip the offset, cut to the limit.
pub open spec fn spec_apply_filters(entries: Seq<IndexEntry>, opts: FilingOptions) -> Seq<
    IndexEntry,
> {
    let a = match opts.form_types {
        Some(forms) => filter_forms(entries, forms@),
        None => entries,
    };
    let b = match opts.ciks {
        Some(ciks) => filter_ciks(a, ciks@),
        None => a,
    };
    let c = match opts.offset {
        Some(o) => b.skip(if o <= b.len() {
            o as int
        } else {
            b.len() as int
        }),
        None => b,
    };
    match opts.limit {
        Some(l) => c.take(if l <= c.len() {
            l as int
        } else {
            c.len() as int
        }),
        None => c,
    }
}

/// Keeps the entries whose trimmed form type is among the wanted forms.
fn retain_forms(entries: Vec<IndexEntry>, forms: &Vec<String>) -> (r: Vec<IndexEntry>)
    ensures
        r@ == filter_forms(entries@, forms@),
{
    let n = entries.len();
    let m = forms.len();
    let mut r: Vec<IndexEntry> = Vec::new();
    let mut entries = entries;
    let ghost orig = entries@;
    let mut i: usize = 0;
    while i < n
        invariant
            n == orig.len(),
            entries@ == orig,
            m == forms@.len(),
            i <= n,
            r@ == filter_forms(orig.take(i as int), forms@),
        decreases n - i,
    {
        proof {
            assert(orig.take(i + 1).drop_last() =~= orig.take(i as int));
            assert(orig.take(i + 1).last() == orig[i as int]);
        }
        let trimmed = chars_to_string(
            &trim_chars(str_chars(entries[i].form_type.as_str()).as_slice()),
        );
        let mut matched = false;
        let mut j: usize = 0;
        while j < m
            invariant
                m == forms@.len(),
                j <= m,
                trimmed@ == trim_seq(orig[i as int].form_type@),
                i < n == orig.len(),
                entries@ == orig,
                matched ==> form_matches(orig[i as int], forms@),
                !matched ==> forall|k: int| 0 <= k < j ==> (#[trigger] forms@[k])@ != trimmed@,
                !matched ==> forall|k: int|
                    0 <= k < j ==> (#[trigger] forms@[k])@ != trim_seq(orig[i as int].form_type@),
            decreases m - j,
        {
            if str_eq(forms[j].as_str(), trimmed.as_str()) {
                matched = true;
                j = m;
            } else {
                j = j + 1;
            }
        }
        if matched {
            let e = entries[i].clone_entry();
            r.push(e);
        } else {
            proof {
                assert(!form_matches(orig[i as int], forms@));
            }
        }
        i = i + 1;
    }
    proof {
        assert(orig.take(n as int) =~= orig);
    }
    r
}

/// Keeps the entries whose CIK is among the wanted CIKs.
fn retain_ciks(entries: Vec<IndexEntry>, ciks: &Vec<u64>) -> (r: Vec<IndexEntry>)
    ensures
        r@ == filter_ciks(entries@, ciks@),
{
    let n = entries.len();
    let m = ciks.len();
    let mut r: Vec<IndexEntry> = Vec::new();
    let entries = entries;
    let ghost orig = entries@;
    let mut i: usize = 0;
    while i < n
        invariant
            n == orig.len(),
            entries@ == orig,
            m == ciks@.len(),
            i <= n,
            r@ == filter_ciks(orig.take(i as int), ciks@),
        decreases n - i,
    {
        proof {
            assert(orig.take(i + 1).drop_last() =~= orig.take(i as int));
            assert(orig.take(i + 1).last() == orig[i as int]);
        }
        let mut matched = false;
        let mut j: usize = 0;
        while j < m
            invariant
                m == ciks@.len(),
                j <= m,
                i < n == orig.len(),
                entries@ == orig,
                matched ==> ciks@.contains(orig[i as int].cik),
                !matched ==> forall|k: int| 0 <= k < j ==> ciks@[k] != orig[i as int].cik,
            decreases m - j,
        {
            if ciks[j] == entries[i].cik {
                matched = true;
                j = m;
            } else {
                j = j + 1;
            }
        }
        if matched {
            let e = entries[i].clone_entry();
            r.push(e);
        } else {
            proof {
                assert(!ciks@.contains(orig[i as int].cik));
            }
        }
        i = i + 1;
    }
    proof {
        assert(orig.take(n as int) =~= orig);
    }
    r
}

impl Edgar {
    /// Applies `FilingOptions` to parsed index entries: form-type and CIK
    /// filters, then offset and limit.
    pub fn apply_filters(&self, entries: Vec<IndexEntry>, opts: &FilingOptions) -> (r: Vec<
        IndexEntry,
    >)
        ensures
            r@ == spec_apply_filters(entries@, *opts),
    {
        let mut entries = entries;
        if let Some(forms) = &opts.form_types {
            entries = retain_forms(entries, forms);
        }
        if let Some(ciks) = &opts.ciks {
            entries = retain_ciks(entries, ciks);
        }
        if let Some(offset) = opts.offset {
            let ghost before = entries@;
            let cut = if offset <= entries.len() {
                offset
            } else {
                entries.len()
            };
            let mut k: usize = 0;
            while k < cut
                invariant
                    k <= cut,
                    cut <= before.len(),
                    entries@ == before.skip(k as int),
                decreases cut - k,
            {
                proof {
                    assert(before.skip(k as int).subrange(
                        1,
                        before.skip(k as int).len() as int,
                    ) =~= before.skip(k + 1));
                }
                entries.remove(0);
                k = k + 1;
            }
        }
        if let Some(limit) = opts.limit {
            let ghost before = entries@;
            entries.truncate(limit);
            proof {
                if limit <= before.len() {
                    assert(entries@ =~= before.take(limit as int));
                } else {
                    assert(before.take(before.len() as int) =~= before);
                }
            }
        }
        entries
    }
}

impl IndexEntry {
    /// A field-for-field copy.
    pub fn clone_entry(&self) -> (r: IndexEntry)
        ensures
            r == *self,
    {
        IndexEntry {
            company_name: self.company_name.clone(),
            form_type: self.form_type.clone(),
            cik: self.cik,
            date_filed: self.date_filed.clone(),
            url: self.url.clone(),
        }
    }
}

} // verus!
