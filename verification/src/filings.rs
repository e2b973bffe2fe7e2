//! Company submissions, filing metadata, and filing URLs.
//!
//! The submissions payload is a company-centric view of filing history whose
//! "recent filings" table comes as parallel arrays; this module turns those
//! rows into [`DetailedFiling`] records, filters them by form type (with
//! amendments included automatically) and pagination, and builds the URLs of
//! every filing-related endpoint.

use vstd::prelude::*;
use vstd::string::StringExecFns;

use crate::client::Edgar;
use crate::error::EdgarError;
use crate::options::FilingOptions;
use crate::text::chars_to_string;
use crate::text::ends_with_seq;
use crate::text::pad_zeros;
use crate::text::pad_zeros_seq;
use crate::text::remove_char;
use crate::text::remove_char_seq;
use crate::text::split_char;
use crate::text::split_seq;
use crate::text::str_chars;
use crate::text::str_ends_with;
use crate::text::str_eq;
use crate::text::trim_chars;
use crate::text::trim_seq;

verus! {

// ---------------------------------------------------------------------------
// Submissions payload
// ---------------------------------------------------------------------------

/// A single address record in a submissions payload.
#[derive(Debug, Clone)]
pub struct Address {
    pub street1: String,
    pub street2: Option<String>,
    pub city: String,
    pub state_or_country: Option<String>,
    pub zip_code: Option<String>,
    pub state_or_country_description: Option<String>,
    pub is_foreign_location: Option<i32>,
    pub foreign_state_territory: Option<String>,
    pub country: Option<String>,
    pub country_code: Option<String>,
}

/// Mailing and business addresses of an entity.
#[derive(Debug, Clone)]
pub struct Addresses {
    pub mailing: Address,
    pub business: Address,
}

/// A historical company name and when it was used.
#[derive(Debug, Clone)]
pub struct FormerName {
    pub name: String,
    pub from: String,
    pub to: String,
}

/// Metadata of an older filing segment referenced by a submissions payload.
#[derive(Debug, Clone)]
pub struct FilingFile {
    pub name: String,
    pub filing_count: u64,
    pub filing_from: String,
    pub filing_to: String,
}

/// The "recent filings" table: parallel arrays, one row per filing.
#[derive(Debug, Clone)]
pub struct RecentFilings {
    pub accession_number: Vec<String>,
    pub filing_date: Vec<String>,
    pub report_date: Option<Vec<String>>,
    pub acceptance_date_time: Vec<String>,
    pub act: Option<Vec<String>>,
    pub form: Vec<String>,
    pub file_number: Option<Vec<String>>,
    pub film_number: Option<Vec<String>>,
    pub items: Option<Vec<String>>,
    pub size: Vec<i32>,
    pub is_xbrl: Option<Vec<i32>>,
    pub is_inline_xbrl: Option<Vec<i32>>,
    pub primary_document: Option<Vec<String>>,
    pub primary_doc_description: Option<Vec<String>>,
}

/// The filing history of a submissions payload.
#[derive(Debug, Clone)]
pub struct FilingsData {
    pub recent: RecentFilings,
    pub files: Vec<FilingFile>,
}

/// A company's submissions payload: entity metadata plus the recent filings.
#[derive(Debug, Clone)]
pub struct Submission {
    pub cik: String,
    pub entity_type: String,
    pub sic: String,
    pub sic_description: String,
    pub owner_org: Option<String>,
    pub insider_transaction_for_owner_exists: i32,
    pub insider_transaction_for_issuer_exists: i32,
    pub name: String,
    pub tickers: Vec<String>,
    pub exchanges: Vec<Option<String>>,
    pub ein: Option<String>,
    pub lei: Option<String>,
    pub description: Option<String>,
    pub website: Option<String>,
    pub investor_website: Option<String>,
    pub investment_company: Option<String>,
    pub category: Option<String>,
    pub fiscal_year_end: Option<String>,
    pub state_of_incorporation: String,
    pub state_of_incorporation_description: String,
    pub addresses: Addresses,
    pub phone: String,
    pub flags: String,
    pub former_names: Vec<FormerName>,
    pub filings: FilingsData,
}

/// One normalized filing record, row-oriented.
#[derive(Debug, Clone)]
pub struct DetailedFiling {
    /// EDGAR accession number.
    pub accession_number: String,
    /// Filing date (`YYYY-MM-DD`).
    pub filing_date: String,
    /// Report date, if any.
    pub report_date: Option<String>,
    /// EDGAR acceptance time, as seconds since the Unix epoch.
    pub acceptance_date_time: i64,
    /// Securities Act reference.
    pub act: Option<String>,
    /// Form type.
    pub form: String,
    /// File number.
    pub file_number: Option<String>,
    /// Film number.
    pub film_number: Option<String>,
    /// Items string.
    pub items: Option<String>,
    /// Document size in bytes.
    pub size: i32,
    /// Carries XBRL.
    pub is_xbrl: bool,
    /// Carries inline XBRL.
    pub is_inline_xbrl: bool,
    /// Primary document filename.
    pub primary_document: Option<String>,
    /// Primary document description.
    pub primary_doc_description: Option<String>,
}

/// Response wrapper for a filing directory listing.
#[derive(Debug, Clone)]
pub struct DirectoryResponse {
    pub directory: Directory,
}

/// A filing directory listing.
#[derive(Debug, Clone)]
pub struct Directory {
    pub item: Vec<DirectoryItem>,
    pub name: String,
    pub parent_dir: String,
}

/// A file entry of a filing directory listing.
#[derive(Debug, Clone)]
pub struct DirectoryItem {
    pub last_modified: String,
    pub name: String,
    pub type_: String,
    pub size: String,
}

// ---------------------------------------------------------------------------
// Rows into records
// ---------------------------------------------------------------------------

/// The Unix timestamp an RFC 3339 string denotes, or nothing if it is not
/// one.
pub uninterp spec fn rfc3339_unix_of(s: Seq<char>) -> Option<i64>;

/// Relies on `chrono::DateTime::parse_from_rfc3339` (with `timestamp` reading
/// the result out): accepts exactly the RFC 3339 timestamps; the value is a
/// function of the text alone.
#[verifier::external_body]
fn parse_rfc3339_unix(s: &str) -> (r: Option<i64>)
    ensures
        r == rfc3339_unix_of(s@),
{
    match chrono::DateTime::parse_from_rfc3339(s) {
        Ok(d) => Some(d.timestamp()),
        Err(_) => None,
    }
}

/// The required parallel arrays are as long as the accession list, and so
/// are the flag arrays when present. The optional text arrays may be any
/// length: a row past their end reads as absent.
pub open spec fn recent_wf(r: RecentFilings) -> bool {
    let n = r.accession_number@.len();
    &&& r.filing_date@.len() == n
    &&& r.acceptance_date_time@.len() == n
    &&& r.form@.len() == n
    &&& r.size@.len() == n
    &&& (r.is_xbrl matches Some(v) ==> v@.len() == n)
    &&& (r.is_inline_xbrl matches Some(v) ==> v@.len() == n)
}

/// What an optional parallel array holds at a row, as a view: nothing when
/// the array is absent or too short.
pub open spec fn opt_at(v: Option<Vec<String>>, idx: int, r: Option<String>) -> bool {
    match v {
        None => r is None,
        Some(vv) => {
            if idx < vv@.len() {
                r matches Some(s) && s@ == vv@[idx]@
            } else {
                r is None
            }
        },
    }
}

/// What an optional flag array holds at a row.
pub open spec fn flag_at(v: Option<Vec<i32>>, idx: int) -> bool {
    v matches Some(vv) && vv@[idx] == 1
}

/// The record carries exactly row `idx` of the table.
pub open spec fn filing_matches_row(recent: RecentFilings, idx: int, f: DetailedFiling) -> bool {
    &&& f.accession_number@ == recent.accession_number@[idx]@
    &&& f.filing_date@ == recent.filing_date@[idx]@
    &&& opt_at(recent.report_date, idx, f.report_date)
    &&& Some(f.acceptance_date_time) == rfc3339_unix_of(recent.acceptance_date_time@[idx]@)
    &&& opt_at(recent.act, idx, f.act)
    &&& f.form@ == recent.form@[idx]@
    &&& opt_at(recent.file_number, idx, f.file_number)
    &&& opt_at(recent.film_number, idx, f.film_number)
    &&& opt_at(recent.items, idx, f.items)
    &&& f.size == recent.size@[idx]
    &&& f.is_xbrl == flag_at(recent.is_xbrl, idx)
    &&& f.is_inline_xbrl == flag_at(recent.is_inline_xbrl, idx)
    &&& opt_at(recent.primary_document, idx, f.primary_document)
    &&& opt_at(recent.primary_doc_description, idx, f.primary_doc_description)
}

/// Reads an optional parallel array at a row; absent or too short reads as
/// nothing.
fn opt_string_at(v: &Option<Vec<String>>, idx: usize) -> (r: Option<String>)
    ensures
        opt_at(*v, idx as int, r),
{
    match v {
        None => None,
        Some(vv) => {
            if idx < vv.len() {
                Some(vv[idx].clone())
            } else {
                None
            }
        },
    }
}

/// Reads an optional flag array at a row.
fn flag_value_at(v: &Option<Vec<i32>>, idx: usize) -> (r: bool)
    requires
        v matches Some(vv) ==> idx < vv@.len(),
    ensures
        r == flag_at(*v, idx as int),
{
    match v {
        None => false,
        Some(vv) => vv[idx] == 1,
    }
}

impl DetailedFiling {
    /// One row of the recent-filings table as a record; fails exactly when
    /// the row's acceptance timestamp is not RFC 3339.
    pub fn from_recent(recent: &RecentFilings, idx: usize) -> (r: Result<DetailedFiling, EdgarError>)
        requires
            recent_wf(*recent),
            idx < recent.accession_number@.len(),
        ensures
            r is Ok <==> rfc3339_unix_of(recent.acceptance_date_time@[idx as int]@) is Some,
            r matches Ok(f) ==> filing_matches_row(*recent, idx as int, f),
            r matches Err(e) ==> e is ValueConversion,
    {
        let ts = match parse_rfc3339_unix(recent.acceptance_date_time[idx].as_str()) {
            Some(t) => t,
            None => {
                return Err(
                    EdgarError::ValueConversion(
                        String::from_str("invalid acceptance timestamp"),
                    ),
                );
            },
        };
        Ok(
            DetailedFiling {
                accession_number: recent.accession_number[idx].clone(),
                filing_date: recent.filing_date[idx].clone(),
                report_date: opt_string_at(&recent.report_date, idx),
                acceptance_date_time: ts,
                act: opt_string_at(&recent.act, idx),
                form: recent.form[idx].clone(),
                file_number: opt_string_at(&recent.file_number, idx),
                film_number: opt_string_at(&recent.film_number, idx),
                items: opt_string_at(&recent.items, idx),
                size: recent.size[idx],
                is_xbrl: flag_value_at(&recent.is_xbrl, idx),
                is_inline_xbrl: flag_value_at(&recent.is_inline_xbrl, idx),
                primary_document: opt_string_at(&recent.primary_document, idx),
                primary_doc_description: opt_string_at(&recent.primary_doc_description, idx),
            },
        )
    }

    /// A field-for-field copy.
    pub fn clone_filing(&self) -> (r: DetailedFiling)
        ensures
            r == *self,
    {
        DetailedFiling {
            accession_number: self.accession_number.clone(),
            filing_date: self.filing_date.clone(),
            report_date: clone_opt_string(&self.report_date),
            acceptance_date_time: self.acceptance_date_time,
            act: clone_opt_string(&self.act),
            form: self.form.clone(),
            file_number: clone_opt_string(&self.file_number),
            film_number: clone_opt_string(&self.film_number),
            items: clone_opt_string(&self.items),
            size: self.size,
            is_xbrl: self.is_xbrl,
            is_inline_xbrl: self.is_inline_xbrl,
            primary_document: clone_opt_string(&self.primary_document),
            primary_doc_description: clone_opt_string(&self.primary_doc_description),
        }
    }
}

/// An equal copy of an optional string.
fn clone_opt_string(v: &Option<String>) -> (r: Option<String>)
    ensures
        r == *v,
{
    match v {
        None => None,
        Some(s) => Some(s.clone()),
    }
}

/// `fs` is exactly the records of rows `i..j`: a row whose acceptance
/// timestamp does not parse is skipped, every other row contributes the next
/// record.
pub open spec fn rows_between(
    recent: RecentFilings,
    i: int,
    j: int,
    fs: Seq<DetailedFiling>,
) -> bool
    decreases j - i,
{
    if i < 0 || i >= j {
        fs.len() == 0
    } else if rfc3339_unix_of(recent.acceptance_date_time@[i]@) is None {
        rows_between(recent, i + 1, j, fs)
    } else {
        fs.len() >= 1 && filing_matches_row(recent, i, fs[0]) && rows_between(
            recent,
            i + 1,
            j,
            fs.drop_first(),
        )
    }
}

proof fn lemma_rows_extend_skip(
    recent: RecentFilings,
    i: int,
    j: int,
    fs: Seq<DetailedFiling>,
)
    requires
        0 <= i <= j,
        rows_between(recent, i, j, fs),
        rfc3339_unix_of(recent.acceptance_date_time@[j]@) is None,
    ensures
        rows_between(recent, i, j + 1, fs),
    decreases j - i,
{
    if i == j {
        assert(fs.len() == 0);
        assert(rows_between(recent, j + 1, j + 1, fs));
    } else {
        if rfc3339_unix_of(recent.acceptance_date_time@[i]@) is None {
            lemma_rows_extend_skip(recent, i + 1, j, fs);
        } else {
            lemma_rows_extend_skip(recent, i + 1, j, fs.drop_first());
        }
    }
}

proof fn lemma_rows_extend_push(
    recent: RecentFilings,
    i: int,
    j: int,
    fs: Seq<DetailedFiling>,
    f: DetailedFiling,
)
    requires
        0 <= i <= j,
        rows_between(recent, i, j, fs),
        rfc3339_unix_of(recent.acceptance_date_time@[j]@) is Some,
        filing_matches_row(recent, j, f),
    ensures
        rows_between(recent, i, j + 1, fs.push(f)),
    decreases j - i,
{
    if i == j {
        assert(fs.len() == 0);
        assert(fs.push(f)[0] == f);
        assert(fs.push(f).drop_first() =~= fs);
        assert(rows_between(recent, j + 1, j + 1, fs.push(f).drop_first()));
    } else {
        if rfc3339_unix_of(recent.acceptance_date_time@[i]@) is None {
            lemma_rows_extend_push(recent, i + 1, j, fs, f);
        } else {
            lemma_rows_extend_push(recent, i + 1, j, fs.drop_first(), f);
            assert(fs.push(f).drop_first() =~= fs.drop_first().push(f));
            assert(fs.push(f)[0] == fs[0]);
        }
    }
}

/// Turns the recent-filings table into records, row by row; rows whose
/// acceptance timestamp does not parse are skipped.
pub fn detailed_filings(recent: &RecentFilings) -> (r: Vec<DetailedFiling>)
    requires
        recent_wf(*recent),
    ensures
        rows_between(*recent, 0, recent.accession_number@.len() as int, r@),
{
    let n = recent.accession_number.len();
    let mut r: Vec<DetailedFiling> = Vec::new();
    let mut i: usize = 0;
    while i < n
        invariant
            recent_wf(*recent),
            n == recent.accession_number@.len(),
            i <= n,
            rows_between(*recent, 0, i as int, r@),
        decreases n - i,
    {
        match DetailedFiling::from_recent(recent, i) {
            Ok(f) => {
                proof {
                    lemma_rows_extend_push(*recent, 0, i as int, r@, f);
                }
                r.push(f);
            },
            Err(_) => {
                proof {
                    lemma_rows_extend_skip(*recent, 0, i as int, r@);
                }
            },
        }
        i = i + 1;
    }
    r
}

// ---------------------------------------------------------------------------
// Filters
// ---------------------------------------------------------------------------

/// The sequences of form types that do not already name an amendment.
pub open spec fn amendments_of(forms: Seq<Seq<char>>) -> Seq<Seq<char>>
    decreases forms.len(),
{
    if forms.len() == 0 {
        Seq::empty()
    } else if ends_with_seq(forms.last(), "/A"@) {
        amendments_of(forms.drop_last())
    } else {
        amendments_of(forms.drop_last()).push(forms.last() + "/A"@)
    }
}

/// The wanted forms, with the amendment of each non-amendment form appended
/// when amendments are included.
pub open spec fn expanded_forms(forms: Seq<Seq<char>>, include_amendments: bool) -> Seq<Seq<char>> {
    if include_amendments {
        forms + amendments_of(forms)
    } else {
        forms
    }
}

/// The filing's trimmed form type is among the wanted ones.
pub open spec fn filing_form_matches(f: DetailedFiling, forms: Seq<Seq<char>>) -> bool {
    exists|i: int| 0 <= i < forms.len() && #[trigger] forms[i] == trim_seq(f.form@)
}

/// The filings whose trimmed form type is among the wanted ones.
pub open spec fn filter_filing_forms(fs: Seq<DetailedFiling>, forms: Seq<Seq<char>>) -> Seq<
    DetailedFiling,
>
    decreases fs.len(),
{
    if fs.len() == 0 {
        Seq::empty()
    } else if filing_form_matches(fs.last(), forms) {
        filter_filing_forms(fs.drop_last(), forms).push(fs.last())
    } else {
        filter_filing_forms(fs.drop_last(), forms)
    }
}

/// The filters of `FilingOptions` on filing records: form types (expanded
/// with amendments when so configured), then offset, then limit. CIK filters
/// do not apply here; the records of one submissions payload share their CIK.
pub open spec fn spec_filter_filings(fs: Seq<DetailedFiling>, opts: FilingOptions) -> Seq<
    DetailedFiling,
> {
    let a = match opts.form_types {
        Some(forms) => filter_filing_forms(
            fs,
            expanded_forms(forms@.map_values(|s: String| s@), opts.include_amendments),
        ),
        None => fs,
    };
    let b = match opts.offset {
        Some(o) => a.skip(if o <= a.len() {
            o as int
        } else {
            a.len() as int
        }),
        None => a,
    };
    match opts.limit {
        Some(l) => b.take(if l <= b.len() {
            l as int
        } else {
            b.len() as int
        }),
        None => b,
    }
}

/// The expansion of the wanted forms: the forms themselves, then `X/A` for
/// each form `X` that is not already an amendment.
fn expand_forms(forms: &Vec<String>, include_amendments: bool) -> (r: Vec<String>)
    ensures
        r@.map_values(|s: String| s@) == expanded_forms(
            forms@.map_values(|s: String| s@),
            include_amendments,
        ),
{
    let n = forms.len();
    let mut r: Vec<String> = Vec::new();
    let ghost fv = forms@.map_values(|s: String| s@);
    let mut i: usize = 0;
    while i < n
        invariant
            n == forms@.len(),
            fv == forms@.map_values(|s: String| s@),
            i <= n,
            r@.map_values(|s: String| s@) == fv.take(i as int),
        decreases n - i,
    {
        let ghost before = r@.map_values(|s: String| s@);
        r.push(forms[i].clone());
        proof {
            assert(r@.map_values(|s: String| s@) =~~= before.push(fv[i as int]));
            assert(before.push(fv[i as int]) =~~= fv.take(i + 1));
        }
        i = i + 1;
    }
    proof {
        assert(fv.take(n as int) =~= fv);
        assert(r@.map_values(|s: String| s@) == fv);
    }
    if !include_amendments {
        return r;
    }
    let mut j: usize = 0;
    while j < n
        invariant
            n == forms@.len(),
            fv == forms@.map_values(|s: String| s@),
            j <= n,
            r@.map_values(|s: String| s@) == fv + amendments_of(fv.take(j as int)),
        decreases n - j,
    {
        proof {
            assert(fv.take(j + 1).drop_last() =~= fv.take(j as int));
            assert(fv.take(j + 1).last() == fv[j as int]);
        }
        if !str_ends_with(forms[j].as_str(), "/A") {
            let ghost before = r@.map_values(|s: String| s@);
            let mut amended = forms[j].clone();
            amended.append("/A");
            r.push(amended);
            proof {
                assert(r@.map_values(|s: String| s@) =~~= before.push(fv[j as int] + "/A"@));
                assert(before.push(fv[j as int] + "/A"@) =~~= fv + amendments_of(fv.take(j + 1)));
            }
        }
        j = j + 1;
    }
    proof {
        assert(fv.take(n as int) =~= fv);
    }
    r
}

/// Keeps the filings whose trimmed form type is among the wanted ones.
fn retain_filing_forms(fs: Vec<DetailedFiling>, forms: &Vec<String>) -> (r: Vec<DetailedFiling>)
    ensures
        r@ == filter_filing_forms(fs@, forms@.map_values(|s: String| s@)),
{
    let n = fs.len();
    let m = forms.len();
    let mut r: Vec<DetailedFiling> = Vec::new();
    let ghost orig = fs@;
    let ghost fv = forms@.map_values(|s: String| s@);
    let mut i: usize = 0;
    while i < n
        invariant
            n == orig.len(),
            fs@ == orig,
            m == forms@.len(),
            fv == forms@.map_values(|s: String| s@),
            i <= n,
            r@ == filter_filing_forms(orig.take(i as int), fv),
        decreases n - i,
    {
        proof {
            assert(orig.take(i + 1).drop_last() =~= orig.take(i as int));
            assert(orig.take(i + 1).last() == orig[i as int]);
        }
        let trimmed = chars_to_string(&trim_chars(str_chars(fs[i].form.as_str()).as_slice()));
        let mut matched = false;
        let mut j: usize = 0;
        while j < m
            invariant
                m == forms@.len(),
                fv == forms@.map_values(|s: String| s@),
                j <= m,
                trimmed@ == trim_seq(orig[i as int].form@),
                i < n == orig.len(),
                fs@ == orig,
                matched ==> filing_form_matches(orig[i as int], fv),
                !matched ==> forall|k: int| 0 <= k < j ==> #[trigger] fv[k] != trimmed@,
            decreases m - j,
        {
            if str_eq(forms[j].as_str(), trimmed.as_str()) {
                proof {
                    assert(fv[j as int] == forms@[j as int]@);
                    assert(filing_form_matches(orig[i as int], fv));
                }
                matched = true;
                j = m;
            } else {
                j = j + 1;
            }
        }
        if matched {
            let f = fs[i].clone_filing();
            r.push(f);
        } else {
            proof {
                assert(!filing_form_matches(orig[i as int], fv));
            }
        }
        i = i + 1;
    }
    proof {
        assert(orig.take(n as int) =~= orig);
    }
    r
}

impl Edgar {
    /// Applies `FilingOptions` to filing records: form types, expanded with
    /// amendments when so configured, then offset and limit.
    pub fn filter_filings(&self, filings: Vec<DetailedFiling>, opts: &FilingOptions) -> (r: Vec<
        DetailedFiling,
    >)
        ensures
            r@ == spec_filter_filings(filings@, *opts),
    {
        let mut filings = filings;
        if let Some(forms) = &opts.form_types {
            let expanded = expand_forms(forms, opts.include_amendments);
            filings = retain_filing_forms(filings, &expanded);
        }
        if let Some(offset) = opts.offset {
            let ghost before = filings@;
            let cut = if offset <= filings.len() {
                offset
            } else {
                filings.len()
            };
            let mut k: usize = 0;
            while k < cut
                invariant
                    k <= cut,
                    cut <= before.len(),
                    filings@ == before.skip(k as int),
                decreases cut - k,
            {
                proof {
                    assert(before.skip(k as int).subrange(
                        1,
                        before.skip(k as int).len() as int,
                    ) =~= before.skip(k + 1));
                }
                filings.remove(0);
                k = k + 1;
            }
        }
        if let Some(limit) = opts.limit {
            let ghost before = filings@;
            filings.truncate(limit);
            proof {
                if limit <= before.len() {
                    assert(filings@ =~= before.take(limit as int));
                } else {
                    assert(before.take(before.len() as int) =~= before);
                }
            }
        }
        filings
    }
}

// ---------------------------------------------------------------------------
// Filing URLs
// ---------------------------------------------------------------------------

/// The accession number with its dashes removed, as archive paths use it.
pub open spec fn acc_nodash(acc: Seq<char>) -> Seq<char> {
    remove_char_seq(acc, '-')
}

/// A CIK left-padded with zeros to ten digits.
pub open spec fn padded_cik(cik: Seq<char>) -> Seq<char> {
    pad_zeros_seq(cik, 10)
}

impl Edgar {
    /// The submissions URL of a CIK.
    pub fn submission_url(&self, cik: &str) -> (r: String)
        ensures
            r@ == self.edgar_data_url@ + "/submissions/CIK"@ + padded_cik(cik@) + ".json"@,
    {
        let mut u = self.edgar_data_url.clone();
        u.append("/submissions/CIK");
        let p = chars_to_string(&pad_zeros(str_chars(cik).as_slice(), 10));
        u.append(p.as_str());
        u.append(".json");
        u
    }

    /// The directory-listing URL of one filing.
    pub fn filing_directory_url(&self, cik: &str, accession_number: &str) -> (r: String)
        ensures
            r@ == self.edgar_archives_url@ + "/data/"@ + cik@ + "/"@ + acc_nodash(
                accession_number@,
            ) + "/index.json"@,
    {
        let mut u = self.edgar_archives_url.clone();
        u.append("/data/");
        u.append(cik);
        u.append("/");
        let a = chars_to_string(&remove_char(str_chars(accession_number).as_slice(), '-'));
        u.append(a.as_str());
        u.append("/index.json");
        u
    }

    /// The directory-listing URL of a whole entity.
    pub fn entity_directory_url(&self, cik: &str) -> (r: String)
        ensures
            r@ == self.edgar_archives_url@ + "/data/"@ + padded_cik(cik@) + "/index.json"@,
    {
        let mut u = self.edgar_archives_url.clone();
        u.append("/data/");
        let p = chars_to_string(&pad_zeros(str_chars(cik).as_slice(), 10));
        u.append(p.as_str());
        u.append("/index.json");
        u
    }

    /// The URL of one file of a filing.
    pub fn get_filing_url(&self, cik: &str, accession_number: &str, filename: &str) -> (r: String)
        ensures
            r@ == self.edgar_archives_url@ + "/data/"@ + cik@ + "/"@ + acc_nodash(
                accession_number@,
            ) + "/"@ + filename@,
    {
        let mut u = self.edgar_archives_url.clone();
        u.append("/data/");
        u.append(cik);
        u.append("/");
        let a = chars_to_string(&remove_char(str_chars(accession_number).as_slice(), '-'));
        u.append(a.as_str());
        u.append("/");
        u.append(filename);
        u
    }

    /// The URL of the raw text rendition of a filing.
    pub fn get_text_filing_url(&self, cik: &str, accession_number: &str) -> (r: String)
        ensures
            r@ == self.edgar_archives_url@ + "/data/"@ + cik@ + "/"@ + acc_nodash(
                accession_number@,
            ) + "/"@ + accession_number@ + ".txt"@,
    {
        let mut u = self.get_filing_url(cik, accession_number, accession_number);
        u.append(".txt");
        u
    }

    /// The browsable index page URL of a filing.
    pub fn get_original_filing_url(&self, cik: &str, accession_number: &str) -> (r: String)
        ensures
            r@ == self.edgar_archives_url@ + "/data/"@ + cik@ + "/"@ + acc_nodash(
                accession_number@,
            ) + "/"@ + accession_number@ + "-index.html"@,
    {
        let mut u = self.get_filing_url(cik, accession_number, accession_number);
        u.append("-index.html");
        u
    }

    /// The SGML header URL of a filing.
    pub fn get_sgml_header_url(&self, cik: &str, accession_number: &str) -> (r: String)
        ensures
            r@ == self.edgar_archives_url@ + "/data/"@ + cik@ + "/"@ + acc_nodash(
                accession_number@,
            ) + "/"@ + accession_number@ + ".hdr.sgml"@,
    {
        let mut u = self.get_filing_url(cik, accession_number, accession_number);
        u.append(".hdr.sgml");
        u
    }

    /// The URL a combined filing identifier denotes. The identifier must be
    /// `accession:filename`; anything else is `InvalidResponse`.
    pub fn get_filing_url_from_id(&self, cik: &str, filing_id: &str) -> (r: Result<
        String,
        EdgarError,
    >)
        ensures
            split_seq(filing_id@, ':').len() == 2 ==> (r matches Ok(u) && u@
                == self.edgar_archives_url@ + "/data/"@ + cik@ + "/"@ + acc_nodash(
                split_seq(filing_id@, ':')[0],
            ) + "/"@ + split_seq(filing_id@, ':')[1]),
            split_seq(filing_id@, ':').len() != 2 ==> (r matches Err(e) && e is InvalidResponse),
    {
        let chars = str_chars(filing_id);
        let parts = split_char(chars.as_slice(), ':');
        if parts.len() != 2 {
            return Err(
                EdgarError::InvalidResponse(
                    String::from_str(
                        "Invalid filing ID format. Expected 'accession_number:filename'",
                    ),
                ),
            );
        }
        let acc = chars_to_string(&parts[0]);
        let filename = chars_to_string(&parts[1]);
        proof {
            assert(acc@ == split_seq(filing_id@, ':')[0]);
            assert(filename@ == split_seq(filing_id@, ':')[1]);
        }
        Ok(self.get_filing_url(cik, acc.as_str(), filename.as_str()))
    }

    /// The download URL of the most recent filing of a pre-filtered list:
    /// the first record's primary document. An empty list is `NotFound`; a
    /// first record without a primary document is `InvalidResponse`.
    pub fn latest_filing_url(&self, cik: &str, filings: &Vec<DetailedFiling>) -> (r: Result<
        String,
        EdgarError,
    >)
        ensures
            filings@.len() == 0 ==> r == Err::<String, EdgarError>(EdgarError::NotFound),
            filings@.len() > 0 && filings@[0].primary_document is None ==> (r matches Err(e) && e
                is InvalidResponse),
            filings@.len() > 0 ==> (filings@[0].primary_document matches Some(doc) ==> (r matches Ok(
            u) && u@ == self.edgar_archives_url@ + "/data/"@ + cik@ + "/"@ + acc_nodash(
                filings@[0].accession_number@,
            ) + "/"@ + doc@)),
    {
        if filings.len() == 0 {
            return Err(EdgarError::NotFound);
        }
        let filing = &filings[0];
        match &filing.primary_document {
            None => Err(EdgarError::InvalidResponse(String::from_str("No primary document found"))),
            Some(doc) => Ok(self.get_filing_url(cik, filing.accession_number.as_str(), doc.as_str())),
        }
    }

    /// Pairs each filing with its raw-text download URL and its browsable
    /// index page URL.
    pub fn text_filing_links(&self, cik: &str, filings: Vec<DetailedFiling>) -> (r: Vec<
        (DetailedFiling, String, String),
    >)
        ensures
            r@.len() == filings@.len(),
            forall|k: int|
                0 <= k < r@.len() ==> (#[trigger] r@[k]).0 == filings@[k] && r@[k].1@
                    == self.edgar_archives_url@ + "/data/"@ + cik@ + "/"@ + acc_nodash(
                    filings@[k].accession_number@,
                ) + "/"@ + filings@[k].accession_number@ + ".txt"@ && r@[k].2@
                    == self.edgar_archives_url@ + "/data/"@ + cik@ + "/"@ + acc_nodash(
                    filings@[k].accession_number@,
                ) + "/"@ + filings@[k].accession_number@ + "-index.html"@,
    {
        let n = filings.len();
        let mut r: Vec<(DetailedFiling, String, String)> = Vec::new();
        let mut i: usize = 0;
        while i < n
            invariant
                n == filings@.len(),
                i <= n,
                r@.len() == i,
                forall|k: int|
                    0 <= k < i ==> (#[trigger] r@[k]).0 == filings@[k] && r@[k].1@
                        == self.edgar_archives_url@ + "/data/"@ + cik@ + "/"@ + acc_nodash(
                        filings@[k].accession_number@,
                    ) + "/"@ + filings@[k].accession_number@ + ".txt"@ && r@[k].2@
                        == self.edgar_archives_url@ + "/data/"@ + cik@ + "/"@ + acc_nodash(
                        filings@[k].accession_number@,
                    ) + "/"@ + filings@[k].accession_number@ + "-index.html"@,
            decreases n - i,
        {
            let text_url = self.get_text_filing_url(cik, filings[i].accession_number.as_str());
            let sec_url = self.get_original_filing_url(cik, filings[i].accession_number.as_str());
            let f = filings[i].clone_filing();
            r.push((f, text_url, sec_url));
            i = i + 1;
        }
        r
    }

    /// Pairs each filing with its SGML header URL and its browsable index
    /// page URL.
    pub fn sgml_header_links(&self, cik: &str, filings: Vec<DetailedFiling>) -> (r: Vec<
        (DetailedFiling, String, String),
    >)
        ensures
            r@.len() == filings@.len(),
            forall|k: int|
                0 <= k < r@.len() ==> (#[trigger] r@[k]).0 == filings@[k] && r@[k].1@
                    == self.edgar_archives_url@ + "/data/"@ + cik@ + "/"@ + acc_nodash(
                    filings@[k].accession_number@,
                ) + "/"@ + filings@[k].accession_number@ + ".hdr.sgml"@ && r@[k].2@
                    == self.edgar_archives_url@ + "/data/"@ + cik@ + "/"@ + acc_nodash(
                    filings@[k].accession_number@,
                ) + "/"@ + filings@[k].accession_number@ + "-index.html"@,
    {
        let n = filings.len();
        let mut r: Vec<(DetailedFiling, String, String)> = Vec::new();
        let mut i: usize = 0;
        while i < n
            invariant
                n == filings@.len(),
                i <= n,
                r@.len() == i,
                forall|k: int|
                    0 <= k < i ==> (#[trigger] r@[k]).0 == filings@[k] && r@[k].1@
                        == self.edgar_archives_url@ + "/data/"@ + cik@ + "/"@ + acc_nodash(
                        filings@[k].accession_number@,
                    ) + "/"@ + filings@[k].accession_number@ + ".hdr.sgml"@ && r@[k].2@
                        == self.edgar_archives_url@ + "/data/"@ + cik@ + "/"@ + acc_nodash(
                        filings@[k].accession_number@,
                    ) + "/"@ + filings@[k].accession_number@ + "-index.html"@,
            decreases n - i,
        {
            let sgml_url = self.get_sgml_header_url(cik, filings[i].accession_number.as_str());
            let sec_url = self.get_original_filing_url(cik, filings[i].accession_number.as_str());
            let f = filings[i].clone_filing();
            r.push((f, sgml_url, sec_url));
            i = i + 1;
        }
        r
    }
}

} // verus!
