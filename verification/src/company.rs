//! Company identity lookups and the XBRL endpoint URLs.
//!
//! Ticker-to-CIK resolution works over the downloaded ticker tables; the
//! URL builders cover the ticker files and the XBRL facts, concept and frames
//! endpoints. The positional-field extractor maps the column names of the
//! tabular SEC JSON payloads to their indices.

use vstd::prelude::*;
use vstd::string::StringExecFns;

use crate::client::Edgar;
use crate::error::EdgarError;
use crate::text::chars_to_string;
use crate::text::pad_zeros;
use crate::text::pad_zeros_seq;
use crate::text::str_chars;
use crate::text::str_eq;
use crate::text::u64_chars;
use crate::text::upper_chars;
use crate::text::upper_seq;
use crate::text::dec_seq;

verus! {

/// A ticker-to-CIK mapping row.
#[derive(Debug, Clone)]
pub struct CompanyTicker {
    pub cik: u64,
    pub ticker: String,
    pub title: String,
}

/// A mutual fund ticker with its series and class identifiers.
#[derive(Debug, Clone)]
pub struct MutualFundTicker {
    pub cik: u64,
    pub series_id: String,
    pub class_id: String,
    pub symbol: String,
}

/// A ticker row with its exchange.
#[derive(Debug, Clone)]
pub struct CompanyTickerExchange {
    pub cik: u64,
    pub ticker: String,
    pub name: String,
    pub exchange: String,
}

/// One company's value of a frame aggregation.
#[derive(Debug, Clone)]
pub struct FrameDataPoint {
    pub entity_name: String,
    pub cik: u64,
    pub val: u64,
    pub accn: String,
    pub loc: String,
    pub end: String,
}

/// A cross-company aggregation of one concept for one period.
#[derive(Debug, Clone)]
pub struct Frame {
    pub ccp: String,
    pub tag: String,
    pub taxonomy: String,
    pub uom: String,
    pub label: Option<String>,
    pub description: Option<String>,
    pub pts: u64,
    pub data_points: Vec<FrameDataPoint>,
}

// ---------------------------------------------------------------------------
// Ticker lookups
// ---------------------------------------------------------------------------

/// The first row whose ticker equals `want`, or `-1`.
pub open spec fn first_ticker_idx(tickers: Seq<CompanyTicker>, want: Seq<char>) -> int
    decreases tickers.len(),
{
    if tickers.len() == 0 {
        -1
    } else if tickers[0].ticker@ == want {
        0
    } else {
        let r = first_ticker_idx(tickers.drop_first(), want);
        if r < 0 {
            -1
        } else {
            r + 1
        }
    }
}

/// The first row whose fund symbol equals `want`, or `-1`.
pub open spec fn first_symbol_idx(tickers: Seq<MutualFundTicker>, want: Seq<char>) -> int
    decreases tickers.len(),
{
    if tickers.len() == 0 {
        -1
    } else if tickers[0].symbol@ == want {
        0
    } else {
        let r = first_symbol_idx(tickers.drop_first(), want);
        if r < 0 {
            -1
        } else {
            r + 1
        }
    }
}

proof fn lemma_ticker_at(tickers: Seq<CompanyTicker>, want: Seq<char>, i: int)
    requires
        0 <= i < tickers.len(),
        tickers[i].ticker@ == want,
        forall|j: int| 0 <= j < i ==> (#[trigger] tickers[j]).ticker@ != want,
    ensures
        first_ticker_idx(tickers, want) == i,
    decreases tickers.len(),
{
    if i > 0 {
        lemma_ticker_at(tickers.drop_first(), want, i - 1);
    }
}

proof fn lemma_ticker_none(tickers: Seq<CompanyTicker>, want: Seq<char>)
    requires
        forall|j: int| 0 <= j < tickers.len() ==> (#[trigger] tickers[j]).ticker@ != want,
    ensures
        first_ticker_idx(tickers, want) == -1,
    decreases tickers.len(),
{
    if tickers.len() > 0 {
        lemma_ticker_none(tickers.drop_first(), want);
    }
}

proof fn lemma_symbol_at(tickers: Seq<MutualFundTicker>, want: Seq<char>, i: int)
    requires
        0 <= i < tickers.len(),
        tickers[i].symbol@ == want,
        forall|j: int| 0 <= j < i ==> (#[trigger] tickers[j]).symbol@ != want,
    ensures
        first_symbol_idx(tickers, want) == i,
    decreases tickers.len(),
{
    if i > 0 {
        lemma_symbol_at(tickers.drop_first(), want, i - 1);
    }
}

proof fn lemma_symbol_none(tickers: Seq<MutualFundTicker>, want: Seq<char>)
    requires
        forall|j: int| 0 <= j < tickers.len() ==> (#[trigger] tickers[j]).symbol@ != want,
    ensures
        first_symbol_idx(tickers, want) == -1,
    decreases tickers.len(),
{
    if tickers.len() > 0 {
        lemma_symbol_none(tickers.drop_first(), want);
    }
}

/// The CIK of the first row whose ticker equals the symbol, ASCII
/// upper-cased; `TickerNotFound` when no row has it.
pub fn company_cik_of(tickers: &Vec<CompanyTicker>, ticker: &str) -> (r: Result<u64, EdgarError>)
    ensures
        first_ticker_idx(tickers@, upper_seq(ticker@)) < 0 ==> r == Err::<u64, EdgarError>(
            EdgarError::TickerNotFound,
        ),
        first_ticker_idx(tickers@, upper_seq(ticker@)) >= 0 ==> r == Ok::<u64, EdgarError>(
            tickers@[first_ticker_idx(tickers@, upper_seq(ticker@))].cik,
        ),
{
    let want = chars_to_string(&upper_chars(ticker));
    let n = tickers.len();
    let mut i: usize = 0;
    while i < n
        invariant
            n == tickers@.len(),
            i <= n,
            want@ == upper_seq(ticker@),
            forall|j: int| 0 <= j < i ==> (#[trigger] tickers@[j]).ticker@ != want@,
        decreases n - i,
    {
        if str_eq(tickers[i].ticker.as_str(), want.as_str()) {
            proof {
                lemma_ticker_at(tickers@, want@, i as int);
            }
            return Ok(tickers[i].cik);
        }
        i = i + 1;
    }
    proof {
        lemma_ticker_none(tickers@, want@);
    }
    Err(EdgarError::TickerNotFound)
}

/// The CIK of the first row whose fund symbol equals the symbol, ASCII
/// upper-cased; `TickerNotFound` when no row has it.
pub fn mutual_fund_cik_of(tickers: &Vec<MutualFundTicker>, ticker: &str) -> (r: Result<
    u64,
    EdgarError,
>)
    ensures
        first_symbol_idx(tickers@, upper_seq(ticker@)) < 0 ==> r == Err::<u64, EdgarError>(
            EdgarError::TickerNotFound,
        ),
        first_symbol_idx(tickers@, upper_seq(ticker@)) >= 0 ==> r == Ok::<u64, EdgarError>(
            tickers@[first_symbol_idx(tickers@, upper_seq(ticker@))].cik,
        ),
{
    let want = chars_to_string(&upper_chars(ticker));
    let n = tickers.len();
    let mut i: usize = 0;
    while i < n
        invariant
            n == tickers@.len(),
            i <= n,
            want@ == upper_seq(ticker@),
            forall|j: int| 0 <= j < i ==> (#[trigger] tickers@[j]).symbol@ != want@,
        decreases n - i,
    {
        if str_eq(tickers[i].symbol.as_str(), want.as_str()) {
            proof {
                lemma_symbol_at(tickers@, want@, i as int);
            }
            return Ok(tickers[i].cik);
        }
        i = i + 1;
    }
    proof {
        lemma_symbol_none(tickers@, want@);
    }
    Err(EdgarError::TickerNotFound)
}

// ---------------------------------------------------------------------------
// Endpoint URLs
// ---------------------------------------------------------------------------

impl Edgar {
    /// The URL of the company ticker table.
    pub fn company_tickers_url(&self) -> (r: String)
        ensures
            r@ == self.edgar_files_url@ + "/company_tickers.json"@,
    {
        let mut u = self.edgar_files_url.clone();
        u.append("/company_tickers.json");
        u
    }

    /// The URL of the ticker table with exchanges.
    pub fn company_tickers_exchange_url(&self) -> (r: String)
        ensures
            r@ == self.edgar_files_url@ + "/company_tickers_exchange.json"@,
    {
        let mut u = self.edgar_files_url.clone();
        u.append("/company_tickers_exchange.json");
        u
    }

    /// The URL of the mutual fund ticker table.
    pub fn mutual_fund_tickers_url(&self) -> (r: String)
        ensures
            r@ == self.edgar_files_url@ + "/company_tickers_mf.json"@,
    {
        let mut u = self.edgar_files_url.clone();
        u.append("/company_tickers_mf.json");
        u
    }

    /// The company-facts URL of a CIK.
    pub fn company_facts_url(&self, cik: u64) -> (r: String)
        ensures
            r@ == self.edgar_data_url@ + "/api/xbrl/companyfacts/CIK"@ + pad_zeros_seq(
                dec_seq(cik as int),
                10,
            ) + ".json"@,
    {
        let mut u = self.edgar_data_url.clone();
        u.append("/api/xbrl/companyfacts/CIK");
        let p = chars_to_string(&pad_zeros(u64_chars(cik).as_slice(), 10));
        u.append(p.as_str());
        u.append(".json");
        u
    }

    /// The company-concept URL of a CIK, taxonomy and tag.
    pub fn company_concept_url(&self, cik: u64, taxonomy: &str, tag: &str) -> (r: String)
        ensures
            r@ == self.edgar_data_url@ + "/api/xbrl/companyconcept/CIK"@ + pad_zeros_seq(
                dec_seq(cik as int),
                10,
            ) + "/"@ + taxonomy@ + "/"@ + tag@ + ".json"@,
    {
        let mut u = self.edgar_data_url.clone();
        u.append("/api/xbrl/companyconcept/CIK");
        let p = chars_to_string(&pad_zeros(u64_chars(cik).as_slice(), 10));
        u.append(p.as_str());
        u.append("/");
        u.append(taxonomy);
        u.append("/");
        u.append(tag);
        u.append(".json");
        u
    }

    /// The frames URL of a taxonomy, tag, unit and period.
    pub fn frames_url(&self, taxonomy: &str, tag: &str, unit: &str, period: &str) -> (r: String)
        ensures
            r@ == self.edgar_data_url@ + "/api/xbrl/frames/"@ + taxonomy@ + "/"@ + tag@ + "/"@
                + unit@ + "/"@ + period@ + ".json"@,
    {
        let mut u = self.edgar_data_url.clone();
        u.append("/api/xbrl/frames/");
        u.append(taxonomy);
        u.append("/");
        u.append(tag);
        u.append("/");
        u.append(unit);
        u.append("/");
        u.append(period);
        u.append(".json");
        u
    }
}

// ---------------------------------------------------------------------------
// Positional field extraction
// ---------------------------------------------------------------------------

/// The first index of the string equal to `want`, or `-1`.
pub open spec fn first_string_idx(v: Seq<String>, want: Seq<char>) -> int
    decreases v.len(),
{
    if v.len() == 0 {
        -1
    } else if v[0]@ == want {
        0
    } else {
        let r = first_string_idx(v.drop_first(), want);
        if r < 0 {
            -1
        } else {
            r + 1
        }
    }
}

proof fn lemma_string_at(v: Seq<String>, want: Seq<char>, i: int)
    requires
        0 <= i < v.len(),
        v[i]@ == want,
        forall|j: int| 0 <= j < i ==> (#[trigger] v[j])@ != want,
    ensures
        first_string_idx(v, want) == i,
    decreases v.len(),
{
    if i > 0 {
        lemma_string_at(v.drop_first(), want, i - 1);
    }
}

proof fn lemma_string_idx_range(v: Seq<String>, want: Seq<char>)
    ensures
        -1 <= first_string_idx(v, want) < v.len(),
    decreases v.len(),
{
    if v.len() > 0 {
        lemma_string_idx_range(v.drop_first(), want);
    }
}

proof fn lemma_string_none(v: Seq<String>, want: Seq<char>)
    requires
        forall|j: int| 0 <= j < v.len() ==> (#[trigger] v[j])@ != want,
    ensures
        first_string_idx(v, want) == -1,
    decreases v.len(),
{
    if v.len() > 0 {
        lemma_string_none(v.drop_first(), want);
    }
}

/// Finds the first string equal to `name`.
fn find_string(fields: &Vec<String>, name: &str) -> (r: Option<usize>)
    ensures
        r is None <==> first_string_idx(fields@, name@) < 0,
        r matches Some(i) ==> i as int == first_string_idx(fields@, name@),
{
    proof {
        lemma_string_idx_range(fields@, name@);
    }
    let m = fields.len();
    let mut j: usize = 0;
    while j < m
        invariant
            m == fields@.len(),
            j <= m,
            forall|q: int| 0 <= q < j ==> (#[trigger] fields@[q])@ != name@,
        decreases m - j,
    {
        if str_eq(fields[j].as_str(), name) {
            proof {
                lemma_string_at(fields@, name@, j as int);
            }
            return Some(j);
        }
        j = j + 1;
    }
    proof {
        lemma_string_none(fields@, name@);
    }
    None
}

/// Maps field names of a tabular payload to their column indices.
#[derive(Debug)]
pub struct FieldExtractor {
    /// Each required field with its column index.
    pub indices: Vec<(String, usize)>,
}

/// Every required field resolved to its first column.
pub open spec fn extractor_matches(fe: FieldExtractor, fields: Seq<String>, required: Seq<String>) -> bool {
    &&& fe.indices@.len() == required.len()
    &&& forall|k: int|
        0 <= k < required.len() ==> (#[trigger] fe.indices@[k]).0@ == required[k]@
            && fe.indices@[k].1 as int == first_string_idx(fields, required[k]@)
}

impl FieldExtractor {
    /// Resolves each required field name to its first column among `fields`;
    /// `InvalidResponse` as soon as one is missing.
    pub fn new(fields: &Vec<String>, required: &Vec<String>) -> (r: Result<
        FieldExtractor,
        EdgarError,
    >)
        ensures
            r is Ok <==> (forall|k: int|
                0 <= k < required@.len() ==> first_string_idx(fields@, (#[trigger] required@[k])@)
                    >= 0),
            r matches Ok(fe) ==> extractor_matches(fe, fields@, required@),
            r matches Err(e) ==> e is InvalidResponse,
    {
        let n = required.len();
        let mut indices: Vec<(String, usize)> = Vec::new();
        let mut k: usize = 0;
        while k < n
            invariant
                n == required@.len(),
                k <= n,
                indices@.len() == k,
                forall|p: int|
                    0 <= p < k ==> (#[trigger] indices@[p]).0@ == required@[p]@ && indices@[p].1
                        as int == first_string_idx(fields@, required@[p]@) && first_string_idx(
                        fields@,
                        required@[p]@,
                    ) >= 0,
            decreases n - k,
        {
            let name = &required[k];
            match find_string(fields, name.as_str()) {
                Some(idx) => {
                    let ghost before = indices@;
                    indices.push((name.clone(), idx));
                    proof {
                        assert(indices@ == before.push((indices@[k as int].0, idx)));
                        assert(indices@[k as int].0@ == required@[k as int]@);
                        assert(indices@[k as int].1 as int == first_string_idx(
                            fields@,
                            required@[k as int]@,
                        ));
                        assert(forall|p: int| 0 <= p < k ==> indices@[p] == before[p]);
                    }
                },
                None => {
                    let mut msg = String::from_str("Missing '");
                    msg.append(name.as_str());
                    msg.append("' field");
                    return Err(EdgarError::InvalidResponse(msg));
                },
            }
            k = k + 1;
        }
        proof {
            assert forall|k2: int|
                0 <= k2 < required@.len() implies first_string_idx(
                fields@,
                (#[trigger] required@[k2])@,
            ) >= 0 by {
                assert(indices@[k2].1 as int == first_string_idx(fields@, required@[k2]@));
            }
        }
        Ok(FieldExtractor { indices })
    }

    /// The column index of a field; `InvalidResponse` when the field was not
    /// among the required ones.
    pub fn get_index(&self, field: &str) -> (r: Result<usize, EdgarError>)
        ensures
            (exists|k: int|
                0 <= k < self.indices@.len() && (#[trigger] self.indices@[k]).0@ == field@) ==> (
            r matches Ok(i) && exists|k: int|
                0 <= k < self.indices@.len() && (#[trigger] self.indices@[k]).0@ == field@
                    && self.indices@[k].1 == i),
            !(exists|k: int|
                0 <= k < self.indices@.len() && (#[trigger] self.indices@[k]).0@ == field@) ==> (
            r matches Err(e) && e is InvalidResponse),
    {
        let n = self.indices.len();
        let mut k: usize = 0;
        while k < n
            invariant
                n == self.indices@.len(),
                k <= n,
                forall|p: int| 0 <= p < k ==> (#[trigger] self.indices@[p]).0@ != field@,
            decreases n - k,
        {
            if str_eq(self.indices[k].0.as_str(), field) {
                return Ok(self.indices[k].1);
            }
            k = k + 1;
        }
        let mut msg = String::from_str("Field '");
        msg.append(field);
        msg.append("' not found");
        Err(EdgarError::InvalidResponse(msg))
    }
}

} // verus!
