//! Full-text search over EDGAR filings.
//!
//! `SearchOptions` builds a query with the fluent setters; `to_query_params`
//! renders it as the exact ordered key/value list the search endpoint takes,
//! and `plan_search_pages` lays out the page requests needed to retrieve a
//! whole result set beyond its first page.

use vstd::prelude::*;
use vstd::string::StringExecFns;

use crate::client::Edgar;
use crate::error::EdgarError;
use crate::options::lemma_params_view_push;
use crate::options::params_view;
use crate::text::chars_to_string;
use crate::text::dec_seq;
use crate::text::join_seq;
use crate::text::u64_chars;

verus! {

/// Response metadata and results from one search request.
#[derive(Debug, Clone)]
pub struct SearchResponse {
    /// Time the server took, in milliseconds.
    pub took: u32,
    /// Whether the search timed out server-side.
    pub timed_out: bool,
    /// Shard accounting of the search backend.
    pub _shards: Shards,
    /// The results.
    pub hits: Hits,
}

/// Shard accounting of the search backend.
#[derive(Debug, Clone)]
pub struct Shards {
    pub total: u32,
    pub successful: u32,
    pub skipped: u32,
    pub failed: u32,
}

/// The result container: the total count and one page of hits.
#[derive(Debug, Clone)]
pub struct Hits {
    /// Total matching documents.
    pub total: TotalHits,
    /// The hits of this page.
    pub hits: Vec<Hit>,
}

/// Total count of matching documents; `relation` says whether the count is
/// exact (`eq`) or a lower bound (`gte`).
#[derive(Debug, Clone)]
pub struct TotalHits {
    pub value: u32,
    pub relation: String,
}

/// One search result.
#[derive(Debug, Clone)]
pub struct Hit {
    /// Index name.
    pub _index: String,
    /// Document identifier.
    pub _id: String,
    /// The filing metadata.
    pub _source: Source,
}

/// Filing metadata of one search result.
#[derive(Debug, Clone)]
pub struct Source {
    /// Company CIK numbers.
    pub ciks: Vec<String>,
    /// Period ending date, if any.
    pub period_ending: Option<String>,
    /// File numbers.
    pub file_num: Option<Vec<String>>,
    /// Company display names.
    pub display_names: Vec<String>,
    /// XSL stylesheet reference.
    pub xsl: Option<String>,
    /// Sequence number.
    pub sequence: u32,
    /// Root form types.
    pub root_forms: Vec<String>,
    /// Filing date.
    pub file_date: String,
    /// Business states.
    pub biz_states: Vec<String>,
    /// SIC codes.
    pub sics: Vec<String>,
    /// Form type.
    pub form: String,
    /// Accession number.
    pub adsh: String,
    /// Film numbers.
    pub film_num: Vec<String>,
    /// Business locations.
    pub biz_locations: Vec<String>,
    /// File type.
    pub file_type: String,
    /// File description, if any.
    pub file_description: Option<String>,
    /// Incorporation states.
    pub inc_states: Vec<String>,
    /// Item numbers, for forms that carry them.
    pub items: Option<Vec<String>>,
}

/// Search criteria; every filter is optional.
#[derive(Debug, Clone)]
pub struct SearchOptions {
    /// Typeahead keys.
    pub keys_typed: Option<String>,
    /// Search query text.
    pub query: Option<String>,
    /// Filing category.
    pub category: Option<String>,
    /// Company location filter.
    pub location_code: Option<String>,
    /// Company or individual name.
    pub entity_name: Option<String>,
    /// Form types to search.
    pub forms: Option<Vec<String>>,
    /// Several location codes.
    pub location_codes: Option<Vec<String>>,
    /// Page number.
    pub page: Option<u32>,
    /// Results to skip.
    pub from: Option<u32>,
    /// Results to return, at most one hundred.
    pub count: Option<u32>,
    /// Oldest first instead of newest.
    pub reverse_order: Option<bool>,
    /// Start date, requires the end date.
    pub start_date: Option<String>,
    /// End date, requires the start date.
    pub end_date: Option<String>,
    /// Base-word search or exact.
    pub stemming: Option<String>,
    /// CIK codes to search.
    pub ciks: Option<Vec<String>>,
    /// Standard Industrial Classification code.
    pub sic: Option<String>,
    /// Use the incorporation location instead of the headquarters.
    pub incorporated_location: Option<bool>,
}

impl Default for SearchOptions {
    /// No filters.
    fn default() -> (r: Self)
        ensures
            r.keys_typed is None,
            r.query is None,
            r.category is None,
            r.location_code is None,
            r.entity_name is None,
            r.forms is None,
            r.location_codes is None,
            r.page is None,
            r.from is None,
            r.count is None,
            r.reverse_order is None,
            r.start_date is None,
            r.end_date is None,
            r.stemming is None,
            r.ciks is None,
            r.sic is None,
            r.incorporated_location is None,
    {
        SearchOptions {
            keys_typed: None,
            query: None,
            category: None,
            location_code: None,
            entity_name: None,
            forms: None,
            location_codes: None,
            page: None,
            from: None,
            count: None,
            reverse_order: None,
            start_date: None,
            end_date: None,
            stemming: None,
            ciks: None,
            sic: None,
            incorporated_location: None,
        }
    }
}

/// The views of a string vector.
pub open spec fn views_of(v: Seq<String>) -> Seq<Seq<char>> {
    v.map_values(|s: String| s@)
}

/// The ordered query parameters a `SearchOptions` renders to: one pair per
/// set filter, in the fixed order the endpoint documents, with list filters
/// joined by commas, numbers in decimal, and the two boolean filters rendered
/// as `TRUE`/`FALSE` and `true`/`false` respectively.
pub open spec fn spec_query_params(o: SearchOptions) -> Seq<(Seq<char>, Seq<char>)> {
    spec_params_g1(o) + spec_params_g2(o) + spec_params_g3(o) + spec_params_g4(o)
}

/// One tranche of the ordered query parameters.
pub open spec fn spec_params_g1(o: SearchOptions) -> Seq<(Seq<char>, Seq<char>)> {
    let s = Seq::<(Seq<char>, Seq<char>)>::empty();
    let s = match o.query { Some(v) => s.push(("q"@, v@)), None => s };
    let s = match o.keys_typed { Some(v) => s.push(("keysTyped"@, v@)), None => s };
    let s = match o.category { Some(v) => s.push(("category"@, v@)), None => s };
    let s = match o.location_code { Some(v) => s.push(("locationCode"@, v@)), None => s };
    let s = match o.entity_name { Some(v) => s.push(("entityName"@, v@)), None => s };
    s
}

/// One tranche of the ordered query parameters.
pub open spec fn spec_params_g2(o: SearchOptions) -> Seq<(Seq<char>, Seq<char>)> {
    let s = Seq::<(Seq<char>, Seq<char>)>::empty();
    let s = match o.forms { Some(v) => s.push(("forms"@, join_seq(views_of(v@), ','))), None => s };
    let s = match o.location_codes { Some(v) => s.push(("locationCodes"@, join_seq(views_of(v@), ','))), None => s };
    let s = match o.page { Some(v) => s.push(("page"@, dec_seq(v as int))), None => s };
    let s = match o.from { Some(v) => s.push(("from"@, dec_seq(v as int))), None => s };
    let s = match o.count { Some(v) => s.push(("count"@, dec_seq(v as int))), None => s };
    s
}

/// One tranche of the ordered query parameters.
pub open spec fn spec_params_g3(o: SearchOptions) -> Seq<(Seq<char>, Seq<char>)> {
    let s = Seq::<(Seq<char>, Seq<char>)>::empty();
    let s = match o.reverse_order { Some(v) => s.push(("reverse_order"@, if v { "TRUE"@ } else { "FALSE"@ })), None => s };
    let s = match o.start_date { Some(v) => s.push(("startdt"@, v@)), None => s };
    let s = match o.end_date { Some(v) => s.push(("enddt"@, v@)), None => s };
    let s = match o.stemming { Some(v) => s.push(("stemming"@, v@)), None => s };
    s
}

/// One tranche of the ordered query parameters.
pub open spec fn spec_params_g4(o: SearchOptions) -> Seq<(Seq<char>, Seq<char>)> {
    let s = Seq::<(Seq<char>, Seq<char>)>::empty();
    let s = match o.ciks { Some(v) => s.push(("ciks"@, join_seq(views_of(v@), ','))), None => s };
    let s = match o.sic { Some(v) => s.push(("sic"@, v@)), None => s };
    let s = match o.incorporated_location { Some(v) => s.push(("incorporated_location"@, if v { "true"@ } else { "false"@ })), None => s };
    s
}


/// Joins strings with commas between them.
fn join_comma(v: &Vec<String>) -> (r: String)
    ensures
        r@ == join_seq(views_of(v@), ','),
{
    let n = v.len();
    if n == 0 {
        proof {
            assert(views_of(v@).len() == 0);
        }
        return String::new();
    }
    let mut r = v[0].clone();
    proof {
        assert(views_of(v@).take(1) =~= seq![v@[0]@]);
    }
    let mut i: usize = 1;
    while i < n
        invariant
            n == v@.len(),
            1 <= i <= n,
            r@ == join_seq(views_of(v@).take(i as int), ','),
        decreases n - i,
    {
        r.append(",");
        r.append(v[i].as_str());
        proof {
            reveal_strlit(",");
            assert(","@ =~= seq![',']);
            assert(views_of(v@).take(i + 1).drop_last() =~= views_of(v@).take(i as int));
            assert(views_of(v@).take(i + 1).last() == v@[i as int]@);
        }
        i = i + 1;
    }
    proof {
        assert(views_of(v@).take(n as int) =~= views_of(v@));
    }
    r
}

fn dec_string_u32(v: u32) -> (r: String)
    ensures
        r@ == dec_seq(v as int),
{
    let digits = u64_chars(v as u64);
    chars_to_string(&digits)
}

impl SearchOptions {
    /// The default options: no filters.
    pub fn new() -> (r: Self)
        ensures
            r.keys_typed is None,
            r.query is None,
            r.category is None,
            r.location_code is None,
            r.entity_name is None,
            r.forms is None,
            r.location_codes is None,
            r.page is None,
            r.from is None,
            r.count is None,
            r.reverse_order is None,
            r.start_date is None,
            r.end_date is None,
            r.stemming is None,
            r.ciks is None,
            r.sic is None,
            r.incorporated_location is None,
    {
        Self::default()
    }

    /// Sets the search query text.
    pub fn with_query(self, query: &str) -> (r: Self)
        ensures
            r.query matches Some(v) && v@ == query@,
            r.keys_typed == self.keys_typed,
            r.category == self.category,
            r.location_code == self.location_code,
            r.entity_name == self.entity_name,
            r.forms == self.forms,
            r.location_codes == self.location_codes,
            r.page == self.page,
            r.from == self.from,
            r.count == self.count,
            r.reverse_order == self.reverse_order,
            r.start_date == self.start_date,
            r.end_date == self.end_date,
            r.stemming == self.stemming,
            r.ciks == self.ciks,
            r.sic == self.sic,
            r.incorporated_location == self.incorporated_location,
    {
        SearchOptions { query: Some(String::from_str(query)), ..self }
    }
    /// Sets the keys typed for typeahead search.
    pub fn with_keys_typed(self, keys_typed: &str) -> (r: Self)
        ensures
            r.keys_typed matches Some(v) && v@ == keys_typed@,
            r.query == self.query,
            r.category == self.category,
            r.location_code == self.location_code,
            r.entity_name == self.entity_name,
            r.forms == self.forms,
            r.location_codes == self.location_codes,
            r.page == self.page,
            r.from == self.from,
            r.count == self.count,
            r.reverse_order == self.reverse_order,
            r.start_date == self.start_date,
            r.end_date == self.end_date,
            r.stemming == self.stemming,
            r.ciks == self.ciks,
            r.sic == self.sic,
            r.incorporated_location == self.incorporated_location,
    {
        SearchOptions { keys_typed: Some(String::from_str(keys_typed)), ..self }
    }
    /// Sets the category filter.
    pub fn with_category(self, category: &str) -> (r: Self)
        ensures
            r.category matches Some(v) && v@ == category@,
            r.keys_typed == self.keys_typed,
            r.query == self.query,
            r.location_code == self.location_code,
            r.entity_name == self.entity_name,
            r.forms == self.forms,
            r.location_codes == self.location_codes,
            r.page == self.page,
            r.from == self.from,
            r.count == self.count,
            r.reverse_order == self.reverse_order,
            r.start_date == self.start_date,
            r.end_date == self.end_date,
            r.stemming == self.stemming,
            r.ciks == self.ciks,
            r.sic == self.sic,
            r.incorporated_location == self.incorporated_location,
    {
        SearchOptions { category: Some(String::from_str(category)), ..self }
    }
    /// Sets the location code filter.
    pub fn with_location_code(self, location_code: &str) -> (r: Self)
        ensures
            r.location_code matches Some(v) && v@ == location_code@,
            r.keys_typed == self.keys_typed,
            r.query == self.query,
            r.category == self.category,
            r.entity_name == self.entity_name,
            r.forms == self.forms,
            r.location_codes == self.location_codes,
            r.page == self.page,
            r.from == self.from,
            r.count == self.count,
            r.reverse_order == self.reverse_order,
            r.start_date == self.start_date,
            r.end_date == self.end_date,
            r.stemming == self.stemming,
            r.ciks == self.ciks,
            r.sic == self.sic,
            r.incorporated_location == self.incorporated_location,
    {
        SearchOptions { location_code: Some(String::from_str(location_code)), ..self }
    }
    /// Sets the entity name filter.
    pub fn with_entity_name(self, entity_name: &str) -> (r: Self)
        ensures
            r.entity_name matches Some(v) && v@ == entity_name@,
            r.keys_typed == self.keys_typed,
            r.query == self.query,
            r.category == self.category,
            r.location_code == self.location_code,
            r.forms == self.forms,
            r.location_codes == self.location_codes,
            r.page == self.page,
            r.from == self.from,
            r.count == self.count,
            r.reverse_order == self.reverse_order,
            r.start_date == self.start_date,
            r.end_date == self.end_date,
            r.stemming == self.stemming,
            r.ciks == self.ciks,
            r.sic == self.sic,
            r.incorporated_location == self.incorporated_location,
    {
        SearchOptions { entity_name: Some(String::from_str(entity_name)), ..self }
    }
    /// Sets the stemming option.
    pub fn with_stemming(self, stemming: &str) -> (r: Self)
        ensures
            r.stemming matches Some(v) && v@ == stemming@,
            r.keys_typed == self.keys_typed,
            r.query == self.query,
            r.category == self.category,
            r.location_code == self.location_code,
            r.entity_name == self.entity_name,
            r.forms == self.forms,
            r.location_codes == self.location_codes,
            r.page == self.page,
            r.from == self.from,
            r.count == self.count,
            r.reverse_order == self.reverse_order,
            r.start_date == self.start_date,
            r.end_date == self.end_date,
            r.ciks == self.ciks,
            r.sic == self.sic,
            r.incorporated_location == self.incorporated_location,
    {
        SearchOptions { stemming: Some(String::from_str(stemming)), ..self }
    }
    /// Sets the SIC code filter.
    pub fn with_sic(self, sic: &str) -> (r: Self)
        ensures
            r.sic matches Some(v) && v@ == sic@,
            r.keys_typed == self.keys_typed,
            r.query == self.query,
            r.category == self.category,
            r.location_code == self.location_code,
            r.entity_name == self.entity_name,
            r.forms == self.forms,
            r.location_codes == self.location_codes,
            r.page == self.page,
            r.from == self.from,
            r.count == self.count,
            r.reverse_order == self.reverse_order,
            r.start_date == self.start_date,
            r.end_date == self.end_date,
            r.stemming == self.stemming,
            r.ciks == self.ciks,
            r.incorporated_location == self.incorporated_location,
    {
        SearchOptions { sic: Some(String::from_str(sic)), ..self }
    }
    /// Sets the form types to filter by.
    pub fn with_forms(self, forms: Vec<String>) -> (r: Self)
        ensures
            r.forms == Some(forms),
            r.keys_typed == self.keys_typed,
            r.query == self.query,
            r.category == self.category,
            r.location_code == self.location_code,
            r.entity_name == self.entity_name,
            r.location_codes == self.location_codes,
            r.page == self.page,
            r.from == self.from,
            r.count == self.count,
            r.reverse_order == self.reverse_order,
            r.start_date == self.start_date,
            r.end_date == self.end_date,
            r.stemming == self.stemming,
            r.ciks == self.ciks,
            r.sic == self.sic,
            r.incorporated_location == self.incorporated_location,
    {
        SearchOptions { forms: Some(forms), ..self }
    }
    /// Sets the location codes to filter by.
    pub fn with_location_codes(self, location_codes: Vec<String>) -> (r: Self)
        ensures
            r.location_codes == Some(location_codes),
            r.keys_typed == self.keys_typed,
            r.query == self.query,
            r.category == self.category,
            r.location_code == self.location_code,
            r.entity_name == self.entity_name,
            r.forms == self.forms,
            r.page == self.page,
            r.from == self.from,
            r.count == self.count,
            r.reverse_order == self.reverse_order,
            r.start_date == self.start_date,
            r.end_date == self.end_date,
            r.stemming == self.stemming,
            r.ciks == self.ciks,
            r.sic == self.sic,
            r.incorporated_location == self.incorporated_location,
    {
        SearchOptions { location_codes: Some(location_codes), ..self }
    }
    /// Sets the CIK filters.
    pub fn with_ciks(self, ciks: Vec<String>) -> (r: Self)
        ensures
            r.ciks == Some(ciks),
            r.keys_typed == self.keys_typed,
            r.query == self.query,
            r.category == self.category,
            r.location_code == self.location_code,
            r.entity_name == self.entity_name,
            r.forms == self.forms,
            r.location_codes == self.location_codes,
            r.page == self.page,
            r.from == self.from,
            r.count == self.count,
            r.reverse_order == self.reverse_order,
            r.start_date == self.start_date,
            r.end_date == self.end_date,
            r.stemming == self.stemming,
            r.sic == self.sic,
            r.incorporated_location == self.incorporated_location,
    {
        SearchOptions { ciks: Some(ciks), ..self }
    }
    /// Sets the page number for pagination.
    pub fn with_page(self, page: u32) -> (r: Self)
        ensures
            r.page == Some(page),
            r.keys_typed == self.keys_typed,
            r.query == self.query,
            r.category == self.category,
            r.location_code == self.location_code,
            r.entity_name == self.entity_name,
            r.forms == self.forms,
            r.location_codes == self.location_codes,
            r.from == self.from,
            r.count == self.count,
            r.reverse_order == self.reverse_order,
            r.start_date == self.start_date,
            r.end_date == self.end_date,
            r.stemming == self.stemming,
            r.ciks == self.ciks,
            r.sic == self.sic,
            r.incorporated_location == self.incorporated_location,
    {
        SearchOptions { page: Some(page), ..self }
    }
    /// Sets the starting index for results.
    pub fn with_from(self, from_: u32) -> (r: Self)
        ensures
            r.from == Some(from_),
            r.keys_typed == self.keys_typed,
            r.query == self.query,
            r.category == self.category,
            r.location_code == self.location_code,
            r.entity_name == self.entity_name,
            r.forms == self.forms,
            r.location_codes == self.location_codes,
            r.page == self.page,
            r.count == self.count,
            r.reverse_order == self.reverse_order,
            r.start_date == self.start_date,
            r.end_date == self.end_date,
            r.stemming == self.stemming,
            r.ciks == self.ciks,
            r.sic == self.sic,
            r.incorporated_location == self.incorporated_location,
    {
        SearchOptions { from: Some(from_), ..self }
    }
    /// Sets the maximum number of results per page.
    pub fn with_count(self, count: u32) -> (r: Self)
        ensures
            r.count == Some(count),
            r.keys_typed == self.keys_typed,
            r.query == self.query,
            r.category == self.category,
            r.location_code == self.location_code,
            r.entity_name == self.entity_name,
            r.forms == self.forms,
            r.location_codes == self.location_codes,
            r.page == self.page,
            r.from == self.from,
            r.reverse_order == self.reverse_order,
            r.start_date == self.start_date,
            r.end_date == self.end_date,
            r.stemming == self.stemming,
            r.ciks == self.ciks,
            r.sic == self.sic,
            r.incorporated_location == self.incorporated_location,
    {
        SearchOptions { count: Some(count), ..self }
    }
    /// Sets whether to return results oldest first.
    pub fn with_reverse_order(self, reverse_order: bool) -> (r: Self)
        ensures
            r.reverse_order == Some(reverse_order),
            r.keys_typed == self.keys_typed,
            r.query == self.query,
            r.category == self.category,
            r.location_code == self.location_code,
            r.entity_name == self.entity_name,
            r.forms == self.forms,
            r.location_codes == self.location_codes,
            r.page == self.page,
            r.from == self.from,
            r.count == self.count,
            r.start_date == self.start_date,
            r.end_date == self.end_date,
            r.stemming == self.stemming,
            r.ciks == self.ciks,
            r.sic == self.sic,
            r.incorporated_location == self.incorporated_location,
    {
        SearchOptions { reverse_order: Some(reverse_order), ..self }
    }
    /// Sets whether to use the incorporation location instead of the headquarters.
    pub fn with_incorporated_location(self, incorporated_location: bool) -> (r: Self)
        ensures
            r.incorporated_location == Some(incorporated_location),
            r.keys_typed == self.keys_typed,
            r.query == self.query,
            r.category == self.category,
            r.location_code == self.location_code,
            r.entity_name == self.entity_name,
            r.forms == self.forms,
            r.location_codes == self.location_codes,
            r.page == self.page,
            r.from == self.from,
            r.count == self.count,
            r.reverse_order == self.reverse_order,
            r.start_date == self.start_date,
            r.end_date == self.end_date,
            r.stemming == self.stemming,
            r.ciks == self.ciks,
            r.sic == self.sic,
    {
        SearchOptions { incorporated_location: Some(incorporated_location), ..self }
    }

    /// Sets the date range, both ends required, `YYYY-MM-DD`.
    pub fn with_date_range(self, start_date: String, end_date: String) -> (r: Self)
        ensures
            r.start_date == Some(start_date),
            r.end_date == Some(end_date),
            r.keys_typed == self.keys_typed,
            r.query == self.query,
            r.category == self.category,
            r.location_code == self.location_code,
            r.entity_name == self.entity_name,
            r.forms == self.forms,
            r.location_codes == self.location_codes,
            r.page == self.page,
            r.from == self.from,
            r.count == self.count,
            r.reverse_order == self.reverse_order,
            r.stemming == self.stemming,
            r.ciks == self.ciks,
            r.sic == self.sic,
            r.incorporated_location == self.incorporated_location,
    {
        SearchOptions { start_date: Some(start_date), end_date: Some(end_date), ..self }
    }

    /// Sets a single CIK filter.
    pub fn with_cik(self, cik: &str) -> (r: Self)
        ensures
            r.ciks matches Some(v) && v@.len() == 1 && v@[0]@ == cik@,
            r.keys_typed == self.keys_typed,
            r.query == self.query,
            r.category == self.category,
            r.location_code == self.location_code,
            r.entity_name == self.entity_name,
            r.forms == self.forms,
            r.location_codes == self.location_codes,
            r.page == self.page,
            r.from == self.from,
            r.count == self.count,
            r.reverse_order == self.reverse_order,
            r.start_date == self.start_date,
            r.end_date == self.end_date,
            r.stemming == self.stemming,
            r.sic == self.sic,
            r.incorporated_location == self.incorporated_location,
    {
        let mut v: Vec<String> = Vec::new();
        v.push(String::from_str(cik));
        self.with_ciks(v)
    }

    /// Renders the options as the ordered query parameter list the search
    /// endpoint takes.
    pub fn to_query_params(&self) -> (r: Vec<(String, String)>)
        ensures
            params_view(r@) == spec_query_params(*self),
    {
        let mut params: Vec<(String, String)> = Vec::new();
        proof {
            assert(params_view(params@) =~= Seq::<(Seq<char>, Seq<char>)>::empty());
        }
        self.push_params_g1(&mut params);
        self.push_params_g2(&mut params);
        self.push_params_g3(&mut params);
        self.push_params_g4(&mut params);
        proof {
            assert(params_view(params@) =~= spec_query_params(*self));
        }
        params
    }

    fn push_params_g1(&self, params: &mut Vec<(String, String)>)
        ensures
            params_view(final(params)@) == params_view(old(params)@) + spec_params_g1(*self),
    {
        let ghost mut g = Seq::<(Seq<char>, Seq<char>)>::empty();
        proof {
            assert(params_view(params@) =~= params_view(params@) + g);
        }
        if let Some(v) = &self.query {
            let ghost ps = params@;
            params.push((String::from_str("q"), v.clone()));
            proof {
                lemma_params_view_push(ps, params@.last());
                g = g.push(("q"@, v@));
                assert(params_view(params@) == params_view(old(params)@) + g);
            }
        }
        if let Some(v) = &self.keys_typed {
            let ghost ps = params@;
            params.push((String::from_str("keysTyped"), v.clone()));
            proof {
                lemma_params_view_push(ps, params@.last());
                g = g.push(("keysTyped"@, v@));
                assert(params_view(params@) == params_view(old(params)@) + g);
            }
        }
        if let Some(v) = &self.category {
            let ghost ps = params@;
            params.push((String::from_str("category"), v.clone()));
            proof {
                lemma_params_view_push(ps, params@.last());
                g = g.push(("category"@, v@));
                assert(params_view(params@) == params_view(old(params)@) + g);
            }
        }
        if let Some(v) = &self.location_code {
            let ghost ps = params@;
            params.push((String::from_str("locationCode"), v.clone()));
            proof {
                lemma_params_view_push(ps, params@.last());
                g = g.push(("locationCode"@, v@));
                assert(params_view(params@) == params_view(old(params)@) + g);
            }
        }
        if let Some(v) = &self.entity_name {
            let ghost ps = params@;
            params.push((String::from_str("entityName"), v.clone()));
            proof {
                lemma_params_view_push(ps, params@.last());
                g = g.push(("entityName"@, v@));
                assert(params_view(params@) == params_view(old(params)@) + g);
            }
        }
        proof {
            assert(g == spec_params_g1(*self));
        }
    }

    fn push_params_g2(&self, params: &mut Vec<(String, String)>)
        ensures
            params_view(final(params)@) == params_view(old(params)@) + spec_params_g2(*self),
    {
        let ghost mut g = Seq::<(Seq<char>, Seq<char>)>::empty();
        proof {
            assert(params_view(params@) =~= params_view(params@) + g);
        }
        if let Some(v) = &self.forms {
            let ghost ps = params@;
            params.push((String::from_str("forms"), join_comma(v)));
            proof {
                lemma_params_view_push(ps, params@.last());
                g = g.push(("forms"@, join_seq(views_of(v@), ',')));
                assert(params_view(params@) == params_view(old(params)@) + g);
            }
        }
        if let Some(v) = &self.location_codes {
            let ghost ps = params@;
            params.push((String::from_str("locationCodes"), join_comma(v)));
            proof {
                lemma_params_view_push(ps, params@.last());
                g = g.push(("locationCodes"@, join_seq(views_of(v@), ',')));
                assert(params_view(params@) == params_view(old(params)@) + g);
            }
        }
        if let Some(v) = self.page {
            let ghost ps = params@;
            params.push((String::from_str("page"), dec_string_u32(v)));
            proof {
                lemma_params_view_push(ps, params@.last());
                g = g.push(("page"@, dec_seq(v as int)));
                assert(params_view(params@) == params_view(old(params)@) + g);
            }
        }
        if let Some(v) = self.from {
            let ghost ps = params@;
            params.push((String::from_str("from"), dec_string_u32(v)));
            proof {
                lemma_params_view_push(ps, params@.last());
                g = g.push(("from"@, dec_seq(v as int)));
                assert(params_view(params@) == params_view(old(params)@) + g);
            }
        }
        if let Some(v) = self.count {
            let ghost ps = params@;
            params.push((String::from_str("count"), dec_string_u32(v)));
            proof {
                lemma_params_view_push(ps, params@.last());
                g = g.push(("count"@, dec_seq(v as int)));
                assert(params_view(params@) == params_view(old(params)@) + g);
            }
        }
        proof {
            assert(g == spec_params_g2(*self));
        }
    }

    fn push_params_g3(&self, params: &mut Vec<(String, String)>)
        ensures
            params_view(final(params)@) == params_view(old(params)@) + spec_params_g3(*self),
    {
        let ghost mut g = Seq::<(Seq<char>, Seq<char>)>::empty();
        proof {
            assert(params_view(params@) =~= params_view(params@) + g);
        }
        if let Some(v) = self.reverse_order {
            let t = if v {
                String::from_str("TRUE")
            } else {
                String::from_str("FALSE")
            };
            let ghost ps = params@;
            params.push((String::from_str("reverse_order"), t));
            proof {
                lemma_params_view_push(ps, params@.last());
                g = g.push(("reverse_order"@, if v { "TRUE"@ } else { "FALSE"@ }));
                assert(params_view(params@) == params_view(old(params)@) + g);
            }
        }
        if let Some(v) = &self.start_date {
            let ghost ps = params@;
            params.push((String::from_str("startdt"), v.clone()));
            proof {
                lemma_params_view_push(ps, params@.last());
                g = g.push(("startdt"@, v@));
                assert(params_view(params@) == params_view(old(params)@) + g);
            }
        }
        if let Some(v) = &self.end_date {
            let ghost ps = params@;
            params.push((String::from_str("enddt"), v.clone()));
            proof {
                lemma_params_view_push(ps, params@.last());
                g = g.push(("enddt"@, v@));
                assert(params_view(params@) == params_view(old(params)@) + g);
            }
        }
        if let Some(v) = &self.stemming {
            let ghost ps = params@;
            params.push((String::from_str("stemming"), v.clone()));
            proof {
                lemma_params_view_push(ps, params@.last());
                g = g.push(("stemming"@, v@));
                assert(params_view(params@) == params_view(old(params)@) + g);
            }
        }
        proof {
            assert(g == spec_params_g3(*self));
        }
    }

    fn push_params_g4(&self, params: &mut Vec<(String, String)>)
        ensures
            params_view(final(params)@) == params_view(old(params)@) + spec_params_g4(*self),
    {
        let ghost mut g = Seq::<(Seq<char>, Seq<char>)>::empty();
        proof {
            assert(params_view(params@) =~= params_view(params@) + g);
        }
        if let Some(v) = &self.ciks {
            let ghost ps = params@;
            params.push((String::from_str("ciks"), join_comma(v)));
            proof {
                lemma_params_view_push(ps, params@.last());
                g = g.push(("ciks"@, join_seq(views_of(v@), ',')));
                assert(params_view(params@) == params_view(old(params)@) + g);
            }
        }
        if let Some(v) = &self.sic {
            let ghost ps = params@;
            params.push((String::from_str("sic"), v.clone()));
            proof {
                lemma_params_view_push(ps, params@.last());
                g = g.push(("sic"@, v@));
                assert(params_view(params@) == params_view(old(params)@) + g);
            }
        }
        if let Some(v) = self.incorporated_location {
            let t = if v {
                String::from_str("true")
            } else {
                String::from_str("false")
            };
            let ghost ps = params@;
            params.push((String::from_str("incorporated_location"), t));
            proof {
                lemma_params_view_push(ps, params@.last());
                g = g.push(("incorporated_location"@, if v { "true"@ } else { "false"@ }));
                assert(params_view(params@) == params_view(old(params)@) + g);
            }
        }
        proof {
            assert(g == spec_params_g4(*self));
        }
    }
}

/// Results per page of the search endpoint.
pub const SEARCH_PAGE_SIZE: u32 = 100;

/// One follow-up page request of a multi-page search.
#[derive(Debug, Clone)]
pub struct PageRequest {
    /// Page number, starting at 2: the first page is the initial request.
    pub page: u32,
    /// Results to skip.
    pub from: u32,
    /// Results to ask for.
    pub count: u32,
}

/// Lays out the page requests that retrieve the rest of a result set of
/// `total_hits` documents, after an initial request returned its first
/// hundred: pages 2 and up, each skipping the documents of the pages before
/// it and asking for the rest of its hundred, the last page possibly short.
pub fn plan_search_pages(total_hits: u32) -> (r: Vec<PageRequest>)
    ensures
        total_hits <= SEARCH_PAGE_SIZE ==> r@.len() == 0,
        total_hits > SEARCH_PAGE_SIZE ==> r@.len() == (total_hits + 99) / 100 - 1,
        forall|k: int|
            0 <= k < r@.len() ==> (#[trigger] r@[k]).page == k + 2 && r@[k].from == (k + 1) * 100
                && r@[k].count as int == (if total_hits - r@[k].from >= 100 {
                100int
            } else {
                total_hits - r@[k].from
            }),
{
    let mut r: Vec<PageRequest> = Vec::new();
    if total_hits <= SEARCH_PAGE_SIZE {
        return r;
    }
    let total_pages = (total_hits - 1) / SEARCH_PAGE_SIZE + 1;
    proof {
        assert(total_pages == (total_hits + 99) / 100);
    }
    let mut page: u32 = 2;
    while page <= total_pages
        invariant
            total_hits > 100,
            total_pages == (total_hits + 99) / 100,
            2 <= page <= total_pages + 1,
            r@.len() == page - 2,
            forall|k: int|
                0 <= k < r@.len() ==> (#[trigger] r@[k]).page == k + 2 && r@[k].from == (k + 1)
                    * 100 && r@[k].count as int == (if total_hits - r@[k].from >= 100 {
                    100int
                } else {
                    total_hits - r@[k].from
                }),
        decreases total_pages + 1 - page,
    {
        proof {
            assert((page - 1) * 100 <= ((total_hits - 1) / 100) * 100);
            assert(((total_hits - 1) / 100) * 100 <= total_hits - 1);
        }
        let from = (page - 1) * 100;
        let count = if total_hits - from >= 100 {
            100
        } else {
            total_hits - from
        };
        r.push(PageRequest { page, from, count });
        page = page + 1;
    }
    r
}

impl Edgar {
    /// The full search request URL: the search base URL, a question mark, and
    /// the URL-encoded query parameters of the options.
    pub fn search_request_url(&self, options: &SearchOptions) -> (r: Result<String, EdgarError>)
        ensures
            r is Ok,
            r matches Ok(u) ==> u@ == self.edgar_search_url@ + "?"@ + crate::options::urlencoded_of(
                spec_query_params(*options),
            ),
    {
        let params = options.to_query_params();
        let query = match crate::options::urlencode_params(&params) {
            Ok(q) => q,
            Err(e) => {
                return Err(e);
            },
        };
        let mut u = self.edgar_search_url.clone();
        u.append("?");
        u.append(query.as_str());
        Ok(u)
    }
}

} // verus!
