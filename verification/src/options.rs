//! Options for filing queries and feed requests.
//!
//! `FilingOptions` filters filings by form type and CIK and paginates with
//! offset and limit; `FeedOptions` is a small ordered key/value parameter map
//! for the feed query strings, with unique keys and last-write-wins merging.

use vstd::prelude::*;
use vstd::string::StringExecFns;

use crate::error::EdgarError;
use crate::text::str_eq;

verus! {

/// Filters for filing queries: form types, pagination, CIKs, and whether
/// amendment forms (`10-K/A` for `10-K`) are included automatically.
#[derive(Debug, Clone)]
pub struct FilingOptions {
    /// Which form types to include (e.g. `10-K`).
    pub form_types: Option<Vec<String>>,
    /// Skip this many filings from the start.
    pub offset: Option<usize>,
    /// Return at most this many filings.
    pub limit: Option<usize>,
    /// Keep only these CIKs.
    pub ciks: Option<Vec<u64>>,
    /// Include amendment forms automatically; on by default.
    pub include_amendments: bool,
}

impl Default for FilingOptions {
    /// No filters, amendments included.
    fn default() -> (r: Self)
        ensures
            r.form_types is None,
            r.offset is None,
            r.limit is None,
            r.ciks is None,
            r.include_amendments,
    {
        FilingOptions {
            form_types: None,
            offset: None,
            limit: None,
            ciks: None,
            include_amendments: true,
        }
    }
}

impl FilingOptions {
    /// The default options: no filters, amendments included.
    pub fn new() -> (r: Self)
        ensures
            r.form_types is None,
            r.offset is None,
            r.limit is None,
            r.ciks is None,
            r.include_amendments,
    {
        Self::default()
    }

    /// Keeps only this one form type.
    pub fn with_form_type(self, form_type: &str) -> (r: Self)
        ensures
            r.form_types matches Some(v) && v@.len() == 1 && v@[0]@ == form_type@,
            r.offset == self.offset,
            r.limit == self.limit,
            r.ciks == self.ciks,
            r.include_amendments == self.include_amendments,
    {
        let mut v: Vec<String> = Vec::new();
        v.push(String::from_str(form_type));
        FilingOptions { form_types: Some(v), ..self }
    }

    /// Keeps only these form types.
    pub fn with_form_types(self, form_types: Vec<String>) -> (r: Self)
        ensures
            r.form_types == Some(form_types),
            r.offset == self.offset,
            r.limit == self.limit,
            r.ciks == self.ciks,
            r.include_amendments == self.include_amendments,
    {
        FilingOptions { form_types: Some(form_types), ..self }
    }

    /// Skips this many filings from the start.
    pub fn with_offset(self, offset: usize) -> (r: Self)
        ensures
            r.offset == Some(offset),
            r.form_types == self.form_types,
            r.limit == self.limit,
            r.ciks == self.ciks,
            r.include_amendments == self.include_amendments,
    {
        FilingOptions { offset: Some(offset), ..self }
    }

    /// Returns at most this many filings.
    pub fn with_limit(self, limit: usize) -> (r: Self)
        ensures
            r.limit == Some(limit),
            r.form_types == self.form_types,
            r.offset == self.offset,
            r.ciks == self.ciks,
            r.include_amendments == self.include_amendments,
    {
        FilingOptions { limit: Some(limit), ..self }
    }

    /// Keeps only this one CIK.
    pub fn with_cik(self, cik: u64) -> (r: Self)
        ensures
            r.ciks matches Some(v) && v@ == seq![cik],
            r.form_types == self.form_types,
            r.offset == self.offset,
            r.limit == self.limit,
            r.include_amendments == self.include_amendments,
    {
        let mut v: Vec<u64> = Vec::new();
        v.push(cik);
        proof {
            assert(v@ =~= seq![cik]);
        }
        FilingOptions { ciks: Some(v), ..self }
    }

    /// Keeps only these CIKs.
    pub fn with_ciks(self, ciks: Vec<u64>) -> (r: Self)
        ensures
            r.ciks == Some(ciks),
            r.form_types == self.form_types,
            r.offset == self.offset,
            r.limit == self.limit,
            r.include_amendments == self.include_amendments,
    {
        FilingOptions { ciks: Some(ciks), ..self }
    }

    /// Sets whether amendment forms are included automatically.
    pub fn with_include_amendments(self, include_amendments: bool) -> (r: Self)
        ensures
            r.include_amendments == include_amendments,
            r.form_types == self.form_types,
            r.offset == self.offset,
            r.limit == self.limit,
            r.ciks == self.ciks,
    {
        FilingOptions { include_amendments, ..self }
    }
}

// ---------------------------------------------------------------------------
// Feed options
// ---------------------------------------------------------------------------

/// What `serde_urlencoded` renders for an ordered list of key/value pairs.
pub uninterp spec fn urlencoded_of(pairs: Seq<(Seq<char>, Seq<char>)>) -> Seq<char>;

/// Relies on `serde_urlencoded::to_string`: renders key/value pairs as an
/// `application/x-www-form-urlencoded` query string; the result is a function
/// of the pairs alone. On a list of string pairs the serializer always
/// succeeds: its errors arise only for payloads that are not strings.
#[verifier::external_body]
pub fn urlencode_params(params: &Vec<(String, String)>) -> (r: Result<String, EdgarError>)
    ensures
        r is Ok,
        r matches Ok(s) ==> s@ == urlencoded_of(params_view(params@)),
{
    serde_urlencoded::to_string(params).map_err(|e| EdgarError::InvalidResponse(e.to_string()))
}

/// The view of a parameter list: pairs of key and value character sequences.
pub open spec fn params_view(s: Seq<(String, String)>) -> Seq<(Seq<char>, Seq<char>)> {
    s.map_values(|p: (String, String)| (p.0@, p.1@))
}

/// Mapping to views commutes with appending a pair.
pub proof fn lemma_params_view_push(s: Seq<(String, String)>, p: (String, String))
    ensures
        params_view(s.push(p)) == params_view(s).push((p.0@, p.1@)),
{
    assert(params_view(s.push(p)) =~~= params_view(s).push((p.0@, p.1@)));
}

/// The first index holding the key, or `-1`.
pub open spec fn find_key(v: Seq<(Seq<char>, Seq<char>)>, k: Seq<char>) -> int
    decreases v.len(),
{
    if v.len() == 0 {
        -1
    } else if v[0].0 == k {
        0
    } else {
        let r = find_key(v.drop_first(), k);
        if r < 0 {
            -1
        } else {
            r + 1
        }
    }
}

/// Inserting or replacing a pair: replaces the value at the key's index if
/// the key is present, else appends the pair.
pub open spec fn upsert(v: Seq<(Seq<char>, Seq<char>)>, p: (Seq<char>, Seq<char>)) -> Seq<
    (Seq<char>, Seq<char>),
> {
    let i = find_key(v, p.0);
    if i < 0 {
        v.push(p)
    } else {
        v.update(i, (v[i].0, p.1))
    }
}

/// Merging: every pair of `b` upserted into `a`, in order.
pub open spec fn merge_params(
    a: Seq<(Seq<char>, Seq<char>)>,
    b: Seq<(Seq<char>, Seq<char>)>,
) -> Seq<(Seq<char>, Seq<char>)>
    decreases b.len(),
{
    if b.len() == 0 {
        a
    } else {
        upsert(merge_params(a, b.drop_last()), b.last())
    }
}

/// No two pairs share a key.
pub open spec fn unique_keys(v: Seq<(Seq<char>, Seq<char>)>) -> bool {
    forall|i: int, j: int| 0 <= i < j < v.len() ==> (#[trigger] v[i]).0 != (#[trigger] v[j]).0
}

proof fn lemma_find_key_first(v: Seq<(Seq<char>, Seq<char>)>, k: Seq<char>, i: int)
    requires
        0 <= i < v.len(),
        v[i].0 == k,
        forall|j: int| 0 <= j < i ==> (#[trigger] v[j]).0 != k,
    ensures
        find_key(v, k) == i,
    decreases v.len(),
{
    if i > 0 {
        lemma_find_key_first(v.drop_first(), k, i - 1);
    }
}

proof fn lemma_find_key_none(v: Seq<(Seq<char>, Seq<char>)>, k: Seq<char>)
    requires
        forall|j: int| 0 <= j < v.len() ==> (#[trigger] v[j]).0 != k,
    ensures
        find_key(v, k) == -1,
    decreases v.len(),
{
    if v.len() > 0 {
        lemma_find_key_none(v.drop_first(), k);
    }
}

/// Key/value parameters for a feed query string. Keys are unique; setting a
/// key that is present replaces its value in place, a fresh key is appended.
/// The default holds the single pair `output=atom`.
#[derive(Debug, Clone)]
pub struct FeedOptions {
    /// The parameters, in insertion order.
    pub params: Vec<(String, String)>,
}

impl Default for FeedOptions {
    /// The single pair `output=atom`.
    fn default() -> (r: Self)
        ensures
            r.wf(),
            params_view(r.params@) == seq![("output"@, "atom"@)],
    {
        let mut params: Vec<(String, String)> = Vec::new();
        params.push((String::from_str("output"), String::from_str("atom")));
        let r = FeedOptions { params };
        proof {
            assert(params_view(r.params@) =~= seq![("output"@, "atom"@)]);
        }
        r
    }
}

impl FeedOptions {
    /// Keys are unique.
    pub open spec fn wf(self) -> bool {
        unique_keys(params_view(self.params@))
    }

    /// The default parameters, with `params` merged over them if given.
    pub fn new(params: Option<FeedOptions>) -> (r: Self)
        requires
            params matches Some(p) ==> p.wf(),
        ensures
            r.wf(),
            params matches Some(p) ==> params_view(r.params@) == merge_params(
                seq![("output"@, "atom"@)],
                params_view(p.params@),
            ),
            params is None ==> params_view(r.params@) == seq![("output"@, "atom"@)],
    {
        match params {
            Some(options) => Self::default().merge(options),
            None => Self::default(),
        }
    }

    /// Sets one parameter: replaces the value if the key is present, appends
    /// the pair otherwise.
    pub fn with_param(self, key: &str, value: &str) -> (r: Self)
        requires
            self.wf(),
        ensures
            r.wf(),
            params_view(r.params@) == upsert(params_view(self.params@), (key@, value@)),
    {
        let ghost orig = params_view(self.params@);
        let mut params = self.params;
        proof {
            assert(params_view(params@) == orig);
            assert(unique_keys(orig));
        }
        let n = params.len();
        let mut i: usize = 0;
        while i < n
            invariant
                n == params@.len(),
                i <= n,
                params_view(params@) == orig,
                orig == params_view(self.params@),
                unique_keys(orig),
                forall|j: int| 0 <= j < i ==> (#[trigger] orig[j]).0 != key@,
        decreases n - i,
        {
            if str_eq(params[i].0.as_str(), key) {
                proof {
                    assert(orig[i as int].0 == key@);
                    lemma_find_key_first(orig, key@, i as int);
                }
                let k0 = params[i].0.clone();
                let ghost before = orig;
                params.set(i, (k0, String::from_str(value)));
                proof {
                    assert(k0@ == before[i as int].0);
                    assert(find_key(before, key@) == i as int);
                    assert(params_view(params@) =~~= before.update(i as int, (before[i as int].0, value@)));
                    assert(params_view(params@) == upsert(before, (key@, value@)));
                    assert forall|a: int, b: int| 0 <= a < b < params_view(params@).len() implies (
                    #[trigger] params_view(params@)[a]).0 != (#[trigger] params_view(
                        params@,
                    )[b]).0 by {
                        assert(params_view(params@)[a].0 == before[a].0);
                        assert(params_view(params@)[b].0 == before[b].0);
                    }
                }
                return FeedOptions { params };
            }
            i = i + 1;
        }
        proof {
            lemma_find_key_none(orig, key@);
        }
        let ghost before = orig;
        params.push((String::from_str(key), String::from_str(value)));
        proof {
            assert(params_view(params@) =~~= upsert(before, (key@, value@)));
            assert forall|a: int, b: int| 0 <= a < b < params_view(params@).len() implies (
            #[trigger] params_view(params@)[a]).0 != (#[trigger] params_view(params@)[b]).0 by {
                if b < before.len() {
                    assert(before[a].0 != before[b].0);
                } else {
                    assert(params_view(params@)[b].0 == key@);
                    assert(params_view(params@)[a].0 == before[a].0);
                }
            }
        }
        FeedOptions { params }
    }

    /// Merges the other options over these, pair by pair in order: on a
    /// shared key the other side's value wins.
    pub fn merge(self, other: FeedOptions) -> (r: Self)
        requires
            self.wf(),
        ensures
            r.wf(),
            params_view(r.params@) == merge_params(params_view(self.params@), params_view(other.params@)),
    {
        let ghost a0 = params_view(self.params@);
        proof {
            assert(params_view(other.params@).take(0) =~= Seq::<(Seq<char>, Seq<char>)>::empty());
        }
        let mut r = self;
        let n = other.params.len();
        let mut i: usize = 0;
        while i < n
            invariant
                n == other.params@.len(),
                i <= n,
                r.wf(),
                a0 == params_view(self.params@),
                params_view(r.params@) == merge_params(
                    a0,
                    params_view(other.params@).take(i as int),
                ),
        decreases n - i,
        {
            let key = other.params[i].0.clone();
            let value = other.params[i].1.clone();
            proof {
                let full = params_view(other.params@);
                assert(full.take(i + 1).drop_last() =~= full.take(i as int));
                assert(full.take(i + 1).last() == (key@, value@));
            }
            r = r.with_param(key.as_str(), value.as_str());
            i = i + 1;
        }
        proof {
            assert(params_view(other.params@).take(n as int) =~= params_view(other.params@));
        }
        r
    }

    /// The parameters, in order.
    pub fn params(&self) -> (r: &Vec<(String, String)>)
        ensures
            r == self.params,
    {
        &self.params
    }
}
} // verus!
