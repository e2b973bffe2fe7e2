//! URLs of the Atom and RSS feeds.
//!
//! The Atom browse endpoints take query parameters built from
//! [`FeedOptions`]; the RSS news and dissemination feeds live at fixed URLs;
//! the historical XBRL feed is located by year and month, validated here.

use vstd::prelude::*;
use vstd::string::StringExecFns;

use crate::client::Edgar;
use crate::error::EdgarError;
use crate::options::merge_params;
use crate::options::params_view;
use crate::options::upsert;
use crate::options::urlencode_params;
use crate::options::urlencoded_of;
use crate::options::FeedOptions;
use crate::text::chars_to_string;
use crate::text::dec_seq;
use crate::text::pad_zeros;
use crate::text::pad_zeros_seq;
use crate::text::u64_chars;
use crate::text::i64_chars;
use crate::text::dec_seq_signed;

verus! {

/// The parameters a feed request sends: the defaults (`output=atom`) with the
/// caller's options merged over them.
pub open spec fn feed_params(opts: Option<FeedOptions>) -> Seq<(Seq<char>, Seq<char>)> {
    match opts {
        Some(p) => merge_params(seq![("output"@, "atom"@)], params_view(p.params@)),
        None => seq![("output"@, "atom"@)],
    }
}

impl Edgar {
    /// The URL of the current-filings Atom feed, with the options' parameters
    /// URL-encoded.
    pub fn current_feed_url(&self, opts: Option<FeedOptions>) -> (r: Result<String, EdgarError>)
        requires
            opts matches Some(p) ==> p.wf(),
        ensures
            r is Ok,
            r matches Ok(u) ==> u@ == "https://www.sec.gov/cgi-bin/browse-edgar?action=getcurrent&"@
                + urlencoded_of(feed_params(opts)),
    {
        let feed_opts = FeedOptions::new(opts);
        let query = match urlencode_params(feed_opts.params()) {
            Ok(q) => q,
            Err(e) => {
                return Err(e);
            },
        };
        let mut u = String::from_str("https://www.sec.gov/cgi-bin/browse-edgar?action=getcurrent&");
        u.append(query.as_str());
        Ok(u)
    }

    /// The URL of a company's Atom feed: the default parameters, the caller's
    /// options, and the CIK, URL-encoded.
    pub fn company_feed_url(&self, cik: &str, opts: Option<FeedOptions>) -> (r: Result<
        String,
        EdgarError,
    >)
        requires
            opts matches Some(p) ==> p.wf(),
        ensures
            r is Ok,
            r matches Ok(u) ==> u@ == "https://www.sec.gov/cgi-bin/browse-edgar?action=getcompany&"@
                + urlencoded_of(upsert(feed_params(opts), ("CIK"@, cik@))),
    {
        let feed_opts = FeedOptions::new(opts).with_param("CIK", cik);
        let query = match urlencode_params(feed_opts.params()) {
            Ok(q) => q,
            Err(e) => {
                return Err(e);
            },
        };
        let mut u = String::from_str("https://www.sec.gov/cgi-bin/browse-edgar?action=getcompany&");
        u.append(query.as_str());
        Ok(u)
    }

    /// The URL of the monthly historical XBRL feed. Years before 2005 are
    /// `InvalidXBRLYear`, months outside 1 to 12 are `InvalidMonth`, in that
    /// order; the month is zero-padded to two digits.
    pub fn historical_xbrl_feed_url(&self, year: i32, month: i32) -> (r: Result<String, EdgarError>)
        ensures
            year < 2005 ==> r == Err::<String, EdgarError>(EdgarError::InvalidXBRLYear),
            year >= 2005 && (month < 1 || month > 12) ==> r == Err::<String, EdgarError>(
                EdgarError::InvalidMonth,
            ),
            year >= 2005 && 1 <= month <= 12 ==> (r matches Ok(u) && u@
                == "https://www.sec.gov/Archives/edgar/monthly/xbrlrss-"@ + dec_seq_signed(
                year as int,
            ) + "-"@ + pad_zeros_seq(dec_seq(month as int), 2) + ".xml"@),
    {
        if year < 2005 {
            return Err(EdgarError::InvalidXBRLYear);
        }
        if month < 1 || month > 12 {
            return Err(EdgarError::InvalidMonth);
        }
        let mut u = String::from_str("https://www.sec.gov/Archives/edgar/monthly/xbrlrss-");
        let ys = chars_to_string(&i64_chars(year as i64));
        u.append(ys.as_str());
        u.append("-");
        let ms = chars_to_string(&pad_zeros(u64_chars(month as u64).as_slice(), 2));
        u.append(ms.as_str());
        u.append(".xml");
        Ok(u)
    }

    /// The press release feed URL.
    pub fn press_release_feed_url(&self) -> (r: &'static str)
        ensures
            r@ == "https://www.sec.gov/news/pressreleases.rss"@,
    {
        "https://www.sec.gov/news/pressreleases.rss"
    }

    /// The speeches-and-statements feed URL.
    pub fn speeches_and_statements_feed_url(&self) -> (r: &'static str)
        ensures
            r@ == "https://www.sec.gov/news/speeches-statements.rss"@,
    {
        "https://www.sec.gov/news/speeches-statements.rss"
    }

    /// The speeches feed URL.
    pub fn speeches_feed_url(&self) -> (r: &'static str)
        ensures
            r@ == "https://www.sec.gov/news/speeches.rss"@,
    {
        "https://www.sec.gov/news/speeches.rss"
    }

    /// The statements feed URL.
    pub fn statements_feed_url(&self) -> (r: &'static str)
        ensures
            r@ == "https://www.sec.gov/news/statements.rss"@,
    {
        "https://www.sec.gov/news/statements.rss"
    }

    /// The testimony feed URL.
    pub fn testimony_feed_url(&self) -> (r: &'static str)
        ensures
            r@ == "https://www.sec.gov/news/testimony.rss"@,
    {
        "https://www.sec.gov/news/testimony.rss"
    }

    /// The administrative proceedings feed URL.
    pub fn administrative_proceedings_feed_url(&self) -> (r: &'static str)
        ensures
            r@ == "https://www.sec.gov/rss/litigation/admin.xml"@,
    {
        "https://www.sec.gov/rss/litigation/admin.xml"
    }

    /// The corporation finance division feed URL.
    pub fn division_of_corporation_finance_feed_url(&self) -> (r: &'static str)
        ensures
            r@ == "https://www.sec.gov/rss/divisions/corpfin/cfnew.xml"@,
    {
        "https://www.sec.gov/rss/divisions/corpfin/cfnew.xml"
    }

    /// The investment management division feed URL.
    pub fn division_of_investment_management_feed_url(&self) -> (r: &'static str)
        ensures
            r@ == "https://www.sec.gov/rss/divisions/investment/imnews.xml"@,
    {
        "https://www.sec.gov/rss/divisions/investment/imnews.xml"
    }

    /// The investor alerts feed URL.
    pub fn investor_alerts_feed_url(&self) -> (r: &'static str)
        ensures
            r@ == "https://www.sec.gov/rss/investor/alerts"@,
    {
        "https://www.sec.gov/rss/investor/alerts"
    }

    /// The filings feed URL.
    pub fn filings_feed_url(&self) -> (r: &'static str)
        ensures
            r@ == "https://www.sec.gov/Archives/edgar/usgaap.rss.xml"@,
    {
        "https://www.sec.gov/Archives/edgar/usgaap.rss.xml"
    }

    /// The mutual funds feed URL.
    pub fn mutual_funds_feed_url(&self) -> (r: &'static str)
        ensures
            r@ == "https://www.sec.gov/Archives/edgar/xbrl-rr.rss.xml"@,
    {
        "https://www.sec.gov/Archives/edgar/xbrl-rr.rss.xml"
    }

    /// The XBRL feed URL.
    pub fn xbrl_feed_url(&self) -> (r: &'static str)
        ensures
            r@ == "https://www.sec.gov/Archives/edgar/xbrlrss.all.xml"@,
    {
        "https://www.sec.gov/Archives/edgar/xbrlrss.all.xml"
    }

    /// The inline XBRL feed URL.
    pub fn inline_xbrl_feed_url(&self) -> (r: &'static str)
        ensures
            r@ == "https://www.sec.gov/Archives/edgar/xbrl-inline.rss.xml"@,
    {
        "https://www.sec.gov/Archives/edgar/xbrl-inline.rss.xml"
    }
}

} // verus!
