//! Ticker lookups, endpoint URLs, and positional field extraction.

use edgarkit::company::company_cik_of;
use edgarkit::company::mutual_fund_cik_of;
use edgarkit::company::FieldExtractor;
use edgarkit::CompanyTicker;
use edgarkit::Edgar;
use edgarkit::EdgarError;
use edgarkit::MutualFundTicker;

fn tickers() -> Vec<CompanyTicker> {
    vec![
        CompanyTicker { cik: 320193, ticker: "AAPL".to_string(), title: "Apple Inc.".to_string() },
        CompanyTicker { cik: 1045810, ticker: "NVDA".to_string(), title: "NVIDIA CORP".to_string() },
    ]
}

#[test]
fn company_cik_lookup_is_case_insensitive() {
    assert_eq!(company_cik_of(&tickers(), "AAPL").unwrap(), 320193);
    assert_eq!(company_cik_of(&tickers(), "aapl").unwrap(), 320193);
    assert_eq!(company_cik_of(&tickers(), "nvda").unwrap(), 1045810);
}

#[test]
fn company_cik_not_found() {
    assert!(matches!(
        company_cik_of(&tickers(), "INVALID"),
        Err(EdgarError::TickerNotFound)
    ));
}

#[test]
fn mutual_fund_cik_lookup() {
    let funds = vec![MutualFundTicker {
        cik: 2110,
        series_id: "S000009184".to_string(),
        class_id: "C000024954".to_string(),
        symbol: "LACAX".to_string(),
    }];
    assert_eq!(mutual_fund_cik_of(&funds, "lacax").unwrap(), 2110);
    assert!(matches!(
        mutual_fund_cik_of(&funds, "INVALID"),
        Err(EdgarError::TickerNotFound)
    ));
}

#[test]
fn company_endpoint_urls() {
    let edgar = Edgar::new("test_agent example@example.com").unwrap();
    assert_eq!(
        edgar.company_tickers_url(),
        "https://www.sec.gov/files/company_tickers.json"
    );
    assert_eq!(
        edgar.company_tickers_exchange_url(),
        "https://www.sec.gov/files/company_tickers_exchange.json"
    );
    assert_eq!(
        edgar.mutual_fund_tickers_url(),
        "https://www.sec.gov/files/company_tickers_mf.json"
    );
    assert_eq!(
        edgar.company_facts_url(320193),
        "https://data.sec.gov/api/xbrl/companyfacts/CIK0000320193.json"
    );
    assert_eq!(
        edgar.company_concept_url(320193, "dei", "EntityCommonStockSharesOutstanding"),
        "https://data.sec.gov/api/xbrl/companyconcept/CIK0000320193/dei/EntityCommonStockSharesOutstanding.json"
    );
    assert_eq!(
        edgar.frames_url("us-gaap", "AccountsPayableCurrent", "USD", "CY2019Q1I"),
        "https://data.sec.gov/api/xbrl/frames/us-gaap/AccountsPayableCurrent/USD/CY2019Q1I.json"
    );
}

#[test]
fn field_extractor_resolves_columns() {
    let fields = vec![
        "cik".to_string(),
        "name".to_string(),
        "ticker".to_string(),
        "exchange".to_string(),
    ];
    let required = vec!["cik".to_string(), "ticker".to_string()];
    let extractor = FieldExtractor::new(&fields, &required).unwrap();
    assert_eq!(extractor.get_index("cik").unwrap(), 0);
    assert_eq!(extractor.get_index("ticker").unwrap(), 2);
    assert!(matches!(
        extractor.get_index("exchange"),
        Err(EdgarError::InvalidResponse(_))
    ));
}

#[test]
fn field_extractor_reports_missing_fields() {
    let fields = vec!["cik".to_string()];
    let required = vec!["cik".to_string(), "symbol".to_string()];
    match FieldExtractor::new(&fields, &required) {
        Err(EdgarError::InvalidResponse(msg)) => {
            assert_eq!(msg, "Missing 'symbol' field");
        }
        other => panic!("expected an invalid response error, got {:?}", other),
    }
}
