//! Filing records, filters, and filing URLs.

use edgarkit::filings::detailed_filings;
use edgarkit::filings::RecentFilings;
use edgarkit::DetailedFiling;
use edgarkit::Edgar;
use edgarkit::EdgarError;
use edgarkit::FilingOptions;

fn recent_fixture() -> RecentFilings {
    RecentFilings {
        accession_number: vec![
            "0001213900-23-009668".to_string(),
            "0001213900-23-009669".to_string(),
            "0001213900-23-009670".to_string(),
        ],
        filing_date: vec![
            "2023-02-10".to_string(),
            "2023-02-11".to_string(),
            "2023-02-12".to_string(),
        ],
        report_date: None,
        acceptance_date_time: vec![
            "2015-06-01T07:06:52.000Z".to_string(),
            "not a timestamp".to_string(),
            "2015-05-29T18:54:18.000Z".to_string(),
        ],
        act: None,
        form: vec!["10-K".to_string(), "8-K".to_string(), "S-1".to_string()],
        file_number: None,
        film_number: None,
        items: None,
        size: vec![100, 200, 300],
        is_xbrl: Some(vec![1, 0, 1]),
        is_inline_xbrl: None,
        primary_document: Some(vec![
            "doc1.htm".to_string(),
            "doc2.htm".to_string(),
            "doc3.htm".to_string(),
        ]),
        primary_doc_description: None,
    }
}

fn filing(form: &str, acc: &str) -> DetailedFiling {
    DetailedFiling {
        accession_number: acc.to_string(),
        filing_date: "2023-01-01".to_string(),
        report_date: None,
        acceptance_date_time: 0,
        act: None,
        form: form.to_string(),
        file_number: None,
        film_number: None,
        items: None,
        size: 1,
        is_xbrl: false,
        is_inline_xbrl: false,
        primary_document: Some("primary.htm".to_string()),
        primary_doc_description: None,
    }
}

#[test]
fn rows_with_bad_timestamps_are_skipped() {
    let recent = recent_fixture();
    let filings = detailed_filings(&recent);
    assert_eq!(filings.len(), 2);
    assert_eq!(filings[0].accession_number, "0001213900-23-009668");
    assert_eq!(filings[0].form, "10-K");
    assert!(filings[0].is_xbrl);
    assert!(!filings[0].is_inline_xbrl);
    assert_eq!(filings[0].primary_document.as_deref(), Some("doc1.htm"));
    let expected = chrono::DateTime::parse_from_rfc3339("2015-06-01T07:06:52.000Z")
        .unwrap()
        .timestamp();
    assert_eq!(filings[0].acceptance_date_time, expected);
    assert_eq!(filings[1].form, "S-1");
}

#[test]
fn short_optional_arrays_read_as_absent() {
    let mut recent = recent_fixture();
    // One report date for three rows: the later rows read it as absent.
    recent.report_date = Some(vec!["2023-01-31".to_string()]);
    let filings = detailed_filings(&recent);
    assert_eq!(filings.len(), 2);
    assert_eq!(filings[0].report_date.as_deref(), Some("2023-01-31"));
    assert_eq!(filings[1].report_date, None);
}

#[test]
fn form_filter_includes_amendments_by_default() {
    let edgar = Edgar::new("test_agent example@example.com").unwrap();
    let filings = vec![
        filing("S-1", "1"),
        filing("S-1/A", "2"),
        filing("10-K", "3"),
        filing(" S-1 ", "4"),
    ];
    let opts = FilingOptions::new().with_form_type("S-1");
    let kept = edgar.filter_filings(filings.clone(), &opts);
    assert_eq!(kept.len(), 3);
    assert_eq!(kept[0].accession_number, "1");
    assert_eq!(kept[1].accession_number, "2");
    assert_eq!(kept[2].accession_number, "4");

    let opts = FilingOptions::new()
        .with_form_type("S-1")
        .with_include_amendments(false);
    let strict = edgar.filter_filings(filings, &opts);
    assert_eq!(strict.len(), 2);
    assert_eq!(strict[0].accession_number, "1");
    assert_eq!(strict[1].accession_number, "4");
}

#[test]
fn offset_and_limit_paginate() {
    let edgar = Edgar::new("test_agent example@example.com").unwrap();
    let filings = vec![filing("10-K", "1"), filing("10-K", "2"), filing("10-K", "3")];
    let opts = FilingOptions::new().with_offset(1).with_limit(1);
    let page = edgar.filter_filings(filings, &opts);
    assert_eq!(page.len(), 1);
    assert_eq!(page[0].accession_number, "2");
}

#[test]
fn test_text_filing_url_format() {
    let edgar = Edgar::new("test_agent example@example.com").unwrap();

    let cik = "1889983";
    let accession_number = "0001213900-23-009668";

    let url = edgar.get_text_filing_url(cik, accession_number);

    let formatted_acc = accession_number.replace("-", "");
    let expected_url = format!(
        "{}/data/{}/{}/{}.txt",
        edgar.archives_url(),
        cik,
        formatted_acc,
        accession_number
    );

    assert_eq!(url, expected_url);
}

#[test]
fn test_sgml_header_url_format() {
    let edgar = Edgar::new("test_agent example@example.com").unwrap();

    let cik = "1889983";
    let accession_number = "0001213900-23-009668";

    let url = edgar.get_sgml_header_url(cik, accession_number);

    let formatted_acc = accession_number.replace("-", "");
    let expected_url = format!(
        "{}/data/{}/{}/{}.hdr.sgml",
        edgar.archives_url(),
        cik,
        formatted_acc,
        accession_number
    );

    assert_eq!(url, expected_url);
}

#[test]
fn endpoint_urls() {
    let edgar = Edgar::new("test_agent example@example.com").unwrap();
    assert_eq!(
        edgar.submission_url("320193"),
        "https://data.sec.gov/submissions/CIK0000320193.json"
    );
    assert_eq!(
        edgar.filing_directory_url("320193", "0001140361-25-000228"),
        "https://www.sec.gov/Archives/edgar/data/320193/000114036125000228/index.json"
    );
    assert_eq!(
        edgar.entity_directory_url("320193"),
        "https://www.sec.gov/Archives/edgar/data/0000320193/index.json"
    );
    assert_eq!(
        edgar.get_original_filing_url("320193", "0001213900-23-009668"),
        "https://www.sec.gov/Archives/edgar/data/320193/000121390023009668/0001213900-23-009668-index.html"
    );
}

#[test]
fn filing_id_resolution() {
    let edgar = Edgar::new("test_agent example@example.com").unwrap();
    let url = edgar
        .get_filing_url_from_id("320193", "0001213900-23-009668:report.htm")
        .unwrap();
    assert_eq!(
        url,
        "https://www.sec.gov/Archives/edgar/data/320193/000121390023009668/report.htm"
    );
    assert!(matches!(
        edgar.get_filing_url_from_id("320193", "no-colon-here"),
        Err(EdgarError::InvalidResponse(_))
    ));
    assert!(matches!(
        edgar.get_filing_url_from_id("320193", "a:b:c"),
        Err(EdgarError::InvalidResponse(_))
    ));
}

#[test]
fn latest_filing_selection() {
    let edgar = Edgar::new("test_agent example@example.com").unwrap();
    assert!(matches!(
        edgar.latest_filing_url("320193", &Vec::new()),
        Err(EdgarError::NotFound)
    ));
    let mut no_doc = filing("10-K", "0001213900-23-009668");
    no_doc.primary_document = None;
    assert!(matches!(
        edgar.latest_filing_url("320193", &vec![no_doc]),
        Err(EdgarError::InvalidResponse(_))
    ));
    let url = edgar
        .latest_filing_url("320193", &vec![filing("10-K", "0001213900-23-009668")])
        .unwrap();
    assert_eq!(
        url,
        "https://www.sec.gov/Archives/edgar/data/320193/000121390023009668/primary.htm"
    );
}

#[test]
fn test_get_text_filing_links() {
    let edgar = Edgar::new("test_agent example@example.com").unwrap();
    let filings = vec![
        filing("10-K", "0001213900-23-000001"),
        filing("8-K", "0001213900-23-000002"),
    ];
    let links = edgar.text_filing_links("320193", filings);
    assert_eq!(links.len(), 2);
    for (filing, url, sec_url) in &links {
        let expected_url_pattern = format!(
            "{}/data/320193/{}/{}.txt",
            edgar.archives_url(),
            filing.accession_number.replace("-", ""),
            filing.accession_number
        );
        let expected_sec_url_pattern = format!(
            "{}/data/320193/{}/{}-index.html",
            edgar.archives_url(),
            filing.accession_number.replace("-", ""),
            filing.accession_number
        );
        assert_eq!(&expected_url_pattern, url);
        assert_eq!(&expected_sec_url_pattern, sec_url);
    }
}

#[test]
fn test_get_sgml_header_links() {
    let edgar = Edgar::new("test_agent example@example.com").unwrap();
    let filings = vec![filing("10-K", "0001213900-23-000001")];
    let links = edgar.sgml_header_links("320193", filings);
    assert_eq!(links.len(), 1);
    for (filing, url, _) in &links {
        assert!(url.ends_with(".hdr.sgml"));
        let formatted_acc = filing.accession_number.replace("-", "");
        assert!(url.contains(&formatted_acc));
        assert!(url.contains(&filing.accession_number));
    }
}
