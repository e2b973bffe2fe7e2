//! The index file parser and the index endpoints.

use std::str::FromStr;

use edgarkit::error::EdgarError;
use edgarkit::index::EdgarDate;
use edgarkit::index::EdgarDay;
use edgarkit::index::EdgarPeriod;
use edgarkit::index::DirectoryItem;
use edgarkit::index::ItemType;
use edgarkit::index::Quarter;
use edgarkit::options::FilingOptions;
use edgarkit::parsing::index::IndexConfig;
use edgarkit::parsing::index::IndexEntry;
use edgarkit::parsing::index::IndexParser;
use edgarkit::parsing::index::IndexType;
use edgarkit::Edgar;

#[test]
fn test_index_type_conversion() {
    // Test from_str
    assert_eq!(IndexType::from_str("company_index").unwrap(), IndexType::Company);
    assert_eq!(IndexType::from_str("crawler_data").unwrap(), IndexType::Crawler);
    assert_eq!(IndexType::from_str("master_list").unwrap(), IndexType::Master);
    match IndexType::from_str("invalid") {
        Err(EdgarError::InvalidFormat(m)) => assert_eq!(m, "Unknown index type"),
        other => panic!("expected an invalid format error, got {:?}", other),
    }

    // Test as_str
    assert_eq!(IndexType::Company.as_str(), "company");
    assert_eq!(IndexType::Crawler.as_str(), "crawler");
    assert_eq!(IndexType::Master.as_str(), "master");
}

#[test]
fn test_invalid_input() {
    let parser = IndexParser::new(IndexConfig::default());
    let result = parser.parse("invalid content");
    assert!(result.is_ok());
    assert!(result.unwrap().is_empty());
}

#[test]
fn test_master_index_with_pipe_delimiter() {
    let parser = IndexParser::new(IndexConfig::default());
    let content = r#"
Description:           Master Index of EDGAR Dissemination Feed
Last Data Received:    March 31, 2023
Comments:              webmaster@sec.gov
Anonymous FTP:         ftp://ftp.sec.gov/edgar/
Cloud HTTP:            https://www.sec.gov/Archives/

CIK|Company Name|Form Type|Date Filed|Filename
--------------------------------------------------------------------------------
1000045|NICHOLAS FINANCIAL INC|10-Q|2023-02-14|edgar/data/1000045/0000950170-23-002704.txt
"#;
    let entries = parser.parse(content).unwrap();

    assert!(!entries.is_empty());
    let entry = &entries[0];
    assert_eq!(entry.cik, 1000045);
    assert_eq!(entry.company_name.trim(), "NICHOLAS FINANCIAL INC");
    assert_eq!(
        entry.url,
        "https://www.sec.gov/Archives/edgar/data/1000045/0000950170-23-002704.txt"
    )
}

#[test]
fn test_parse_master_index_line() {
    let parser = IndexParser::new(IndexConfig::default());
    let line = "1000045|NICHOLAS FINANCIAL INC|10-Q|2023-02-14|edgar/data/1000045/0000950170-23-002704.txt";
    let index_type = IndexType::Master;

    let entry = parser.parse_line(line, &index_type).unwrap().unwrap();

    assert_eq!(entry.cik, 1000045);
    assert_eq!(entry.company_name.trim(), "NICHOLAS FINANCIAL INC");
    assert_eq!(entry.form_type.trim(), "10-Q");
    assert_eq!(entry.date_filed, "2023-02-14");
    assert_eq!(
        entry.url,
        "https://www.sec.gov/Archives/edgar/data/1000045/0000950170-23-002704.txt"
    );
}

#[test]
fn test_parse_company_index_line() {
    let parser = IndexParser::new(IndexConfig::default());
    let line = "3J LLC                                                        D           1975393     20230703    edgar/data/1975393/0001975393-23-000001.txt";
    let index_type = IndexType::Company;

    let entry = parser.parse_line(line, &index_type).unwrap().unwrap();

    assert_eq!(entry.company_name.trim(), "3J LLC");
    assert_eq!(entry.form_type.trim(), "D");
    assert_eq!(entry.cik, 1975393);
    assert_eq!(entry.date_filed, "20230703");
    assert_eq!(
        entry.url,
        "https://www.sec.gov/Archives/edgar/data/1975393/0001975393-23-000001.txt"
    );
}

#[test]
fn test_parse_crawler_index_line() {
    let parser = IndexParser::new(IndexConfig::default());
    let line = "EXAMPLE COMPANY                                               10-K        1234567     2023-07-03  https://www.sec.gov/Archives/edgar/data/1234567/000123456723000001.txt";
    let index_type = IndexType::Crawler;

    let entry = parser.parse_line(line, &index_type).unwrap().unwrap();

    assert_eq!(entry.company_name.trim(), "EXAMPLE COMPANY");
    assert_eq!(entry.form_type.trim(), "10-K");
    assert_eq!(entry.cik, 1234567);
    assert_eq!(entry.date_filed, "2023-07-03");
    assert_eq!(
        entry.url,
        "https://www.sec.gov/Archives/edgar/data/1234567/000123456723000001.txt"
    );
}

#[test]
fn test_find_index_file() {
    let items = vec![
        DirectoryItem {
            last_modified: "08/15/2023 12:00:00 AM".to_string(),
            name: "company.20230815.idx".to_string(),
            type_: ItemType::File,
            href: "company.20230815.idx".to_string(),
            size: "1000".to_string(),
        },
        DirectoryItem {
            last_modified: "08/15/2023 12:00:00 AM".to_string(),
            name: "company.idx".to_string(),
            type_: ItemType::File,
            href: "company.idx".to_string(),
            size: "2000".to_string(),
        },
    ];

    let day = EdgarDay::new(2023, 8, 15).unwrap();
    let idx = Edgar::find_index_file(&items, EdgarDate::Day(day), IndexType::Company).unwrap();
    let file = &items[idx];
    assert_eq!(file.name, "company.20230815.idx");
    assert_eq!(file.href, "company.20230815.idx");
    assert_eq!(file.size, "1000");
    assert_eq!(file.type_, ItemType::File);

    let _period = EdgarPeriod::new(2023, Quarter::Q3).unwrap();
    let idx = Edgar::find_index_file(&items, EdgarDate::Period, IndexType::Company).unwrap();
    let file = &items[idx];
    assert_eq!(file.name, "company.idx");
    assert_eq!(file.href, "company.idx");
    assert_eq!(file.size, "2000");
    assert_eq!(file.type_, ItemType::File);
}

#[test]
fn test_daily_index_invalid_year() {
    let period = EdgarPeriod::new(1993, Quarter::Q1);
    assert!(matches!(period, Err(EdgarError::InvalidYear)));
}

#[test]
fn test_period_invalid_year() {
    let period = EdgarPeriod::new(1993, Quarter::Q1);
    assert!(matches!(period, Err(EdgarError::InvalidYear)));
}

#[test]
fn day_validation_and_formatting() {
    assert!(matches!(EdgarDay::new(1993, 1, 1), Err(EdgarError::InvalidYear)));
    assert!(matches!(EdgarDay::new(2023, 13, 1), Err(EdgarError::InvalidMonth)));
    assert!(matches!(EdgarDay::new(2023, 12, 32), Err(EdgarError::InvalidDay)));
    let day = EdgarDay::new(2023, 12, 25).unwrap();
    assert_eq!(day.format_date(), "20231225");
    assert_eq!(day.quarter(), Quarter::Q4);
    assert_eq!(day.year(), 2023);
    let early = EdgarDay::new(1994, 2, 5).unwrap();
    assert_eq!(early.format_date(), "19940205");
    assert_eq!(early.quarter(), Quarter::Q1);
}

#[test]
fn quarter_from_month() {
    assert_eq!(Quarter::from_month(3).unwrap(), Quarter::Q1);
    assert_eq!(Quarter::from_month(4).unwrap(), Quarter::Q2);
    assert_eq!(Quarter::from_month(9).unwrap(), Quarter::Q3);
    assert_eq!(Quarter::from_month(12).unwrap(), Quarter::Q4);
    assert!(matches!(Quarter::from_month(0), Err(EdgarError::InvalidMonth)));
    assert!(matches!(Quarter::from_month(13), Err(EdgarError::InvalidMonth)));
    assert_eq!(Quarter::Q2.as_i32(), 2);
}

#[test]
fn index_urls() {
    let edgar = Edgar::new("test_agent example@example.com").unwrap();
    assert_eq!(
        edgar.fetch_index_url("daily", Some(2023), Some(3)).unwrap(),
        "https://www.sec.gov/Archives/edgar/daily-index/2023/QTR3/index.json"
    );
    assert_eq!(
        edgar.fetch_index_url("full", None, None).unwrap(),
        "https://www.sec.gov/Archives/edgar/full-index/index.json"
    );
    assert_eq!(
        edgar.fetch_index_url("full", Some(2020), None).unwrap(),
        "https://www.sec.gov/Archives/edgar/full-index/2020/index.json"
    );
    assert!(matches!(
        edgar.fetch_index_url("daily", Some(1990), Some(1)),
        Err(EdgarError::InvalidYear)
    ));
    assert!(matches!(
        edgar.fetch_index_url("daily", Some(2020), Some(5)),
        Err(EdgarError::InvalidQuarter)
    ));
    assert_eq!(
        edgar.index_file_url("daily", 2023, 3, "company.20230815.idx"),
        "https://www.sec.gov/Archives/edgar/daily-index/2023/QTR3/company.20230815.idx"
    );
}

#[test]
fn parse_with_entry_cap_and_filters() {
    let content = "CIK|Company Name|Form Type|Date Filed|Filename\n\
---------------------------------------------\n\
1|ALPHA|10-K|2023-01-01|edgar/a.txt\n\
2|BETA|8-K|2023-01-02|edgar/b.txt\n\
3|GAMMA|10-K|2023-01-03|edgar/c.txt\n";
    let parser = IndexParser::new(IndexConfig {
        field_widths: None,
        delimiter: None,
        max_entries: Some(2),
        index_type: Some(IndexType::Master),
    });
    let entries = parser.parse(content).unwrap();
    assert_eq!(entries.len(), 2);
    assert_eq!(entries[0].company_name, "ALPHA");
    assert_eq!(entries[1].company_name, "BETA");

    let parser = IndexParser::new(IndexConfig {
        field_widths: None,
        delimiter: None,
        max_entries: None,
        index_type: Some(IndexType::Master),
    });
    let all = parser.parse(content).unwrap();
    assert_eq!(all.len(), 3);

    let edgar = Edgar::new("test_agent example@example.com").unwrap();
    let filtered = edgar.apply_filters(
        all.clone(),
        &FilingOptions::new().with_form_type("10-K"),
    );
    assert_eq!(filtered.len(), 2);
    assert_eq!(filtered[0].company_name, "ALPHA");
    assert_eq!(filtered[1].company_name, "GAMMA");

    let by_cik = edgar.apply_filters(all.clone(), &FilingOptions::new().with_cik(2));
    assert_eq!(by_cik.len(), 1);
    assert_eq!(by_cik[0].company_name, "BETA");

    let paged = edgar.apply_filters(
        all,
        &FilingOptions::new().with_offset(1).with_limit(1),
    );
    assert_eq!(paged.len(), 1);
    assert_eq!(paged[0].company_name, "BETA");
}

#[test]
fn parse_rejects_bad_cik() {
    let content = "CIK|Company Name|Form Type|Date Filed|Filename\n\
---\n\
notanumber|ALPHA|10-K|2023-01-01|edgar/a.txt\n";
    let parser = IndexParser::new(IndexConfig {
        field_widths: None,
        delimiter: None,
        max_entries: None,
        index_type: Some(IndexType::Master),
    });
    match parser.parse(content) {
        Err(EdgarError::InvalidFormat(msg)) => {
            assert_eq!(msg, "Invalid CIK: notanumber");
        }
        other => panic!("expected an invalid format error, got {:?}", other),
    }
}

#[test]
fn all_zero_cik_is_rejected() {
    // Stripping the leading zeros of an all-zero CIK leaves nothing, which no
    // number parser accepts.
    let parser = IndexParser::new(IndexConfig::default());
    match parser.parse_line("0000|SOMEONE|10-K|2023-01-01|edgar/x.txt", &IndexType::Master) {
        Err(EdgarError::InvalidFormat(msg)) => assert_eq!(msg, "Invalid CIK: "),
        other => panic!("expected an invalid format error, got {:?}", other),
    }
}

#[test]
fn extract_archive_roundtrip() {
    let edgar = Edgar::new("test_agent example@example.com").unwrap();
    // Plain text passes through as UTF-8.
    let plain = edgar
        .extract_archive("hello index".as_bytes().to_vec(), "company.idx")
        .unwrap();
    assert_eq!(plain, "hello index");
    // Invalid UTF-8 is rejected.
    assert!(matches!(
        edgar.extract_archive(vec![0xff, 0xfe, 0x01], "company.idx"),
        Err(EdgarError::Utf8Error(_))
    ));
    // A gzip stream is decompressed.
    let mut encoder =
        flate2::write::GzEncoder::new(Vec::new(), flate2::Compression::default());
    std::io::Write::write_all(&mut encoder, "compressed index body".as_bytes()).unwrap();
    let gz = encoder.finish().unwrap();
    let text = edgar.extract_archive(gz, "company.gz").unwrap();
    assert_eq!(text, "compressed index body");
    // A broken gzip stream is rejected.
    assert!(matches!(
        edgar.extract_archive(vec![1, 2, 3], "company.gz"),
        Err(EdgarError::FileError(_))
    ));
}

#[test]
fn entry_field_access() {
    let entry = IndexEntry {
        company_name: "ACME".to_string(),
        form_type: "10-K".to_string(),
        cik: 99,
        date_filed: "2023-01-01".to_string(),
        url: String::new(),
    };
    let copy = entry.clone_entry();
    assert_eq!(copy.company_name, entry.company_name);
    assert_eq!(copy.cik, entry.cik);
}
