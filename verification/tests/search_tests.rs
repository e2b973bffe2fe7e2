//! Search options, query rendering, and page planning.

use edgarkit::search::plan_search_pages;
use edgarkit::Edgar;
use edgarkit::SearchOptions;

#[test]
fn test_search_options_builder() {
    let options = SearchOptions::new()
        .with_query("test")
        .with_forms(vec!["10-K".to_string(), "10-Q".to_string()])
        .with_count(10)
        .with_reverse_order(true);

    let params = options.to_query_params();

    assert!(params.contains(&("q".to_string(), "test".to_string())));
    assert!(params.contains(&("forms".to_string(), "10-K,10-Q".to_string())));
    assert!(params.contains(&("count".to_string(), "10".to_string())));
    assert!(params.contains(&("reverse_order".to_string(), "TRUE".to_string())));
}

#[test]
fn query_params_ordered_and_complete() {
    let options = SearchOptions::new()
        .with_query("quarterly report")
        .with_forms(vec!["8-K".to_string()])
        .with_date_range("2024-01-01".to_string(), "2024-12-31".to_string())
        .with_cik("0001234567")
        .with_page(2)
        .with_from(100)
        .with_incorporated_location(false);

    let params = options.to_query_params();
    let expected = vec![
        ("q".to_string(), "quarterly report".to_string()),
        ("forms".to_string(), "8-K".to_string()),
        ("page".to_string(), "2".to_string()),
        ("from".to_string(), "100".to_string()),
        ("startdt".to_string(), "2024-01-01".to_string()),
        ("enddt".to_string(), "2024-12-31".to_string()),
        ("ciks".to_string(), "0001234567".to_string()),
        ("incorporated_location".to_string(), "false".to_string()),
    ];
    assert_eq!(params, expected);
}

#[test]
fn empty_options_render_no_params() {
    assert!(SearchOptions::new().to_query_params().is_empty());
}

#[test]
fn search_url_is_percent_encoded() {
    let edgar = Edgar::new("test_agent example@example.com").unwrap();
    let options = SearchOptions::new().with_query("hello world");
    let url = edgar.search_request_url(&options).unwrap();
    assert_eq!(
        url,
        "https://efts.sec.gov/LATEST/search-index/?q=hello+world"
    );
}

#[test]
fn page_plan_covers_the_rest() {
    assert!(plan_search_pages(0).is_empty());
    assert!(plan_search_pages(100).is_empty());

    let pages = plan_search_pages(250);
    assert_eq!(pages.len(), 2);
    assert_eq!((pages[0].page, pages[0].from, pages[0].count), (2, 100, 100));
    assert_eq!((pages[1].page, pages[1].from, pages[1].count), (3, 200, 50));

    let pages = plan_search_pages(300);
    assert_eq!(pages.len(), 2);
    assert_eq!((pages[1].page, pages[1].from, pages[1].count), (3, 200, 100));
}
