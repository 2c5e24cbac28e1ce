use finance::{ApiChoice, FinanceClient};

fn client_with_cache() -> FinanceClient {
    FinanceClient {
        url: "http://api".to_string(),
        search_string: String::new(),
        current_content: String::new(),
        choice: ApiChoice::SymbolSearch,
        current_market: "US".to_string(),
        companies: vec![
            ("Apple Inc.".to_string(), "AAPL".to_string()),
            ("Microsoft Corp".to_string(), "MSFT".to_string()),
            ("3M Company".to_string(), "MMM".to_string()),
        ],
    }
}

#[test]
fn search_is_case_insensitive_both_ways() {
    let c = client_with_cache();
    assert_eq!(c.company_search("appl"), "AAPL: apple inc.\n");
    assert_eq!(c.company_search("APPL"), "AAPL: apple inc.\n");
    assert_eq!(c.company_search("aPpL"), "AAPL: apple inc.\n");
}

#[test]
fn search_keeps_ticker_case_and_folds_the_name() {
    let c = client_with_cache();
    assert_eq!(c.company_search("microsoft"), "MSFT: microsoft corp\n");
    assert_eq!(c.company_search("3m"), "MMM: 3m company\n");
}

#[test]
fn empty_needle_yields_every_entry_in_order() {
    let c = client_with_cache();
    assert_eq!(
        c.company_search(""),
        "AAPL: apple inc.\nMSFT: microsoft corp\nMMM: 3m company\n"
    );
}

#[test]
fn search_without_match_yields_empty_text() {
    let c = client_with_cache();
    assert_eq!(c.company_search("zebra"), "");
}

#[test]
fn search_against_empty_cache_yields_empty_text() {
    let mut c = client_with_cache();
    c.companies = Vec::new();
    assert_eq!(c.company_search("apple"), "");
    assert_eq!(c.company_search(""), "");
}

#[test]
fn needle_matching_several_entries_yields_one_line_each() {
    let c = client_with_cache();
    assert_eq!(
        c.company_search("o"),
        "MSFT: microsoft corp\nMMM: 3m company\n"
    );
}

#[test]
fn submit_in_search_mode_writes_the_result() {
    let mut c = client_with_cache();
    c.search_string = "apple".to_string();
    c.submit(None);
    assert_eq!(c.current_content, "AAPL: apple inc.\n");
}

#[test]
fn submit_in_search_mode_with_empty_input_keeps_the_result() {
    let mut c = client_with_cache();
    c.current_content = "previous".to_string();
    c.submit(None);
    assert_eq!(c.current_content, "previous");
}
