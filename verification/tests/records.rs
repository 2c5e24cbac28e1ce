use finance::records::{parse_company_profile, parse_stock_symbols};
use finance::{ApiChoice, FinanceClient, Reply};

const PROFILE_JSON: &str = "{\"country\":\"US\",\"currency\":\"USD\",\"exchange\":\"NASDAQ\",\"finnhubIndustry\":\"Technology\",\"ipo\":\"1980-12-12\",\"marketCapitalization\":261326.2,\"name\":\"Apple Inc.\",\"phone\":\"14089961010\",\"shareOutstanding\":4375.48,\"ticker\":\"AAPL\",\"weburl\":\"https://www.apple.com/\"}";

const PROFILE_TEXT: &str = "\n    Company name: Apple Inc.\n    Country: US\n    Currency: USD\n    Exchange: NASDAQ\n    Industry: Technology\n    Ipo: 1980-12-12\n    Market capitalization: 261326.2\n    Ticker: AAPL\n    Shares: 4375.48\n    Phone: 14089961010\n    Url: https://www.apple.com/\n            ";

#[test]
fn profile_parses_and_renders_the_fixed_template() {
    let profile = parse_company_profile(PROFILE_JSON).expect("profile should parse");
    assert_eq!(profile.to_text(), PROFILE_TEXT);
}

#[test]
fn profile_field_renames_are_honoured() {
    let profile = parse_company_profile(PROFILE_JSON).unwrap();
    assert_eq!(profile.industry, "Technology");
    assert_eq!(profile.market_capitalization, "261326.2");
    assert_eq!(profile.shares_outstanding, "4375.48");
}

#[test]
fn profile_string_escapes_are_decoded() {
    let body = "{\"country\":\"US\",\"currency\":\"USD\",\"exchange\":\"NYSE\",\"finnhubIndustry\":\"Retail\",\"ipo\":\"1999-01-01\",\"marketCapitalization\":5,\"name\":\"Apple \\\"Inc\\\"\",\"phone\":\"1\",\"shareOutstanding\":2,\"ticker\":\"T\",\"weburl\":\"u\"}";
    let profile = parse_company_profile(body).unwrap();
    assert_eq!(profile.name, "Apple \"Inc\"");
}

#[test]
fn profile_with_missing_field_is_rejected() {
    let body = PROFILE_JSON.replace("\"ticker\":\"AAPL\",", "");
    assert!(parse_company_profile(&body).is_none());
}

#[test]
fn profile_with_number_where_string_expected_is_rejected() {
    let body = PROFILE_JSON.replace("\"ticker\":\"AAPL\"", "\"ticker\":7");
    assert!(parse_company_profile(&body).is_none());
}

#[test]
fn profile_with_string_where_number_expected_is_rejected() {
    let body = PROFILE_JSON.replace("\"marketCapitalization\":261326.2", "\"marketCapitalization\":\"big\"");
    assert!(parse_company_profile(&body).is_none());
}

#[test]
fn profile_that_is_no_object_is_rejected() {
    assert!(parse_company_profile("[1,2]").is_none());
    assert!(parse_company_profile("not json at all").is_none());
    assert!(parse_company_profile("").is_none());
}

const LISTING_JSON: &str = "[{\"currency\":\"GBP\",\"description\":\"Barclays PLC\",\"displaySymbol\":\"BARC\",\"figi\":\"BBG000C04D57\",\"mic\":\"XLON\",\"symbol\":\"BARC.L\",\"type\":\"Common Stock\"},{\"currency\":\"GBP\",\"description\":\"Tesco PLC\",\"displaySymbol\":\"TSCO\",\"figi\":\"BBG000BF46Y8\",\"mic\":\"XLON\",\"symbol\":\"TSCO.L\",\"type\":\"Common Stock\"}]";

#[test]
fn listing_parses_every_element_in_order() {
    let symbols = parse_stock_symbols(LISTING_JSON).expect("listing should parse");
    assert_eq!(symbols.len(), 2);
    assert_eq!(symbols[0].description, "Barclays PLC");
    assert_eq!(symbols[0].display_symbol, "BARC");
    assert_eq!(symbols[0].figi, "BBG000C04D57");
    assert_eq!(symbols[1].description, "Tesco PLC");
    assert_eq!(symbols[1].symbol, "TSCO.L");
}

#[test]
fn listing_with_one_bad_element_is_rejected() {
    let body = LISTING_JSON.replace("\"figi\":\"BBG000BF46Y8\",", "");
    assert!(parse_stock_symbols(&body).is_none());
}

#[test]
fn listing_that_is_no_array_is_rejected() {
    assert!(parse_stock_symbols("{\"a\":1}").is_none());
    assert!(parse_stock_symbols("nonsense").is_none());
}

#[test]
fn empty_listing_parses_to_no_symbols() {
    let symbols = parse_stock_symbols("[]").unwrap();
    assert!(symbols.is_empty());
}

fn profile_client() -> FinanceClient {
    FinanceClient {
        url: "http://api".to_string(),
        search_string: "MSFT".to_string(),
        current_content: String::new(),
        choice: ApiChoice::CompanyProfile,
        current_market: "US".to_string(),
        companies: vec![("Apple Inc.".to_string(), "AAPL".to_string())],
    }
}

#[test]
fn profile_submit_renders_the_profile() {
    let mut c = profile_client();
    c.submit(Some(Reply::Text(PROFILE_JSON.to_string())));
    assert_eq!(c.current_content, PROFILE_TEXT);
}

#[test]
fn profile_submit_with_malformed_reply_reports_deserialization() {
    let mut c = profile_client();
    c.submit(Some(Reply::Text("garbage".to_string())));
    assert_eq!(
        c.current_content,
        "Couldn't deserialize MSFT into CompanyProfile struct.\nText from Finnhub: 'garbage'"
    );
    assert_eq!(c.search_string, "MSFT");
    assert_eq!(c.choice, ApiChoice::CompanyProfile);
    assert_eq!(c.current_market, "US");
    assert_eq!(c.companies, vec![("Apple Inc.".to_string(), "AAPL".to_string())]);
}

#[test]
fn profile_submit_with_transport_failure_shows_its_description() {
    let mut c = profile_client();
    c.submit(Some(Reply::Failed("Couldn't send via client".to_string())));
    assert_eq!(c.current_content, "Couldn't send via client");
}
