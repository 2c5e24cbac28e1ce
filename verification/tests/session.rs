use finance::{ApiChoice, FinanceClient};

fn client() -> FinanceClient {
    FinanceClient {
        url: "http://api".to_string(),
        search_string: String::new(),
        current_content: String::new(),
        choice: ApiChoice::CompanyProfile,
        current_market: "US".to_string(),
        companies: Vec::new(),
    }
}

#[test]
fn cycle_visits_every_mode_in_order() {
    let mut c = client();
    c.choice = ApiChoice::SymbolSearch;
    c.switch();
    assert_eq!(c.choice, ApiChoice::CompanyProfile);
    c.switch();
    assert_eq!(c.choice, ApiChoice::StockSymbol);
    c.switch();
    assert_eq!(c.choice, ApiChoice::MarketNews);
    c.switch();
    assert_eq!(c.choice, ApiChoice::CompanyNews);
    c.switch();
    assert_eq!(c.choice, ApiChoice::GetMarket);
    c.switch();
    assert_eq!(c.choice, ApiChoice::SymbolSearch);
}

#[test]
fn cycle_six_times_returns_to_start() {
    for start in [
        ApiChoice::SymbolSearch,
        ApiChoice::CompanyProfile,
        ApiChoice::StockSymbol,
        ApiChoice::MarketNews,
        ApiChoice::CompanyNews,
        ApiChoice::GetMarket,
    ] {
        let mut c = client();
        c.choice = start;
        for _ in 0..6 {
            c.switch();
        }
        assert_eq!(c.choice, start);
    }
}

#[test]
fn typing_appends_and_backspace_removes_last() {
    let mut c = client();
    c.append_char('M');
    c.append_char('S');
    c.append_char('F');
    c.append_char('T');
    assert_eq!(c.search_string, "MSFT");
    c.backspace();
    assert_eq!(c.search_string, "MSF");
    c.clear_input();
    assert_eq!(c.search_string, "");
    c.clear_input();
    assert_eq!(c.search_string, "");
}

#[test]
fn backspace_on_empty_input_changes_nothing() {
    let mut c = client();
    c.companies = vec![("Apple Inc.".to_string(), "AAPL".to_string())];
    c.current_content = "previous".to_string();
    c.backspace();
    assert_eq!(c.search_string, "");
    assert_eq!(c.current_content, "previous");
    assert_eq!(c.current_market, "US");
    assert_eq!(c.choice, ApiChoice::CompanyProfile);
    assert_eq!(c.companies, vec![("Apple Inc.".to_string(), "AAPL".to_string())]);
}

#[test]
fn mode_labels_match_the_mode_bar() {
    assert_eq!(ApiChoice::SymbolSearch.label(), "Company symbol");
    assert_eq!(ApiChoice::CompanyProfile.label(), "Company info");
    assert_eq!(ApiChoice::StockSymbol.label(), "Stock symbol");
    assert_eq!(ApiChoice::MarketNews.label(), "News");
    assert_eq!(ApiChoice::CompanyNews.label(), "Company news");
    assert_eq!(ApiChoice::GetMarket.label(), "Get market");
}

#[test]
fn all_choices_marks_only_the_active_mode() {
    let mut c = client();
    c.choice = ApiChoice::MarketNews;
    let choices = c.all_choices();
    let expected = [
        ("Company symbol", false),
        ("Company info", false),
        ("Stock symbol", false),
        ("News", true),
        ("Company news", false),
        ("Get market", false),
    ];
    assert_eq!(choices.len(), expected.len());
    for ((label, active), (want_label, want_active)) in choices.iter().zip(expected.iter()) {
        assert_eq!(label, want_label);
        assert_eq!(active, want_active);
    }
}

#[test]
fn submit_request_names_the_profile_url() {
    let mut c = client();
    c.append_char('A');
    c.append_char('A');
    c.append_char('P');
    c.append_char('L');
    let url = c.submit_request();
    assert_eq!(url, Some("http://api/stock/profile2?symbol=AAPL".to_string()));
}

#[test]
fn submit_request_names_the_listing_url_only_for_known_codes() {
    let mut c = client();
    c.choice = ApiChoice::GetMarket;
    c.search_string = "L".to_string();
    assert_eq!(c.submit_request(), Some("http://api/stock/symbol?exchange=L".to_string()));
    c.search_string = "ZZ".to_string();
    assert_eq!(c.submit_request(), None);
    c.choice = ApiChoice::SymbolSearch;
    assert_eq!(c.submit_request(), None);
}

#[test]
fn news_request_shapes() {
    let mut c = client();
    c.search_string = "AAPL".to_string();
    assert_eq!(
        c.company_news_url("2021-09-01", "2021-09-09"),
        "http://api/company-news?symbol=AAPL&from=2021-09-01&to=2021-09-09"
    );
    assert_eq!(c.market_news_url(), "http://api/news?category=general");
}

#[test]
fn news_modes_are_unimplemented() {
    let c = client();
    assert!(c.company_news().is_err());
    assert!(c.market_news().is_err());
}

#[test]
fn submit_in_a_news_mode_reports_unimplemented() {
    let mut c = client();
    c.choice = ApiChoice::StockSymbol;
    c.current_market = "US".to_string();
    c.submit(None);
    assert_eq!(c.current_content, "Not implemented yet");
    assert_eq!(c.current_market, "US");
    c.choice = ApiChoice::MarketNews;
    c.submit(None);
    assert_eq!(c.current_content, "Not implemented yet");
    c.choice = ApiChoice::CompanyNews;
    c.submit(None);
    assert_eq!(c.current_content, "Not implemented yet");
}
