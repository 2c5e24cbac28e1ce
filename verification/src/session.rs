//! The session state machine and query dispatcher: the sole owner of
//! the input buffer, the active mode, the active exchange with its
//! cached symbols, and the last rendered result.
//!
//! The session never performs I/O itself.  For a submit it names the
//! one URL to fetch, the surrounding program performs the exchange and
//! hands the outcome back as a [`Reply`], and the session reduces that
//! outcome to the text shown to the user.

use vstd::prelude::*;
use vstd::string::*;

use crate::errors::{
    deserialization_text, market_success_message, market_success_text, no_market_message,
    no_market_text, unimplemented_text, ClientError,
};
use crate::index::{search_lines, search_pairs};
use crate::modes::{choice_label, choice_order, next_choice, ApiChoice};
use crate::records::{
    parse_company_profile, parse_stock_symbols, profile_text, spec_parse_profile,
    spec_parse_symbols, symbols_view, StockSymbol, StockSymbolView,
};
use crate::text::{pair_views, push_char, str_eq};

verus! {

/// The outcome of one HTTP exchange, as the transport hands it back.
pub enum Reply {
    /// The response text.
    Text(String),
    /// The transport's description of why no text came back.
    Failed(String),
}

/// The closed set of known market identifiers.
pub open spec fn exchange_code_seq() -> Seq<Seq<char>> {
    seq![
        "AS"@, "AT"@, "AX"@, "BA"@, "BC"@, "BD"@, "BE"@, "BK"@, "BO"@, "BR"@,
        "CA"@, "CN"@, "CO"@, "CR"@, "DB"@, "DE"@, "DU"@, "F"@, "HE"@, "HK"@,
        "HM"@, "IC"@, "IR"@, "IS"@, "JK"@, "JO"@, "KL"@, "KQ"@, "KS"@, "L"@,
        "LN"@, "LS"@, "MC"@, "ME"@, "MI"@, "MU"@, "MX"@, "NE"@, "NL"@, "NS"@,
        "NZ"@, "OL"@, "PA"@, "PM"@, "PR"@, "QA"@, "RG"@, "SA"@, "SG"@, "SI"@,
        "SN"@, "SR"@, "SS"@, "ST"@, "SW"@, "SZ"@, "T"@, "TA"@, "TL"@, "TO"@,
        "TW"@, "TWO"@, "US"@, "V"@, "VI"@, "VN"@, "VS"@, "WA"@, "HA"@, "SX"@,
        "TG"@, "SC"@,
    ]
}

/// Whether `s` is a known market identifier.
pub open spec fn is_exchange_code_spec(s: Seq<char>) -> bool {
    exchange_code_seq().contains(s)
}

/// The known market identifiers, in their fixed order.
pub fn exchange_codes() -> (v: Vec<&'static str>)
    ensures
        v@.map_values(|c: &str| c@) == exchange_code_seq(),
{
    let v: Vec<&'static str> = vec![
        "AS", "AT", "AX", "BA", "BC", "BD", "BE", "BK", "BO", "BR",
        "CA", "CN", "CO", "CR", "DB", "DE", "DU", "F", "HE", "HK",
        "HM", "IC", "IR", "IS", "JK", "JO", "KL", "KQ", "KS", "L",
        "LN", "LS", "MC", "ME", "MI", "MU", "MX", "NE", "NL", "NS",
        "NZ", "OL", "PA", "PM", "PR", "QA", "RG", "SA", "SG", "SI",
        "SN", "SR", "SS", "ST", "SW", "SZ", "T", "TA", "TL", "TO",
        "TW", "TWO", "US", "V", "VI", "VN", "VS", "WA", "HA", "SX",
        "TG", "SC",
    ];
    proof {
        assert(v@.map_values(|c: &str| c@) =~= exchange_code_seq());
    }
    v
}

/// Decides membership in the closed set of market identifiers.
pub fn is_exchange_code(s: &str) -> (r: bool)
    ensures
        r == is_exchange_code_spec(s@),
{
    let codes = exchange_codes();
    let n = codes.len();
    let mut i: usize = 0;
    while i < n
        invariant
            i <= n,
            n == codes@.len(),
            codes@.map_values(|c: &str| c@) == exchange_code_seq(),
            forall|k: int| 0 <= k < i ==> exchange_code_seq()[k] != s@,
        decreases n - i,
    {
        proof {
            assert(codes@.map_values(|c: &str| c@)[i as int] == codes@[i as int]@);
        }
        if str_eq(codes[i], s) {
            proof {
                assert(exchange_code_seq()[i as int] == s@);
            }
            return true;
        }
        i = i + 1;
    }
    false
}

/// The URL of one profile lookup.
pub open spec fn profile_url_text(base: Seq<char>, symbol: Seq<char>) -> Seq<char> {
    base + "/stock/profile2?symbol="@ + symbol
}

/// The URL of one exchange listing.
pub open spec fn symbols_url_text(base: Seq<char>, code: Seq<char>) -> Seq<char> {
    base + "/stock/symbol?exchange="@ + code
}

/// The URL of one company-news lookup over a date range.
pub open spec fn company_news_url_text(
    base: Seq<char>,
    symbol: Seq<char>,
    from: Seq<char>,
    to: Seq<char>,
) -> Seq<char> {
    base + "/company-news?symbol="@ + symbol + "&from="@ + from + "&to="@ + to
}

/// The URL of one general market-news lookup.
pub open spec fn market_news_url_text(base: Seq<char>) -> Seq<char> {
    base + "/news?category=general"@
}

/// The (name, ticker) pair each symbol record contributes to the
/// cache.
pub open spec fn symbol_pairs(symbols: Seq<StockSymbolView>) -> Seq<(Seq<char>, Seq<char>)> {
    symbols.map_values(|s: StockSymbolView| (s.description, s.display_symbol))
}

/// Whether one exchange-switch attempt succeeds: the typed code is a
/// known market, a response text came back, and it parses as a symbol
/// listing.
pub open spec fn switch_succeeds(code: Seq<char>, reply: Option<Reply>) -> bool {
    &&& is_exchange_code_spec(code)
    &&& reply matches Some(Reply::Text(t)) && spec_parse_symbols(t@) is Some
}

/// The text one profile submit renders, given the reply.
pub open spec fn profile_outcome_text(query: Seq<char>, reply: Reply) -> Seq<char> {
    match reply {
        Reply::Failed(m) => m@,
        Reply::Text(t) => match spec_parse_profile(t@) {
            Some(p) => profile_text(p),
            None => deserialization_text(query, t@),
        },
    }
}

/// The session root: the base URL it queries, the text buffer being
/// typed, the last rendered result, the active mode, and the active
/// exchange with its cached (company name, ticker) pairs.
pub struct FinanceClient {
    /// Base URL of the remote API.
    pub url: String,
    /// The text buffer being typed.
    pub search_string: String,
    /// The last rendered result.
    pub current_content: String,
    /// The active mode.
    pub choice: ApiChoice,
    /// The active exchange code.
    pub current_market: String,
    /// The (company name, ticker) pairs cached for the active
    /// exchange; replaced only as a unit, by a successful switch.
    pub companies: Vec<(String, String)>,
}

/// The active exchange and its cache are untouched.
pub open spec fn unchanged_market(pre: FinanceClient, post: FinanceClient) -> bool {
    &&& post.current_market@ == pre.current_market@
    &&& pair_views(post.companies@) == pair_views(pre.companies@)
}

/// How one exchange-switch attempt moves the state: on success the
/// active exchange and the whole cache are replaced together, on any
/// failure both stay as they were.
pub open spec fn market_switch_state(
    pre: FinanceClient,
    post: FinanceClient,
    reply: Option<Reply>,
) -> bool {
    if switch_succeeds(pre.search_string@, reply) {
        &&& post.current_market@ == pre.search_string@
        &&& (reply matches Some(Reply::Text(t)) ==> pair_views(post.companies@) == symbol_pairs(
            spec_parse_symbols(t@)->0,
        ))
    } else {
        unchanged_market(pre, post)
    }
}

/// The text one exchange-switch attempt renders: the success text on
/// success; otherwise the unknown-market text, whether the code was
/// unknown, no text came back, or the listing did not parse.
pub open spec fn market_switch_text(code: Seq<char>, reply: Option<Reply>) -> Seq<char> {
    if switch_succeeds(code, reply) {
        market_success_text(code)
    } else {
        no_market_text(code)
    }
}

/// How one submit moves the whole session, given the reply of the
/// request named by `spec_submit_request`.  The input buffer and the
/// mode are never touched; only a successful exchange switch touches
/// the active exchange and its cache.
pub open spec fn submit_transition(
    pre: FinanceClient,
    post: FinanceClient,
    reply: Option<Reply>,
) -> bool {
    &&& post.url@ == pre.url@
    &&& post.search_string@ == pre.search_string@
    &&& post.choice == pre.choice
    &&& match pre.choice {
        ApiChoice::SymbolSearch => {
            &&& unchanged_market(pre, post)
            &&& pre.search_string@.len() == 0 ==> post.current_content@ == pre.current_content@
            &&& pre.search_string@.len() > 0 ==> post.current_content@ == search_lines(
                pair_views(pre.companies@),
                pre.search_string@,
            )
        },
        ApiChoice::CompanyProfile => {
            &&& unchanged_market(pre, post)
            &&& post.current_content@ == profile_outcome_text(pre.search_string@, reply->0)
        },
        ApiChoice::GetMarket => {
            &&& market_switch_state(pre, post, reply)
            &&& post.current_content@ == market_switch_text(pre.search_string@, reply)
        },
        _ => {
            &&& unchanged_market(pre, post)
            &&& post.current_content@ == unimplemented_text()
        },
    }
}

impl FinanceClient {
    /// The URL a profile submit fetches, keyed by the input treated as
    /// a ticker symbol.
    pub fn profile_url(&self) -> (r: String)
        ensures
            r@ == profile_url_text(self.url@, self.search_string@),
    {
        let mut r = self.url.clone();
        r.append("/stock/profile2?symbol=");
        r.append(self.search_string.as_str());
        r
    }

    /// The URL that lists the symbols of one exchange.
    pub fn stock_symbols_url(&self, exchange: &str) -> (r: String)
        ensures
            r@ == symbols_url_text(self.url@, exchange@),
    {
        let mut r = self.url.clone();
        r.append("/stock/symbol?exchange=");
        r.append(exchange);
        r
    }

    /// The URL of a company-news lookup: the request shape of the
    /// news-by-company mode.
    pub fn company_news_url(&self, from: &str, to: &str) -> (r: String)
        ensures
            r@ == company_news_url_text(self.url@, self.search_string@, from@, to@),
    {
        let mut r = self.url.clone();
        r.append("/company-news?symbol=");
        r.append(self.search_string.as_str());
        r.append("&from=");
        r.append(from);
        r.append("&to=");
        r.append(to);
        r
    }

    /// The URL of a general market-news lookup: the request shape of
    /// the market-news mode.
    pub fn market_news_url(&self) -> (r: String)
        ensures
            r@ == market_news_url_text(self.url@),
    {
        let mut r = self.url.clone();
        r.append("/news?category=general");
        r
    }

    /// Case-insensitive substring search of `needle` against the
    /// cached company names, one line per match, in cache order.
    pub fn company_search(&self, needle: &str) -> (r: String)
        ensures
            r@ == search_lines(pair_views(self.companies@), needle@),
    {
        search_pairs(&self.companies, needle)
    }

    /// Replaces the symbol cache wholesale with the pairs of a fresh
    /// listing; nothing else changes.
    pub fn load_symbols(&mut self, symbols: Vec<StockSymbol>)
        ensures
            final(self).url@ == old(self).url@,
            final(self).search_string@ == old(self).search_string@,
            final(self).current_content@ == old(self).current_content@,
            final(self).choice == old(self).choice,
            final(self).current_market@ == old(self).current_market@,
            pair_views(final(self).companies@) == symbol_pairs(symbols_view(symbols@)),
    {
        let n = symbols.len();
        let mut pairs: Vec<(String, String)> = Vec::new();
        let mut i: usize = 0;
        proof {
            assert(pair_views(pairs@) =~= symbol_pairs(symbols_view(symbols@)).take(0));
        }
        while i < n
            invariant
                i <= n,
                n == symbols@.len(),
                pair_views(pairs@) == symbol_pairs(symbols_view(symbols@)).take(i as int),
            decreases n - i,
        {
            let ghost before = pairs@;
            pairs.push((symbols[i].description.clone(), symbols[i].display_symbol.clone()));
            proof {
                assert(pair_views(pairs@) =~= pair_views(before).push(
                    (symbols@[i as int].description@, symbols@[i as int].display_symbol@),
                ));
                assert(symbol_pairs(symbols_view(symbols@)).take(i + 1) =~= symbol_pairs(
                    symbols_view(symbols@),
                ).take(i as int).push(
                    (symbols@[i as int].description@, symbols@[i as int].display_symbol@),
                ));
            }
            i = i + 1;
        }
        proof {
            assert(symbol_pairs(symbols_view(symbols@)).take(n as int) =~= symbol_pairs(
                symbols_view(symbols@),
            ));
        }
        self.companies = pairs;
    }

    /// Reduces the outcome of one profile request to display text: the
    /// rendered profile on success, the transport's description when no
    /// text came back, and the deserialization text naming the query
    /// and the offending reply when the text does not parse.
    pub fn company_profile(&self, reply: Reply) -> (r: Result<String, ClientError>)
        ensures
            reply matches Reply::Failed(m) ==> r matches Err(e) && e matches
                ClientError::Transport(m2) && m2@ == m@,
            reply matches Reply::Text(t) ==> match spec_parse_profile(t@) {
                Some(p) => r matches Ok(s) && s@ == profile_text(p),
                None => r matches Err(e) && e matches ClientError::Deserialization {
                    query,
                    body,
                } && query@ == self.search_string@ && body@ == t@,
            },
    {
        match reply {
            Reply::Failed(m) => Err(ClientError::Transport(m)),
            Reply::Text(t) => match parse_company_profile(t.as_str()) {
                Some(p) => Ok(p.to_text()),
                None => Err(
                    ClientError::Deserialization { query: self.search_string.clone(), body: t },
                ),
            },
        }
    }

    /// Reduces the outcome of one listing request to the symbol
    /// records it carries, or to the failure it ran into.
    pub fn stock_symbols(&self, reply: Reply) -> (r: Result<Vec<StockSymbol>, ClientError>)
        ensures
            reply matches Reply::Failed(m) ==> r matches Err(e) && e matches
                ClientError::Transport(m2) && m2@ == m@,
            reply matches Reply::Text(t) ==> match spec_parse_symbols(t@) {
                Some(syms) => r matches Ok(v) && symbols_view(v@) == syms,
                None => r matches Err(e) && e matches ClientError::Deserialization {
                    query,
                    body,
                } && query@ == self.search_string@ && body@ == t@,
            },
    {
        match reply {
            Reply::Failed(m) => Err(ClientError::Transport(m)),
            Reply::Text(t) => match parse_stock_symbols(t.as_str()) {
                Some(symbols) => Ok(symbols),
                None => Err(
                    ClientError::Deserialization { query: self.search_string.clone(), body: t },
                ),
            },
        }
    }

    /// Applies one exchange-switch attempt.  When the typed code is a
    /// known market and the listing reply parses, the active exchange
    /// and the whole cache are replaced together and the success text
    /// names the new code.  Otherwise nothing changes and the
    /// unknown-market text is returned: an unknown code and a failed
    /// or unparsable request are deliberately not distinguished.
    pub fn choose_market(&mut self, reply: Option<Reply>) -> (r: String)
        ensures
            final(self).url@ == old(self).url@,
            final(self).search_string@ == old(self).search_string@,
            final(self).current_content@ == old(self).current_content@,
            final(self).choice == old(self).choice,
            market_switch_state(*old(self), *final(self), reply),
            r@ == market_switch_text(old(self).search_string@, reply),
    {
        if is_exchange_code(self.search_string.as_str()) {
            match reply {
                Some(rep) => match self.stock_symbols(rep) {
                    Ok(symbols) => {
                        self.current_market = self.search_string.clone();
                        self.load_symbols(symbols);
                        market_success_message(self.current_market.as_str())
                    },
                    Err(_) => no_market_message(self.search_string.as_str()),
                },
                None => no_market_message(self.search_string.as_str()),
            }
        } else {
            no_market_message(self.search_string.as_str())
        }
    }

    /// The news paths fail unconditionally: their request shapes are
    /// defined, their reply handling is an open design slot.
    pub fn company_news(&self) -> (r: Result<String, ClientError>)
        ensures
            r matches Err(e) && e is Unimplemented,
    {
        Err(ClientError::Unimplemented)
    }

    /// See [`Self::company_news`].
    pub fn market_news(&self) -> (r: Result<String, ClientError>)
        ensures
            r matches Err(e) && e is Unimplemented,
    {
        Err(ClientError::Unimplemented)
    }

    /// Appends one typed character to the input buffer.
    pub fn append_char(&mut self, c: char)
        ensures
            final(self).search_string@ == old(self).search_string@.push(c),
            final(self).url@ == old(self).url@,
            final(self).current_content@ == old(self).current_content@,
            final(self).choice == old(self).choice,
            final(self).current_market@ == old(self).current_market@,
            pair_views(final(self).companies@) == pair_views(old(self).companies@),
    {
        push_char(&mut self.search_string, c);
    }

    /// Empties the input buffer; applying it twice is the same as
    /// applying it once.
    pub fn clear_input(&mut self)
        ensures
            final(self).search_string@ == Seq::<char>::empty(),
            final(self).url@ == old(self).url@,
            final(self).current_content@ == old(self).current_content@,
            final(self).choice == old(self).choice,
            final(self).current_market@ == old(self).current_market@,
            pair_views(final(self).companies@) == pair_views(old(self).companies@),
    {
        self.search_string = String::new();
    }

    /// Removes the last character of the input buffer; on an empty
    /// buffer nothing at all changes.
    pub fn backspace(&mut self)
        ensures
            old(self).search_string@.len() == 0 ==> final(self).search_string@ == old(self).search_string@,
            old(self).search_string@.len() > 0 ==> final(self).search_string@ == old(self).search_string@.drop_last(),
            final(self).url@ == old(self).url@,
            final(self).current_content@ == old(self).current_content@,
            final(self).choice == old(self).choice,
            final(self).current_market@ == old(self).current_market@,
            pair_views(final(self).companies@) == pair_views(old(self).companies@),
    {
        let n = self.search_string.as_str().unicode_len();
        if n > 0 {
            let shorter = self.search_string.as_str().substring_char(0, n - 1).to_owned();
            self.search_string = shorter;
        }
    }

    /// Advances the mode to the next one in the fixed cyclic order.
    pub fn switch(&mut self)
        ensures
            final(self).choice == next_choice(old(self).choice),
            final(self).search_string@ == old(self).search_string@,
            final(self).url@ == old(self).url@,
            final(self).current_content@ == old(self).current_content@,
            final(self).current_market@ == old(self).current_market@,
            pair_views(final(self).companies@) == pair_views(old(self).companies@),
    {
        self.choice = self.choice.next();
    }

    /// Every mode's label in the fixed order, each marked whether it
    /// is the active one.
    pub fn all_choices(&self) -> (r: Vec<(String, bool)>)
        ensures
            r@.len() == choice_order().len(),
            forall|i: int|
                0 <= i < r@.len() ==> #[trigger] r@[i].0@ == choice_label(choice_order()[i]),
            forall|i: int|
                0 <= i < r@.len() ==> #[trigger] r@[i].1 == (choice_order()[i] == self.choice),
    {
        let mut v: Vec<(String, bool)> = Vec::new();
        v.push((ApiChoice::SymbolSearch.label(), self.choice == ApiChoice::SymbolSearch));
        v.push((ApiChoice::CompanyProfile.label(), self.choice == ApiChoice::CompanyProfile));
        v.push((ApiChoice::StockSymbol.label(), self.choice == ApiChoice::StockSymbol));
        v.push((ApiChoice::MarketNews.label(), self.choice == ApiChoice::MarketNews));
        v.push((ApiChoice::CompanyNews.label(), self.choice == ApiChoice::CompanyNews));
        v.push((ApiChoice::GetMarket.label(), self.choice == ApiChoice::GetMarket));
        v
    }

    /// The one URL a submit in the current state needs to fetch:
    /// profile mode always fetches, exchange-switch mode fetches only
    /// for a known code, every other mode stays local.
    pub open spec fn spec_submit_request(self) -> Option<Seq<char>> {
        match self.choice {
            ApiChoice::CompanyProfile => Some(
                profile_url_text(self.url@, self.search_string@),
            ),
            ApiChoice::GetMarket => if is_exchange_code_spec(self.search_string@) {
                Some(symbols_url_text(self.url@, self.search_string@))
            } else {
                None
            },
            _ => None,
        }
    }

    /// Names the request a submit needs, if any.
    pub fn submit_request(&self) -> (r: Option<String>)
        ensures
            (r is Some) == (self.spec_submit_request() is Some),
            r matches Some(u) ==> Some(u@) == self.spec_submit_request(),
    {
        match self.choice {
            ApiChoice::CompanyProfile => Some(self.profile_url()),
            ApiChoice::GetMarket => {
                if is_exchange_code(self.search_string.as_str()) {
                    Some(self.stock_symbols_url(self.search_string.as_str()))
                } else {
                    None
                }
            },
            _ => None,
        }
    }

    /// Runs one submit to completion: routes by the active mode,
    /// consumes the reply of the request named by `submit_request`,
    /// and writes the outcome into the last result.  The input buffer
    /// and the mode are never touched, and only a successful exchange
    /// switch touches the active exchange and its cache.
    pub fn submit(&mut self, reply: Option<Reply>)
        requires
            (reply is Some) == (old(self).spec_submit_request() is Some),
        ensures
            submit_transition(*old(self), *final(self), reply),
    {
        match self.choice {
            ApiChoice::SymbolSearch => {
                if self.search_string.as_str().unicode_len() > 0 {
                    let found = search_pairs(&self.companies, self.search_string.as_str());
                    self.current_content = found;
                }
            },
            ApiChoice::CompanyProfile => {
                let rep = reply.unwrap();
                let outcome = match self.company_profile(rep) {
                    Ok(s) => s,
                    Err(e) => e.to_text(),
                };
                self.current_content = outcome;
            },
            ApiChoice::GetMarket => {
                let outcome = self.choose_market(reply);
                self.current_content = outcome;
            },
            _ => {
                self.current_content = String::from_str("Not implemented yet");
            },
        }
    }
}

} // verus!
