//! The value records one remote reply deserializes into, and the
//! verified field-by-field readers that build them from the raw (key,
//! value text) pairs the JSON collaborator hands back.
//!
//! The remote numbers (market capitalization, shares outstanding) are
//! held as the raw text of the JSON number: the session never computes
//! with them, it only renders them.

use vstd::prelude::*;
use vstd::string::*;

use crate::json::{
    elements_view, is_number, is_number_text, json_array_elements, json_array_elements_of,
    json_object_entries, json_object_entries_of, json_string_of, json_string_value,
};
use crate::text::{pair_views, str_eq};

verus! {

/// The raw value text of the first entry whose key is `key`.
pub open spec fn lookup_entry(entries: Seq<(Seq<char>, Seq<char>)>, key: Seq<char>) -> Option<
    Seq<char>,
>
    decreases entries.len(),
{
    if entries.len() == 0 {
        None
    } else if entries[0].0 == key {
        Some(entries[0].1)
    } else {
        lookup_entry(entries.drop_first(), key)
    }
}

/// The decoded contents of the field `key`, when it exists and is a
/// JSON string.
pub open spec fn spec_string_field(
    entries: Seq<(Seq<char>, Seq<char>)>,
    key: Seq<char>,
) -> Option<Seq<char>> {
    match lookup_entry(entries, key) {
        Some(raw) => json_string_of(raw),
        None => None,
    }
}

/// The raw text of the field `key`, when it exists and is a JSON
/// number.
pub open spec fn spec_number_field(
    entries: Seq<(Seq<char>, Seq<char>)>,
    key: Seq<char>,
) -> Option<Seq<char>> {
    match lookup_entry(entries, key) {
        Some(raw) => if is_number_text(raw) {
            Some(raw)
        } else {
            None
        },
        None => None,
    }
}

fn find_entry<'a>(entries: &'a Vec<(String, String)>, key: &str) -> (r: Option<&'a String>)
    ensures
        (r is Some) == (lookup_entry(pair_views(entries@), key@) is Some),
        r matches Some(s) ==> Some(s@) == lookup_entry(pair_views(entries@), key@),
{
    let n = entries.len();
    let mut i: usize = 0;
    proof {
        assert(pair_views(entries@).skip(0) =~= pair_views(entries@));
    }
    while i < n
        invariant
            i <= n,
            n == entries@.len(),
            lookup_entry(pair_views(entries@), key@) == lookup_entry(
                pair_views(entries@).skip(i as int),
                key@,
            ),
        decreases n - i,
    {
        proof {
            assert(pair_views(entries@).skip(i as int)[0] == pair_views(entries@)[i as int]);
            assert(pair_views(entries@).skip(i as int).drop_first() =~= pair_views(
                entries@,
            ).skip(i + 1));
        }
        if str_eq(entries[i].0.as_str(), key) {
            return Some(&entries[i].1);
        }
        i = i + 1;
    }
    proof {
        assert(pair_views(entries@).skip(n as int) =~= Seq::<(Seq<char>, Seq<char>)>::empty());
    }
    None
}

fn string_field(entries: &Vec<(String, String)>, key: &str) -> (r: Option<String>)
    ensures
        (r is Some) == (spec_string_field(pair_views(entries@), key@) is Some),
        r matches Some(s) ==> Some(s@) == spec_string_field(pair_views(entries@), key@),
{
    match find_entry(entries, key) {
        Some(raw) => json_string_value(raw.as_str()),
        None => None,
    }
}

fn number_field(entries: &Vec<(String, String)>, key: &str) -> (r: Option<String>)
    ensures
        (r is Some) == (spec_number_field(pair_views(entries@), key@) is Some),
        r matches Some(s) ==> Some(s@) == spec_number_field(pair_views(entries@), key@),
{
    match find_entry(entries, key) {
        Some(raw) => {
            if is_number(raw.as_str()) {
                Some(raw.clone())
            } else {
                None
            }
        },
        None => None,
    }
}

/// The mathematical contents of a company profile record.
pub struct CompanyProfileView {
    pub country: Seq<char>,
    pub currency: Seq<char>,
    pub exchange: Seq<char>,
    pub industry: Seq<char>,
    pub ipo: Seq<char>,
    pub market_capitalization: Seq<char>,
    pub name: Seq<char>,
    pub phone: Seq<char>,
    pub shares_outstanding: Seq<char>,
    pub ticker: Seq<char>,
    pub weburl: Seq<char>,
}

/// One company profile as the remote API describes it.  The two
/// figures are kept as the raw number text of the reply.
pub struct CompanyProfile {
    pub country: String,
    pub currency: String,
    pub exchange: String,
    pub industry: String,
    pub ipo: String,
    pub market_capitalization: String,
    pub name: String,
    pub phone: String,
    pub shares_outstanding: String,
    pub ticker: String,
    pub weburl: String,
}

impl View for CompanyProfile {
    type V = CompanyProfileView;

    open spec fn view(&self) -> CompanyProfileView {
        CompanyProfileView {
            country: self.country@,
            currency: self.currency@,
            exchange: self.exchange@,
            industry: self.industry@,
            ipo: self.ipo@,
            market_capitalization: self.market_capitalization@,
            name: self.name@,
            phone: self.phone@,
            shares_outstanding: self.shares_outstanding@,
            ticker: self.ticker@,
            weburl: self.weburl@,
        }
    }
}

/// The profile that a reply text describes: the reply must be a JSON
/// object, the renamed remote fields must exist, and each must be a
/// string or a number as the record shape fixes.
pub open spec fn spec_parse_profile(s: Seq<char>) -> Option<CompanyProfileView> {
    match json_object_entries_of(s) {
        Some(es) => spec_profile_from_entries(es),
        None => None,
    }
}

/// The profile read from the (key, value text) pairs of a reply.
pub open spec fn spec_profile_from_entries(es: Seq<(Seq<char>, Seq<char>)>) -> Option<
    CompanyProfileView,
> {
    if {
        &&& spec_string_field(es, "country"@) is Some
        &&& spec_string_field(es, "currency"@) is Some
        &&& spec_string_field(es, "exchange"@) is Some
        &&& spec_string_field(es, "finnhubIndustry"@) is Some
        &&& spec_string_field(es, "ipo"@) is Some
        &&& spec_number_field(es, "marketCapitalization"@) is Some
        &&& spec_string_field(es, "name"@) is Some
        &&& spec_string_field(es, "phone"@) is Some
        &&& spec_number_field(es, "shareOutstanding"@) is Some
        &&& spec_string_field(es, "ticker"@) is Some
        &&& spec_string_field(es, "weburl"@) is Some
    } {
        Some(
            CompanyProfileView {
                country: spec_string_field(es, "country"@)->0,
                currency: spec_string_field(es, "currency"@)->0,
                exchange: spec_string_field(es, "exchange"@)->0,
                industry: spec_string_field(es, "finnhubIndustry"@)->0,
                ipo: spec_string_field(es, "ipo"@)->0,
                market_capitalization: spec_number_field(es, "marketCapitalization"@)->0,
                name: spec_string_field(es, "name"@)->0,
                phone: spec_string_field(es, "phone"@)->0,
                shares_outstanding: spec_number_field(es, "shareOutstanding"@)->0,
                ticker: spec_string_field(es, "ticker"@)->0,
                weburl: spec_string_field(es, "weburl"@)->0,
            },
        )
    } else {
        None
    }
}

/// Reads one company profile out of a reply text.
pub fn parse_company_profile(text: &str) -> (r: Option<CompanyProfile>)
    ensures
        (r is Some) == (spec_parse_profile(text@) is Some),
        r matches Some(p) ==> Some(p@) == spec_parse_profile(text@),
{
    let entries = match json_object_entries(text) {
        Some(e) => e,
        None => {
            return None;
        },
    };
    let country = match string_field(&entries, "country") {
        Some(s) => s,
        None => {
            return None;
        },
    };
    let currency = match string_field(&entries, "currency") {
        Some(s) => s,
        None => {
            return None;
        },
    };
    let exchange = match string_field(&entries, "exchange") {
        Some(s) => s,
        None => {
            return None;
        },
    };
    let industry = match string_field(&entries, "finnhubIndustry") {
        Some(s) => s,
        None => {
            return None;
        },
    };
    let ipo = match string_field(&entries, "ipo") {
        Some(s) => s,
        None => {
            return None;
        },
    };
    let market_capitalization = match number_field(&entries, "marketCapitalization") {
        Some(s) => s,
        None => {
            return None;
        },
    };
    let name = match string_field(&entries, "name") {
        Some(s) => s,
        None => {
            return None;
        },
    };
    let phone = match string_field(&entries, "phone") {
        Some(s) => s,
        None => {
            return None;
        },
    };
    let shares_outstanding = match number_field(&entries, "shareOutstanding") {
        Some(s) => s,
        None => {
            return None;
        },
    };
    let ticker = match string_field(&entries, "ticker") {
        Some(s) => s,
        None => {
            return None;
        },
    };
    let weburl = match string_field(&entries, "weburl") {
        Some(s) => s,
        None => {
            return None;
        },
    };
    Some(
        CompanyProfile {
            country,
            currency,
            exchange,
            industry,
            ipo,
            market_capitalization,
            name,
            phone,
            shares_outstanding,
            ticker,
            weburl,
        },
    )
}

/// The mathematical contents of one stock symbol record.
pub struct StockSymbolView {
    pub currency: Seq<char>,
    pub description: Seq<char>,
    pub display_symbol: Seq<char>,
    pub figi: Seq<char>,
    pub mic: Seq<char>,
    pub symbol: Seq<char>,
    pub type_: Seq<char>,
}

/// One listed symbol of an exchange, as the remote API describes it.
pub struct StockSymbol {
    pub currency: String,
    pub description: String,
    pub display_symbol: String,
    pub figi: String,
    pub mic: String,
    pub symbol: String,
    pub type_: String,
}

impl View for StockSymbol {
    type V = StockSymbolView;

    open spec fn view(&self) -> StockSymbolView {
        StockSymbolView {
            currency: self.currency@,
            description: self.description@,
            display_symbol: self.display_symbol@,
            figi: self.figi@,
            mic: self.mic@,
            symbol: self.symbol@,
            type_: self.type_@,
        }
    }
}

/// The contents of a list of stock symbol records.
pub open spec fn symbols_view(v: Seq<StockSymbol>) -> Seq<StockSymbolView> {
    v.map_values(|s: StockSymbol| s@)
}

/// The symbol record read from the (key, value text) pairs of one
/// array element: every remote field must exist and be a string.
pub open spec fn spec_symbol_from_entries(es: Seq<(Seq<char>, Seq<char>)>) -> Option<
    StockSymbolView,
> {
    if {
        &&& spec_string_field(es, "currency"@) is Some
        &&& spec_string_field(es, "description"@) is Some
        &&& spec_string_field(es, "displaySymbol"@) is Some
        &&& spec_string_field(es, "figi"@) is Some
        &&& spec_string_field(es, "mic"@) is Some
        &&& spec_string_field(es, "symbol"@) is Some
        &&& spec_string_field(es, "type"@) is Some
    } {
        Some(
            StockSymbolView {
                currency: spec_string_field(es, "currency"@)->0,
                description: spec_string_field(es, "description"@)->0,
                display_symbol: spec_string_field(es, "displaySymbol"@)->0,
                figi: spec_string_field(es, "figi"@)->0,
                mic: spec_string_field(es, "mic"@)->0,
                symbol: spec_string_field(es, "symbol"@)->0,
                type_: spec_string_field(es, "type"@)->0,
            },
        )
    } else {
        None
    }
}

/// The symbol record that one element text describes.
pub open spec fn spec_parse_symbol(s: Seq<char>) -> Option<StockSymbolView> {
    match json_object_entries_of(s) {
        Some(es) => spec_symbol_from_entries(es),
        None => None,
    }
}

/// The records that a list of element texts describes: all elements
/// must parse, and their order is kept.
pub open spec fn spec_parse_symbol_list(elems: Seq<Seq<char>>) -> Option<Seq<StockSymbolView>>
    decreases elems.len(),
{
    if elems.len() == 0 {
        Some(Seq::empty())
    } else {
        match (spec_parse_symbol(elems[0]), spec_parse_symbol_list(elems.drop_first())) {
            (Some(h), Some(t)) => Some(seq![h] + t),
            _ => None,
        }
    }
}

/// The symbol listing that a reply text describes: a JSON array whose
/// elements all parse as symbol records.
pub open spec fn spec_parse_symbols(s: Seq<char>) -> Option<Seq<StockSymbolView>> {
    match json_array_elements_of(s) {
        Some(elems) => spec_parse_symbol_list(elems),
        None => None,
    }
}

/// Reads one symbol record out of one array element's text.
pub fn parse_stock_symbol(text: &str) -> (r: Option<StockSymbol>)
    ensures
        (r is Some) == (spec_parse_symbol(text@) is Some),
        r matches Some(p) ==> Some(p@) == spec_parse_symbol(text@),
{
    let entries = match json_object_entries(text) {
        Some(e) => e,
        None => {
            return None;
        },
    };
    let currency = match string_field(&entries, "currency") {
        Some(s) => s,
        None => {
            return None;
        },
    };
    let description = match string_field(&entries, "description") {
        Some(s) => s,
        None => {
            return None;
        },
    };
    let display_symbol = match string_field(&entries, "displaySymbol") {
        Some(s) => s,
        None => {
            return None;
        },
    };
    let figi = match string_field(&entries, "figi") {
        Some(s) => s,
        None => {
            return None;
        },
    };
    let mic = match string_field(&entries, "mic") {
        Some(s) => s,
        None => {
            return None;
        },
    };
    let symbol = match string_field(&entries, "symbol") {
        Some(s) => s,
        None => {
            return None;
        },
    };
    let type_ = match string_field(&entries, "type") {
        Some(s) => s,
        None => {
            return None;
        },
    };
    Some(StockSymbol { currency, description, display_symbol, figi, mic, symbol, type_ })
}

/// Reads a whole symbol listing out of a reply text.
pub fn parse_stock_symbols(text: &str) -> (r: Option<Vec<StockSymbol>>)
    ensures
        (r is Some) == (spec_parse_symbols(text@) is Some),
        r matches Some(v) ==> Some(symbols_view(v@)) == spec_parse_symbols(text@),
{
    let elements = match json_array_elements(text) {
        Some(e) => e,
        None => {
            return None;
        },
    };
    let ghost full = elements_view(elements@);
    let n = elements.len();
    let mut out: Vec<StockSymbol> = Vec::new();
    let mut i: usize = 0;
    proof {
        assert(full.skip(0) =~= full);
        if spec_parse_symbol_list(full) is Some {
            let t = spec_parse_symbol_list(full)->0;
            assert(t =~= symbols_view(out@) + t);
        }
    }
    while i < n
        invariant
            i <= n,
            n == elements@.len(),
            full == elements_view(elements@),
            json_array_elements_of(text@) == Some(full),
            (spec_parse_symbol_list(full) is Some) == (spec_parse_symbol_list(
                full.skip(i as int),
            ) is Some),
            spec_parse_symbol_list(full) matches Some(t) ==> t == symbols_view(out@)
                + spec_parse_symbol_list(full.skip(i as int))->0,
        decreases n - i,
    {
        proof {
            assert(full.skip(i as int)[0] == full[i as int]);
            assert(full.skip(i as int).drop_first() =~= full.skip(i + 1));
        }
        let sym = match parse_stock_symbol(elements[i].as_str()) {
            Some(s) => s,
            None => {
                proof {
                    assert(full[i as int] == elements@[i as int]@);
                    assert(spec_parse_symbol_list(full.skip(i as int)) is None);
                }
                return None;
            },
        };
        proof {
            if spec_parse_symbol_list(full) is Some {
                assert(spec_parse_symbol_list(full.skip(i as int))->0 == seq![sym@]
                    + spec_parse_symbol_list(full.skip(i + 1))->0);
                assert(symbols_view(out@.push(sym)) + spec_parse_symbol_list(full.skip(i + 1))->0
                    =~= symbols_view(out@) + spec_parse_symbol_list(full.skip(i as int))->0);
            }
        }
        out.push(sym);
        i = i + 1;
    }
    proof {
        assert(full.skip(n as int) =~= Seq::<Seq<char>>::empty());
        if spec_parse_symbol_list(full) is Some {
            let t = spec_parse_symbol_list(full)->0;
            assert(symbols_view(out@) =~= t);
        }
    }
    Some(out)
}

/// One symbol-lookup match, as the remote API describes it.
pub struct SymbolLookup {
    pub description: String,
    pub display_symbol: String,
    pub symbol: String,
    pub type_: String,
}

/// One item of general market news, as the remote API describes it.
pub struct MarketNews {
    pub category: String,
    pub datetime: i64,
    pub headline: String,
    pub id: i64,
    pub image: String,
    pub related: String,
    pub source: String,
    pub summary: String,
    pub url: String,
}

/// One item of news about a company, as the remote API describes it.
pub struct CompanyNews {
    pub category: String,
    pub datetime: i64,
    pub headline: String,
    pub id: i64,
    pub image: String,
    pub related: String,
    pub source: String,
    pub summary: String,
    pub url: String,
}

/// The fixed multi-line template a profile renders to.
pub open spec fn profile_text(p: CompanyProfileView) -> Seq<char> {
    "\n    Company name: "@ + p.name + "\n    Country: "@ + p.country + "\n    Currency: "@
        + p.currency + "\n    Exchange: "@ + p.exchange + "\n    Industry: "@ + p.industry
        + "\n    Ipo: "@ + p.ipo + "\n    Market capitalization: "@ + p.market_capitalization
        + "\n    Ticker: "@ + p.ticker + "\n    Shares: "@ + p.shares_outstanding
        + "\n    Phone: "@ + p.phone + "\n    Url: "@ + p.weburl + "\n            "@
}

impl CompanyProfile {
    /// Renders the profile into the fixed multi-line template.
    pub fn to_text(&self) -> (r: String)
        ensures
            r@ == profile_text(self@),
    {
        let mut r = String::from_str("\n    Company name: ");
        r.append(self.name.as_str());
        r.append("\n    Country: ");
        r.append(self.country.as_str());
        r.append("\n    Currency: ");
        r.append(self.currency.as_str());
        r.append("\n    Exchange: ");
        r.append(self.exchange.as_str());
        r.append("\n    Industry: ");
        r.append(self.industry.as_str());
        r.append("\n    Ipo: ");
        r.append(self.ipo.as_str());
        r.append("\n    Market capitalization: ");
        r.append(self.market_capitalization.as_str());
        r.append("\n    Ticker: ");
        r.append(self.ticker.as_str());
        r.append("\n    Shares: ");
        r.append(self.shares_outstanding.as_str());
        r.append("\n    Phone: ");
        r.append(self.phone.as_str());
        r.append("\n    Url: ");
        r.append(self.weburl.as_str());
        r.append("\n            ");
        r
    }
}

} // verus!
