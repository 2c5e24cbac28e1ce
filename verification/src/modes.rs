//! The operation modes a session can be in, their fixed cyclic order,
//! and the label each one shows in the mode bar.

use vstd::prelude::*;
use vstd::string::*;

verus! {

/// The operation the session performs on submit.  Exactly one is active
/// at any time; the order of the variants is the order the mode bar
/// shows and the order cycling walks through.
#[derive(Debug, Clone, Copy, PartialEq, Eq, Structural)]
pub enum ApiChoice {
    SymbolSearch,
    CompanyProfile,
    StockSymbol,
    MarketNews,
    CompanyNews,
    GetMarket,
}

/// The successor of a mode in the fixed cyclic order.
pub open spec fn next_choice(c: ApiChoice) -> ApiChoice {
    match c {
        ApiChoice::SymbolSearch => ApiChoice::CompanyProfile,
        ApiChoice::CompanyProfile => ApiChoice::StockSymbol,
        ApiChoice::StockSymbol => ApiChoice::MarketNews,
        ApiChoice::MarketNews => ApiChoice::CompanyNews,
        ApiChoice::CompanyNews => ApiChoice::GetMarket,
        ApiChoice::GetMarket => ApiChoice::SymbolSearch,
    }
}

/// All modes, in the order the mode bar shows them.
pub open spec fn choice_order() -> Seq<ApiChoice> {
    seq![
        ApiChoice::SymbolSearch,
        ApiChoice::CompanyProfile,
        ApiChoice::StockSymbol,
        ApiChoice::MarketNews,
        ApiChoice::CompanyNews,
        ApiChoice::GetMarket,
    ]
}

/// Advancing a mode as many times as there are modes returns to the
/// mode it started from: the transition order is one closed cycle.
pub proof fn lemma_cycle_closes(c: ApiChoice)
    ensures
        next_choice(
            next_choice(next_choice(next_choice(next_choice(next_choice(c))))),
        ) == c,
{
}

/// The label a mode shows in the mode bar.
pub open spec fn choice_label(c: ApiChoice) -> Seq<char> {
    match c {
        ApiChoice::SymbolSearch => "Company symbol"@,
        ApiChoice::CompanyProfile => "Company info"@,
        ApiChoice::StockSymbol => "Stock symbol"@,
        ApiChoice::MarketNews => "News"@,
        ApiChoice::CompanyNews => "Company news"@,
        ApiChoice::GetMarket => "Get market"@,
    }
}

impl ApiChoice {
    /// The next mode in the cycle.
    pub fn next(self) -> (r: ApiChoice)
        ensures
            r == next_choice(self),
    {
        match self {
            ApiChoice::SymbolSearch => ApiChoice::CompanyProfile,
            ApiChoice::CompanyProfile => ApiChoice::StockSymbol,
            ApiChoice::StockSymbol => ApiChoice::MarketNews,
            ApiChoice::MarketNews => ApiChoice::CompanyNews,
            ApiChoice::CompanyNews => ApiChoice::GetMarket,
            ApiChoice::GetMarket => ApiChoice::SymbolSearch,
        }
    }

    /// The label shown for this mode.
    pub fn label(&self) -> (r: String)
        ensures
            r@ == choice_label(*self),
    {
        match self {
            ApiChoice::SymbolSearch => String::from_str("Company symbol"),
            ApiChoice::CompanyProfile => String::from_str("Company info"),
            ApiChoice::StockSymbol => String::from_str("Stock symbol"),
            ApiChoice::MarketNews => String::from_str("News"),
            ApiChoice::CompanyNews => String::from_str("Company news"),
            ApiChoice::GetMarket => String::from_str("Get market"),
        }
    }
}

} // verus!
