//! Core of an interactive terminal client for a financial-data API.
//!
//! The library owns the session state: the text buffer being typed, the
//! active operation mode, the active exchange and its cached symbol list,
//! and the last rendered result.  It decides, for every user action,
//! whether to search the local symbol index, to issue one outbound
//! request, or to mutate local state, and it reduces every reply to the
//! text that is shown to the user.  The terminal itself and the HTTP
//! transport live outside the library and hand plain strings in and out.

pub mod errors;
pub mod index;
pub mod json;
pub mod modes;
pub mod records;
pub mod session;
pub mod text;

pub use errors::ClientError;
pub use modes::ApiChoice;
pub use records::CompanyNews;
pub use records::CompanyProfile;
pub use records::MarketNews;
pub use records::StockSymbol;
pub use records::SymbolLookup;
pub use session::FinanceClient;
pub use session::Reply;
