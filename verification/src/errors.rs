//! Everything a submit can fail with, and the exact text each failure
//! renders to.  Every failure is converted to text and shown as the
//! last result; none is surfaced any other way.

use vstd::prelude::*;
use vstd::string::*;

verus! {

/// One failure of a submit.
#[derive(Debug)]
pub enum ClientError {
    /// The request could not be sent or the response could not be
    /// read; the transport layer's description is kept.
    Transport(String),
    /// The response text does not match the expected record shape; the
    /// query and the offending raw text are kept for diagnosis.
    Deserialization { query: String, body: String },
    /// The typed code is not a known exchange.
    NotFound(String),
    /// The mode's request path is not implemented.
    Unimplemented,
}

/// The text a deserialization failure renders to.  The client has one
/// such message, and it names the profile record whichever record
/// shape was expected.
pub open spec fn deserialization_text(query: Seq<char>, body: Seq<char>) -> Seq<char> {
    "Couldn't deserialize "@ + query + " into CompanyProfile struct.\nText from Finnhub: '"@
        + body + "'"@
}

/// The text an unknown exchange code renders to; a failed listing
/// request renders to the same text.
pub open spec fn no_market_text(code: Seq<char>) -> Seq<char> {
    "No market called "@ + code + " exists"@
}

/// The text a successful exchange switch renders to.
pub open spec fn market_success_text(code: Seq<char>) -> Seq<char> {
    "Successfully got company info from market "@ + code
}

/// The text the not-implemented news paths render to.
pub open spec fn unimplemented_text() -> Seq<char> {
    "Not implemented yet"@
}

/// The text a failure renders to.
pub open spec fn error_text(e: ClientError) -> Seq<char> {
    match e {
        ClientError::Transport(m) => m@,
        ClientError::Deserialization { query, body } => deserialization_text(query@, body@),
        ClientError::NotFound(code) => no_market_text(code@),
        ClientError::Unimplemented => unimplemented_text(),
    }
}

impl ClientError {
    /// Renders the failure to the text shown to the user.
    pub fn to_text(&self) -> (r: String)
        ensures
            r@ == error_text(*self),
    {
        match self {
            ClientError::Transport(m) => m.clone(),
            ClientError::Deserialization { query, body } => {
                let mut r = String::from_str("Couldn't deserialize ");
                r.append(query.as_str());
                r.append(" into CompanyProfile struct.\nText from Finnhub: '");
                r.append(body.as_str());
                r.append("'");
                r
            },
            ClientError::NotFound(code) => no_market_message(code.as_str()),
            ClientError::Unimplemented => String::from_str("Not implemented yet"),
        }
    }
}

/// Builds the unknown-exchange text.
pub fn no_market_message(code: &str) -> (r: String)
    ensures
        r@ == no_market_text(code@),
{
    let mut r = String::from_str("No market called ");
    r.append(code);
    r.append(" exists");
    r
}

/// Builds the successful-switch text.
pub fn market_success_message(code: &str) -> (r: String)
    ensures
        r@ == market_success_text(code@),
{
    let mut r = String::from_str("Successfully got company info from market ");
    r.append(code);
    r
}

} // verus!
