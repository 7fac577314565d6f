//! Decoding: from raw quote bytes to the JSON text of the decoded quote.
//!
//! The binary layout of a quote is the parser's business. The decoded quote
//! is carried through as an opaque value and only ever written out as JSON.

use vstd::prelude::*;
use crate::failure::{step_view, text_or_message, Failure, FailureView};

verus! {

/// `dcap_qvl::quote::Quote`, a decoded quote. Nothing here looks inside it.
#[verifier::external_type_specification]
#[verifier::external_body]
pub struct ExQuote(dcap_qvl::quote::Quote);

/// What `dcap_qvl::quote::Quote::parse` makes of `bytes`: the decoded quote,
/// or the parser's message.
pub uninterp spec fn parsed_quote(bytes: Seq<u8>) -> Result<dcap_qvl::quote::Quote, Seq<char>>;

/// What `serde_json::to_string` makes of a decoded quote: one line of JSON,
/// or the encoder's message.
pub uninterp spec fn quote_json(quote: dcap_qvl::quote::Quote) -> Result<Seq<char>, Seq<char>>;

/// Calls `dcap_qvl::quote::Quote::parse`, which reads the bytes and nothing
/// else. Of the result the contract says only that it is the one this
/// function gives for these bytes.
#[verifier::external_body]
pub(crate) fn parse_quote(bytes: &[u8]) -> (r: Result<dcap_qvl::quote::Quote, String>)
    ensures
        parsed_view(r) == parsed_quote(bytes@),
{
    match dcap_qvl::quote::Quote::parse(bytes) {
        Ok(quote) => Ok(quote),
        Err(e) => Err(format!("{:#}", e)),
    }
}

/// Calls `serde_json::to_string` on a decoded quote. Of the result the
/// contract says only that it is the one this function gives for this quote.
#[verifier::external_body]
pub(crate) fn quote_to_json(quote: &dcap_qvl::quote::Quote) -> (r: Result<String, String>)
    ensures
        text_or_message(r) == quote_json(*quote),
{
    match serde_json::to_string(quote) {
        Ok(json) => Ok(json),
        Err(e) => Err(format!("{}", e)),
    }
}

/// The JSON that a parser result is written out as, given what the encoder
/// makes of the decoded quote.
pub open spec fn json_of_parsed(
    parsed: Result<dcap_qvl::quote::Quote, Seq<char>>,
) -> Result<Seq<char>, FailureView> {
    match parsed {
        Err(message) => Err(FailureView::Parse(message)),
        Ok(quote) => match quote_json(quote) {
            Ok(json) => Ok(json),
            Err(message) => Err(FailureView::Serialize(message)),
        },
    }
}

/// The JSON text of the quote in `bytes`, or the failure of the step that
/// did not get there.
pub open spec fn decoded_json(bytes: Seq<u8>) -> Result<Seq<char>, FailureView> {
    json_of_parsed(parsed_quote(bytes))
}

/// A parser result as specifications see it.
pub open spec fn parsed_view(parsed: Result<dcap_qvl::quote::Quote, String>) -> Result<
    dcap_qvl::quote::Quote,
    Seq<char>,
> {
    match parsed {
        Ok(quote) => Ok(quote),
        Err(message) => Err(message@),
    }
}

/// Writes a parser result as one line of JSON. A refusal by the parser
/// gives `Failure::Parse` with the parser's message; a decoded quote that
/// the encoder refuses gives `Failure::Serialize` with the encoder's.
pub fn parsed_to_json(parsed: Result<dcap_qvl::quote::Quote, String>) -> (r: Result<
    String,
    Failure,
>)
    ensures
        step_view(r) == json_of_parsed(parsed_view(parsed)),
{
    match parsed {
        Err(message) => Err(Failure::Parse(message)),
        Ok(quote) => match quote_to_json(&quote) {
            Ok(json) => Ok(json),
            Err(message) => Err(Failure::Serialize(message)),
        },
    }
}

/// Decodes a raw quote and writes the result as one line of JSON. The
/// result depends on the bytes alone.
pub fn decode_quote(bytes: &[u8]) -> (r: Result<String, Failure>)
    ensures
        step_view(r) == decoded_json(bytes@),
{
    parsed_to_json(parse_quote(bytes))
}

} // verus!
