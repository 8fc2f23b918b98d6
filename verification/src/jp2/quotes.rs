//! The id of a quote in the address of a request.

use vstd::prelude::*;
use crate::jp2::error::Error;
use crate::number::{parse_i64, parsed_i64};

verus! {

/// Reads the quote id in the address of a request: a whole number in
/// decimal notation that an `i64` can hold. Any other text is refused as an
/// invalid quote id, and the failure carries the text.
pub fn parse_quote_id(quote_id: String) -> (number: Result<i64, Error>)
    ensures
        match parsed_i64(quote_id@) {
            Some(parsed) => number matches Ok(number) && number == parsed,
            None => number matches Err(Error::InvalidQuoteId { id }) && id@ == quote_id@,
        },
{
    match parse_i64(quote_id.as_str()) {
        Some(number) => Ok(number),
        None => Err(Error::InvalidQuoteId { id: quote_id }),
    }
}

} // verus!
