//! What can go wrong while quotes and images are served, and the status
//! that each failure is answered with.

use vstd::prelude::*;

verus! {

/// Why a request for quotes or images failed.
#[derive(Clone, Debug)]
#[allow(inconsistent_fields)]
pub enum Error {
    /// The database failed; with the words of the failure.
    SupabaseJp2Error(String),
    /// No quote has this id.
    QuoteWithIdNotFound { id: i64 },
    /// The quote id in the address is no number.
    InvalidQuoteId { id: String },
}

impl Error {
    /// The HTTP status that belongs to the failure: 404 for a quote that is
    /// not there, 400 for an id that is no number, 500 for the database.
    pub open spec fn spec_status_code(&self) -> u16 {
        match self {
            Error::QuoteWithIdNotFound { .. } => 404,
            Error::InvalidQuoteId { .. } => 400,
            Error::SupabaseJp2Error(_) => 500,
        }
    }

    /// The HTTP status that the failure is answered with.
    #[verifier::when_used_as_spec(spec_status_code)]
    pub fn status_code(&self) -> (status: u16)
        ensures
            status == self.spec_status_code(),
    {
        match self {
            Error::QuoteWithIdNotFound { .. } => 404,
            Error::InvalidQuoteId { .. } => 400,
            _ => 500,
        }
    }
}

} // verus!
