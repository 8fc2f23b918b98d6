//! What can go wrong while a cat is fetched, and the status that each
//! failure is answered with.

use vstd::prelude::*;

verus! {

/// Why a request for cats failed.
#[derive(Clone, Debug)]
pub enum Error {
    /// The store failed; with the words of the failure.
    CatDbError(String),
    /// A request to one of the outside services failed; with the words of
    /// the failure.
    CatReqwestError(String),
    /// The image service delivered no cat.
    NoCatsFromRandomCatApi,
    /// The image service delivered a cat without a breed.
    NoBreedsFromRandomCatApi,
    /// The name service delivered no person.
    NoPeopleFromRandomUserApi,
    /// An answer of an outside service could not be read; with the words of
    /// the failure.
    JsonParseError(String),
    /// No cat with this id is stored.
    NotFound { id: String },
}

impl Error {
    /// The HTTP status that belongs to the failure: 404 for a cat that is
    /// not stored, 500 for everything else.
    pub open spec fn spec_status_code(&self) -> u16 {
        match self {
            Error::NotFound { .. } => 404,
            _ => 500,
        }
    }

    /// The HTTP status that the failure is answered with.
    #[verifier::when_used_as_spec(spec_status_code)]
    pub fn status_code(&self) -> (status: u16)
        ensures
            status == self.spec_status_code(),
    {
        match self {
            Error::NotFound { .. } => 404,
            _ => 500,
        }
    }
}

} // verus!
