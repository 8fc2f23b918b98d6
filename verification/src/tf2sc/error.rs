//! What can go wrong while a request for weapons or loadouts is served, and
//! the status that each failure is answered with.

use vstd::prelude::*;
use crate::tf2sc::loadout::ValidationErrors;

verus! {

/// Why a caller could not be told apart.
#[derive(Clone, Copy, Debug, PartialEq, Eq, Structural)]
pub enum AuthError {
    MissingToken,
    MissingHeader,
    InvalidHeader,
    InvalidToken,
    FetchError,
    KeyMismatch,
}

impl AuthError {
    /// The HTTP status that a refused caller is answered with: 401, whatever
    /// the reason.
    pub fn status_code(&self) -> (status: u16)
        ensures
            status == 401,
    {
        401
    }
}

/// Why a request for weapons or loadouts failed.
#[derive(Clone, Debug)]
#[allow(inconsistent_fields)]
pub enum Error {
    /// The database failed; with the words of the failure.
    NeonTf2scError(String),
    /// The weapon id in the address is no number.
    InvalidWeaponId,
    /// No weapon has this id.
    WeaponNotFound { id: i32 },
    /// The loadout id in the address is no UUID.
    InvalidLoadoutId,
    /// No loadout has this id, given as its 128 bits.
    LoadoutNotFound { id: u128 },
    /// A text of the loadout is too short.
    ValidationError(ValidationErrors),
    /// The caller could not be told apart.
    AuthError(AuthError),
    /// The loadout belongs to somebody else.
    NotOwned,
}

impl Error {
    /// The HTTP status that belongs to the failure: 404 for what is not
    /// found, 400 for what the caller sent wrongly, 500 for the database, 403
    /// for a caller who could not be told apart, 401 for one who does not
    /// own the loadout.
    pub open spec fn spec_status_code(&self) -> u16 {
        match self {
            Error::WeaponNotFound { .. } | Error::LoadoutNotFound { .. } => 404,
            Error::InvalidWeaponId | Error::InvalidLoadoutId | Error::ValidationError(_) => 400,
            Error::NeonTf2scError(_) => 500,
            Error::AuthError(_) => 403,
            Error::NotOwned => 401,
        }
    }

    /// The HTTP status that the failure is answered with.
    #[verifier::when_used_as_spec(spec_status_code)]
    pub fn status_code(&self) -> (status: u16)
        ensures
            status == self.spec_status_code(),
    {
        match self {
            Error::WeaponNotFound { .. } | Error::LoadoutNotFound { .. } => 404,
            Error::InvalidWeaponId | Error::InvalidLoadoutId | Error::ValidationError(_) => 400,
            Error::NeonTf2scError(_) => 500,
            Error::AuthError(_) => 403,
            Error::NotOwned => 401,
        }
    }
}

} // verus!
