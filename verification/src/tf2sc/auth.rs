//! Who the caller is, and what the caller may touch.

use vstd::prelude::*;
use vstd::string::StrSliceExecFns;
use crate::tf2sc::error::{AuthError, Error};

verus! {

/// A caller who was told apart.
#[derive(Debug, Clone)]
pub struct AuthUser {
    pub user_id: String,
}

/// The token of an `Authorization` header: what follows the word `Bearer`
/// and one space. None for a header that does not start with them.
pub open spec fn token_of(header: Seq<char>) -> Option<Seq<char>> {
    if "Bearer "@.is_prefix_of(header) {
        Some(header.skip(7))
    } else {
        None
    }
}

/// Takes the token out of an `Authorization` header. A header that does not
/// start with `Bearer` and a space is refused as invalid.
pub fn bearer_token(header: &str) -> (token: Result<&str, AuthError>)
    ensures
        match token {
            Ok(token) => token_of(header@) == Some(token@),
            Err(error) => error == AuthError::InvalidHeader && token_of(header@) is None,
        },
{
    let prefix = "Bearer ";
    proof {
        reveal_strlit("Bearer ");
    }
    let len = header.unicode_len();
    if len < 7 {
        return Err(AuthError::InvalidHeader);
    }
    let mut i: usize = 0;
    while i < 7
        invariant
            i <= 7 <= len == header@.len(),
            prefix@ == "Bearer "@,
            prefix@.len() == 7,
            forall|j: int| 0 <= j < i ==> header@[j] == prefix@[j],
        decreases 7 - i,
    {
        if header.get_char(i) != prefix.get_char(i) {
            return Err(AuthError::InvalidHeader);
        }
        i += 1;
    }
    let token = header.substring_char(7, len);
    assert(token@ =~= header@.skip(7));
    Ok(token)
}

/// Lets the owner of a loadout through and refuses everybody else.
pub fn check_ownership(owner_id: &String, user: &AuthUser) -> (checked: Result<(), Error>)
    ensures
        checked is Ok <==> owner_id@ == user.user_id@,
        checked matches Err(error) ==> error is NotOwned,
{
    if *owner_id != user.user_id {
        return Err(Error::NotOwned);
    }
    Ok(())
}

} // verus!
