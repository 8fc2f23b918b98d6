//! Loadouts as they are sent in, the rule on their texts, and the ids in the
//! address of a request.

use vstd::prelude::*;
use vstd::string::StrSliceExecFns;
use crate::number::{parse_i32, parsed_i32};
use crate::tf2sc::error::Error;
use crate::tf2sc::model::Merc;

verus! {

/// The least number of characters of a loadout's name and of its playstyle.
pub const MIN_TEXT_LENGTH: usize = 3;

/// The fields of a loadout that were found too short.
#[derive(Clone, Copy, Debug, PartialEq, Eq, Structural)]
pub struct ValidationErrors {
    pub name: bool,
    pub playstyle: bool,
}

/// Says whether a text of a loadout is long enough; one that is not sent is.
pub open spec fn long_enough(text: Option<Seq<char>>) -> bool {
    match text {
        Some(text) => text.len() >= MIN_TEXT_LENGTH,
        None => true,
    }
}

/// The verdict on the two texts of a loadout: fine where both are long
/// enough, else the fields that are not.
pub open spec fn validated(name: Option<Seq<char>>, playstyle: Option<Seq<char>>) -> Result<
    (),
    ValidationErrors,
> {
    if long_enough(name) && long_enough(playstyle) {
        Ok(())
    } else {
        Err(ValidationErrors { name: !long_enough(name), playstyle: !long_enough(playstyle) })
    }
}

/// Checks the two texts of a loadout.
fn validate_texts(name: Option<&String>, playstyle: Option<&String>) -> (verdict: Result<
    (),
    ValidationErrors,
>)
    ensures
        verdict == validated(
            match name {
                Some(name) => Some(name@),
                None => None,
            },
            match playstyle {
                Some(playstyle) => Some(playstyle@),
                None => None,
            },
        ),
{
    let name_short = match name {
        Some(name) => name.as_str().unicode_len() < MIN_TEXT_LENGTH,
        None => false,
    };
    let playstyle_short = match playstyle {
        Some(playstyle) => playstyle.as_str().unicode_len() < MIN_TEXT_LENGTH,
        None => false,
    };
    if name_short || playstyle_short {
        Err(ValidationErrors { name: name_short, playstyle: playstyle_short })
    } else {
        Ok(())
    }
}

/// A loadout to be created: a class, one weapon id per slot, a name and a
/// playstyle.
#[derive(Debug, Clone)]
pub struct LoadoutForCreate {
    pub merc: Merc,
    pub primary: i32,
    pub secondary: i32,
    pub melee: i32,
    pub name: String,
    pub playstyle: String,
}

impl LoadoutForCreate {
    /// Accepts the loadout if its name and its playstyle have three
    /// characters or more each, and names the fields that have not.
    pub fn validate(&self) -> (verdict: Result<(), ValidationErrors>)
        ensures
            verdict == validated(Some(self.name@), Some(self.playstyle@)),
    {
        validate_texts(Some(&self.name), Some(&self.playstyle))
    }
}

/// The changes to a loadout: the class, and whatever else is to be replaced.
#[derive(Debug, Clone)]
pub struct LoadoutForUpdate {
    pub merc: Merc,
    pub primary: Option<i32>,
    pub secondary: Option<i32>,
    pub melee: Option<i32>,
    pub name: Option<String>,
    pub playstyle: Option<String>,
}

impl LoadoutForUpdate {
    /// The name that is sent, as a sequence of characters.
    pub open spec fn name_view(&self) -> Option<Seq<char>> {
        match self.name {
            Some(name) => Some(name@),
            None => None,
        }
    }

    /// The playstyle that is sent, as a sequence of characters.
    pub open spec fn playstyle_view(&self) -> Option<Seq<char>> {
        match self.playstyle {
            Some(playstyle) => Some(playstyle@),
            None => None,
        }
    }

    /// Accepts the changes if the name and the playstyle, where they are
    /// sent, have three characters or more each, and names the fields that
    /// have not.
    pub fn validate(&self) -> (verdict: Result<(), ValidationErrors>)
        ensures
            verdict == validated(self.name_view(), self.playstyle_view()),
    {
        validate_texts(self.name.as_ref(), self.playstyle.as_ref())
    }
}

/// What `Uuid::from_str` makes of a text: the 128 bits of the id that it
/// reads, or none where it refuses the text.
pub uninterp spec fn parsed_uuid(text: Seq<char>) -> Option<u128>;

/// Reads a UUID.
///
/// Calls `str::parse::<Uuid>`, which is `Uuid::parse_str` of the uuid crate
/// as sqlx hands it on, and keeps the id that it reads, as the 128 bits that
/// `Uuid::as_u128` gives.
#[verifier::external_body]
fn parse_uuid(text: &str) -> (id: Option<u128>)
    ensures
        id == parsed_uuid(text@),
{
    text.parse::<sqlx::types::Uuid>().ok().map(|id| id.as_u128())
}

/// Reads the weapon id in the address of a request: a whole number in
/// decimal notation that an `i32` can hold. Any other text is refused as an
/// invalid weapon id.
pub fn parse_weapon_id(id: &str) -> (number: Result<i32, Error>)
    ensures
        match parsed_i32(id@) {
            Some(parsed) => number == Ok::<i32, Error>(parsed),
            None => number matches Err(error) && error is InvalidWeaponId,
        },
{
    match parse_i32(id) {
        Some(number) => Ok(number),
        None => Err(Error::InvalidWeaponId),
    }
}

/// The loadout id that was read from the address, or the failure to answer
/// with where none could be read.
pub fn loadout_id_from(parsed: Option<u128>) -> (id: Result<u128, Error>)
    ensures
        match parsed {
            Some(bits) => id == Ok::<u128, Error>(bits),
            None => id matches Err(error) && error is InvalidLoadoutId,
        },
{
    match parsed {
        Some(bits) => Ok(bits),
        None => Err(Error::InvalidLoadoutId),
    }
}

/// Reads the loadout id in the address of a request.
pub fn parse_loadout_id(id: &str) -> (bits: Result<u128, Error>)
    ensures
        match parsed_uuid(id@) {
            Some(parsed) => bits == Ok::<u128, Error>(parsed),
            None => bits matches Err(error) && error is InvalidLoadoutId,
        },
{
    loadout_id_from(parse_uuid(id))
}

} // verus!
