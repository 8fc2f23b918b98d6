//! Names for cats.

use vstd::prelude::*;
use vstd::string::StringExecFns;
use crate::cats::error::Error;
use crate::cats::model::{Breed, CatUnprocessed};
use crate::helpers::{random_choice, string_views};

verus! {

/// The full name of a cat: its pet name, then its temperament and breed.
pub open spec fn full_name_of(pet_name: Seq<char>, temperament: Seq<char>, breed_name: Seq<char>) -> Seq<
    char,
> {
    pet_name + ", the "@ + temperament + " "@ + breed_name
}

/// The temperaments from which a full name may be made: those of the breed,
/// or "Nice" for a breed that has none.
pub open spec fn temperaments_for_name(temperaments: Seq<Seq<char>>) -> Seq<Seq<char>> {
    if temperaments.len() == 0 {
        seq!["Nice"@]
    } else {
        temperaments
    }
}

/// Puts a full name together.
pub fn full_name(pet_name: &str, temperament: &str, breed_name: &str) -> (name: String)
    ensures
        name@ == full_name_of(pet_name@, temperament@, breed_name@),
{
    let mut name = String::from_str(pet_name);
    name.append(", the ");
    name.append(temperament);
    name.append(" ");
    name.append(breed_name);
    name
}

/// A full name for a cat of `breed`, with one of the breed's temperaments
/// picked at random, or "Nice" where the breed has none.
pub fn get_random_full_name(breed: &Breed, pet_name: &str) -> (name: String)
    ensures
        exists|i: int|
            0 <= i < temperaments_for_name(breed@.temperament).len() && name@ == full_name_of(
                pet_name@,
                #[trigger] temperaments_for_name(breed@.temperament)[i],
                breed.name@,
            ),
{
    match random_choice(breed.temperament.as_slice()) {
        Some(temperament) => {
            let ghost i = choose|i: int|
                0 <= i < breed.temperament@.len() && breed.temperament@[i] == *temperament;
            assert(temperaments_for_name(breed@.temperament)[i] == temperament@);
            full_name(pet_name, temperament.as_str(), breed.name.as_str())
        },
        None => {
            assert(temperaments_for_name(breed@.temperament)[0] == "Nice"@);
            full_name(pet_name, "Nice", breed.name.as_str())
        },
    }
}

/// The country codes that the name service knows.
pub open spec fn country_codes() -> Seq<Seq<char>> {
    seq![
        "AU"@,
        "BR"@,
        "CA"@,
        "CH"@,
        "DE"@,
        "DK"@,
        "ES"@,
        "FI"@,
        "FR"@,
        "GB"@,
        "IE"@,
        "IN"@,
        "IR"@,
        "MX"@,
        "NL"@,
        "NO"@,
        "NZ"@,
        "RS"@,
        "TR"@,
        "UA"@,
        "US"@,
    ]
}

/// The country codes that the name service knows.
pub fn known_country_codes() -> (codes: Vec<String>)
    ensures
        string_views(codes@) == country_codes(),
{
    let mut codes: Vec<String> = Vec::new();
    codes.push(String::from_str("AU"));
    codes.push(String::from_str("BR"));
    codes.push(String::from_str("CA"));
    codes.push(String::from_str("CH"));
    codes.push(String::from_str("DE"));
    codes.push(String::from_str("DK"));
    codes.push(String::from_str("ES"));
    codes.push(String::from_str("FI"));
    codes.push(String::from_str("FR"));
    codes.push(String::from_str("GB"));
    codes.push(String::from_str("IE"));
    codes.push(String::from_str("IN"));
    codes.push(String::from_str("IR"));
    codes.push(String::from_str("MX"));
    codes.push(String::from_str("NL"));
    codes.push(String::from_str("NO"));
    codes.push(String::from_str("NZ"));
    codes.push(String::from_str("RS"));
    codes.push(String::from_str("TR"));
    codes.push(String::from_str("UA"));
    codes.push(String::from_str("US"));
    assert(string_views(codes@) =~= country_codes());
    codes
}

/// What `str::to_uppercase` makes of a text.
pub uninterp spec fn uppercased(text: Seq<char>) -> Seq<char>;

/// The text in capital letters.
///
/// Calls `str::to_uppercase` of the standard library.
#[verifier::external_body]
fn to_uppercase(text: &str) -> (upper: String)
    ensures
        upper@ == uppercased(text@),
{
    text.to_uppercase()
}

/// Picks the country to ask a name from, given a country code already in
/// capital letters: that country if the name service knows it, else one of
/// the countries that it knows, picked at random.
pub fn country_for_name(upper: String) -> (country: String)
    ensures
        country_codes().contains(country@),
        country_codes().contains(upper@) ==> country@ == upper@,
{
    let codes = known_country_codes();
    let mut i: usize = 0;
    while i < codes.len()
        invariant
            i <= codes.len(),
            string_views(codes@) == country_codes(),
            forall|j: int| 0 <= j < i ==> country_codes()[j] != upper@,
        decreases codes.len() - i,
    {
        assert(country_codes()[i as int] == codes@[i as int]@);
        if codes[i] == upper {
            return upper;
        }
        i += 1;
    }
    match random_choice(codes.as_slice()) {
        Some(code) => {
            let ghost k = choose|k: int| 0 <= k < codes@.len() && codes@[k] == *code;
            assert(country_codes()[k] == code@);
            code.clone()
        },
        None => upper,
    }
}

/// Picks the country to ask a name from, given the country code of a breed
/// in capital or small letters.
pub fn name_country(country_code: &str) -> (country: String)
    ensures
        country_codes().contains(country@),
        country_codes().contains(uppercased(country_code@)) ==> country@ == uppercased(
            country_code@,
        ),
{
    country_for_name(to_uppercase(country_code))
}

/// The address at which the name service is asked for a person of
/// `country`.
pub open spec fn random_user_url_of(country: Seq<char>) -> Seq<char> {
    "https://randomuser.me/api/?nat="@ + country
}

/// The address at which the name service is asked for a person of
/// `country`.
pub fn random_user_url(country: &str) -> (url: String)
    ensures
        url@ == random_user_url_of(country@),
{
    let mut url = String::from_str("https://randomuser.me/api/?nat=");
    url.append(country);
    url
}

/// The address at which the image service is asked for one cat with its
/// breed.
pub open spec fn random_cat_url_of(api_key: Seq<char>) -> Seq<char> {
    "https://api.thecatapi.com/v1/images/search?api_key="@ + api_key + "&has_breeds=1"@
}

/// The address at which the image service is asked for one cat with its
/// breed.
pub fn random_cat_url(api_key: &str) -> (url: String)
    ensures
        url@ == random_cat_url_of(api_key@),
{
    let mut url = String::from_str("https://api.thecatapi.com/v1/images/search?api_key=");
    url.append(api_key);
    url.append("&has_breeds=1");
    url
}

/// The first name of the answer of the name service. An answer without a
/// person is refused.
pub fn first_name(names: Vec<String>) -> (name: Result<String, Error>)
    ensures
        match name {
            Ok(name) => names@.len() > 0 && name == names@[0],
            Err(error) => names@.len() == 0 && error is NoPeopleFromRandomUserApi,
        },
{
    let mut names = names;
    if names.len() == 0 {
        return Err(Error::NoPeopleFromRandomUserApi);
    }
    Ok(names.swap_remove(0))
}

/// The first cat of the answer of the image service. An answer without a
/// cat is refused.
pub fn first_cat(cats: Vec<CatUnprocessed>) -> (cat: Result<CatUnprocessed, Error>)
    ensures
        match cat {
            Ok(cat) => cats@.len() > 0 && cat == cats@[0],
            Err(error) => cats@.len() == 0 && error is NoCatsFromRandomCatApi,
        },
{
    let mut cats = cats;
    if cats.len() == 0 {
        return Err(Error::NoCatsFromRandomCatApi);
    }
    Ok(cats.swap_remove(0))
}

} // verus!
