//! A cat on its way from the image service's answer to the stored record.

use vstd::prelude::*;
use crate::cats::error::Error;
use crate::helpers::{split_and_collect, split_and_trim, string_views};

verus! {

/// A breed, as mathematical values.
pub struct BreedView {
    pub id: Seq<char>,
    pub name: Seq<char>,
    pub temperament: Seq<Seq<char>>,
    pub alt_names: Seq<Seq<char>>,
    pub origin: Seq<char>,
    pub country_code: Seq<char>,
    pub description: Seq<char>,
    pub wikipedia_url: Seq<char>,
}

/// A breed, with its temperaments and alternative names as lists.
#[derive(Debug, Clone)]
pub struct Breed {
    pub id: String,
    pub name: String,
    pub temperament: Vec<String>,
    pub alt_names: Vec<String>,
    pub origin: String,
    pub country_code: String,
    pub description: String,
    pub wikipedia_url: String,
}

impl View for Breed {
    type V = BreedView;

    open spec fn view(&self) -> BreedView {
        BreedView {
            id: self.id@,
            name: self.name@,
            temperament: string_views(self.temperament@),
            alt_names: string_views(self.alt_names@),
            origin: self.origin@,
            country_code: self.country_code@,
            description: self.description@,
            wikipedia_url: self.wikipedia_url@,
        }
    }
}

/// A breed as the image service delivers it: the temperaments and the
/// alternative names are each one text, with commas between the entries.
#[derive(Debug, Clone)]
pub struct BreedUnprocessed {
    pub id: String,
    pub name: String,
    pub temperament: String,
    pub origin: String,
    pub country_code: String,
    pub description: String,
    pub alt_names: String,
    pub wikipedia_url: String,
}

impl BreedUnprocessed {
    /// The breed that this answer describes.
    pub open spec fn processed(&self) -> BreedView {
        BreedView {
            id: self.id@,
            name: self.name@,
            temperament: split_and_trim(self.temperament@, ','),
            alt_names: split_and_trim(self.alt_names@, ','),
            origin: self.origin@,
            country_code: self.country_code@,
            description: self.description@,
            wikipedia_url: self.wikipedia_url@,
        }
    }

    /// Turns the answer into a breed: the two texts are split at their commas
    /// and each entry is trimmed; the other fields are taken as they are.
    pub fn process(&self) -> (breed: Breed)
        ensures
            breed@ == self.processed(),
    {
        Breed {
            id: self.id.clone(),
            name: self.name.clone(),
            temperament: split_and_collect(self.temperament.as_str(), ','),
            alt_names: split_and_collect(self.alt_names.as_str(), ','),
            origin: self.origin.clone(),
            country_code: self.country_code.clone(),
            description: self.description.clone(),
            wikipedia_url: self.wikipedia_url.clone(),
        }
    }
}

/// A cat of which the image and the breed are known, as mathematical values.
pub struct CatHalfProcessedView {
    pub id: Seq<char>,
    pub img_url: Seq<char>,
    pub breed: BreedView,
}

/// A cat of which the image and the breed are known, but neither name nor
/// rarity.
#[derive(Debug, Clone)]
pub struct CatHalfProcessed {
    pub _id: String,
    pub img_url: String,
    pub breed: Breed,
}

impl View for CatHalfProcessed {
    type V = CatHalfProcessedView;

    open spec fn view(&self) -> CatHalfProcessedView {
        CatHalfProcessedView { id: self._id@, img_url: self.img_url@, breed: self.breed@ }
    }
}

/// A cat as the image service delivers it.
#[derive(Debug, Clone)]
pub struct CatUnprocessed {
    pub breeds: Vec<BreedUnprocessed>,
    pub id: String,
    pub url: String,
}

impl CatUnprocessed {
    /// Takes the id, the image and the first breed of the answer. An answer
    /// without a breed is refused.
    pub fn start_processing(&self) -> (cat: Result<CatHalfProcessed, Error>)
        ensures
            self.breeds@.len() == 0 <==> cat is Err,
            cat matches Err(error) ==> error is NoBreedsFromRandomCatApi,
            cat matches Ok(cat) ==> cat@ == (CatHalfProcessedView {
                id: self.id@,
                img_url: self.url@,
                breed: self.breeds@[0].processed(),
            }),
    {
        if self.breeds.len() == 0 {
            return Err(Error::NoBreedsFromRandomCatApi);
        }
        let breed = self.breeds[0].process();
        Ok(CatHalfProcessed { _id: self.id.clone(), img_url: self.url.clone(), breed })
    }
}

/// A stored cat, as mathematical values.
pub struct CatView {
    pub id: Seq<char>,
    pub img_url: Seq<char>,
    pub breed: BreedView,
    pub rarity: Seq<char>,
    pub pet_name: Seq<char>,
    pub full_name: Seq<char>,
    pub created_at: i64,
    pub updated_at: i64,
}

/// A cat as it is read from the store. The two times are in milliseconds
/// since the first of January 1970, UTC.
#[derive(Debug, Clone)]
pub struct Cat {
    pub _id: String,
    pub img_url: String,
    pub breed: Breed,
    pub rarity: String,
    pub pet_name: String,
    pub full_name: String,
    pub created_at: i64,
    pub updated_at: i64,
}

impl View for Cat {
    type V = CatView;

    open spec fn view(&self) -> CatView {
        CatView {
            id: self._id@,
            img_url: self.img_url@,
            breed: self.breed@,
            rarity: self.rarity@,
            pet_name: self.pet_name@,
            full_name: self.full_name@,
            created_at: self.created_at,
            updated_at: self.updated_at,
        }
    }
}

/// A cat as it is written to the store. The two times are in milliseconds
/// since the first of January 1970, UTC.
#[derive(Debug, Clone)]
pub struct CatForCreate {
    pub _id: String,
    pub img_url: String,
    pub breed: Breed,
    pub rarity: String,
    pub pet_name: String,
    pub full_name: String,
    pub created_at: i64,
    pub updated_at: i64,
}

impl View for CatForCreate {
    type V = CatView;

    open spec fn view(&self) -> CatView {
        CatView {
            id: self._id@,
            img_url: self.img_url@,
            breed: self.breed@,
            rarity: self.rarity@,
            pet_name: self.pet_name@,
            full_name: self.full_name@,
            created_at: self.created_at,
            updated_at: self.updated_at,
        }
    }
}

impl vstd::std_specs::convert::FromSpecImpl<Cat> for CatForCreate {
    open spec fn obeys_from_spec() -> bool {
        true
    }

    open spec fn from_spec(cat: Cat) -> CatForCreate {
        CatForCreate {
            _id: cat._id,
            img_url: cat.img_url,
            breed: cat.breed,
            rarity: cat.rarity,
            pet_name: cat.pet_name,
            full_name: cat.full_name,
            created_at: cat.created_at,
            updated_at: cat.updated_at,
        }
    }
}

impl From<Cat> for CatForCreate {
    /// The record to write for a cat that was read: the same, field by field.
    fn from(cat: Cat) -> (record: CatForCreate) {
        CatForCreate {
            _id: cat._id,
            img_url: cat.img_url,
            breed: cat.breed,
            rarity: cat.rarity,
            pet_name: cat.pet_name,
            full_name: cat.full_name,
            created_at: cat.created_at,
            updated_at: cat.updated_at,
        }
    }
}

/// The time of the clock, in milliseconds since the first of January 1970,
/// UTC.
///
/// Calls `DateTime::now` of the bson crate, as mongodb hands it on, and reads
/// the milliseconds with `timestamp_millis`. Nothing is promised of what the
/// clock says.
#[verifier::external_body]
fn now_millis() -> i64 {
    mongodb::bson::DateTime::now().timestamp_millis()
}

impl CatHalfProcessed {
    /// The record of this cat with the given rarity and names, created and
    /// updated at the given times.
    pub open spec fn finalized(
        &self,
        rarity: Seq<char>,
        pet_name: Seq<char>,
        full_name: Seq<char>,
        created_at: i64,
        updated_at: i64,
    ) -> CatView {
        CatView {
            id: self._id@,
            img_url: self.img_url@,
            breed: self.breed@,
            rarity,
            pet_name,
            full_name,
            created_at,
            updated_at,
        }
    }

    /// Completes the cat with its rarity and names, created and updated at
    /// the given times.
    pub fn finalize_processing_at(
        &self,
        rarity: String,
        pet_name: String,
        full_name: String,
        created_at: i64,
        updated_at: i64,
    ) -> (record: CatForCreate)
        ensures
            record@ == self.finalized(rarity@, pet_name@, full_name@, created_at, updated_at),
    {
        let breed = clone_breed(&self.breed);
        CatForCreate {
            _id: self._id.clone(),
            img_url: self.img_url.clone(),
            breed,
            rarity,
            pet_name,
            full_name,
            created_at,
            updated_at,
        }
    }

    /// Completes the cat with its rarity and names. The clock is read twice,
    /// once for the time of creation and once for the time of the last
    /// update.
    pub fn finalize_processing(&self, rarity: String, pet_name: String, full_name: String) -> (record:
        CatForCreate)
        ensures
            record@ == self.finalized(
                rarity@,
                pet_name@,
                full_name@,
                record.created_at,
                record.updated_at,
            ),
    {
        let created_at = now_millis();
        let updated_at = now_millis();
        self.finalize_processing_at(rarity, pet_name, full_name, created_at, updated_at)
    }
}

/// A copy of each of `strings`.
fn clone_strings(strings: &Vec<String>) -> (copies: Vec<String>)
    ensures
        string_views(copies@) == string_views(strings@),
{
    let mut copies: Vec<String> = Vec::new();
    let mut i: usize = 0;
    while i < strings.len()
        invariant
            i <= strings.len(),
            string_views(copies@) == string_views(strings@.take(i as int)),
        decreases strings.len() - i,
    {
        let ghost before = copies@;
        let copy = strings[i].clone();
        copies.push(copy);
        assert(string_views(copies@) =~= string_views(before).push(copy@));
        assert(strings@.take(i + 1) =~= strings@.take(i as int).push(strings@[i as int]));
        assert(string_views(strings@.take(i + 1)) =~= string_views(strings@.take(i as int)).push(
            strings@[i as int]@,
        ));
        i += 1;
    }
    assert(strings@.take(strings.len() as int) =~= strings@);
    copies
}

/// A copy of `breed`.
fn clone_breed(breed: &Breed) -> (copy: Breed)
    ensures
        copy@ == breed@,
{
    Breed {
        id: breed.id.clone(),
        name: breed.name.clone(),
        temperament: clone_strings(&breed.temperament),
        alt_names: clone_strings(&breed.alt_names),
        origin: breed.origin.clone(),
        country_code: breed.country_code.clone(),
        description: breed.description.clone(),
        wikipedia_url: breed.wikipedia_url.clone(),
    }
}

} // verus!
