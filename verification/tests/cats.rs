use weapon_catalog::cats::error::Error;
use weapon_catalog::cats::model::{
    Breed, BreedUnprocessed, Cat, CatForCreate, CatHalfProcessed, CatUnprocessed,
};
use weapon_catalog::cats::names::{
    country_for_name, first_cat, first_name, full_name, get_random_full_name, known_country_codes,
    name_country, random_cat_url, random_user_url,
};

fn bengal() -> BreedUnprocessed {
    BreedUnprocessed {
        id: "beng".to_string(),
        name: "Bengal".to_string(),
        temperament: "Alert, Agile, Energetic, Demanding, Intelligent".to_string(),
        origin: "United States".to_string(),
        country_code: "US".to_string(),
        description: "Bengals are a lot of fun to live with.".to_string(),
        alt_names: "".to_string(),
        wikipedia_url: "https://en.wikipedia.org/wiki/Bengal_(cat)".to_string(),
    }
}

fn breed_with(temperament: &[&str]) -> Breed {
    Breed {
        id: "abys".to_string(),
        name: "Abyssinian".to_string(),
        temperament: temperament.iter().map(|t| t.to_string()).collect(),
        alt_names: vec![],
        origin: "Egypt".to_string(),
        country_code: "EG".to_string(),
        description: "".to_string(),
        wikipedia_url: "".to_string(),
    }
}

#[test]
fn process_splits_the_two_lists() {
    let breed = bengal().process();
    assert_eq!(breed.id, "beng");
    assert_eq!(breed.name, "Bengal");
    assert_eq!(breed.temperament, vec!["Alert", "Agile", "Energetic", "Demanding", "Intelligent"]);
    assert_eq!(breed.alt_names, Vec::<String>::new());
    assert_eq!(breed.origin, "United States");
    assert_eq!(breed.country_code, "US");
    assert_eq!(breed.description, "Bengals are a lot of fun to live with.");
    assert_eq!(breed.wikipedia_url, "https://en.wikipedia.org/wiki/Bengal_(cat)");
}

#[test]
fn process_trims_alternative_names() {
    let mut raw = bengal();
    raw.alt_names = " Leopard cat ,Bengal tiger,  ".to_string();
    let breed = raw.process();
    assert_eq!(breed.alt_names, vec!["Leopard cat", "Bengal tiger", ""]);
}

#[test]
fn start_processing_takes_the_first_breed() {
    let mut second = bengal();
    second.id = "other".to_string();
    let cat = CatUnprocessed {
        breeds: vec![bengal(), second],
        id: "abc123".to_string(),
        url: "https://cdn.example/abc123.jpg".to_string(),
    };
    let half = cat.start_processing().unwrap();
    assert_eq!(half._id, "abc123");
    assert_eq!(half.img_url, "https://cdn.example/abc123.jpg");
    assert_eq!(half.breed.id, "beng");
    assert_eq!(half.breed.temperament.len(), 5);
}

#[test]
fn start_processing_refuses_a_cat_without_breed() {
    let cat = CatUnprocessed { breeds: vec![], id: "abc".to_string(), url: "u".to_string() };
    assert!(matches!(cat.start_processing(), Err(Error::NoBreedsFromRandomCatApi)));
}

fn half_processed() -> CatHalfProcessed {
    CatHalfProcessed {
        _id: "abc123".to_string(),
        img_url: "https://cdn.example/abc123.jpg".to_string(),
        breed: bengal().process(),
    }
}

#[test]
fn finalize_processing_at_fills_every_field() {
    let record = half_processed().finalize_processing_at(
        "RARE".to_string(),
        "Tom".to_string(),
        "Tom, the Agile Bengal".to_string(),
        1_700_000_000_000,
        1_700_000_000_001,
    );
    assert_eq!(record._id, "abc123");
    assert_eq!(record.img_url, "https://cdn.example/abc123.jpg");
    assert_eq!(record.breed.name, "Bengal");
    assert_eq!(record.breed.temperament.len(), 5);
    assert_eq!(record.rarity, "RARE");
    assert_eq!(record.pet_name, "Tom");
    assert_eq!(record.full_name, "Tom, the Agile Bengal");
    assert_eq!(record.created_at, 1_700_000_000_000);
    assert_eq!(record.updated_at, 1_700_000_000_001);
}

#[test]
fn finalize_processing_reads_the_clock() {
    let record = half_processed().finalize_processing(
        "COMMON".to_string(),
        "Tom".to_string(),
        "Tom, the Alert Bengal".to_string(),
    );
    assert_eq!(record._id, "abc123");
    assert_eq!(record.rarity, "COMMON");
    assert_eq!(record.pet_name, "Tom");
    assert_eq!(record.full_name, "Tom, the Alert Bengal");
    assert!(record.created_at > 1_600_000_000_000);
    assert!(record.created_at <= record.updated_at);
    assert!(record.updated_at - record.created_at < 60_000);
}

#[test]
fn cat_for_create_from_cat_copies_every_field() {
    let cat = Cat {
        _id: "abc123".to_string(),
        img_url: "img".to_string(),
        breed: bengal().process(),
        rarity: "MYTHIC".to_string(),
        pet_name: "Tom".to_string(),
        full_name: "Tom, the Alert Bengal".to_string(),
        created_at: 5,
        updated_at: 6,
    };
    let record = CatForCreate::from(cat);
    assert_eq!(record._id, "abc123");
    assert_eq!(record.img_url, "img");
    assert_eq!(record.breed.id, "beng");
    assert_eq!(record.rarity, "MYTHIC");
    assert_eq!(record.pet_name, "Tom");
    assert_eq!(record.full_name, "Tom, the Alert Bengal");
    assert_eq!(record.created_at, 5);
    assert_eq!(record.updated_at, 6);
}

#[test]
fn full_name_has_its_three_parts() {
    assert_eq!(full_name("Tom", "Agile", "Bengal"), "Tom, the Agile Bengal");
    assert_eq!(full_name("", "", ""), ", the  ");
}

#[test]
fn random_full_name_of_a_breed_without_temperament_is_nice() {
    let breed = breed_with(&[]);
    assert_eq!(get_random_full_name(&breed, "Mia"), "Mia, the Nice Abyssinian");
}

#[test]
fn random_full_name_of_a_breed_with_one_temperament() {
    let breed = breed_with(&["Curious"]);
    assert_eq!(get_random_full_name(&breed, "Mia"), "Mia, the Curious Abyssinian");
}

#[test]
fn random_full_name_uses_one_of_the_temperaments() {
    let breed = breed_with(&["Active", "Gentle", "Loyal"]);
    let allowed = [
        "Mia, the Active Abyssinian",
        "Mia, the Gentle Abyssinian",
        "Mia, the Loyal Abyssinian",
    ];
    for _ in 0..100 {
        let name = get_random_full_name(&breed, "Mia");
        assert!(allowed.contains(&name.as_str()), "{}", name);
    }
}

#[test]
fn known_country_codes_are_the_twenty_one() {
    assert_eq!(
        known_country_codes(),
        vec![
            "AU", "BR", "CA", "CH", "DE", "DK", "ES", "FI", "FR", "GB", "IE", "IN", "IR", "MX",
            "NL", "NO", "NZ", "RS", "TR", "UA", "US"
        ]
    );
}

#[test]
fn name_country_keeps_a_known_country() {
    assert_eq!(name_country("US"), "US");
    assert_eq!(name_country("us"), "US");
    assert_eq!(name_country("Fr"), "FR");
    assert_eq!(country_for_name("NZ".to_string()), "NZ");
}

#[test]
fn name_country_replaces_an_unknown_country() {
    let codes = known_country_codes();
    for _ in 0..50 {
        assert!(codes.contains(&name_country("EG")));
        assert!(codes.contains(&name_country("")));
        assert!(codes.contains(&country_for_name("us".to_string())));
    }
}

#[test]
fn service_addresses() {
    assert_eq!(random_user_url("US"), "https://randomuser.me/api/?nat=US");
    assert_eq!(
        random_cat_url("SECRET"),
        "https://api.thecatapi.com/v1/images/search?api_key=SECRET&has_breeds=1"
    );
}

#[test]
fn first_name_of_the_answer() {
    assert_eq!(first_name(vec!["Ann".to_string(), "Bob".to_string()]).unwrap(), "Ann");
    assert!(matches!(first_name(vec![]), Err(Error::NoPeopleFromRandomUserApi)));
}

#[test]
fn first_cat_of_the_answer() {
    let one = CatUnprocessed { breeds: vec![], id: "one".to_string(), url: "1".to_string() };
    let two = CatUnprocessed { breeds: vec![], id: "two".to_string(), url: "2".to_string() };
    assert_eq!(first_cat(vec![one, two]).unwrap().id, "one");
    assert!(matches!(first_cat(vec![]), Err(Error::NoCatsFromRandomCatApi)));
}

#[test]
fn cat_failures_have_their_status() {
    assert_eq!(Error::NotFound { id: "abc".to_string() }.status_code(), 404);
    assert_eq!(Error::CatDbError("connection refused".to_string()).status_code(), 500);
    assert_eq!(Error::CatReqwestError("timed out".to_string()).status_code(), 500);
    assert_eq!(Error::NoCatsFromRandomCatApi.status_code(), 500);
    assert_eq!(Error::NoBreedsFromRandomCatApi.status_code(), 500);
    assert_eq!(Error::NoPeopleFromRandomUserApi.status_code(), 500);
    assert_eq!(Error::JsonParseError("expected value".to_string()).status_code(), 500);
}
