use weapon_catalog::jp2::error::Error as Jp2Error;
use weapon_catalog::jp2::paths::extend_path_by_tag;
use weapon_catalog::jp2::quotes::parse_quote_id;
use weapon_catalog::tf2sc::auth::{bearer_token, check_ownership, AuthUser};
use weapon_catalog::tf2sc::controller::{LoadoutParams, MercSlotParams, Sort, SortBy};
use weapon_catalog::tf2sc::error::{AuthError, Error};
use weapon_catalog::tf2sc::loadout::{
    parse_loadout_id, parse_weapon_id, LoadoutForCreate, LoadoutForUpdate, ValidationErrors,
};
use weapon_catalog::tf2sc::model::{ItemSlot, Merc};

#[test]
fn weapon_query_without_filter() {
    let params = MercSlotParams { merc: None, slot: None };
    assert_eq!(params.query(), "SELECT * FROM weapon_details");
}

#[test]
fn weapon_query_by_class() {
    let params = MercSlotParams { merc: Some(Merc::Spy), slot: None };
    assert_eq!(params.query(), "SELECT * FROM weapon_details WHERE merc = $1 OR merc IS NULL");
}

#[test]
fn weapon_query_by_slot() {
    let params = MercSlotParams { merc: None, slot: Some(ItemSlot::Melee) };
    assert_eq!(params.query(), "SELECT * FROM weapon_details WHERE item_slot = $1");
}

#[test]
fn weapon_query_by_class_and_slot() {
    let params = MercSlotParams { merc: Some(Merc::Scout), slot: Some(ItemSlot::Primary) };
    assert_eq!(
        params.query(),
        "SELECT * FROM weapon_details WHERE (merc = $1 OR merc IS NULL) AND item_slot = $2"
    );
}

#[test]
fn loadout_query_defaults_to_latest_update_first() {
    let params = LoadoutParams { sort: None, sort_by: None };
    assert_eq!(params.query(), "SELECT * FROM loadouts ORDER BY updated_at DESC");
}

#[test]
fn loadout_query_in_every_order() {
    let query = |sort, sort_by| LoadoutParams { sort, sort_by }.query();
    assert_eq!(query(Some(Sort::Asc), None), "SELECT * FROM loadouts ORDER BY updated_at ASC");
    assert_eq!(query(Some(Sort::Desc), None), "SELECT * FROM loadouts ORDER BY updated_at DESC");
    assert_eq!(
        query(None, Some(SortBy::Created)),
        "SELECT * FROM loadouts ORDER BY created_at DESC"
    );
    assert_eq!(
        query(Some(Sort::Asc), Some(SortBy::Created)),
        "SELECT * FROM loadouts ORDER BY created_at ASC"
    );
    assert_eq!(
        query(Some(Sort::Desc), Some(SortBy::Updated)),
        "SELECT * FROM loadouts ORDER BY updated_at DESC"
    );
}

#[test]
fn sort_keywords_and_defaults() {
    assert_eq!(Sort::Desc.as_ref(), "DESC");
    assert_eq!(Sort::Asc.as_ref(), "ASC");
    assert_eq!(SortBy::Created.as_ref(), "created_at");
    assert_eq!(SortBy::Updated.as_ref(), "updated_at");
    assert_eq!(Sort::default(), Sort::Desc);
    assert_eq!(SortBy::default(), SortBy::Updated);
}

#[test]
fn bearer_token_follows_the_prefix() {
    assert_eq!(bearer_token("Bearer abc.def.ghi"), Ok("abc.def.ghi"));
    assert_eq!(bearer_token("Bearer "), Ok(""));
    assert_eq!(bearer_token("Bearer  two spaces"), Ok(" two spaces"));
    assert_eq!(bearer_token("Bearer tökén"), Ok("tökén"));
}

#[test]
fn bearer_token_refuses_other_headers() {
    for header in ["", "Bearer", "bearer abc", "Basic abc", "Bearerabc", " Bearer abc", "Bear", "BEARER abc"] {
        assert_eq!(bearer_token(header), Err(AuthError::InvalidHeader), "{:?}", header);
    }
}

#[test]
fn owner_may_touch_the_loadout() {
    let user = AuthUser { user_id: "auth0|123".to_string() };
    assert!(check_ownership(&"auth0|123".to_string(), &user).is_ok());
}

#[test]
fn others_may_not_touch_the_loadout() {
    let user = AuthUser { user_id: "auth0|123".to_string() };
    assert!(matches!(check_ownership(&"auth0|124".to_string(), &user), Err(Error::NotOwned)));
    assert!(matches!(check_ownership(&"".to_string(), &user), Err(Error::NotOwned)));
    assert!(matches!(check_ownership(&"AUTH0|123".to_string(), &user), Err(Error::NotOwned)));
}

fn loadout(name: &str, playstyle: &str) -> LoadoutForCreate {
    LoadoutForCreate {
        merc: Merc::Soldier,
        primary: 18,
        secondary: 199,
        melee: 6,
        name: name.to_string(),
        playstyle: playstyle.to_string(),
    }
}

#[test]
fn loadout_with_long_texts_is_valid() {
    assert_eq!(loadout("Roamer", "aggressive").validate(), Ok(()));
    assert_eq!(loadout("abc", "xyz").validate(), Ok(()));
    assert_eq!(loadout("äöü", "一二三").validate(), Ok(()));
}

#[test]
fn loadout_with_a_short_text_is_refused() {
    assert_eq!(
        loadout("ab", "aggressive").validate(),
        Err(ValidationErrors { name: true, playstyle: false })
    );
    assert_eq!(
        loadout("Roamer", "").validate(),
        Err(ValidationErrors { name: false, playstyle: true })
    );
    assert_eq!(loadout("", "xy").validate(), Err(ValidationErrors { name: true, playstyle: true }));
    assert_eq!(
        loadout("äö", "一二三").validate(),
        Err(ValidationErrors { name: true, playstyle: false })
    );
}

fn update(name: Option<&str>, playstyle: Option<&str>) -> LoadoutForUpdate {
    LoadoutForUpdate {
        merc: Merc::Soldier,
        primary: None,
        secondary: Some(199),
        melee: None,
        name: name.map(|text| text.to_string()),
        playstyle: playstyle.map(|text| text.to_string()),
    }
}

#[test]
fn update_without_texts_is_valid() {
    assert_eq!(update(None, None).validate(), Ok(()));
    assert_eq!(update(Some("abc"), None).validate(), Ok(()));
    assert_eq!(update(None, Some("abc")).validate(), Ok(()));
}

#[test]
fn update_with_a_short_text_is_refused() {
    assert_eq!(
        update(Some("ab"), None).validate(),
        Err(ValidationErrors { name: true, playstyle: false })
    );
    assert_eq!(
        update(None, Some("")).validate(),
        Err(ValidationErrors { name: false, playstyle: true })
    );
    assert_eq!(
        update(Some("a"), Some("b")).validate(),
        Err(ValidationErrors { name: true, playstyle: true })
    );
}

#[test]
fn weapon_id_is_a_number() {
    assert_eq!(parse_weapon_id("190").unwrap(), 190);
    assert_eq!(parse_weapon_id("30758").unwrap(), 30758);
    assert_eq!(parse_weapon_id("-1").unwrap(), -1);
    assert_eq!(parse_weapon_id("+7").unwrap(), 7);
}

#[test]
fn weapon_id_that_is_no_number_is_invalid() {
    for id in ["", "bat", "1.5", " 190", "190 ", "2147483648", "0x10"] {
        assert!(matches!(parse_weapon_id(id), Err(Error::InvalidWeaponId)), "{:?}", id);
    }
}

#[test]
fn loadout_id_is_a_uuid() {
    assert_eq!(
        parse_loadout_id("67e55044-10b1-426f-9247-bb680e5fe0c8").unwrap(),
        0x67e5504410b1426f9247bb680e5fe0c8
    );
    assert_eq!(
        parse_loadout_id("67E5504410B1426F9247BB680E5FE0C8").unwrap(),
        0x67e5504410b1426f9247bb680e5fe0c8
    );
    assert_eq!(parse_loadout_id("00000000-0000-0000-0000-000000000000").unwrap(), 0);
}

#[test]
fn loadout_id_that_is_no_uuid_is_invalid() {
    for id in ["", "190", "67e55044-10b1-426f-9247-bb680e5fe0c", "not-a-uuid", "67e55044-10b1-426f-9247-bb680e5fe0cg"] {
        assert!(matches!(parse_loadout_id(id), Err(Error::InvalidLoadoutId)), "{:?}", id);
    }
}

#[test]
fn quote_id_is_a_number() {
    assert_eq!(parse_quote_id("2137".to_string()).unwrap(), 2137);
    assert_eq!(parse_quote_id("-9223372036854775808".to_string()).unwrap(), i64::MIN);
}

#[test]
fn quote_id_that_is_no_number_is_invalid_and_kept() {
    match parse_quote_id("pope".to_string()) {
        Err(Jp2Error::InvalidQuoteId { id }) => assert_eq!(id, "pope"),
        other => panic!("{:?}", other),
    }
    match parse_quote_id("9223372036854775808".to_string()) {
        Err(Jp2Error::InvalidQuoteId { id }) => assert_eq!(id, "9223372036854775808"),
        other => panic!("{:?}", other),
    }
}

#[test]
fn quote_failures_have_their_status() {
    assert_eq!(Jp2Error::SupabaseJp2Error("pool closed".to_string()).status_code(), 500);
    assert_eq!(Jp2Error::QuoteWithIdNotFound { id: 3 }.status_code(), 404);
    assert_eq!(Jp2Error::InvalidQuoteId { id: "x".to_string() }.status_code(), 400);
}

#[test]
fn weapon_failures_have_their_status() {
    assert_eq!(Error::NeonTf2scError("pool closed".to_string()).status_code(), 500);
    assert_eq!(Error::InvalidWeaponId.status_code(), 400);
    assert_eq!(Error::WeaponNotFound { id: 1 }.status_code(), 404);
    assert_eq!(Error::InvalidLoadoutId.status_code(), 400);
    assert_eq!(Error::LoadoutNotFound { id: 1 }.status_code(), 404);
    assert_eq!(
        Error::ValidationError(ValidationErrors { name: true, playstyle: false }).status_code(),
        400
    );
    assert_eq!(Error::NotOwned.status_code(), 401);
    for reason in [
        AuthError::MissingToken,
        AuthError::MissingHeader,
        AuthError::InvalidHeader,
        AuthError::InvalidToken,
        AuthError::FetchError,
        AuthError::KeyMismatch,
    ] {
        assert_eq!(Error::AuthError(reason).status_code(), 403);
        assert_eq!(reason.status_code(), 401);
    }
}

#[test]
fn path_goes_under_prefix_and_tag() {
    assert_eq!(extend_path_by_tag("", Some("cat"), "/random"), "/cat/random");
    assert_eq!(extend_path_by_tag("/api", Some("cat"), "/random"), "/api/cat/random");
    assert_eq!(extend_path_by_tag("/jp2", Some("quotes"), "/{id}"), "/jp2/quotes/{id}");
}

#[test]
fn root_path_loses_its_slash() {
    assert_eq!(extend_path_by_tag("/jp2", Some("dogs"), "/"), "/jp2/dogs");
    assert_eq!(extend_path_by_tag("/jp2", Some("dogs"), "//"), "/jp2/dogs//");
    assert_eq!(extend_path_by_tag("/jp2", Some("dogs"), ""), "/jp2/dogs");
}

#[test]
fn path_without_tag_goes_under_unknown() {
    assert_eq!(extend_path_by_tag("/jp2", None, "/count"), "/jp2/unknown/count");
    assert_eq!(extend_path_by_tag("", None, "/"), "/unknown");
}
