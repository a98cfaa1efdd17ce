use to_let_v2::api::ApiError;
use to_let_v2::model::{
    Amenity, CollectionSchema, Listing, ListingType, UpdateCollectionSchema,
};
use to_let_v2::store::Table;

fn sunset_flats_schema() -> CollectionSchema {
    CollectionSchema {
        title: "Sunset Flats".to_string(),
        description: None,
        display_image_url: "http://x/img.png".to_string(),
        location: "Nairobi".to_string(),
        contact_information: "+254700000000".to_string(),
        amenities: vec![Amenity::Parking, Amenity::Pool],
        listings: vec![Listing {
            type_of_listing: ListingType::Single,
            price: 15000,
            number_of_bedrooms: 0,
            available_units: 4,
            images: vec![],
            additional_fees: vec![],
        }],
        rules: vec!["No pets".to_string()],
    }
}

fn absent_update(display_image_url: &str) -> UpdateCollectionSchema {
    UpdateCollectionSchema {
        title: None,
        description: None,
        display_image_url: display_image_url.to_string(),
        location: None,
        contact_information: None,
        amenities: None,
        listings: None,
        rules: None,
    }
}

#[test]
fn create_assigns_id_and_echoes_fields() {
    let mut t = Table::new();
    let created = t.create_at(sunset_flats_schema(), 1_700_000_000).unwrap();
    assert_eq!(created.id, 1);
    assert_eq!(created.created_at, 1_700_000_000);
    assert_eq!(created.title, "Sunset Flats");
    assert_eq!(created.display_image_url, "http://x/img.png");
    assert_eq!(created.description, None);
    assert_eq!(created.location, "Nairobi");
    assert_eq!(created.contact_information, "+254700000000");
    assert_eq!(created.amenities, vec![Amenity::Parking, Amenity::Pool]);
    assert_eq!(created.listings.len(), 1);
    assert_eq!(created.listings[0].type_of_listing, ListingType::Single);
    assert_eq!(created.listings[0].price, 15000);
    assert_eq!(created.listings[0].number_of_bedrooms, 0);
    assert_eq!(created.listings[0].available_units, 4);
    assert_eq!(created.rules, vec!["No pets".to_string()]);
}

#[test]
fn create_then_get_round_trip() {
    let mut t = Table::new();
    let created = t.create_at(sunset_flats_schema(), 42).unwrap();
    let fetched = t.get_by_id(created.id).unwrap();
    assert_eq!(fetched, created);
}

#[test]
fn create_assigns_fresh_ids_in_order() {
    let mut t = Table::new();
    let first = t.create_at(sunset_flats_schema(), 1).unwrap();
    let second = t.create_at(sunset_flats_schema(), 2).unwrap();
    assert_eq!(first.id, 1);
    assert_eq!(second.id, 2);
    let all = t.list_all();
    assert_eq!(all.len(), 2);
    assert_eq!(all[0].id, 1);
    assert_eq!(all[1].id, 2);
}

#[test]
fn update_with_all_fields_absent_only_refreshes_created_at() {
    let mut t = Table::new();
    let created = t.create_at(sunset_flats_schema(), 100).unwrap();
    let updated = t
        .update_at(created.id, absent_update("http://x/img.png"), 200)
        .unwrap();
    assert_eq!(updated.created_at, 200);
    assert_eq!(updated.id, created.id);
    assert_eq!(updated.title, created.title);
    assert_eq!(updated.display_image_url, created.display_image_url);
    assert_eq!(updated.description, created.description);
    assert_eq!(updated.location, created.location);
    assert_eq!(updated.contact_information, created.contact_information);
    assert_eq!(updated.amenities, created.amenities);
    assert_eq!(updated.listings, created.listings);
    assert_eq!(updated.rules, created.rules);
    let fetched = t.get_by_id(created.id).unwrap();
    assert_eq!(fetched, updated);
}

#[test]
fn patch_with_only_display_image_url() {
    let mut t = Table::new();
    let created = t.create_at(sunset_flats_schema(), 100).unwrap();
    let updated = t
        .update_at(created.id, absent_update("http://x/new.png"), 300)
        .unwrap();
    assert_eq!(updated.display_image_url, "http://x/new.png");
    assert_eq!(updated.title, created.title);
    assert_eq!(updated.location, created.location);
    assert_eq!(updated.contact_information, created.contact_information);
    assert_eq!(updated.amenities, created.amenities);
    assert_eq!(updated.listings, created.listings);
    assert_eq!(updated.rules, created.rules);
    assert_eq!(updated.created_at, 300);
}

#[test]
fn update_replaces_every_present_field() {
    let mut t = Table::new();
    let created = t.create_at(sunset_flats_schema(), 100).unwrap();
    let schema = UpdateCollectionSchema {
        title: Some("Dawn Flats".to_string()),
        description: Some("refurbished".to_string()),
        display_image_url: "http://x/dawn.png".to_string(),
        location: Some("Mombasa".to_string()),
        contact_information: Some("+254711111111".to_string()),
        amenities: Some(vec![Amenity::Gated]),
        listings: Some(vec![]),
        rules: Some(vec![]),
    };
    let updated = t.update_at(created.id, schema, 400).unwrap();
    assert_eq!(updated.id, created.id);
    assert_eq!(updated.title, "Dawn Flats");
    assert_eq!(updated.description, Some("refurbished".to_string()));
    assert_eq!(updated.display_image_url, "http://x/dawn.png");
    assert_eq!(updated.location, "Mombasa");
    assert_eq!(updated.contact_information, "+254711111111");
    assert_eq!(updated.amenities, vec![Amenity::Gated]);
    assert_eq!(updated.listings, vec![]);
    assert_eq!(updated.rules, Vec::<String>::new());
    assert_eq!(updated.created_at, 400);
}

#[test]
fn update_with_clock_merges_fields() {
    let mut t = Table::new();
    let created = t.create_at(sunset_flats_schema(), 100).unwrap();
    let updated = t.update(created.id, absent_update("http://x/new.png")).unwrap();
    assert_eq!(updated.id, created.id);
    assert_eq!(updated.title, created.title);
    assert_eq!(updated.display_image_url, "http://x/new.png");
    let fetched = t.get_by_id(created.id).unwrap();
    assert_eq!(fetched, updated);
}

#[test]
fn delete_then_get_not_found() {
    let mut t = Table::new();
    let created = t.create_at(sunset_flats_schema(), 1).unwrap();
    assert!(t.delete(created.id).is_ok());
    assert_eq!(t.get_by_id(created.id).unwrap_err(), ApiError::NotFound);
}

#[test]
fn delete_keeps_other_rows_in_order() {
    let mut t = Table::new();
    let a = t.create_at(sunset_flats_schema(), 1).unwrap();
    let b = t.create_at(sunset_flats_schema(), 2).unwrap();
    let c = t.create_at(sunset_flats_schema(), 3).unwrap();
    assert!(t.delete(b.id).is_ok());
    let all = t.list_all();
    assert_eq!(all.len(), 2);
    assert_eq!(all[0].id, a.id);
    assert_eq!(all[1].id, c.id);
}

#[test]
fn missing_id_yields_not_found_never_storage() {
    let mut t = Table::new();
    t.create_at(sunset_flats_schema(), 1).unwrap();
    assert_eq!(t.get_by_id(999).unwrap_err(), ApiError::NotFound);
    assert_eq!(
        t.update_at(999, absent_update("http://x/a.png"), 5).unwrap_err(),
        ApiError::NotFound
    );
    assert_eq!(t.delete(999).unwrap_err(), ApiError::NotFound);
    assert_eq!(t.list_all().len(), 1);
}

#[test]
fn list_all_on_empty_table_is_empty() {
    let t = Table::new();
    assert_eq!(t.list_all().len(), 0);
}

#[test]
fn create_fails_with_storage_error_when_id_space_is_exhausted() {
    let mut t = Table::new_at(i32::MAX);
    let r = t.create_at(sunset_flats_schema(), 1);
    assert_eq!(r.unwrap_err(), ApiError::Storage);
    assert_eq!(t.list_all().len(), 0);
}
