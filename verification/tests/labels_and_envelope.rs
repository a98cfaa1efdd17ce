use to_let_v2::api::{error_status, health_message, not_found_message, status_label, ApiError};
use to_let_v2::labels::{
    amenity_from_label, amenity_label, listing_type_from_label, listing_type_label,
};
use to_let_v2::model::{Amenity, ListingType};

#[test]
fn amenity_labels_have_expected_values() {
    assert_eq!(amenity_label(&Amenity::Parking), "Parking");
    assert_eq!(amenity_label(&Amenity::Pool), "Pool");
    assert_eq!(amenity_label(&Amenity::Gated), "Gated");
    assert_eq!(amenity_label(&Amenity::Security), "Security");
    assert_eq!(
        amenity_label(&Amenity::WheelchairAccessible),
        "WheelchairAccessible"
    );
    assert_eq!(amenity_label(&Amenity::Elevator), "Elevator");
    assert_eq!(amenity_label(&Amenity::Electricity), "Electricity");
    assert_eq!(amenity_label(&Amenity::Water), "Water");
}

#[test]
fn amenity_labels_round_trip() {
    let all = [
        Amenity::Parking,
        Amenity::Pool,
        Amenity::Gated,
        Amenity::Security,
        Amenity::WheelchairAccessible,
        Amenity::Elevator,
        Amenity::Electricity,
        Amenity::Water,
    ];
    for a in all {
        assert_eq!(amenity_from_label(amenity_label(&a)), Ok(a));
    }
}

#[test]
fn unknown_amenity_label_is_a_deserialization_error() {
    assert_eq!(
        amenity_from_label("Jacuzzi").unwrap_err(),
        ApiError::Deserialization
    );
    assert_eq!(
        amenity_from_label("parking").unwrap_err(),
        ApiError::Deserialization
    );
}

#[test]
fn listing_type_labels_have_expected_values() {
    assert_eq!(listing_type_label(&ListingType::Single), "Single");
    assert_eq!(listing_type_label(&ListingType::Bedsitter), "Bedsitter");
    assert_eq!(
        listing_type_label(&ListingType::SelfContained),
        "SelfContained"
    );
}

#[test]
fn listing_type_labels_round_trip() {
    let all = [
        ListingType::Single,
        ListingType::Bedsitter,
        ListingType::SelfContained,
    ];
    for t in all {
        assert_eq!(listing_type_from_label(listing_type_label(&t)), Ok(t));
    }
}

#[test]
fn unknown_listing_type_label_is_a_deserialization_error() {
    assert_eq!(
        listing_type_from_label("Penthouse").unwrap_err(),
        ApiError::Deserialization
    );
}

#[test]
fn not_found_maps_to_404_and_everything_else_to_500() {
    assert_eq!(error_status(&ApiError::NotFound), 404);
    assert_eq!(error_status(&ApiError::Storage), 500);
    assert_eq!(error_status(&ApiError::Deserialization), 500);
}

#[test]
fn envelope_labels_and_messages() {
    assert_eq!(status_label(true), "success");
    assert_eq!(status_label(false), "fail");
    assert_eq!(not_found_message(), "Collection not found");
    assert_eq!(
        health_message(),
        "Build Simple CRUD API with Rust and MongoDB"
    );
}
