//! Label codecs: the bidirectional mapping between the closed enum sets
//! and their wire labels, rejecting unknown labels.

use crate::api::ApiError;
use crate::model::{Amenity, ListingType};
use vstd::prelude::*;
use vstd::string::StringExecFns;

verus! {

/// The wire label of an amenity.
pub open spec fn amenity_label_view(a: Amenity) -> Seq<char> {
    match a {
        Amenity::Parking => "Parking"@,
        Amenity::Pool => "Pool"@,
        Amenity::Gated => "Gated"@,
        Amenity::Security => "Security"@,
        Amenity::WheelchairAccessible => "WheelchairAccessible"@,
        Amenity::Elevator => "Elevator"@,
        Amenity::Electricity => "Electricity"@,
        Amenity::Water => "Water"@,
    }
}

/// Encodes an amenity as its wire label.
pub fn amenity_label(a: &Amenity) -> (r: &'static str)
    ensures
        r@ == amenity_label_view(*a),
{
    match a {
        Amenity::Parking => "Parking",
        Amenity::Pool => "Pool",
        Amenity::Gated => "Gated",
        Amenity::Security => "Security",
        Amenity::WheelchairAccessible => "WheelchairAccessible",
        Amenity::Elevator => "Elevator",
        Amenity::Electricity => "Electricity",
        Amenity::Water => "Water",
    }
}

/// The amenity a wire label stands for, or nothing for an unknown label.
pub open spec fn amenity_of_label(s: Seq<char>) -> Option<Amenity> {
    if s == "Parking"@ {
        Some(Amenity::Parking)
    } else if s == "Pool"@ {
        Some(Amenity::Pool)
    } else if s == "Gated"@ {
        Some(Amenity::Gated)
    } else if s == "Security"@ {
        Some(Amenity::Security)
    } else if s == "WheelchairAccessible"@ {
        Some(Amenity::WheelchairAccessible)
    } else if s == "Elevator"@ {
        Some(Amenity::Elevator)
    } else if s == "Electricity"@ {
        Some(Amenity::Electricity)
    } else if s == "Water"@ {
        Some(Amenity::Water)
    } else {
        None
    }
}

/// Decodes an amenity label; an unknown label is a deserialization error.
pub fn amenity_from_label(s: &str) -> (r: Result<Amenity, ApiError>)
    ensures
        match r {
            Ok(a) => amenity_of_label(s@) == Some(a),
            Err(e) => e == ApiError::Deserialization && amenity_of_label(s@) is None,
        },
{
    let t = String::from_str(s);
    if t == String::from_str("Parking") {
        Ok(Amenity::Parking)
    } else if t == String::from_str("Pool") {
        Ok(Amenity::Pool)
    } else if t == String::from_str("Gated") {
        Ok(Amenity::Gated)
    } else if t == String::from_str("Security") {
        Ok(Amenity::Security)
    } else if t == String::from_str("WheelchairAccessible") {
        Ok(Amenity::WheelchairAccessible)
    } else if t == String::from_str("Elevator") {
        Ok(Amenity::Elevator)
    } else if t == String::from_str("Electricity") {
        Ok(Amenity::Electricity)
    } else if t == String::from_str("Water") {
        Ok(Amenity::Water)
    } else {
        Err(ApiError::Deserialization)
    }
}

/// The wire label of a listing type.
pub open spec fn listing_type_label_view(t: ListingType) -> Seq<char> {
    match t {
        ListingType::Single => "Single"@,
        ListingType::Bedsitter => "Bedsitter"@,
        ListingType::SelfContained => "SelfContained"@,
    }
}

/// Encodes a listing type as its wire label.
pub fn listing_type_label(t: &ListingType) -> (r: &'static str)
    ensures
        r@ == listing_type_label_view(*t),
{
    match t {
        ListingType::Single => "Single",
        ListingType::Bedsitter => "Bedsitter",
        ListingType::SelfContained => "SelfContained",
    }
}

/// The listing type a wire label stands for, or nothing for an unknown
/// label.
pub open spec fn listing_type_of_label(s: Seq<char>) -> Option<ListingType> {
    if s == "Single"@ {
        Some(ListingType::Single)
    } else if s == "Bedsitter"@ {
        Some(ListingType::Bedsitter)
    } else if s == "SelfContained"@ {
        Some(ListingType::SelfContained)
    } else {
        None
    }
}

/// Decodes a listing-type label; an unknown label is a deserialization
/// error.
pub fn listing_type_from_label(s: &str) -> (r: Result<ListingType, ApiError>)
    ensures
        match r {
            Ok(t) => listing_type_of_label(s@) == Some(t),
            Err(e) => e == ApiError::Deserialization && listing_type_of_label(s@) is None,
        },
{
    let t = String::from_str(s);
    if t == String::from_str("Single") {
        Ok(ListingType::Single)
    } else if t == String::from_str("Bedsitter") {
        Ok(ListingType::Bedsitter)
    } else if t == String::from_str("SelfContained") {
        Ok(ListingType::SelfContained)
    } else {
        Err(ApiError::Deserialization)
    }
}

} // verus!
