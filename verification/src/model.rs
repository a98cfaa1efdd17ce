//! The data model: the `Collection` entity, its embedded `Listing` value
//! object, the two input schemas, and their mathematical views.

use vstd::prelude::*;

verus! {

/// The closed set of amenity labels a collection may carry.
#[derive(Clone, Copy, PartialEq, Eq, Structural, Debug)]
pub enum Amenity {
    Parking,
    Pool,
    Gated,
    Security,
    WheelchairAccessible,
    Elevator,
    Electricity,
    Water,
}

/// The closed set of unit types a listing may have.
#[derive(Clone, Copy, PartialEq, Eq, Structural, Debug)]
pub enum ListingType {
    Single,
    Bedsitter,
    SelfContained,
}

/// One unit type offered inside a collection; an embedded value object
/// with no identity of its own.
#[derive(Debug, PartialEq)]
pub struct Listing {
    pub type_of_listing: ListingType,
    pub price: i32,
    /// By convention 0 for `Single` and `Bedsitter` units.
    pub number_of_bedrooms: i16,
    pub available_units: i32,
    pub images: Vec<String>,
    pub additional_fees: Vec<String>,
}

/// Mathematical view of a `Listing`.
#[verifier::ext_equal]
pub ghost struct ListingModel {
    pub type_of_listing: ListingType,
    pub price: int,
    pub number_of_bedrooms: int,
    pub available_units: int,
    pub images: Seq<Seq<char>>,
    pub additional_fees: Seq<Seq<char>>,
}

impl View for Listing {
    type V = ListingModel;

    open spec fn view(&self) -> ListingModel {
        ListingModel {
            type_of_listing: self.type_of_listing,
            price: self.price as int,
            number_of_bedrooms: self.number_of_bedrooms as int,
            available_units: self.available_units as int,
            images: self.images.deep_view(),
            additional_fees: self.additional_fees.deep_view(),
        }
    }
}

/// View of a sequence of listings, element by element.
pub open spec fn listings_view(s: Seq<Listing>) -> Seq<ListingModel> {
    s.map_values(|l: Listing| l@)
}

/// A persisted property-listing group: one row of the `collections` table.
/// `id` and `created_at` are assigned by the store; `created_at` is a UTC
/// timestamp in seconds.
#[derive(Debug, PartialEq)]
pub struct Collection {
    pub id: i32,
    pub title: String,
    pub display_image_url: String,
    pub description: Option<String>,
    pub location: String,
    pub contact_information: String,
    pub amenities: Vec<Amenity>,
    pub listings: Vec<Listing>,
    pub created_at: i64,
    pub rules: Vec<String>,
}

/// Mathematical view of a `Collection`.
#[verifier::ext_equal]
pub ghost struct CollectionModel {
    pub id: int,
    pub title: Seq<char>,
    pub display_image_url: Seq<char>,
    pub description: Option<Seq<char>>,
    pub location: Seq<char>,
    pub contact_information: Seq<char>,
    pub amenities: Seq<Amenity>,
    pub listings: Seq<ListingModel>,
    pub created_at: int,
    pub rules: Seq<Seq<char>>,
}

impl View for Collection {
    type V = CollectionModel;

    open spec fn view(&self) -> CollectionModel {
        CollectionModel {
            id: self.id as int,
            title: self.title@,
            display_image_url: self.display_image_url@,
            description: self.description.deep_view(),
            location: self.location@,
            contact_information: self.contact_information@,
            amenities: self.amenities@,
            listings: listings_view(self.listings@),
            created_at: self.created_at as int,
            rules: self.rules.deep_view(),
        }
    }
}

/// View of a sequence of collections, element by element.
pub open spec fn rows_view(s: Seq<Collection>) -> Seq<CollectionModel> {
    s.map_values(|c: Collection| c@)
}

/// Input shape for creating a collection: every field required except
/// `description`; `id` and `created_at` are assigned by the store.
pub struct CollectionSchema {
    pub title: String,
    pub description: Option<String>,
    pub display_image_url: String,
    pub location: String,
    pub contact_information: String,
    pub amenities: Vec<Amenity>,
    pub listings: Vec<Listing>,
    pub rules: Vec<String>,
}

/// Mathematical view of a `CollectionSchema`.
#[verifier::ext_equal]
pub ghost struct CollectionSchemaModel {
    pub title: Seq<char>,
    pub description: Option<Seq<char>>,
    pub display_image_url: Seq<char>,
    pub location: Seq<char>,
    pub contact_information: Seq<char>,
    pub amenities: Seq<Amenity>,
    pub listings: Seq<ListingModel>,
    pub rules: Seq<Seq<char>>,
}

impl View for CollectionSchema {
    type V = CollectionSchemaModel;

    open spec fn view(&self) -> CollectionSchemaModel {
        CollectionSchemaModel {
            title: self.title@,
            description: self.description.deep_view(),
            display_image_url: self.display_image_url@,
            location: self.location@,
            contact_information: self.contact_information@,
            amenities: self.amenities@,
            listings: listings_view(self.listings@),
            rules: self.rules.deep_view(),
        }
    }
}

/// Input shape for a partial update: every field optional except
/// `display_image_url`; an absent field keeps the stored value.
pub struct UpdateCollectionSchema {
    pub title: Option<String>,
    pub description: Option<String>,
    pub display_image_url: String,
    pub location: Option<String>,
    pub contact_information: Option<String>,
    pub amenities: Option<Vec<Amenity>>,
    pub listings: Option<Vec<Listing>>,
    pub rules: Option<Vec<String>>,
}

/// Mathematical view of an `UpdateCollectionSchema`.
#[verifier::ext_equal]
pub ghost struct UpdateSchemaModel {
    pub title: Option<Seq<char>>,
    pub description: Option<Seq<char>>,
    pub display_image_url: Seq<char>,
    pub location: Option<Seq<char>>,
    pub contact_information: Option<Seq<char>>,
    pub amenities: Option<Seq<Amenity>>,
    pub listings: Option<Seq<ListingModel>>,
    pub rules: Option<Seq<Seq<char>>>,
}

impl View for UpdateCollectionSchema {
    type V = UpdateSchemaModel;

    open spec fn view(&self) -> UpdateSchemaModel {
        UpdateSchemaModel {
            title: self.title.deep_view(),
            description: self.description.deep_view(),
            display_image_url: self.display_image_url@,
            location: self.location.deep_view(),
            contact_information: self.contact_information.deep_view(),
            amenities: match self.amenities {
                Some(a) => Some(a@),
                None => None,
            },
            listings: match self.listings {
                Some(l) => Some(listings_view(l@)),
                None => None,
            },
            rules: match self.rules {
                Some(r) => Some(r.deep_view()),
                None => None,
            },
        }
    }
}

/// Clones every string of a vector; the result holds the same values.
pub fn clone_string_vec(v: &Vec<String>) -> (r: Vec<String>)
    ensures
        r@ == v@,
{
    let mut r: Vec<String> = Vec::new();
    let n = v.len();
    let mut i: usize = 0;
    while i < n
        invariant
            n == v.len(),
            i <= n,
            r@.len() == i,
            forall|k: int| 0 <= k < i ==> r@[k] == v@[k],
        decreases n - i,
    {
        r.push(v[i].clone());
        i += 1;
    }
    proof {
        assert(r@ =~= v@);
    }
    r
}

/// Copies every amenity of a vector; the result holds the same values.
pub fn clone_amenity_vec(v: &Vec<Amenity>) -> (r: Vec<Amenity>)
    ensures
        r@ == v@,
{
    let mut r: Vec<Amenity> = Vec::new();
    let n = v.len();
    let mut i: usize = 0;
    while i < n
        invariant
            n == v.len(),
            i <= n,
            r@.len() == i,
            forall|k: int| 0 <= k < i ==> r@[k] == v@[k],
        decreases n - i,
    {
        r.push(v[i]);
        i += 1;
    }
    proof {
        assert(r@ =~= v@);
    }
    r
}

/// Clones an optional string; the result views to the same value.
pub fn clone_opt_string(v: &Option<String>) -> (r: Option<String>)
    ensures
        r.deep_view() == v.deep_view(),
{
    match v {
        Some(s) => Some(s.clone()),
        None => None,
    }
}

impl Clone for Listing {
    /// The clone views to the same listing.
    fn clone(&self) -> (r: Self)
        ensures
            r@ == self@,
    {
        let r = Listing {
            type_of_listing: self.type_of_listing,
            price: self.price,
            number_of_bedrooms: self.number_of_bedrooms,
            available_units: self.available_units,
            images: clone_string_vec(&self.images),
            additional_fees: clone_string_vec(&self.additional_fees),
        };
        proof {
            assert(r@ =~= self@);
        }
        r
    }
}

/// Clones every listing of a vector; the result views to the same values.
pub fn clone_listing_vec(v: &Vec<Listing>) -> (r: Vec<Listing>)
    ensures
        listings_view(r@) == listings_view(v@),
{
    let mut r: Vec<Listing> = Vec::new();
    let n = v.len();
    let mut i: usize = 0;
    while i < n
        invariant
            n == v.len(),
            i <= n,
            r@.len() == i,
            forall|k: int| 0 <= k < i ==> #[trigger] r@[k]@ == v@[k]@,
        decreases n - i,
    {
        r.push(v[i].clone());
        i += 1;
    }
    proof {
        assert(listings_view(r@) =~= listings_view(v@));
    }
    r
}

impl Clone for Collection {
    /// The clone views to the same collection.
    fn clone(&self) -> (r: Self)
        ensures
            r@ == self@,
    {
        let r = Collection {
            id: self.id,
            title: self.title.clone(),
            display_image_url: self.display_image_url.clone(),
            description: clone_opt_string(&self.description),
            location: self.location.clone(),
            contact_information: self.contact_information.clone(),
            amenities: clone_amenity_vec(&self.amenities),
            listings: clone_listing_vec(&self.listings),
            created_at: self.created_at,
            rules: clone_string_vec(&self.rules),
        };
        proof {
            assert(r@ =~= self@);
        }
        r
    }
}

} // verus!
