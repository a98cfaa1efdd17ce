//! The service laws: proved guarantees that relate the CRUD operations to
//! one another, stated over the spec-level transitions of the store.

use crate::labels::{
    amenity_label_view, amenity_of_label, listing_type_label_view, listing_type_of_label,
};
use crate::model::{Amenity, CollectionModel, CollectionSchemaModel, ListingType, UpdateSchemaModel};
use crate::store::{
    lemma_create_preserves_wf, lemma_delete_preserves_wf, lemma_found_idx,
    lemma_update_preserves_wf, merged, TableModel,
};
use vstd::prelude::*;

verus! {

/// An update schema with every optional field absent.
pub open spec fn all_absent(u: UpdateSchemaModel) -> bool {
    &&& u.title is None
    &&& u.description is None
    &&& u.location is None
    &&& u.contact_information is None
    &&& u.amenities is None
    &&& u.listings is None
    &&& u.rules is None
}

/// Creating a collection and then fetching the returned id yields exactly
/// the created collection, and the table stays well formed.
pub proof fn lemma_create_then_get(t: TableModel, s: CollectionSchemaModel, now: int)
    requires
        t.wf(),
        t.next_id < i32::MAX as int,
    ensures
        ({
            let (t2, c) = t.create_tr(s, now);
            &&& t2.wf()
            &&& t2.lookup(c.id) == Some(c)
        }),
{
    let (t2, c) = t.create_tr(s, now);
    lemma_create_preserves_wf(t, s, now);
    assert(t2.rows[t.rows.len() as int] == c);
    lemma_found_idx(t2, c.id, t.rows.len() as int);
}

/// Updating an existing id with a schema whose optional fields are all
/// absent, and whose required image URL repeats the stored one, leaves
/// every field of the row unchanged except `created_at`, which becomes the
/// update time; fetching the id afterwards yields that refreshed row.
pub proof fn lemma_update_empty_schema(t: TableModel, id: int, u: UpdateSchemaModel, now: int)
    requires
        t.wf(),
        t.contains_id(id),
        all_absent(u),
        u.display_image_url == t.rows[t.idx_of(id)].display_image_url,
    ensures
        ({
            let c = t.rows[t.idx_of(id)];
            let r = t.update_tr(id, u, now);
            &&& r matches Some((t2, c2))
            &&& c2 == (CollectionModel { created_at: now, ..c })
            &&& t2.wf()
            &&& t2.lookup(id) == Some(c2)
        }),
{
    let i = t.idx_of(id);
    assert(0 <= i < t.rows.len() && t.rows[i].id == id);
    let c = t.rows[i];
    assert(merged(c, u, now) =~= (CollectionModel { created_at: now, ..c }));
    lemma_update_preserves_wf(t, id, u, now);
    let t2 = t.update_tr(id, u, now)->Some_0.0;
    assert(t2.rows[i].id == id);
    lemma_found_idx(t2, id, i);
}

/// Deleting an existing id and then fetching it yields nothing: the row,
/// and only that row, is gone.
pub proof fn lemma_delete_then_get(t: TableModel, id: int)
    requires
        t.wf(),
        t.contains_id(id),
    ensures
        ({
            let r = t.delete_tr(id);
            &&& r matches Some(t2)
            &&& t2.wf()
            &&& t2.lookup(id) is None
            &&& t2.rows.len() == t.rows.len() - 1
        }),
{
    lemma_delete_preserves_wf(t, id);
}

/// On an id no row has, lookup, update, and deletion all report not found
/// and touch nothing; none of them is a storage failure.
pub proof fn lemma_missing_id(t: TableModel, id: int, u: UpdateSchemaModel, now: int)
    requires
        t.wf(),
        !t.contains_id(id),
    ensures
        t.lookup(id) is None,
        t.update_tr(id, u, now) is None,
        t.delete_tr(id) is None,
{
}

/// Listing an empty table yields the empty sequence, so the envelope's
/// `results` count is zero.
pub proof fn lemma_list_empty(t: TableModel)
    requires
        t.rows.len() == 0,
    ensures
        t.rows =~= Seq::<CollectionModel>::empty(),
{
}

/// The amenity labels round-trip: decoding the label of an amenity gives
/// back that amenity.
pub proof fn lemma_amenity_label_round_trip(a: Amenity)
    ensures
        amenity_of_label(amenity_label_view(a)) == Some(a),
{
    reveal_strlit("Parking");
    reveal_strlit("Pool");
    reveal_strlit("Gated");
    reveal_strlit("Security");
    reveal_strlit("WheelchairAccessible");
    reveal_strlit("Elevator");
    reveal_strlit("Electricity");
    reveal_strlit("Water");
    assert("Parking"@.len() == 7);
    assert("Pool"@.len() == 4);
    assert("Gated"@.len() == 5);
    assert("Security"@.len() == 8);
    assert("WheelchairAccessible"@.len() == 20);
    assert("Elevator"@.len() == 8);
    assert("Electricity"@.len() == 11);
    assert("Water"@.len() == 5);
    assert("Gated"@[0] == 'G');
    assert("Water"@[0] == 'W');
    assert("Security"@[0] == 'S');
    assert("Elevator"@[0] == 'E');
    match a {
        Amenity::Parking => assert(amenity_of_label("Parking"@) == Some(Amenity::Parking)),
        Amenity::Pool => assert(amenity_of_label("Pool"@) == Some(Amenity::Pool)),
        Amenity::Gated => assert(amenity_of_label("Gated"@) == Some(Amenity::Gated)),
        Amenity::Security => assert(amenity_of_label("Security"@) == Some(Amenity::Security)),
        Amenity::WheelchairAccessible => assert(amenity_of_label("WheelchairAccessible"@) == Some(
            Amenity::WheelchairAccessible,
        )),
        Amenity::Elevator => assert(amenity_of_label("Elevator"@) == Some(Amenity::Elevator)),
        Amenity::Electricity => assert(amenity_of_label("Electricity"@) == Some(
            Amenity::Electricity,
        )),
        Amenity::Water => assert(amenity_of_label("Water"@) == Some(Amenity::Water)),
    }
}

/// The listing-type labels round-trip: decoding the label of a listing
/// type gives back that listing type.
pub proof fn lemma_listing_type_label_round_trip(t: ListingType)
    ensures
        listing_type_of_label(listing_type_label_view(t)) == Some(t),
{
    reveal_strlit("Single");
    reveal_strlit("Bedsitter");
    reveal_strlit("SelfContained");
    assert("Single"@.len() == 6);
    assert("Bedsitter"@.len() == 9);
    assert("SelfContained"@.len() == 13);
}

} // verus!
