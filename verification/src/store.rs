//! The collection store: a model of the `collections` table with the five
//! service operations — list, get, create, update (merge-on-update), and
//! delete — each with an exact contract, plus the spec-level transition
//! functions the contracts and the service laws are stated over.

use crate::api::ApiError;
use crate::model::{
    rows_view, Collection, CollectionModel, CollectionSchema, CollectionSchemaModel,
    UpdateCollectionSchema, UpdateSchemaModel,
};
use vstd::pervasive::VecAdditionalExecFns;
use vstd::prelude::*;

verus! {

/// Mathematical view of the store: the rows in storage order, and the id
/// the next created row will get.
#[verifier::ext_equal]
pub ghost struct TableModel {
    pub rows: Seq<CollectionModel>,
    pub next_id: int,
}

/// The collection a creation produces: the schema's fields, with the
/// store-assigned id and creation time.
pub open spec fn created(s: CollectionSchemaModel, id: int, now: int) -> CollectionModel {
    CollectionModel {
        id: id,
        title: s.title,
        display_image_url: s.display_image_url,
        description: s.description,
        location: s.location,
        contact_information: s.contact_information,
        amenities: s.amenities,
        listings: s.listings,
        created_at: now,
        rules: s.rules,
    }
}

/// Merge-on-update: every field present in the schema replaces the stored
/// one, every absent field keeps the stored value, `display_image_url` is
/// always replaced, and `created_at` is reset to the update time.
pub open spec fn merged(c: CollectionModel, u: UpdateSchemaModel, now: int) -> CollectionModel {
    CollectionModel {
        id: c.id,
        title: match u.title {
            Some(t) => t,
            None => c.title,
        },
        display_image_url: u.display_image_url,
        description: match u.description {
            Some(d) => Some(d),
            None => c.description,
        },
        location: match u.location {
            Some(l) => l,
            None => c.location,
        },
        contact_information: match u.contact_information {
            Some(ci) => ci,
            None => c.contact_information,
        },
        amenities: match u.amenities {
            Some(a) => a,
            None => c.amenities,
        },
        listings: match u.listings {
            Some(l) => l,
            None => c.listings,
        },
        created_at: now,
        rules: match u.rules {
            Some(r) => r,
            None => c.rules,
        },
    }
}

impl TableModel {
    /// Well-formedness: ids are positive, below `next_id`, and unique.
    pub open spec fn wf(self) -> bool {
        &&& 1 <= self.next_id <= i32::MAX as int
        &&& forall|i: int|
            0 <= i < self.rows.len() ==> 1 <= (#[trigger] self.rows[i]).id < self.next_id
        &&& forall|i: int, j: int|
            #![trigger self.rows[i], self.rows[j]]
            0 <= i < j < self.rows.len() ==> self.rows[i].id != self.rows[j].id
    }

    /// Whether some row has the given id.
    pub open spec fn contains_id(self, id: int) -> bool {
        exists|i: int| 0 <= i < self.rows.len() && (#[trigger] self.rows[i]).id == id
    }

    /// The index of the row with the given id (meaningful only when
    /// `contains_id` holds; with unique ids it is then the one match).
    pub open spec fn idx_of(self, id: int) -> int {
        choose|i: int| 0 <= i < self.rows.len() && (#[trigger] self.rows[i]).id == id
    }

    /// The row with the given id, if any.
    pub open spec fn lookup(self, id: int) -> Option<CollectionModel> {
        if self.contains_id(id) {
            Some(self.rows[self.idx_of(id)])
        } else {
            None
        }
    }

    /// The table after a creation, with the created row.
    pub open spec fn create_tr(self, s: CollectionSchemaModel, now: int) -> (
        TableModel,
        CollectionModel,
    ) {
        let c = created(s, self.next_id, now);
        (TableModel { rows: self.rows.push(c), next_id: self.next_id + 1 }, c)
    }

    /// The table after an update, with the merged row; nothing when no row
    /// has the id.
    pub open spec fn update_tr(self, id: int, u: UpdateSchemaModel, now: int) -> Option<
        (TableModel, CollectionModel),
    > {
        if self.contains_id(id) {
            let i = self.idx_of(id);
            let c = merged(self.rows[i], u, now);
            Some((TableModel { rows: self.rows.update(i, c), next_id: self.next_id }, c))
        } else {
            None
        }
    }

    /// The table after a deletion; nothing when no row has the id.
    pub open spec fn delete_tr(self, id: int) -> Option<TableModel> {
        if self.contains_id(id) {
            Some(
                TableModel {
                    rows: self.rows.remove(self.idx_of(id)),
                    next_id: self.next_id,
                },
            )
        } else {
            None
        }
    }
}

/// A row found at an index is the row `lookup` returns: with unique ids the
/// chosen index is the found one.
pub proof fn lemma_found_idx(t: TableModel, id: int, i: int)
    requires
        t.wf(),
        0 <= i < t.rows.len(),
        t.rows[i].id == id,
    ensures
        t.contains_id(id),
        t.idx_of(id) == i,
        t.lookup(id) == Some(t.rows[i]),
{
    assert(t.contains_id(id));
    let j = t.idx_of(id);
    assert(0 <= j < t.rows.len() && t.rows[j].id == id);
    if i < j {
        assert(t.rows[i].id != t.rows[j].id);
    } else if j < i {
        assert(t.rows[j].id != t.rows[i].id);
    }
}

/// Creation preserves well-formedness: the fresh row takes the fence id
/// and the fence moves up.
pub proof fn lemma_create_preserves_wf(t: TableModel, s: CollectionSchemaModel, now: int)
    requires
        t.wf(),
        t.next_id < i32::MAX as int,
    ensures
        t.create_tr(s, now).0.wf(),
{
    let t2 = t.create_tr(s, now).0;
    assert forall|i: int| 0 <= i < t2.rows.len() implies 1 <= (#[trigger] t2.rows[i]).id
        < t2.next_id by {
        if i < t.rows.len() {
            assert(t2.rows[i] == t.rows[i]);
        }
    }
    assert forall|i: int, j: int|
        #![trigger t2.rows[i], t2.rows[j]]
        0 <= i < j < t2.rows.len() implies t2.rows[i].id != t2.rows[j].id by {
        assert(t2.rows[i] == t.rows[i]);
        if j < t.rows.len() {
            assert(t2.rows[j] == t.rows[j]);
        }
    }
}

/// An update preserves well-formedness: every row keeps its id.
pub proof fn lemma_update_preserves_wf(t: TableModel, id: int, u: UpdateSchemaModel, now: int)
    requires
        t.wf(),
        t.contains_id(id),
    ensures
        t.update_tr(id, u, now) matches Some((t2, c)) && t2.wf(),
{
    let i = t.idx_of(id);
    assert(0 <= i < t.rows.len() && t.rows[i].id == id);
    let t2 = t.update_tr(id, u, now)->Some_0.0;
    assert forall|a: int| 0 <= a < t2.rows.len() implies (#[trigger] t2.rows[a]).id
        == t.rows[a].id by {}
}

/// A deletion preserves well-formedness, and no remaining row carries the
/// deleted id.
pub proof fn lemma_delete_preserves_wf(t: TableModel, id: int)
    requires
        t.wf(),
        t.contains_id(id),
    ensures
        t.delete_tr(id) matches Some(t2) && t2.wf() && !t2.contains_id(id),
{
    let i = t.idx_of(id);
    assert(0 <= i < t.rows.len() && t.rows[i].id == id);
    let t2 = t.delete_tr(id)->Some_0;
    assert forall|a: int| 0 <= a < t2.rows.len() implies 1 <= (#[trigger] t2.rows[a]).id
        < t2.next_id && t2.rows[a].id != id by {
        if a < i {
            assert(t2.rows[a] == t.rows[a]);
            assert(t.rows[a].id != t.rows[i].id);
        } else {
            assert(t2.rows[a] == t.rows[a + 1]);
            assert(t.rows[i].id != t.rows[a + 1].id);
        }
    }
    assert forall|a: int, b: int|
        #![trigger t2.rows[a], t2.rows[b]]
        0 <= a < b < t2.rows.len() implies t2.rows[a].id != t2.rows[b].id by {
        let a0: int = if a < i {
            a
        } else {
            a + 1
        };
        let b0: int = if b < i {
            b
        } else {
            b + 1
        };
        assert(t2.rows[a] == t.rows[a0]);
        assert(t2.rows[b] == t.rows[b0]);
    }
}

/// What `get_by_id` returns: the looked-up row, or a not-found error
/// exactly when no row has the id.
pub open spec fn get_post(t: TableModel, id: int, r: Result<Collection, ApiError>) -> bool {
    match t.lookup(id) {
        Some(c) => r matches Ok(rc) && rc@ == c,
        None => r == Err::<Collection, ApiError>(ApiError::NotFound),
    }
}

/// What `create_at` does: the creation transition and the created row when
/// an id is free, a storage error and no change when the id space is
/// exhausted.
pub open spec fn create_post(
    pre: TableModel,
    post: TableModel,
    s: CollectionSchemaModel,
    now: int,
    r: Result<Collection, ApiError>,
) -> bool {
    if pre.next_id < i32::MAX as int {
        let (t2, c) = pre.create_tr(s, now);
        &&& post == t2
        &&& r matches Ok(rc) && rc@ == c
    } else {
        &&& post == pre
        &&& r == Err::<Collection, ApiError>(ApiError::Storage)
    }
}

/// What `update_at` does: the update transition and the merged row, or a
/// not-found error and no change exactly when no row has the id.
pub open spec fn update_post(
    pre: TableModel,
    post: TableModel,
    id: int,
    u: UpdateSchemaModel,
    now: int,
    r: Result<Collection, ApiError>,
) -> bool {
    match pre.update_tr(id, u, now) {
        Some((t2, c)) => {
            &&& post == t2
            &&& r matches Ok(rc) && rc@ == c
        },
        None => {
            &&& post == pre
            &&& r == Err::<Collection, ApiError>(ApiError::NotFound)
        },
    }
}

/// What `delete` does: the deletion transition, or a not-found error and no
/// change exactly when no row has the id.
pub open spec fn delete_post(
    pre: TableModel,
    post: TableModel,
    id: int,
    r: Result<(), ApiError>,
) -> bool {
    match pre.delete_tr(id) {
        Some(t2) => {
            &&& post == t2
            &&& r is Ok
        },
        None => {
            &&& post == pre
            &&& r == Err::<(), ApiError>(ApiError::NotFound)
        },
    }
}

/// Relies on `chrono::Utc::now` and `chrono::DateTime::timestamp` for the
/// current UTC time in whole seconds; nothing is promised of the value.
#[verifier::external_body]
fn current_timestamp() -> i64 {
    chrono::Utc::now().timestamp()
}

/// Applies the merge-on-update rule to one collection: fields present in
/// the schema win, absent fields keep the stored value, and `created_at`
/// becomes `now`.
pub fn apply_update(current: &Collection, u: UpdateCollectionSchema, now: i64) -> (r: Collection)
    ensures
        r@ == merged(current@, u@, now as int),
{
    let r = Collection {
        id: current.id,
        title: match u.title {
            Some(t) => t,
            None => current.title.clone(),
        },
        display_image_url: u.display_image_url,
        description: match u.description {
            Some(d) => Some(d),
            None => crate::model::clone_opt_string(&current.description),
        },
        location: match u.location {
            Some(l) => l,
            None => current.location.clone(),
        },
        contact_information: match u.contact_information {
            Some(ci) => ci,
            None => current.contact_information.clone(),
        },
        amenities: match u.amenities {
            Some(a) => a,
            None => crate::model::clone_amenity_vec(&current.amenities),
        },
        listings: match u.listings {
            Some(l) => l,
            None => crate::model::clone_listing_vec(&current.listings),
        },
        created_at: now,
        rules: match u.rules {
            Some(rl) => rl,
            None => crate::model::clone_string_vec(&current.rules),
        },
    };
    proof {
        assert(r@ =~= merged(current@, u@, now as int));
    }
    r
}

/// The collection store. Rows keep their storage (insertion) order; ids
/// are assigned from a counter and never reused.
pub struct Table {
    rows: Vec<Collection>,
    next_id: i32,
}

impl View for Table {
    type V = TableModel;

    closed spec fn view(&self) -> TableModel {
        TableModel { rows: rows_view(self.rows@), next_id: self.next_id as int }
    }
}

impl Table {
    /// An empty store; the first created row gets id 1.
    pub fn new() -> (t: Table)
        ensures
            t@.wf(),
            t@.rows.len() == 0,
            t@.next_id == 1,
    {
        let t = Table { rows: Vec::new(), next_id: 1 };
        proof {
            assert(t@.rows =~= Seq::<CollectionModel>::empty());
        }
        t
    }

    /// An empty store that will assign ids from `first_id` on; useful to
    /// resume id assignment where persisted storage left off.
    pub fn new_at(first_id: i32) -> (t: Table)
        requires
            1 <= first_id,
        ensures
            t@.wf(),
            t@.rows.len() == 0,
            t@.next_id == first_id as int,
    {
        let t = Table { rows: Vec::new(), next_id: first_id };
        proof {
            assert(t@.rows =~= Seq::<CollectionModel>::empty());
        }
        t
    }

    /// Every row, in storage order; the envelope's `results` count is the
    /// length of the returned vector.
    pub fn list_all(&self) -> (r: &Vec<Collection>)
        ensures
            rows_view(r@) == self@.rows,
            r@.len() == self@.rows.len(),
    {
        &self.rows
    }

    /// The row with the given id, or a not-found error exactly when no row
    /// has it.
    pub fn get_by_id(&self, id: i32) -> (r: Result<Collection, ApiError>)
        requires
            self@.wf(),
        ensures
            get_post(self@, id as int, r),
    {
        let n = self.rows.len();
        let mut i: usize = 0;
        while i < n
            invariant
                n == self.rows.len(),
                i <= n,
                self@.wf(),
                forall|k: int| 0 <= k < i ==> (#[trigger] self@.rows[k]).id != id as int,
            decreases n - i,
        {
            if self.rows[i].id == id {
                let c = self.rows[i].clone();
                proof {
                    lemma_found_idx(self@, id as int, i as int);
                }
                return Ok(c);
            }
            i += 1;
        }
        Err(ApiError::NotFound)
    }

    /// Inserts the schema as a new row with a fresh id and the given
    /// creation time, and returns the row just inserted; fails with a
    /// storage error, leaving the store unchanged, only when the id space
    /// is exhausted.
    pub fn create_at(&mut self, s: CollectionSchema, now: i64) -> (r: Result<Collection, ApiError>)
        requires
            old(self)@.wf(),
        ensures
            final(self)@.wf(),
            create_post(old(self)@, final(self)@, s@, now as int, r),
    {
        let ghost pre = self@;
        let ghost sv = s@;
        if self.next_id == i32::MAX {
            return Err(ApiError::Storage);
        }
        let c = Collection {
            id: self.next_id,
            title: s.title,
            display_image_url: s.display_image_url,
            description: s.description,
            location: s.location,
            contact_information: s.contact_information,
            amenities: s.amenities,
            listings: s.listings,
            created_at: now,
            rules: s.rules,
        };
        let out = c.clone();
        proof {
            assert(c@ =~= created(sv, pre.next_id, now as int));
        }
        self.rows.push(c);
        self.next_id = self.next_id + 1;
        proof {
            let cm = created(sv, pre.next_id, now as int);
            assert(self@.rows =~= pre.rows.push(cm));
            assert(self@ =~= pre.create_tr(sv, now as int).0);
            lemma_create_preserves_wf(pre, sv, now as int);
        }
        Ok(out)
    }

    /// Looks the row up, then replaces it with the merge of its fields and
    /// the schema's, stamping the given update time; fails with a
    /// not-found error, leaving the store unchanged, exactly when no row
    /// has the id.
    pub fn update_at(&mut self, id: i32, u: UpdateCollectionSchema, now: i64) -> (r: Result<
        Collection,
        ApiError,
    >)
        requires
            old(self)@.wf(),
        ensures
            final(self)@.wf(),
            update_post(old(self)@, final(self)@, id as int, u@, now as int, r),
    {
        let ghost pre = self@;
        let ghost uv = u@;
        let n = self.rows.len();
        let mut i: usize = 0;
        while i < n
            invariant
                n == self.rows.len(),
                i <= n,
                self@ == pre,
                pre == old(self)@,
                uv == u@,
                pre.wf(),
                forall|k: int| 0 <= k < i ==> (#[trigger] pre.rows[k]).id != id as int,
            decreases n - i,
        {
            if self.rows[i].id == id {
                let merged_row = apply_update(&self.rows[i], u, now);
                let stored = merged_row.clone();
                let ghost cm = merged(pre.rows[i as int], uv, now as int);
                proof {
                    lemma_found_idx(pre, id as int, i as int);
                    assert(stored@ == cm);
                }
                self.rows.set(i, stored);
                proof {
                    assert(self@.rows =~= pre.rows.update(i as int, cm));
                    assert(self@ =~= pre.update_tr(id as int, uv, now as int)->Some_0.0);
                    lemma_update_preserves_wf(pre, id as int, uv, now as int);
                }
                return Ok(merged_row);
            }
            i += 1;
        }
        Err(ApiError::NotFound)
    }

    /// Updates with the current clock time: the result is the update
    /// transition stamped with some timestamp, the one the clock gave.
    pub fn update(&mut self, id: i32, u: UpdateCollectionSchema) -> (r: Result<
        Collection,
        ApiError,
    >)
        requires
            old(self)@.wf(),
        ensures
            final(self)@.wf(),
            exists|now: int|
                #[trigger] update_post(old(self)@, final(self)@, id as int, u@, now, r),
    {
        let now = current_timestamp();
        let r = self.update_at(id, u, now);
        proof {
            assert(update_post(old(self)@, self@, id as int, u@, now as int, r));
        }
        r
    }

    /// Looks the row up, then removes it, keeping every other row in
    /// order; fails with a not-found error, leaving the store unchanged,
    /// exactly when no row has the id.
    pub fn delete(&mut self, id: i32) -> (r: Result<(), ApiError>)
        requires
            old(self)@.wf(),
        ensures
            final(self)@.wf(),
            delete_post(old(self)@, final(self)@, id as int, r),
    {
        let ghost pre = self@;
        let n = self.rows.len();
        let mut i: usize = 0;
        while i < n
            invariant
                n == self.rows.len(),
                i <= n,
                self@ == pre,
                pre == old(self)@,
                pre.wf(),
                forall|k: int| 0 <= k < i ==> (#[trigger] pre.rows[k]).id != id as int,
            decreases n - i,
        {
            if self.rows[i].id == id {
                proof {
                    lemma_found_idx(pre, id as int, i as int);
                }
                self.rows.remove(i);
                proof {
                    assert(self@.rows =~= pre.rows.remove(i as int));
                    assert(self@ =~= pre.delete_tr(id as int)->Some_0);
                    lemma_delete_preserves_wf(pre, id as int);
                }
                return Ok(());
            }
            i += 1;
        }
        Err(ApiError::NotFound)
    }
}

} // verus!
