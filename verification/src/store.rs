//! A verified model of the `artists` table: rows keyed by a unique,
//! server-assigned, immutable id, with the five operations of the service
//! (`list`, `retrieve`, `create`, `update`, `destroy`) and the
//! affected-row-count classification a delete needs.

use vstd::prelude::*;

use crate::ApiError;
use crate::models::{merged, Artist, ArtistView, NewArtist, UpdatedArtist};

verus! {

/// The views of a sequence of stored rows.
pub open spec fn views_of(rows: Seq<Artist>) -> Seq<ArtistView> {
    rows.map(|i: int, a: Artist| a@)
}

/// No two rows carry the same id.
pub open spec fn ids_unique(rows: Seq<ArtistView>) -> bool {
    forall|i: int, j: int| 0 <= i < j < rows.len() ==> rows[i].id != rows[j].id
}

/// Well-formedness of the table: ids are unique and positive, every id is
/// below the next id to hand out, and that next id fits the id column.
pub open spec fn wf_state(rows: Seq<ArtistView>, next_id: int) -> bool {
    &&& 1 <= next_id <= i32::MAX as int
    &&& forall|i: int| 0 <= i < rows.len() ==> 1 <= (#[trigger] rows[i]).id < next_id
    &&& ids_unique(rows)
}

/// The first row carrying the given id, scanning front to back; `None`
/// when no row does. With unique ids this is the row with that id.
pub open spec fn lookup(rows: Seq<ArtistView>, id: int) -> Option<ArtistView>
    decreases rows.len(),
{
    if rows.len() == 0 {
        None
    } else if rows[0].id == id {
        Some(rows[0])
    } else {
        lookup(rows.skip(1), id)
    }
}

/// When ids are unique and row `i` carries the id, the lookup of that id
/// finds exactly row `i`.
pub proof fn lemma_lookup_found(rows: Seq<ArtistView>, id: int, i: int)
    requires
        ids_unique(rows),
        0 <= i < rows.len(),
        rows[i].id == id,
    ensures
        lookup(rows, id) == Some(rows[i]),
    decreases rows.len(),
{
    if i == 0 {
    } else {
        assert(rows[0].id != id);
        assert(rows.skip(1) =~= rows.subrange(1, rows.len() as int));
        assert(forall|j: int, k: int|
            0 <= j < k < rows.skip(1).len() ==> rows.skip(1)[j].id != rows.skip(1)[k].id);
        lemma_lookup_found(rows.skip(1), id, i - 1);
        assert(rows.skip(1)[i - 1] == rows[i]);
    }
}

/// When no row carries the id, the lookup of that id finds nothing.
pub proof fn lemma_lookup_absent(rows: Seq<ArtistView>, id: int)
    requires
        forall|j: int| 0 <= j < rows.len() ==> (#[trigger] rows[j]).id != id,
    ensures
        lookup(rows, id) is None,
    decreases rows.len(),
{
    if rows.len() > 0 {
        assert(forall|j: int|
            0 <= j < rows.skip(1).len() ==> (#[trigger] rows.skip(1)[j]).id != id);
        lemma_lookup_absent(rows.skip(1), id);
    }
}

/// The artists table: the persisted rows plus the next id to assign.
pub struct ArtistTable {
    rows: Vec<Artist>,
    next_id: i32,
}

impl View for ArtistTable {
    type V = Seq<ArtistView>;

    closed spec fn view(&self) -> Seq<ArtistView> {
        views_of(self.rows@)
    }
}

impl ArtistTable {
    /// The id the next successful `create` will assign.
    pub closed spec fn next_id(&self) -> int {
        self.next_id as int
    }

    /// Table invariant: established by `new` and preserved by every
    /// operation.
    pub open spec fn wf(&self) -> bool {
        wf_state(self@, self.next_id())
    }

    /// An empty table; ids are then assigned serially from 1.
    pub fn new() -> (t: ArtistTable)
        ensures
            t.wf(),
            t@ == Seq::<ArtistView>::empty(),
            t.next_id() == 1,
    {
        let t = ArtistTable { rows: Vec::new(), next_id: 1 };
        proof {
            assert(views_of(t.rows@) =~= Seq::<ArtistView>::empty());
        }
        t
    }

    /// The index of the row carrying the given id, if any.
    fn find_index(&self, id: i32) -> (r: Option<usize>)
        ensures
            match r {
                Some(i) => i < self@.len() && self@[i as int].id == id as int,
                None => forall|j: int|
                    0 <= j < self@.len() ==> (#[trigger] self@[j]).id != id as int,
            },
    {
        let n = self.rows.len();
        let mut i: usize = 0;
        while i < n
            invariant
                n == self.rows@.len(),
                i <= n,
                forall|j: int| 0 <= j < i as int ==> (#[trigger] self@[j]).id != id as int,
            decreases n - i,
        {
            if self.rows[i].id == id {
                return Some(i);
            }
            i += 1;
        }
        None
    }

    /// All rows, in storage order.
    pub fn list(&self) -> (r: Vec<Artist>)
        ensures
            views_of(r@) == self@,
    {
        let n = self.rows.len();
        let mut out: Vec<Artist> = Vec::new();
        let mut i: usize = 0;
        while i < n
            invariant
                n == self.rows@.len(),
                i <= n,
                out@.len() == i as int,
                forall|j: int| 0 <= j < i as int ==> (#[trigger] out@[j])@ == self@[j],
            decreases n - i,
        {
            out.push(self.rows[i].clone());
            i += 1;
        }
        proof {
            assert(views_of(out@) =~= views_of(self.rows@));
        }
        out
    }

    /// The row with the given id, or a not-found error whose `details`
    /// text names the lookup failure.
    pub fn retrieve(&self, id: i32) -> (r: Result<Artist, ApiError>)
        requires
            self.wf(),
        ensures
            match r {
                Ok(a) => lookup(self@, id as int) == Some(a@),
                Err(e) => {
                    &&& lookup(self@, id as int) is None
                    &&& e.details@ == "Record not found"@
                    &&& e.details@.len() > 0
                },
            },
    {
        match self.find_index(id) {
            Some(i) => {
                proof {
                    lemma_lookup_found(self@, id as int, i as int);
                }
                Ok(self.rows[i].clone())
            },
            None => {
                proof {
                    lemma_lookup_absent(self@, id as int);
                    reveal_strlit("Record not found");
                }
                Err(ApiError { details: "Record not found".to_owned() })
            },
        }
    }

    /// Insert a new row with the given fields, assigning the next id; the
    /// new row is appended and returned in full. Fails only when the id
    /// space is exhausted, and the table is then unchanged. The created
    /// resource lives under the path formed from the returned id, which a
    /// front end should name in a `Location` header.
    pub fn create(&mut self, artist: NewArtist) -> (r: Result<Artist, ApiError>)
        requires
            old(self).wf(),
        ensures
            final(self).wf(),
            (r is Ok) <==> old(self).next_id() < i32::MAX as int,
            match r {
                Ok(a) => {
                    &&& a@ == (ArtistView {
                        id: old(self).next_id(),
                        name: artist@.name,
                        description: artist@.description,
                    })
                    &&& final(self)@ == old(self)@.push(a@)
                    &&& final(self).next_id() == old(self).next_id() + 1
                },
                Err(e) => {
                    &&& final(self)@ == old(self)@
                    &&& final(self).next_id() == old(self).next_id()
                    &&& e.details@.len() > 0
                },
            },
    {
        if self.next_id == i32::MAX {
            proof {
                reveal_strlit("Id space exhausted");
            }
            return Err(ApiError { details: "Id space exhausted".to_owned() });
        }
        let a = Artist { id: self.next_id, name: artist.name, description: artist.description };
        let stored = a.clone();
        self.rows.push(a);
        self.next_id = self.next_id + 1;
        proof {
            assert(views_of(self.rows@) =~= views_of(old(self).rows@).push(stored@));
        }
        Ok(stored)
    }

    /// Apply a partial update to the row with the given id: fields present
    /// in the patch overwrite the stored ones, absent fields and the id
    /// are kept, and every other row is untouched. The merged row is
    /// returned; not-found when no row carries the id, with the table
    /// unchanged.
    pub fn update(&mut self, id: i32, artist: UpdatedArtist) -> (r: Result<Artist, ApiError>)
        requires
            old(self).wf(),
        ensures
            final(self).wf(),
            final(self).next_id() == old(self).next_id(),
            final(self)@.len() == old(self)@.len(),
            forall|j: int|
                0 <= j < old(self)@.len() && (#[trigger] old(self)@[j]).id != id as int
                    ==> final(self)@[j] == old(self)@[j],
            forall|j: int|
                0 <= j < old(self)@.len() && (#[trigger] old(self)@[j]).id == id as int
                    ==> final(self)@[j] == merged(old(self)@[j], artist@),
            (r is Ok) <==> lookup(old(self)@, id as int) is Some,
            match r {
                Ok(a) => lookup(old(self)@, id as int) matches Some(row) && a@ == merged(
                    row,
                    artist@,
                ),
                Err(e) => {
                    &&& final(self)@ == old(self)@
                    &&& e.details@ == "Record not found"@
                    &&& e.details@.len() > 0
                },
            },
    {
        match self.find_index(id) {
            Some(i) => {
                proof {
                    lemma_lookup_found(self@, id as int, i as int);
                }
                let merged_row = self.rows[i].apply_patch(&artist);
                let out = merged_row.clone();
                self.rows[i] = merged_row;
                proof {
                    assert(views_of(self.rows@) =~= views_of(old(self).rows@).update(
                        i as int,
                        out@,
                    ));
                }
                Ok(out)
            },
            None => {
                proof {
                    lemma_lookup_absent(self@, id as int);
                    reveal_strlit("Record not found");
                }
                Err(ApiError { details: "Record not found".to_owned() })
            },
        }
    }

    /// Delete the row with the given id: exactly that row is removed and
    /// the rest keep their order. Not-found when no row carries the id,
    /// with the table unchanged.
    pub fn destroy(&mut self, id: i32) -> (r: Result<(), ApiError>)
        requires
            old(self).wf(),
        ensures
            final(self).wf(),
            final(self).next_id() == old(self).next_id(),
            (r is Ok) <==> lookup(old(self)@, id as int) is Some,
            r is Ok ==> {
                &&& final(self)@.len() == old(self)@.len() - 1
                &&& exists|i: int|
                    0 <= i < old(self)@.len() && (#[trigger] old(self)@[i]).id == id as int
                        && final(self)@ == old(self)@.remove(i)
                &&& forall|j: int|
                    0 <= j < final(self)@.len() ==> (#[trigger] final(self)@[j]).id != id as int
            },
            match r {
                Ok(_) => true,
                Err(e) => {
                    &&& final(self)@ == old(self)@
                    &&& e.details@ == "Record not found"@
                    &&& e.details@.len() > 0
                },
            },
    {
        match self.find_index(id) {
            Some(i) => {
                proof {
                    lemma_lookup_found(self@, id as int, i as int);
                }
                self.rows.remove(i);
                proof {
                    let ov = views_of(old(self).rows@);
                    assert(views_of(self.rows@) =~= ov.remove(i as int));
                    ov.remove_ensures(i as int);
                    assert forall|j: int| 0 <= j < views_of(self.rows@).len() implies (
                    #[trigger] views_of(self.rows@)[j]).id != id as int by {
                        if j < i as int {
                            assert(ov.remove(i as int)[j] == ov[j]);
                        } else {
                            assert(ov.remove(i as int)[j] == ov[j + 1]);
                        }
                    }
                }
                Ok(())
            },
            None => {
                proof {
                    lemma_lookup_absent(self@, id as int);
                    reveal_strlit("Record not found");
                }
                Err(ApiError { details: "Record not found".to_owned() })
            },
        }
    }
}

/// The three possible outcomes of a delete by id, keyed by how many rows
/// the statement affected.
#[derive(Clone, Copy, PartialEq, Eq, Structural, Debug)]
pub enum DeleteOutcome {
    /// Exactly one row was deleted: success, empty response.
    Deleted,
    /// No row matched the id: not-found.
    NotFound,
    /// More than one row was deleted: a data-integrity violation,
    /// impossible while ids are unique.
    IntegrityViolation,
}

/// Classify how many rows a delete by id affected: exactly one is a
/// success, zero is not-found, more than one is an integrity violation.
pub fn classify_delete(affected: usize) -> (o: DeleteOutcome)
    ensures
        (o is Deleted) <==> affected == 1,
        (o is NotFound) <==> affected == 0,
        (o is IntegrityViolation) <==> affected > 1,
{
    if affected == 1 {
        DeleteOutcome::Deleted
    } else if affected == 0 {
        DeleteOutcome::NotFound
    } else {
        DeleteOutcome::IntegrityViolation
    }
}

/// While ids are unique, a delete by id affects at most one row: any two
/// matching indices coincide, so the integrity-violation outcome cannot
/// arise from a well-formed table.
pub proof fn lemma_at_most_one_row_matches(rows: Seq<ArtistView>, id: int)
    requires
        ids_unique(rows),
    ensures
        forall|i: int, j: int|
            0 <= i < rows.len() && 0 <= j < rows.len() && (#[trigger] rows[i]).id == id && (
            #[trigger] rows[j]).id == id ==> i == j,
{
}

/// Round trip: the row a create appends under a fresh id is found by a
/// retrieve of that id, unchanged.
pub proof fn lemma_create_then_retrieve(rows: Seq<ArtistView>, next_id: int, a: ArtistView)
    requires
        wf_state(rows, next_id),
        a.id == next_id,
    ensures
        lookup(rows.push(a), a.id) == Some(a),
{
    assert(forall|j: int| 0 <= j < rows.len() ==> (#[trigger] rows[j]).id != a.id);
    assert(forall|i: int, j: int|
        0 <= i < j < rows.push(a).len() ==> rows.push(a)[i].id != rows.push(a)[j].id);
    lemma_lookup_found(rows.push(a), a.id, rows.len() as int);
    assert(rows.push(a)[rows.len() as int] == a);
}

/// An empty patch is a no-op on the table: updating the matched row with
/// it leaves the row sequence unchanged.
pub proof fn lemma_empty_patch_leaves_rows(
    rows: Seq<ArtistView>,
    i: int,
    patch: crate::models::UpdatedArtistView,
)
    requires
        0 <= i < rows.len(),
        patch.name is None,
        patch.description is None,
    ensures
        rows.update(i, merged(rows[i], patch)) == rows,
{
    crate::models::lemma_merged_empty_patch(rows[i], patch);
    assert(rows.update(i, merged(rows[i], patch)) =~= rows);
}

/// After a successful destroy of an id from a table with unique ids, a
/// lookup of that id finds nothing: a subsequent retrieve is not-found.
pub proof fn lemma_destroyed_not_found(rows: Seq<ArtistView>, i: int, id: int)
    requires
        ids_unique(rows),
        0 <= i < rows.len(),
        rows[i].id == id,
    ensures
        lookup(rows.remove(i), id) is None,
{
    rows.remove_ensures(i);
    assert forall|j: int| 0 <= j < rows.remove(i).len() implies (#[trigger] rows.remove(
        i,
    )[j]).id != id by {
        if j < i {
            assert(rows.remove(i)[j] == rows[j]);
        } else {
            assert(rows.remove(i)[j] == rows[j + 1]);
        }
    }
    lemma_lookup_absent(rows.remove(i), id);
}

/// Two consecutively created rows are both contained in a subsequent
/// listing of the table (order unconstrained).
pub proof fn lemma_list_contains_created(rows: Seq<ArtistView>, a: ArtistView, b: ArtistView)
    ensures
        rows.push(a).push(b).contains(a),
        rows.push(a).push(b).contains(b),
{
    assert(rows.push(a).push(b)[rows.len() as int] == a);
    assert(rows.push(a).push(b)[rows.len() as int + 1] == b);
}

} // verus!
