//! The three request/row shapes of the artists resource and the
//! field-level merge that partial update applies to a stored row.

use vstd::prelude::*;

verus! {

/// Spec-level value of one stored row.
#[verifier::ext_equal]
pub ghost struct ArtistView {
    pub id: int,
    pub name: Seq<char>,
    pub description: Seq<char>,
}

/// Spec-level value of a creation request.
#[verifier::ext_equal]
pub ghost struct NewArtistView {
    pub name: Seq<char>,
    pub description: Seq<char>,
}

/// Spec-level value of a partial-update request: each field is either
/// absent (keep the stored value) or present (overwrite it).
#[verifier::ext_equal]
pub ghost struct UpdatedArtistView {
    pub name: Option<Seq<char>>,
    pub description: Option<Seq<char>>,
}

/// One persisted row: a server-assigned unique `id` plus two required
/// text fields. The `id` is immutable once assigned.
#[derive(Debug)]
pub struct Artist {
    pub id: i32,
    pub name: String,
    pub description: String,
}

impl View for Artist {
    type V = ArtistView;

    open spec fn view(&self) -> ArtistView {
        ArtistView { id: self.id as int, name: self.name@, description: self.description@ }
    }
}

impl Clone for Artist {
    fn clone(&self) -> (r: Artist)
        ensures
            r@ == self@,
    {
        Artist { id: self.id, name: self.name.clone(), description: self.description.clone() }
    }
}

/// A creation request: both fields required, no id (the store assigns one).
#[derive(Debug)]
pub struct NewArtist {
    pub name: String,
    pub description: String,
}

impl View for NewArtist {
    type V = NewArtistView;

    open spec fn view(&self) -> NewArtistView {
        NewArtistView { name: self.name@, description: self.description@ }
    }
}

/// A partial-update request: only fields present in the request body are
/// overwritten. `None` means "leave unchanged", never "set to empty".
#[derive(Debug)]
pub struct UpdatedArtist {
    pub name: Option<String>,
    pub description: Option<String>,
}

impl View for UpdatedArtist {
    type V = UpdatedArtistView;

    open spec fn view(&self) -> UpdatedArtistView {
        UpdatedArtistView {
            name: match self.name {
                Some(n) => Some(n@),
                None => None,
            },
            description: match self.description {
                Some(d) => Some(d@),
                None => None,
            },
        }
    }
}

/// The row that results from applying a patch to a stored row: each field
/// present in the patch overwrites the stored field, each absent field is
/// kept, and the id is never touched.
pub open spec fn merged(row: ArtistView, patch: UpdatedArtistView) -> ArtistView {
    ArtistView {
        id: row.id,
        name: match patch.name {
            Some(n) => n,
            None => row.name,
        },
        description: match patch.description {
            Some(d) => d,
            None => row.description,
        },
    }
}

impl UpdatedArtist {
    /// Whether the patch carries no field at all: merging it into any row
    /// leaves the row unchanged, so an update with it must be a no-op that
    /// still returns the stored row.
    pub fn is_noop(&self) -> (r: bool)
        ensures
            r <==> (self@.name is None && self@.description is None),
    {
        self.name.is_none() && self.description.is_none()
    }
}

impl Artist {
    /// Overwrite exactly the fields present in the patch; absent fields
    /// keep their stored values; the id is kept.
    pub fn apply_patch(&self, patch: &UpdatedArtist) -> (r: Artist)
        ensures
            r@ == merged(self@, patch@),
    {
        Artist {
            id: self.id,
            name: match &patch.name {
                Some(n) => n.clone(),
                None => self.name.clone(),
            },
            description: match &patch.description {
                Some(d) => d.clone(),
                None => self.description.clone(),
            },
        }
    }
}

/// A patch with no fields present merges to the row itself: an empty
/// partial update leaves the stored row unchanged.
pub proof fn lemma_merged_empty_patch(row: ArtistView, patch: UpdatedArtistView)
    requires
        patch.name is None,
        patch.description is None,
    ensures
        merged(row, patch) == row,
{
}

/// A patch carrying only a name overwrites only the name: the id and the
/// description of the merged row are those of the stored row.
pub proof fn lemma_merged_name_only(row: ArtistView, patch: UpdatedArtistView, n: Seq<char>)
    requires
        patch.name == Some(n),
        patch.description is None,
    ensures
        merged(row, patch).id == row.id,
        merged(row, patch).name == n,
        merged(row, patch).description == row.description,
{
}

} // verus!
