use rest_api::http::{
    create_status, destroy_status, list_status, retrieve_status, update_status,
};
use rest_api::models::{NewArtist, UpdatedArtist};
use rest_api::store::{classify_delete, ArtistTable, DeleteOutcome};

fn new_artist(name: &str, description: &str) -> NewArtist {
    NewArtist { name: name.to_owned(), description: description.to_owned() }
}

#[test]
fn create_miles_davis_scenario() {
    let mut t = ArtistTable::new();
    let r = t.create(new_artist("Miles Davis", "Jazz trumpeter"));
    let a = r.expect("create must succeed on a fresh table");
    assert_eq!(create_status(&Ok(a.clone())), 201);
    assert_eq!(a.id, 1);
    assert_eq!(a.name, "Miles Davis");
    assert_eq!(a.description, "Jazz trumpeter");
}

#[test]
fn create_then_retrieve_round_trip() {
    let mut t = ArtistTable::new();
    let a = t.create(new_artist("Nina Simone", "Singer and pianist")).unwrap();
    let b = t.retrieve(a.id).expect("created row must be found");
    assert_eq!(b.id, a.id);
    assert_eq!(b.name, a.name);
    assert_eq!(b.description, a.description);
}

#[test]
fn empty_patch_leaves_row_unchanged_and_returns_it() {
    let mut t = ArtistTable::new();
    let a = t.create(new_artist("Thelonious Monk", "Pianist")).unwrap();
    let u = t
        .update(a.id, UpdatedArtist { name: None, description: None })
        .expect("update of an existing row must succeed");
    assert_eq!(u.id, a.id);
    assert_eq!(u.name, "Thelonious Monk");
    assert_eq!(u.description, "Pianist");
    let stored = t.retrieve(a.id).unwrap();
    assert_eq!(stored.name, "Thelonious Monk");
    assert_eq!(stored.description, "Pianist");
}

#[test]
fn name_only_patch_changes_only_name() {
    let mut t = ArtistTable::new();
    let a = t.create(new_artist("Chet Baker", "Trumpeter")).unwrap();
    let u = t
        .update(a.id, UpdatedArtist { name: Some("X".to_owned()), description: None })
        .unwrap();
    assert_eq!(u.id, a.id);
    assert_eq!(u.name, "X");
    assert_eq!(u.description, "Trumpeter");
    let stored = t.retrieve(a.id).unwrap();
    assert_eq!(stored.name, "X");
    assert_eq!(stored.description, "Trumpeter");
}

#[test]
fn description_only_patch_changes_only_description() {
    let mut t = ArtistTable::new();
    let a = t.create(new_artist("Bill Evans", "Pianist")).unwrap();
    let u = t
        .update(a.id, UpdatedArtist { name: None, description: Some("Jazz pianist".to_owned()) })
        .unwrap();
    assert_eq!(u.name, "Bill Evans");
    assert_eq!(u.description, "Jazz pianist");
}

#[test]
fn retrieve_missing_id_is_not_found_with_details() {
    let t = ArtistTable::new();
    let r = t.retrieve(42);
    let e = r.err().expect("retrieve of a missing id must fail");
    assert!(!e.details.is_empty());
    assert_eq!(e.details, "Record not found");
    assert_eq!(retrieve_status(&t.retrieve(42)), 404);
}

#[test]
fn update_missing_id_is_not_found() {
    let mut t = ArtistTable::new();
    let r = t.update(7, UpdatedArtist { name: Some("X".to_owned()), description: None });
    let e = r.err().expect("update of a missing id must fail");
    assert!(!e.details.is_empty());
    assert_eq!(update_status(&t.retrieve(7)), 404);
}

#[test]
fn destroy_semantics() {
    let mut t = ArtistTable::new();
    let missing = t.destroy(5);
    assert_eq!(destroy_status(&missing), 404);
    assert!(!missing.err().unwrap().details.is_empty());

    let a = t.create(new_artist("John Coltrane", "Saxophonist")).unwrap();
    let gone = t.destroy(a.id);
    assert_eq!(destroy_status(&gone), 204);
    assert!(gone.is_ok());

    let after = t.retrieve(a.id);
    assert_eq!(retrieve_status(&after), 404);
    assert!(!after.err().unwrap().details.is_empty());
}

#[test]
fn destroy_leaves_other_rows() {
    let mut t = ArtistTable::new();
    let a = t.create(new_artist("A", "first")).unwrap();
    let b = t.create(new_artist("B", "second")).unwrap();
    t.destroy(a.id).unwrap();
    assert!(t.retrieve(a.id).is_err());
    let kept = t.retrieve(b.id).unwrap();
    assert_eq!(kept.name, "B");
    assert_eq!(t.list().len(), 1);
}

#[test]
fn list_contains_created_rows() {
    let mut t = ArtistTable::new();
    assert!(t.list().is_empty());
    let a = t.create(new_artist("Ella Fitzgerald", "Singer")).unwrap();
    let b = t.create(new_artist("Louis Armstrong", "Trumpeter")).unwrap();
    let all = t.list();
    assert_eq!(all.len(), 2);
    assert!(all.iter().any(|x| x.id == a.id && x.name == a.name && x.description == a.description));
    assert!(all.iter().any(|x| x.id == b.id && x.name == b.name && x.description == b.description));
}

#[test]
fn ids_are_assigned_serially_and_never_reused_within_a_run() {
    let mut t = ArtistTable::new();
    let a = t.create(new_artist("A", "first")).unwrap();
    let b = t.create(new_artist("B", "second")).unwrap();
    assert_eq!(a.id, 1);
    assert_eq!(b.id, 2);
    t.destroy(a.id).unwrap();
    let c = t.create(new_artist("C", "third")).unwrap();
    assert_eq!(c.id, 3);
}

#[test]
fn classify_delete_outcomes() {
    assert_eq!(classify_delete(1), DeleteOutcome::Deleted);
    assert_eq!(classify_delete(0), DeleteOutcome::NotFound);
    assert_eq!(classify_delete(2), DeleteOutcome::IntegrityViolation);
    assert_eq!(classify_delete(17), DeleteOutcome::IntegrityViolation);
}

#[test]
fn status_codes_follow_the_http_surface() {
    let mut t = ArtistTable::new();
    assert_eq!(list_status(&Ok(t.list())), 200);
    let created = t.create(new_artist("Sarah Vaughan", "Singer"));
    assert_eq!(create_status(&created), 201);
    let id = created.unwrap().id;
    assert_eq!(retrieve_status(&t.retrieve(id)), 200);
    assert_eq!(update_status(&t.update(id, UpdatedArtist { name: None, description: None })), 200);
    assert_eq!(destroy_status(&t.destroy(id)), 204);
    assert_eq!(destroy_status(&t.destroy(id)), 404);
}

#[test]
fn apply_patch_overwrites_present_fields() {
    let mut t = ArtistTable::new();
    let a = t.create(new_artist("Old name", "Old description")).unwrap();
    let patched = a.apply_patch(&UpdatedArtist {
        name: Some("New name".to_owned()),
        description: Some("New description".to_owned()),
    });
    assert_eq!(patched.id, a.id);
    assert_eq!(patched.name, "New name");
    assert_eq!(patched.description, "New description");
}
