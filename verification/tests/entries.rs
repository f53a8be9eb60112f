use filite::db::{
    delete_filite, delete_user, get, insert, insert_file, insert_link, insert_text, insert_user,
    random_id, user, contains_id, Filite, FiliteInner, Store, User,
};
use filite::config::Config;

fn text_entry(owner: &str, data: &str) -> Filite {
    Filite {
        owner: owner.to_owned(),
        creation: 0,
        inner: FiliteInner::Text { data: data.to_owned() },
        views: 0,
    }
}

fn plain_user(id: &str, admin: bool) -> User {
    User { id: id.to_owned(), admin, password_hash: String::new() }
}

fn text_of(f: &Filite) -> &str {
    match &f.inner {
        FiliteInner::Text { data } => data.as_str(),
        _ => panic!("expected a text entry"),
    }
}

#[test]
fn insert_if_absent_then_conflict() {
    let mut db = Store::new();
    assert!(insert("a", text_entry("alice", "first"), &mut db));
    assert!(!insert("a", text_entry("alice", "second"), &mut db));
    let stored = get("a", false, &mut db).unwrap();
    assert_eq!(text_of(&stored), "first");
    assert_eq!(stored.views, 0);
}

#[test]
fn get_missing_is_none() {
    let mut db = Store::new();
    assert!(get("nope", false, &mut db).is_none());
    assert!(get("nope", true, &mut db).is_none());
}

#[test]
fn repeated_incrementing_reads_accumulate() {
    let mut db = Store::new();
    assert!(insert("t", text_entry("alice", "hello"), &mut db));
    for expected in 1..=5usize {
        let f = get("t", true, &mut db).unwrap();
        assert_eq!(f.views, expected);
    }
    let f = get("t", false, &mut db).unwrap();
    assert_eq!(f.views, 5);
}

#[test]
fn view_counter_saturates_at_its_top() {
    let mut db = Store::new();
    let mut e = text_entry("alice", "old");
    e.views = usize::MAX;
    assert!(insert("t", e, &mut db));
    let f = get("t", true, &mut db).unwrap();
    assert_eq!(f.views, usize::MAX);
    let f = get("t", false, &mut db).unwrap();
    assert_eq!(f.views, usize::MAX);
}

#[test]
fn plain_reads_do_not_increment() {
    let mut db = Store::new();
    assert!(insert("t", text_entry("alice", "hello"), &mut db));
    for _ in 0..3 {
        let f = get("t", false, &mut db).unwrap();
        assert_eq!(f.views, 0);
    }
}

#[test]
fn delete_by_owner_succeeds() {
    let mut db = Store::new();
    assert!(insert("t", text_entry("alice", "hello"), &mut db));
    let removed = delete_filite("t", &plain_user("alice", false), &mut db).unwrap();
    assert_eq!(text_of(&removed), "hello");
    assert!(get("t", false, &mut db).is_none());
}

#[test]
fn delete_by_admin_succeeds() {
    let mut db = Store::new();
    assert!(insert("t", text_entry("alice", "hello"), &mut db));
    assert!(delete_filite("t", &plain_user("root", true), &mut db).is_some());
    assert!(get("t", false, &mut db).is_none());
}

#[test]
fn delete_by_stranger_fails_and_entry_remains() {
    let mut db = Store::new();
    assert!(insert("t", text_entry("alice", "hello"), &mut db));
    assert!(delete_filite("t", &plain_user("bob", false), &mut db).is_none());
    let f = get("t", false, &mut db).unwrap();
    assert_eq!(text_of(&f), "hello");
}

#[test]
fn delete_missing_is_none() {
    let mut db = Store::new();
    assert!(delete_filite("t", &plain_user("root", true), &mut db).is_none());
}

#[test]
fn allocated_ids_are_fresh() {
    let mut db = Store::new();
    for _ in 0..50 {
        let id = random_id(6, &db).expect("allocation should not exhaust its retries");
        assert_eq!(id.len(), 6);
        assert!(id.bytes().all(|b| b.is_ascii_alphanumeric()));
        assert!(!contains_id(id.as_str(), &db));
        assert!(insert(id.as_str(), text_entry("alice", "x"), &mut db));
    }
}

#[test]
fn allocated_id_has_requested_length() {
    let db = Store::new();
    for len in [1usize, 4, 8, 32] {
        let id = random_id(len, &db).unwrap();
        assert_eq!(id.len(), len);
    }
}

#[test]
fn insert_file_sets_fields() {
    let mut db = Store::new();
    let f = insert_file("f", "alice".to_owned(), vec![1, 2, 3], "text/plain".to_owned(), &mut db)
        .unwrap();
    assert_eq!(f.owner, "alice");
    assert_eq!(f.views, 0);
    match &f.inner {
        FiliteInner::File { data, mime } => {
            assert_eq!(data, &vec![1, 2, 3]);
            assert_eq!(mime, "text/plain");
        }
        _ => panic!("expected a file entry"),
    }
    assert!(insert_file("f", "bob".to_owned(), vec![], "x".to_owned(), &mut db).is_none());
}

#[test]
fn insert_link_sets_fields() {
    let mut db = Store::new();
    let f = insert_link("l", "alice".to_owned(), "https://google.com/".to_owned(), &mut db)
        .unwrap();
    match &f.inner {
        FiliteInner::Link { location } => assert_eq!(location, "https://google.com/"),
        _ => panic!("expected a link entry"),
    }
    assert!(insert_link("l", "bob".to_owned(), "https://e.com/".to_owned(), &mut db).is_none());
}

#[test]
fn insert_text_conflicts_on_occupied_id() {
    let mut db = Store::new();
    assert!(insert_text("t", "alice".to_owned(), "one".to_owned(), &mut db).is_some());
    assert!(insert_text("t", "alice".to_owned(), "two".to_owned(), &mut db).is_none());
    assert_eq!(text_of(&get("t", false, &mut db).unwrap()), "one");
}

#[test]
fn user_store_create_lookup_delete() {
    let mut db = Store::new();
    let config = Config::default();
    let created = insert_user("alice", "hunter22", false, &mut db, &config).unwrap().unwrap();
    assert_eq!(created.id, "alice");
    assert!(!created.admin);
    assert!(!created.password_hash.is_empty());

    // create-if-absent: the second attempt reports the occupied name
    assert!(insert_user("alice", "other", true, &mut db, &config).unwrap().is_none());

    let found = user("alice", &db).unwrap();
    assert_eq!(found.id, "alice");
    assert_eq!(found.password_hash, created.password_hash);
    assert!(user("bob", &db).is_none());

    let removed = delete_user("alice", &mut db).unwrap();
    assert_eq!(removed.id, "alice");
    assert!(user("alice", &db).is_none());
    assert!(delete_user("alice", &mut db).is_none());
}

#[test]
fn user_debug_line_omits_the_password_hash() {
    let u = User { id: "alice".to_owned(), admin: true, password_hash: "top secret".to_owned() };
    assert_eq!(u.debug_string(), "User { id: alice, admin: true }");
    let u = User { id: "bob".to_owned(), admin: false, password_hash: String::new() };
    assert_eq!(u.debug_string(), "User { id: bob, admin: false }");
}

#[test]
fn end_to_end_text_lifecycle() {
    let mut db = Store::new();
    assert!(insert_text("id1", "alice".to_owned(), "hello".to_owned(), &mut db).is_some());

    let f = get("id1", false, &mut db).unwrap();
    assert_eq!(f.views, 0);
    assert_eq!(text_of(&f), "hello");

    let f = get("id1", true, &mut db).unwrap();
    assert_eq!(f.views, 1);
    assert_eq!(text_of(&f), "hello");

    assert!(delete_filite("id1", &plain_user("bob", false), &mut db).is_none());
    let f = get("id1", false, &mut db).unwrap();
    assert_eq!(text_of(&f), "hello");
    assert_eq!(f.views, 1);

    assert!(delete_filite("id1", &plain_user("alice", false), &mut db).is_some());
    assert!(get("id1", false, &mut db).is_none());
}
