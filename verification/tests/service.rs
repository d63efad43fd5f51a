use pastebin::service::accept_body;
use pastebin::service::fetch_body;
use pastebin::service::get_paste;
use pastebin::service::status_for;
use pastebin::service::upload;
use pastebin::service::usage;
use pastebin::service::BodyRead;
use pastebin::service::UploadError;
use pastebin::service::MAX_PASTE_BYTES;
use pastebin::store::Store;
use pastebin::store::StoreError;

fn is_uuid_format(s: &str) -> bool {
    s.len() == 36
        && s.chars().enumerate().all(|(i, c)| {
            if i == 8 || i == 13 || i == 18 || i == 23 {
                c == '-'
            } else {
                c.is_ascii_hexdigit() && !c.is_ascii_uppercase()
            }
        })
}

#[test]
fn upload_then_get_returns_body() {
    let mut db = Store::new();
    let id = upload(&mut db, b"hello".to_vec()).expect("upload of a small body succeeds");
    assert!(is_uuid_format(&id), "id is a 36-character UUID string: {id}");
    let got = get_paste(&db, &id);
    assert_eq!(got, Some(&b"hello".to_vec()));
}

#[test]
fn body_at_the_bound_is_accepted() {
    let mut db = Store::new();
    let body = vec![b'x'; MAX_PASTE_BYTES];
    let id = upload(&mut db, body.clone()).expect("a body of exactly the bound succeeds");
    assert_eq!(get_paste(&db, &id), Some(&body));
}

#[test]
fn oversized_body_is_rejected_without_storing() {
    let mut db = Store::new();
    let body = vec![b'x'; MAX_PASTE_BYTES + 1];
    let r = upload(&mut db, body);
    assert_eq!(r, Err(UploadError::TooLarge));
    assert_eq!(status_for(&UploadError::TooLarge), 400);
}

#[test]
fn unknown_id_misses() {
    let db = Store::new();
    assert_eq!(get_paste(&db, &String::from("nonexistent-id")), None);
}

#[test]
fn unknown_id_misses_on_a_filled_store() {
    let mut db = Store::new();
    upload(&mut db, b"something".to_vec()).expect("upload succeeds");
    assert_eq!(get_paste(&db, &String::from("nonexistent-id")), None);
}

#[test]
fn two_uploads_get_distinct_ids() {
    let mut db = Store::new();
    let id1 = upload(&mut db, b"first".to_vec()).expect("first upload succeeds");
    let id2 = upload(&mut db, b"second".to_vec()).expect("second upload succeeds");
    assert_ne!(id1, id2);
    assert_eq!(get_paste(&db, &id1), Some(&b"first".to_vec()));
    assert_eq!(get_paste(&db, &id2), Some(&b"second".to_vec()));
}

#[test]
fn repeated_get_returns_identical_content() {
    let mut db = Store::new();
    let id = upload(&mut db, b"immutable".to_vec()).expect("upload succeeds");
    let first = get_paste(&db, &id).cloned();
    let second = get_paste(&db, &id).cloned();
    let third = get_paste(&db, &id).cloned();
    assert_eq!(first, Some(b"immutable".to_vec()));
    assert_eq!(first, second);
    assert_eq!(second, third);
}

#[test]
fn usage_is_fixed() {
    let first = usage();
    let second = usage();
    assert_eq!(first, second);
    assert!(first.starts_with("Usage:"));
    assert!(first.contains("GET /<id>"));
    assert!(first.contains("POST /"));
}

#[test]
fn usage_ignores_store_state() {
    let before = usage();
    let mut db = Store::new();
    upload(&mut db, b"anything".to_vec()).expect("upload succeeds");
    assert_eq!(usage(), before);
}

#[test]
fn accept_body_passes_a_complete_body_through() {
    assert_eq!(
        accept_body(BodyRead::Complete(b"abc".to_vec())),
        Ok(b"abc".to_vec())
    );
}

#[test]
fn accept_body_rejects_a_truncated_body_as_client_error() {
    let r = accept_body(BodyRead::Truncated);
    assert_eq!(r, Err(UploadError::Truncated));
    assert_eq!(status_for(&UploadError::Truncated), 400);
}

#[test]
fn accept_body_rejects_a_failed_read_as_server_error() {
    let r = accept_body(BodyRead::Fault);
    assert_eq!(r, Err(UploadError::ReadFault));
    assert_eq!(status_for(&UploadError::ReadFault), 500);
}

#[test]
fn store_failure_is_a_server_error() {
    assert_eq!(status_for(&UploadError::StoreFailed), 500);
}

#[test]
fn fetch_collapses_absence_and_store_faults() {
    assert_eq!(fetch_body(Ok(Some(b"x".to_vec()))), Some(b"x".to_vec()));
    assert_eq!(fetch_body(Ok(None)), None);
    assert_eq!(fetch_body(Err(StoreError::Unavailable)), None);
}

#[test]
fn lookup_is_exact_match_only() {
    let mut db = Store::new();
    let id = upload(&mut db, b"hello".to_vec()).expect("upload succeeds");
    let prefix = String::from(&id[..id.len() - 1]);
    let extended = format!("{id}x");
    assert_eq!(get_paste(&db, &prefix), None);
    assert_eq!(get_paste(&db, &extended), None);
    assert_eq!(get_paste(&db, &id), Some(&b"hello".to_vec()));
}

#[test]
fn the_store_never_overwrites() {
    let mut db = Store::new();
    assert_eq!(db.put(String::from("k"), b"a".to_vec()), Ok(()));
    assert_eq!(
        db.put(String::from("k"), b"b".to_vec()),
        Err(StoreError::Conflict)
    );
    assert_eq!(db.get(&String::from("k")), Some(&b"a".to_vec()));
}
