use rusqlite::Connection;
use secret_manager_lib::crypto::{Argon2Params, KEY_LEN};
use secret_manager_lib::error::AppError;
use secret_manager_lib::repo::{
    add_secret, create_project, delete_project, delete_secret, get_secret, list_projects, list_secrets, list_tags,
    search_secrets, update_project, update_secret,
};
use secret_manager_lib::{db, vault};

fn setup() -> (Connection, [u8; KEY_LEN]) {
    let (key, _sc, _codes) = vault::create_with_params("pw", Argon2Params { m_cost: 1024, t_cost: 1, p_cost: 1 }).unwrap();
    let conn = db::open_in_memory_keyed(&vault::key_hex(&key)).unwrap();
    (conn, key)
}

#[test]
fn project_crud() {
    let (conn, _k) = setup();
    let p = create_project(&conn, "web", Some("frontend")).unwrap();
    assert_eq!(p.name, "web");
    assert_eq!(list_projects(&conn).unwrap().len(), 1);

    let up = update_project(&conn, &p.id, Some("web-app"), Some(None)).unwrap();
    assert_eq!(up.name, "web-app");
    assert_eq!(up.description, None);

    delete_project(&conn, &p.id).unwrap();
    assert!(list_projects(&conn).unwrap().is_empty());
}

#[test]
fn duplicate_project_name_fails() {
    let (conn, _k) = setup();
    create_project(&conn, "dup", None).unwrap();
    assert!(matches!(create_project(&conn, "dup", None), Err(AppError::AlreadyExists(_))));
}

#[test]
fn secret_crud_and_encryption() {
    let (conn, key) = setup();
    let p = create_project(&conn, "proj", None).unwrap();
    let s = add_secret(&conn, &key, &p.id, "DB_URL", "postgres://x", Some("prod db"), &["db".into(), "prod".into()]).unwrap();
    assert_eq!(s.value, "postgres://x");
    assert_eq!(s.tags, vec!["db".to_string(), "prod".to_string()]);

    // List omits value and includes tags.
    let list = list_secrets(&conn, &p.id).unwrap();
    assert_eq!(list.len(), 1);
    assert_eq!(list[0].key, "DB_URL");
    assert_eq!(list[0].tags, vec!["db".to_string(), "prod".to_string()]);

    // Stored blob must not contain plaintext.
    let blob: Vec<u8> = conn
        .query_row("SELECT value_encrypted FROM secrets WHERE id=?1", [&s.id], |r| r.get(0))
        .unwrap();
    assert!(!blob.windows(11).any(|w| w == b"postgres://"));

    // Update value + tags.
    let u = update_secret(&conn, &key, &s.id, None, Some("postgres://y"), None, Some(&["db".into()])).unwrap();
    assert_eq!(u.value, "postgres://y");
    assert_eq!(u.tags, vec!["db".to_string()]);

    delete_secret(&conn, &s.id).unwrap();
    assert!(list_secrets(&conn, &p.id).unwrap().is_empty());
}

#[test]
fn duplicate_secret_key_in_project_fails() {
    let (conn, key) = setup();
    let p = create_project(&conn, "proj", None).unwrap();
    add_secret(&conn, &key, &p.id, "K", "v", None, &[]).unwrap();
    assert!(matches!(add_secret(&conn, &key, &p.id, "K", "v2", None, &[]), Err(AppError::AlreadyExists(_))));
}

#[test]
fn deleting_project_cascades_secrets() {
    let (conn, key) = setup();
    let p = create_project(&conn, "proj", None).unwrap();
    let s = add_secret(&conn, &key, &p.id, "K", "v", None, &["t".into()]).unwrap();
    delete_project(&conn, &p.id).unwrap();
    assert!(matches!(get_secret(&conn, &key, &s.id), Err(AppError::NotFound(_))));
}

#[test]
fn search_by_key_and_tags() {
    let (conn, key) = setup();
    let p = create_project(&conn, "proj", None).unwrap();
    add_secret(&conn, &key, &p.id, "AWS_KEY", "a", None, &["aws".into(), "prod".into()]).unwrap();
    add_secret(&conn, &key, &p.id, "AWS_SECRET", "b", None, &["aws".into()]).unwrap();
    add_secret(&conn, &key, &p.id, "STRIPE", "c", None, &["api".into()]).unwrap();

    // Substring on key.
    let r = search_secrets(&conn, "AWS", None, None).unwrap();
    assert_eq!(r.len(), 2);

    // Tag filter requires all listed tags.
    let r = search_secrets(&conn, "", None, Some(&["aws".into(), "prod".into()])).unwrap();
    assert_eq!(r.len(), 1);
    assert_eq!(r[0].key, "AWS_KEY");
}

#[test]
fn list_tags_and_prune() {
    let (conn, key) = setup();
    let p = create_project(&conn, "proj", None).unwrap();
    let s = add_secret(&conn, &key, &p.id, "K", "v", None, &["x".into(), "y".into()]).unwrap();
    assert_eq!(list_tags(&conn).unwrap().len(), 2);
    // Removing a tag from the only secret prunes it.
    update_secret(&conn, &key, &s.id, None, None, None, Some(&["x".into()])).unwrap();
    let names: Vec<String> = list_tags(&conn).unwrap().into_iter().map(|t| t.name).collect();
    assert_eq!(names, vec!["x".to_string()]);
}

#[test]
fn get_missing_secret_errors() {
    let (conn, key) = setup();
    assert!(matches!(get_secret(&conn, &key, "nope"), Err(AppError::NotFound(_))));
}
