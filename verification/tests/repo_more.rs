use rusqlite::Connection;
use secret_manager_lib::crypto::{Argon2Params, KEY_LEN};
use secret_manager_lib::error::AppError;
use secret_manager_lib::repo;
use secret_manager_lib::transfer::{export, import, ImportMode};
use secret_manager_lib::{db, vault};

fn setup() -> (Connection, [u8; KEY_LEN]) {
    let (key, _sc, _codes) =
        vault::create_with_params("pw", Argon2Params { m_cost: 1024, t_cost: 1, p_cost: 1 }).unwrap();
    let conn = db::open_in_memory_keyed(&vault::key_hex(&key)).unwrap();
    (conn, key)
}

#[test]
fn not_found_messages_name_the_id() {
    let (conn, key) = setup();
    match repo::get_project(&conn, "nope") {
        Err(AppError::NotFound(m)) => assert_eq!(m, "project nope"),
        _ => panic!("expected NotFound"),
    }
    match repo::get_secret(&conn, &key, "gone") {
        Err(AppError::NotFound(m)) => assert_eq!(m, "secret gone"),
        _ => panic!("expected NotFound"),
    }
    assert!(matches!(repo::delete_project(&conn, "nope"), Err(AppError::NotFound(_))));
    assert!(matches!(repo::delete_secret(&conn, "nope"), Err(AppError::NotFound(_))));
    match repo::delete_tag(&conn, "t0") {
        Err(AppError::NotFound(m)) => assert_eq!(m, "tag t0"),
        _ => panic!("expected NotFound"),
    }
}

#[test]
fn names_and_keys_are_trimmed_and_required() {
    let (conn, key) = setup();
    assert!(matches!(repo::create_project(&conn, "   ", None), Err(AppError::Invalid(_))));
    let p = repo::create_project(&conn, "  spaced  ", None).unwrap();
    assert_eq!(p.name, "spaced");
    assert_eq!(p.id.len(), 36);
    assert!(repo::get_project_by_name(&conn, " spaced ").unwrap().is_some());
    assert!(matches!(repo::add_secret(&conn, &key, &p.id, " ", "v", None, &[]), Err(AppError::Invalid(_))));
    let s = repo::add_secret(&conn, &key, &p.id, " K1 ", "v", None, &[" t ".into(), "".into()]).unwrap();
    assert_eq!(s.key, "K1");
    assert_eq!(s.tags, vec!["t".to_string()]);
    assert!(matches!(repo::update_secret(&conn, &key, &s.id, Some("  "), None, None, None), Err(AppError::Invalid(_))));
    match repo::create_project(&conn, "spaced", None) {
        Err(AppError::AlreadyExists(m)) => assert_eq!(m, "project 'spaced'"),
        _ => panic!("expected AlreadyExists"),
    }
}

#[test]
fn add_secret_to_missing_project_is_not_found() {
    let (conn, key) = setup();
    assert!(matches!(repo::add_secret(&conn, &key, "no-project", "K", "v", None, &[]), Err(AppError::NotFound(_))));
}

#[test]
fn lists_are_in_case_insensitive_order() {
    let (conn, key) = setup();
    repo::create_project(&conn, "beta", None).unwrap();
    let a = repo::create_project(&conn, "Alpha", None).unwrap();
    repo::create_project(&conn, "gamma", None).unwrap();
    let names: Vec<String> = repo::list_projects(&conn).unwrap().into_iter().map(|p| p.name).collect();
    assert_eq!(names, vec!["Alpha", "beta", "gamma"]);
    repo::add_secret(&conn, &key, &a.id, "b_key", "1", None, &["Zed".into(), "api".into()]).unwrap();
    repo::add_secret(&conn, &key, &a.id, "A_KEY", "2", None, &[]).unwrap();
    let keys: Vec<String> = repo::list_secrets(&conn, &a.id).unwrap().into_iter().map(|m| m.key).collect();
    assert_eq!(keys, vec!["A_KEY", "b_key"]);
    let tags: Vec<String> = repo::list_tags(&conn).unwrap().into_iter().map(|t| t.name).collect();
    assert_eq!(tags, vec!["api", "Zed"]);
}

#[test]
fn search_within_project_and_by_description() {
    let (conn, key) = setup();
    let p = repo::create_project(&conn, "one", None).unwrap();
    let q = repo::create_project(&conn, "two", None).unwrap();
    repo::add_secret(&conn, &key, &p.id, "TOKEN", "a", Some("github access"), &[]).unwrap();
    repo::add_secret(&conn, &key, &q.id, "TOKEN", "b", None, &[]).unwrap();
    assert_eq!(repo::search_secrets(&conn, "token", None, None).unwrap().len(), 2);
    let only = repo::search_secrets(&conn, "token", Some(&q.id), None).unwrap();
    assert_eq!(only.len(), 1);
    assert_eq!(only[0].project_id, q.id);
    assert_eq!(repo::search_secrets(&conn, " GitHub ", None, None).unwrap().len(), 1);
}

#[test]
fn update_keeps_what_is_not_given() {
    let (conn, key) = setup();
    let p = repo::create_project(&conn, "p", Some("desc")).unwrap();
    let s = repo::add_secret(&conn, &key, &p.id, "K", "v1", Some("d"), &["t".into()]).unwrap();
    let u = repo::update_secret(&conn, &key, &s.id, Some("K2"), None, None, None).unwrap();
    assert_eq!((u.key.as_str(), u.value.as_str(), u.description.as_deref()), ("K2", "v1", Some("d")));
    assert_eq!(u.tags, vec!["t".to_string()]);
    let up = repo::update_project(&conn, &p.id, None, None).unwrap();
    assert_eq!((up.name.as_str(), up.description.as_deref()), ("p", Some("desc")));
}

#[test]
fn import_overwrite_mode_counts_every_secret_once() {
    let (src, src_key) = setup();
    let a = repo::create_project(&src, "alpha", None).unwrap();
    repo::add_secret(&src, &src_key, &a.id, "A", "1", None, &[]).unwrap();
    repo::add_secret(&src, &src_key, &a.id, "B", "2", None, &[]).unwrap();
    let bundle = export(&src, &src_key, None).unwrap();

    let (dst, dst_key) = setup();
    let d = repo::create_project(&dst, "alpha", None).unwrap();
    repo::add_secret(&dst, &dst_key, &d.id, "A", "old", None, &[]).unwrap();
    let s = import(&dst, &dst_key, &bundle, ImportMode::Overwrite).unwrap();
    assert_eq!((s.projects_created, s.projects_merged), (0, 1));
    assert_eq!((s.secrets_imported, s.secrets_overwritten, s.secrets_skipped), (1, 1, 0));
    let id = repo::get_secret_id_by_key(&dst, &d.id, "A").unwrap().unwrap();
    assert_eq!(repo::get_secret(&dst, &dst_key, &id).unwrap().value, "1");
}

#[test]
fn failed_import_is_rolled_back() {
    let (conn, key) = setup();
    let bundle = secret_manager_lib::transfer::ExportBundle {
        format: "secret-manager-export".into(),
        version: 1,
        exported_at: 0,
        projects: vec![
            secret_manager_lib::transfer::ExportProject {
                name: "fine".into(),
                description: None,
                created_at: 0,
                updated_at: 0,
                secrets: vec![],
            },
            secret_manager_lib::transfer::ExportProject {
                name: "   ".into(),
                description: None,
                created_at: 0,
                updated_at: 0,
                secrets: vec![],
            },
        ],
    };
    assert!(matches!(import(&conn, &key, &bundle, ImportMode::Skip), Err(AppError::Invalid(_))));
    assert!(repo::list_projects(&conn).unwrap().is_empty());
}
