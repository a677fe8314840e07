use secret_manager_lib::crypto::KEY_LEN;
use secret_manager_lib::db::open_in_memory;
use secret_manager_lib::error::AppError;
use secret_manager_lib::models::{Project, Secret};
use secret_manager_lib::repo::{add_secret, create_project, like_escape, map_unique, search_pattern, search_secrets};
use secret_manager_lib::sqlite::SqlErrorKind;
use secret_manager_lib::state::Session;
use secret_manager_lib::transfer::{add_fields, export, export_project, import, project_fields, ExportProject, ExportSecret, ImportMode};

#[test]
fn constraint_violation_becomes_already_exists() {
    let e = map_unique("project 'x'".into(), SqlErrorKind::ConstraintViolation, rusqlite::Error::QueryReturnedNoRows);
    assert!(matches!(e, AppError::AlreadyExists(ref w) if w == "project 'x'"));
    let e = map_unique("project 'x'".into(), SqlErrorKind::Other, rusqlite::Error::QueryReturnedNoRows);
    assert!(matches!(e, AppError::Database(_)));
}

#[test]
fn duplicate_secret_key_is_already_exists() {
    let conn = open_in_memory().unwrap();
    let key = [2u8; KEY_LEN];
    let p = create_project(&conn, "p", None).unwrap();
    add_secret(&conn, &key, &p.id, "K", "v", None, &[]).unwrap();
    match add_secret(&conn, &key, &p.id, " K ", "w", None, &[]) {
        Err(AppError::AlreadyExists(w)) => assert_eq!(w, "secret 'K'"),
        _ => panic!("expected AlreadyExists"),
    }
}

#[test]
fn like_escape_marks_wildcards() {
    assert_eq!(like_escape("50%_off\\"), "50\\%\\_off\\\\");
    assert_eq!(search_pattern("  a_b "), "%a\\_b%");
}

#[test]
fn search_takes_wildcards_literally() {
    let conn = open_in_memory().unwrap();
    let key = [1u8; KEY_LEN];
    let p = create_project(&conn, "p", None).unwrap();
    add_secret(&conn, &key, &p.id, "RATE_100%", "v", None, &[]).unwrap();
    add_secret(&conn, &key, &p.id, "RATE_1000", "v", None, &[]).unwrap();
    add_secret(&conn, &key, &p.id, "RATEX", "v", None, &[]).unwrap();
    let hits: Vec<String> = search_secrets(&conn, "100%", None, None).unwrap().into_iter().map(|m| m.key).collect();
    assert_eq!(hits, vec!["RATE_100%".to_string()]);
    let hits: Vec<String> = search_secrets(&conn, "rate_", None, None).unwrap().into_iter().map(|m| m.key).collect();
    assert_eq!(hits, vec!["RATE_100%".to_string(), "RATE_1000".to_string()]);
}

#[test]
fn export_project_mirrors_project_and_secrets() {
    let p = Project { id: "id".into(), name: "alpha".into(), description: Some("d".into()), created_at: 1, updated_at: 2 };
    let s = Secret {
        id: "s".into(),
        project_id: "id".into(),
        key: "K".into(),
        value: "V".into(),
        description: None,
        tags: vec!["a".into(), "b".into()],
        created_at: 3,
        updated_at: 4,
    };
    let e = export_project(&p, vec![s]);
    assert_eq!(e.name, "alpha");
    assert_eq!(e.description.as_deref(), Some("d"));
    assert_eq!((e.created_at, e.updated_at), (1, 2));
    assert_eq!(e.secrets.len(), 1);
    assert_eq!(e.secrets[0].key, "K");
    assert_eq!(e.secrets[0].value, "V");
    assert_eq!(e.secrets[0].tags, vec!["a".to_string(), "b".to_string()]);
    assert_eq!((e.secrets[0].created_at, e.secrets[0].updated_at), (3, 4));
}

#[test]
fn export_holds_every_secret_of_every_project() {
    let conn = open_in_memory().unwrap();
    let key = [4u8; KEY_LEN];
    let a = create_project(&conn, "beta", None).unwrap();
    let b = create_project(&conn, "Alpha", None).unwrap();
    add_secret(&conn, &key, &a.id, "B1", "x", None, &[]).unwrap();
    add_secret(&conn, &key, &b.id, "A2", "y", None, &["t".to_string()]).unwrap();
    add_secret(&conn, &key, &b.id, "a1", "z", Some("d"), &[]).unwrap();
    let bundle = export(&conn, &key, None).unwrap();
    let names: Vec<&str> = bundle.projects.iter().map(|p| p.name.as_str()).collect();
    assert_eq!(names, vec!["Alpha", "beta"]);
    let keys: Vec<&str> = bundle.projects[0].secrets.iter().map(|s| s.key.as_str()).collect();
    assert_eq!(keys, vec!["a1", "A2"]);
    assert_eq!(bundle.projects[0].secrets[1].tags, vec!["t".to_string()]);
    assert_eq!(bundle.projects[1].secrets.len(), 1);
}

#[test]
fn import_counts_by_what_existed() {
    let conn = open_in_memory().unwrap();
    let key = [5u8; KEY_LEN];
    let a = create_project(&conn, "alpha", None).unwrap();
    add_secret(&conn, &key, &a.id, "A_KEY", "old", None, &[]).unwrap();
    let secret = |k: &str, v: &str| ExportSecret {
        key: k.into(),
        value: v.into(),
        description: Some("updated".into()),
        tags: vec!["t".into()],
        created_at: 0,
        updated_at: 0,
    };
    let bundle = secret_manager_lib::transfer::ExportBundle {
        format: "secret-manager-export".into(),
        version: 1,
        exported_at: 0,
        projects: vec![
            ExportProject { name: "alpha".into(), description: None, created_at: 0, updated_at: 0, secrets: vec![secret("A_KEY", "new"), secret("B_KEY", "b")] },
            ExportProject { name: "gamma".into(), description: None, created_at: 0, updated_at: 0, secrets: vec![secret("C_KEY", "c")] },
        ],
    };
    let s = import(&conn, &key, &bundle, ImportMode::Skip).unwrap();
    assert_eq!((s.projects_created, s.projects_merged), (1, 1));
    assert_eq!((s.secrets_imported, s.secrets_overwritten, s.secrets_skipped), (2, 0, 1));
    let s = import(&conn, &key, &bundle, ImportMode::Overwrite).unwrap();
    assert_eq!((s.projects_created, s.projects_merged), (0, 2));
    assert_eq!((s.secrets_imported, s.secrets_overwritten, s.secrets_skipped), (0, 3, 0));
}

#[test]
fn import_with_blank_key_is_invalid() {
    let conn = open_in_memory().unwrap();
    let key = [6u8; KEY_LEN];
    let bundle = secret_manager_lib::transfer::ExportBundle {
        format: "secret-manager-export".into(),
        version: 1,
        exported_at: 0,
        projects: vec![ExportProject {
            name: "p".into(),
            description: None,
            created_at: 0,
            updated_at: 0,
            secrets: vec![ExportSecret { key: "  ".into(), value: "v".into(), description: None, tags: vec![], created_at: 0, updated_at: 0 }],
        }],
    };
    assert!(matches!(import(&conn, &key, &bundle, ImportMode::Skip), Err(AppError::Invalid(_))));
}

#[test]
fn import_fields_hand_over_the_bundle_values() {
    let p = ExportProject { name: "n".into(), description: Some("d".into()), created_at: 0, updated_at: 0, secrets: vec![] };
    assert_eq!(project_fields(&p), ("n", Some("d")));
    let s = ExportSecret { key: "k".into(), value: "v".into(), description: None, tags: vec!["x".into()], created_at: 0, updated_at: 0 };
    let (k, v, d, t) = add_fields(&s);
    assert_eq!((k, v, d), ("k", "v", None));
    assert_eq!(t, &["x".to_string()][..]);
}

#[test]
fn set_key_replaces_the_session_key() {
    let mut s = Session::new();
    s.set_key([1u8; KEY_LEN]);
    s.set_key([2u8; KEY_LEN]);
    assert_eq!(s.key, Some([2u8; KEY_LEN]));
    s.lock();
    assert!(s.key.is_none());
}
