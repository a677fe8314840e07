use rusqlite::Connection;
use secret_manager_lib::crypto::{Argon2Params, KEY_LEN};
use secret_manager_lib::transfer::{
    check_bundle, export, import, ExportBundle, ExportProject, ExportSecret, ImportMode, EXPORT_FORMAT,
};
use secret_manager_lib::{db, repo, vault};

fn setup() -> (Connection, [u8; KEY_LEN]) {
    let conn = db::open_in_memory().unwrap();
    let (key, _sc, _codes) = vault::create_with_params("pw", Argon2Params { m_cost: 1024, t_cost: 1, p_cost: 1 }).unwrap();
    (conn, key)
}

fn seed(conn: &Connection, key: &[u8; KEY_LEN]) {
    let a = repo::create_project(conn, "alpha", Some("first")).unwrap();
    repo::add_secret(conn, key, &a.id, "A_KEY", "a-val", None, &["x".into()]).unwrap();
    repo::add_secret(conn, key, &a.id, "B_KEY", "b-val", Some("desc"), &[]).unwrap();
    let b = repo::create_project(conn, "beta", None).unwrap();
    repo::add_secret(conn, key, &b.id, "C_KEY", "c-val", None, &[]).unwrap();
}

#[test]
fn export_then_import_round_trip_into_fresh_vault() {
    let (src, src_key) = setup();
    seed(&src, &src_key);
    let exported = export(&src, &src_key, None).unwrap();

    let (dst, dst_key) = setup();
    let bundle = check_bundle(exported).unwrap();
    let summary = import(&dst, &dst_key, &bundle, ImportMode::Skip).unwrap();

    assert_eq!(summary.projects_created, 2);
    assert_eq!(summary.secrets_imported, 3);

    let projects = repo::list_projects(&dst).unwrap();
    assert_eq!(projects.len(), 2);
    let alpha = repo::get_project_by_name(&dst, "alpha").unwrap().unwrap();
    let id = repo::get_secret_id_by_key(&dst, &alpha.id, "A_KEY").unwrap().unwrap();
    let s = repo::get_secret(&dst, &dst_key, &id).unwrap();
    assert_eq!(s.value, "a-val");
    assert_eq!(s.tags, vec!["x".to_string()]);
}

#[test]
fn import_skip_keeps_existing() {
    let (conn, key) = setup();
    seed(&conn, &key);
    let exported = export(&conn, &key, None).unwrap();
    let bundle = check_bundle(exported).unwrap();

    // Re-import into the same vault with Skip: nothing new, all skipped.
    let summary = import(&conn, &key, &bundle, ImportMode::Skip).unwrap();
    assert_eq!(summary.projects_merged, 2);
    assert_eq!(summary.secrets_skipped, 3);
    assert_eq!(summary.secrets_imported, 0);
}

#[test]
fn import_overwrite_replaces_values() {
    let (conn, key) = setup();
    let a = repo::create_project(&conn, "alpha", None).unwrap();
    repo::add_secret(&conn, &key, &a.id, "A_KEY", "old", None, &[]).unwrap();

    let bundle = ExportBundle {
        format: EXPORT_FORMAT.into(),
        version: 1,
        exported_at: 0,
        projects: vec![ExportProject {
            name: "alpha".into(),
            description: None,
            created_at: 0,
            updated_at: 0,
            secrets: vec![ExportSecret {
                key: "A_KEY".into(),
                value: "new".into(),
                description: Some("updated".into()),
                tags: vec!["t".into()],
                created_at: 0,
                updated_at: 0,
            }],
        }],
    };

    let summary = import(&conn, &key, &bundle, ImportMode::Overwrite).unwrap();
    assert_eq!(summary.secrets_overwritten, 1);
    let id = repo::get_secret_id_by_key(&conn, &a.id, "A_KEY").unwrap().unwrap();
    let s = repo::get_secret(&conn, &key, &id).unwrap();
    assert_eq!(s.value, "new");
    assert_eq!(s.description.as_deref(), Some("updated"));
    assert_eq!(s.tags, vec!["t".to_string()]);
}

#[test]
fn export_single_project_only() {
    let (conn, key) = setup();
    seed(&conn, &key);
    let alpha = repo::get_project_by_name(&conn, "alpha").unwrap().unwrap();
    let bundle = export(&conn, &key, Some(&alpha.id)).unwrap();
    assert_eq!(bundle.projects.len(), 1);
    assert_eq!(bundle.projects[0].name, "alpha");
    assert_eq!(bundle.projects[0].secrets.len(), 2);
}
