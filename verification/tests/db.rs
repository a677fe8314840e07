use secret_manager_lib::db::{open_in_memory, run_migrations};

#[test]
fn migrations_create_tables() {
    let conn = open_in_memory().unwrap();
    let count: i64 = conn
        .query_row(
            "SELECT count(*) FROM sqlite_master WHERE type='table' AND name IN ('projects','secrets','tags','secret_tags','vault_meta')",
            [],
            |r| r.get(0),
        )
        .unwrap();
    assert_eq!(count, 5);
}

#[test]
fn migrations_are_idempotent() {
    let conn = open_in_memory().unwrap();
    // Running again must not error.
    run_migrations(&conn).unwrap();
    let v: String = conn
        .query_row("SELECT value FROM vault_meta WHERE key='db_version'", [], |r| r.get(0))
        .unwrap();
    assert_eq!(v, "001");
}
