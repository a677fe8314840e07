use secret_manager_lib::sidecar::Sidecar;

#[test]
fn sidecar_path_appends_suffix() {
    let p = Sidecar::sidecar_path("/x/vault.db");
    assert_eq!(p, "/x/vault.db.meta.json");
}
