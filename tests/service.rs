use user_auth_api::config::Config;
use user_auth_api::roles::{all_roles, role_by_code};

#[test]
fn database_url_from_parts() {
    let c = Config {
        db_name: "bolt_test".to_string(),
        db_user: "postgres".to_string(),
        db_password: "pw".to_string(),
        db_host: "localhost".to_string(),
        db_port: 5432,
        app_port: 8006,
        db_pool_size: 32,
        jwt_secret: "s".to_string(),
        jwt_expires: 3600,
    };
    assert_eq!(c.database_url(), "postgres://postgres:pw@localhost:5432/bolt_test");
}

#[test]
fn role_catalogue_in_order() {
    let r = all_roles();
    let codes: Vec<&str> = r.iter().map(|x| x.code.as_str()).collect();
    assert_eq!(codes, vec!["ADMIN", "SHOPKEEPER", "CUSTOMER"]);
    assert_eq!(r[0].name, "Administrator");
}

#[test]
fn role_lookup_normalises_code() {
    let r = role_by_code("  shopkeeper ").unwrap();
    assert_eq!(r.code, "SHOPKEEPER");
    assert_eq!(r.name, "Shopkeeper");
    assert!(role_by_code("wizard").is_none());
    assert!(role_by_code("").is_none());
}
