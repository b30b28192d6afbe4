use bistro_native::schema::{app_migrations, database_url, MigrationDirection};

#[test]
fn migrations_are_in_ascending_order() {
    let m = app_migrations("CREATE TABLE a (id INTEGER);".to_string(), "CREATE TABLE b (id INTEGER);".to_string());
    assert_eq!(m.len(), 2);
    assert_eq!(m[0].version, 1);
    assert_eq!(m[0].description, "create initial tables");
    assert_eq!(m[0].sql, "CREATE TABLE a (id INTEGER);");
    assert_eq!(m[0].direction, MigrationDirection::Up);
    assert_eq!(m[1].version, 2);
    assert_eq!(m[1].description, "complete schema");
    assert_eq!(m[1].sql, "CREATE TABLE b (id INTEGER);");
    assert_eq!(m[1].direction, MigrationDirection::Up);
    assert!(m[0].version < m[1].version);
}

#[test]
fn database_lives_in_simple_pos_file() {
    assert_eq!(database_url(), "sqlite:simple-pos.db");
}
