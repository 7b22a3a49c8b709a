use rustbasic_jwt::migrations::m20260515_160658_create_jwt_blacklists_table::Migration as BlacklistMigration;
use rustbasic_jwt::migrations::m20260515_160658_create_users_table::Migration as UsersMigration;
use rustbasic_jwt::migrations::{ColumnKind, SchemaChange};

fn columns(change: SchemaChange) -> (String, Vec<(String, ColumnKind, bool, bool)>) {
    match change {
        SchemaChange::CreateTable(t) => (
            t.name,
            t.columns.into_iter().map(|c| (c.name, c.kind, c.unique, c.not_null)).collect(),
        ),
        SchemaChange::DropTable(_) => panic!("expected a table creation"),
    }
}

#[test]
fn blacklist_migration_creates_jti_and_exp() {
    let m = BlacklistMigration;
    assert_eq!(m.name(), "m20260515_160658_create_jwt_blacklists_table");
    let (name, cols) = columns(m.up());
    assert_eq!(name, "jwt_blacklists");
    assert_eq!(
        cols,
        vec![
            ("jti".to_string(), ColumnKind::String, true, true),
            ("exp".to_string(), ColumnKind::BigInteger, false, true),
        ]
    );
    match m.down() {
        SchemaChange::DropTable(n) => assert_eq!(n, "jwt_blacklists"),
        SchemaChange::CreateTable(_) => panic!("expected a drop"),
    }
}

#[test]
fn users_migration_creates_name_email_password() {
    let m = UsersMigration;
    assert_eq!(m.name(), "m20260515_160658_create_users_table");
    let (name, cols) = columns(m.up());
    assert_eq!(name, "users");
    assert_eq!(
        cols,
        vec![
            ("name".to_string(), ColumnKind::String, false, true),
            ("email".to_string(), ColumnKind::String, true, true),
            ("password".to_string(), ColumnKind::String, false, true),
        ]
    );
    match m.down() {
        SchemaChange::DropTable(n) => assert_eq!(n, "users"),
        SchemaChange::CreateTable(_) => panic!("expected a drop"),
    }
}
