use rustbasic_jwt::scaffold::{
    blacklist_migration_source, blacklist_model_source, env_has_jwt_config, is_migration_for,
    is_package_itself,
    jwt_config_appendix, migration_name, migration_suffix, model_registration, new_env_file,
    register_migration, users_migration_source, users_model_source,
};

const MOD_RS: &str = "use rustbasic_core::MigratorTrait;\n\npub mod m1_create_posts_table;\n\npub struct Migrator;\n\nimpl MigratorTrait for Migrator {\n    fn migrations() -> Vec<Box<dyn MigrationTrait>> {\n        vec![\n            Box::new(m1_create_posts_table::Migration),\n        ]\n    }\n}\n";

#[test]
fn env_settings_texts() {
    assert_eq!(
        new_env_file("abc"),
        "JWT_SECRET=abc\nJWT_TTL=60\nJWT_REFRESH_TTL=20160\nJWT_ALGO=HS256\n"
    );
    assert_eq!(
        jwt_config_appendix("xyz"),
        "\n# --- JWT CONFIG ---\nJWT_SECRET=xyz\nJWT_TTL=60\nJWT_REFRESH_TTL=20160\nJWT_ALGO=HS256\n"
    );
}

#[test]
fn env_configured_once() {
    assert!(!env_has_jwt_config("APP_NAME=demo\n"));
    assert!(env_has_jwt_config("A=1\nJWT_SECRET=s\n"));
    let appended = format!("APP_NAME=demo\n{}", jwt_config_appendix("s"));
    assert!(env_has_jwt_config(&appended));
    assert!(env_has_jwt_config(&new_env_file("s")));
}

#[test]
fn migration_names_and_matching() {
    assert_eq!(migration_suffix("users"), "create_users_table");
    assert_eq!(migration_name("20260515_160658", "users"), "m20260515_160658_create_users_table");
    assert!(is_migration_for("m20260515_160658_create_users_table.rs", "users"));
    assert!(!is_migration_for("m20260515_160658_create_posts_table.rs", "users"));
    assert!(is_migration_for("m1_create_jwt_blacklists_table.rs", "jwt_blacklists"));
}

#[test]
fn migration_sources_carry_their_name() {
    let users = users_migration_source("m9_create_users_table");
    assert!(users.starts_with("use rustbasic_core::{Schema, SchemaManager, MigrationTrait, DbErr};\n"));
    assert!(users.contains("        \"m9_create_users_table\"\n"));
    assert!(users.contains("table.string(\"email\").unique().not_null();"));
    assert!(users.contains("Schema::drop(manager, \"users\").await?;"));
    let blacklist = blacklist_migration_source("m9_create_jwt_blacklists_table");
    assert!(blacklist.contains("        \"m9_create_jwt_blacklists_table\"\n"));
    assert!(blacklist.contains("table.big_integer(\"exp\").not_null();"));
    assert!(blacklist.ends_with("Schema::drop(manager, \"jwt_blacklists\").await?;\n        Ok(())\n    }\n}\n"));
}

#[test]
fn model_sources() {
    assert!(users_model_source().contains("    table: \"users\",\n    fillable: [name, email, password],\n"));
    assert!(blacklist_model_source().contains("    table: \"jwt_blacklists\",\n"));
    assert!(blacklist_model_source().contains("        pub exp: i64,\n"));
}

#[test]
fn register_migration_declares_and_lists_it() {
    let out = register_migration(MOD_RS, "m2_create_users_table");
    let expected = MOD_RS.replace(
        "        ]",
        "            Box::new(m2_create_users_table::Migration),\n        ]",
    ) + "\npub mod m2_create_users_table;\n";
    assert_eq!(out, expected);
}

#[test]
fn register_migration_keeps_an_existing_declaration() {
    let content = "pub mod m2_create_users_table;\n";
    assert_eq!(register_migration(content, "m2_create_users_table"), content);
}

#[test]
fn register_migration_without_a_list_only_declares() {
    let content = "// migrations\n";
    assert_eq!(
        register_migration(content, "m3"),
        "// migrations\n\npub mod m3;\n"
    );
}

#[test]
fn register_migration_inserts_before_the_first_list_end_after_the_header() {
    let content = "        ]\nfn migrations() -> Vec<Box<dyn MigrationTrait>> {\n        vec![\n        ]\n        ]\n";
    let out = register_migration(content, "m4");
    assert_eq!(
        out,
        "        ]\nfn migrations() -> Vec<Box<dyn MigrationTrait>> {\n        vec![\n            Box::new(m4::Migration),\n        ]\n        ]\n\npub mod m4;\n"
    );
}

#[test]
fn model_registration_lines() {
    assert_eq!(
        model_registration("pub mod post;\n", "User", "user"),
        Some("pub mod user;\npub use user::Entity as User;\n".to_string())
    );
    assert_eq!(model_registration("pub mod user;\n", "User", "user"), None);
    assert_eq!(model_registration("pub mod users;\n", "User", "user"), None);
    let once = "pub mod post;\npub mod jwt_blacklist;\npub use jwt_blacklist::Entity as JwtBlacklist;\n";
    assert_eq!(model_registration(once, "JwtBlacklist", "jwt_blacklist"), None);
}

#[test]
fn package_itself_is_not_scaffolded() {
    let manifest = "[package]\nname = \"rustbasic-jwt\"\n";
    assert!(is_package_itself(true, "/src/jwt/Cargo.toml", manifest));
    assert!(!is_package_itself(false, "/src/jwt/Cargo.toml", manifest));
    assert!(!is_package_itself(true, "/cobadata/Cargo.toml", manifest));
    assert!(!is_package_itself(true, "/app/Cargo.toml", "[package]\nname = \"shop\"\n"));
}
