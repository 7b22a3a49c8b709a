//! The scaffolding the package installs into a project: the JWT settings
//! of its `.env` file, the migrations and models it adds, and their
//! registration in the project's `mod.rs` files. Reading and writing the
//! files is the caller's.

use vstd::prelude::*;
use vstd::string::*;
use crate::text::{chars_of, contains_exec, contains_text, find_from, is_first_occurrence, occurs_at};
use crate::migrations::{ColumnDefinition, ColumnKind, SchemaChange, TableDefinition};
use crate::migrations::m20260515_160658_create_users_table::creates_users_table;
use crate::migrations::m20260515_160658_create_jwt_blacklists_table::creates_blacklist_table;

verus! {

/// Whether a project is this package itself, which is not scaffolded: it
/// has a `src/lib.rs`, its manifest path does not mention `cobadata`, and
/// its manifest names the package `rustbasic-jwt`.
pub open spec fn spec_is_package_itself(has_lib: bool, manifest_path: Seq<char>, manifest: Seq<char>) -> bool {
    has_lib && !contains_text(manifest_path, "cobadata"@) && contains_text(
        manifest,
        "name = \"rustbasic-jwt\""@,
    )
}

/// Whether the project with these facts is this package itself: whether it
/// has a `src/lib.rs`, the text of its manifest's path, and its manifest.
pub fn is_package_itself(has_lib: bool, manifest_path: &str, manifest: &str) -> (r: bool)
    ensures
        r == spec_is_package_itself(has_lib, manifest_path@, manifest@),
{
    has_lib && !contains_exec(manifest_path, "cobadata") && contains_exec(
        manifest,
        "name = \"rustbasic-jwt\"",
    )
}

/// The JWT settings appended to an existing `.env` file, after a blank
/// line and a header comment, with the generated secret.
pub open spec fn spec_jwt_config_appendix(secret: Seq<char>) -> Seq<char> {
    "\n# --- JWT CONFIG ---\nJWT_SECRET="@ + secret + "\nJWT_TTL=60\nJWT_REFRESH_TTL=20160\nJWT_ALGO=HS256\n"@
}

/// The contents of a new `.env` file with the JWT settings and the
/// generated secret.
pub open spec fn spec_new_env_file(secret: Seq<char>) -> Seq<char> {
    "JWT_SECRET="@ + secret + "\nJWT_TTL=60\nJWT_REFRESH_TTL=20160\nJWT_ALGO=HS256\n"@
}

/// Whether `.env` contents already configure JWT (they mention
/// `JWT_SECRET`).
pub fn env_has_jwt_config(content: &str) -> (r: bool)
    ensures
        r == contains_text(content@, "JWT_SECRET"@),
{
    contains_exec(content, "JWT_SECRET")
}

/// The JWT settings to append to an existing `.env` file.
pub fn jwt_config_appendix(secret: &str) -> (r: String)
    ensures
        r@ == spec_jwt_config_appendix(secret@),
{
    let mut r = String::from_str("\n# --- JWT CONFIG ---\nJWT_SECRET=");
    r.append(secret);
    r.append("\nJWT_TTL=60\nJWT_REFRESH_TTL=20160\nJWT_ALGO=HS256\n");
    r
}

/// The contents of a new `.env` file.
pub fn new_env_file(secret: &str) -> (r: String)
    ensures
        r@ == spec_new_env_file(secret@),
{
    let mut r = String::from_str("JWT_SECRET=");
    r.append(secret);
    r.append("\nJWT_TTL=60\nJWT_REFRESH_TTL=20160\nJWT_ALGO=HS256\n");
    r
}

/// The suffix that names the migration creating `table`.
pub open spec fn spec_migration_suffix(table: Seq<char>) -> Seq<char> {
    "create_"@ + table + "_table"@
}

/// The suffix that names the migration creating `table`:
/// `create_<table>_table`.
pub fn migration_suffix(table: &str) -> (r: String)
    ensures
        r@ == spec_migration_suffix(table@),
{
    let mut r = String::from_str("create_");
    r.append(table);
    r.append("_table");
    r
}

/// Whether a migration file name belongs to the migration creating `table`.
pub fn is_migration_for(file_name: &str, table: &str) -> (r: bool)
    ensures
        r == contains_text(file_name@, spec_migration_suffix(table@)),
{
    let suffix = migration_suffix(table);
    contains_exec(file_name, suffix.as_str())
}

/// The module name of the migration creating `table`, stamped with
/// `timestamp`: `m<timestamp>_create_<table>_table`.
pub fn migration_name(timestamp: &str, table: &str) -> (r: String)
    ensures
        r@ == "m"@ + timestamp@ + "_"@ + spec_migration_suffix(table@),
{
    let mut r = String::from_str("m");
    r.append(timestamp);
    r.append("_");
    let suffix = migration_suffix(table);
    r.append(suffix.as_str());
    r
}

/// The source of the migration creating the `users` table.
pub open spec fn spec_users_migration_source(name: Seq<char>) -> Seq<char> {
    "use rustbasic_core::{Schema, SchemaManager, MigrationTrait, DbErr};\nuse rustbasic_core::async_trait;\n\npub struct Migration;\n\n#[async_trait]\nimpl MigrationTrait for Migration {\n    fn name(&self) -> &str {\n        \""@ + name + "\"\n    }\n\n    async fn up<'a>(&self, manager: &'a SchemaManager<'a>) -> Result<(), DbErr> {\n        Schema::create(manager, \"users\", |table| {\n            table.string(\"name\").not_null();\n            table.string(\"email\").unique().not_null();\n            table.string(\"password\").not_null();\n        }).await?;\n\n        Ok(())\n    }\n\n    async fn down<'a>(&self, manager: &'a SchemaManager<'a>) -> Result<(), DbErr> {\n        Schema::drop(manager, \"users\").await?;\n        Ok(())\n    }\n}\n"@
}

/// The source of the migration creating the `jwt_blacklists` table.
pub open spec fn spec_blacklist_migration_source(name: Seq<char>) -> Seq<char> {
    "use rustbasic_core::{Schema, SchemaManager, MigrationTrait, DbErr};\nuse rustbasic_core::async_trait;\n\npub struct Migration;\n\n#[async_trait]\nimpl MigrationTrait for Migration {\n    fn name(&self) -> &str {\n        \""@ + name + "\"\n    }\n\n    async fn up<'a>(&self, manager: &'a SchemaManager<'a>) -> Result<(), DbErr> {\n        Schema::create(manager, \"jwt_blacklists\", |table| {\n            table.string(\"jti\").unique().not_null();\n            table.big_integer(\"exp\").not_null();\n        }).await?;\n\n        Ok(())\n    }\n\n    async fn down<'a>(&self, manager: &'a SchemaManager<'a>) -> Result<(), DbErr> {\n        Schema::drop(manager, \"jwt_blacklists\").await?;\n        Ok(())\n    }\n}\n"@
}

/// The source of the migration named `name` that creates the `users` table.
pub fn users_migration_source(name: &str) -> (r: String)
    ensures
        r@ == spec_users_migration_source(name@),
{
    let mut r = String::from_str("use rustbasic_core::{Schema, SchemaManager, MigrationTrait, DbErr};\nuse rustbasic_core::async_trait;\n\npub struct Migration;\n\n#[async_trait]\nimpl MigrationTrait for Migration {\n    fn name(&self) -> &str {\n        \"");
    r.append(name);
    r.append("\"\n    }\n\n    async fn up<'a>(&self, manager: &'a SchemaManager<'a>) -> Result<(), DbErr> {\n        Schema::create(manager, \"users\", |table| {\n            table.string(\"name\").not_null();\n            table.string(\"email\").unique().not_null();\n            table.string(\"password\").not_null();\n        }).await?;\n\n        Ok(())\n    }\n\n    async fn down<'a>(&self, manager: &'a SchemaManager<'a>) -> Result<(), DbErr> {\n        Schema::drop(manager, \"users\").await?;\n        Ok(())\n    }\n}\n");
    r
}

/// The source of the migration named `name` that creates the
/// `jwt_blacklists` table.
pub fn blacklist_migration_source(name: &str) -> (r: String)
    ensures
        r@ == spec_blacklist_migration_source(name@),
{
    let mut r = String::from_str("use rustbasic_core::{Schema, SchemaManager, MigrationTrait, DbErr};\nuse rustbasic_core::async_trait;\n\npub struct Migration;\n\n#[async_trait]\nimpl MigrationTrait for Migration {\n    fn name(&self) -> &str {\n        \"");
    r.append(name);
    r.append("\"\n    }\n\n    async fn up<'a>(&self, manager: &'a SchemaManager<'a>) -> Result<(), DbErr> {\n        Schema::create(manager, \"jwt_blacklists\", |table| {\n            table.string(\"jti\").unique().not_null();\n            table.big_integer(\"exp\").not_null();\n        }).await?;\n\n        Ok(())\n    }\n\n    async fn down<'a>(&self, manager: &'a SchemaManager<'a>) -> Result<(), DbErr> {\n        Schema::drop(manager, \"jwt_blacklists\").await?;\n        Ok(())\n    }\n}\n");
    r
}

/// The source of the `user` model.
pub fn users_model_source() -> (r: &'static str)
    ensures
        r@ == "use rustbasic_core::model;\n\nmodel! {\n    table: \"users\",\n    fillable: [name, email, password],\n    Model {\n        pub id: i32,\n        pub name: String,\n        pub email: String,\n        #[serde(skip_serializing)]\n        pub password: String,\n        pub created_at: Option<chrono::NaiveDateTime>,\n        pub updated_at: Option<chrono::NaiveDateTime>,\n    }\n}\n"@,
{
    "use rustbasic_core::model;\n\nmodel! {\n    table: \"users\",\n    fillable: [name, email, password],\n    Model {\n        pub id: i32,\n        pub name: String,\n        pub email: String,\n        #[serde(skip_serializing)]\n        pub password: String,\n        pub created_at: Option<chrono::NaiveDateTime>,\n        pub updated_at: Option<chrono::NaiveDateTime>,\n    }\n}\n"
}

/// The source of the `jwt_blacklist` model.
pub fn blacklist_model_source() -> (r: &'static str)
    ensures
        r@ == "use rustbasic_core::model;\n\nmodel! {\n    table: \"jwt_blacklists\",\n    Model {\n        pub id: i32,\n        pub jti: String,\n        pub exp: i64,\n        pub created_at: Option<chrono::NaiveDateTime>,\n    }\n}\n"@,
{
    "use rustbasic_core::model;\n\nmodel! {\n    table: \"jwt_blacklists\",\n    Model {\n        pub id: i32,\n        pub jti: String,\n        pub exp: i64,\n        pub created_at: Option<chrono::NaiveDateTime>,\n    }\n}\n"
}

/// The header of the function that lists a project's migrations.
pub open spec fn migrations_fn_header() -> Seq<char> {
    "fn migrations() -> Vec<Box<dyn MigrationTrait>> {"@
}

/// The line that closes the list of migrations.
pub open spec fn migrations_list_end() -> Seq<char> {
    "        ]"@
}

/// The declaration of module `name`.
pub open spec fn mod_declaration(name: Seq<char>) -> Seq<char> {
    "pub mod "@ + name + ";"@
}

/// The contents of a migrations `mod.rs` with module `name` declared: as
/// they are when they declare it, else with the declaration appended on a
/// line of its own.
pub open spec fn with_mod_declared(content: Seq<char>, name: Seq<char>) -> Seq<char> {
    if contains_text(content, mod_declaration(name)) {
        content
    } else {
        content + "\npub mod "@ + name + ";\n"@
    }
}

/// The entry that adds the migration of module `name` to the list.
pub open spec fn migration_entry(name: Seq<char>) -> Seq<char> {
    "            Box::new("@ + name + "::Migration),\n"@
}

/// The contents of a migrations `mod.rs` with the migration of module
/// `name` registered: the module declared, and its entry inserted just
/// before the first list end that follows the first header of the
/// migrations function (when there are both).
pub open spec fn spec_register_migration(content: Seq<char>, name: Seq<char>) -> Seq<char> {
    let c = with_mod_declared(content, name);
    if exists|pos: int| is_first_occurrence(c, migrations_fn_header(), 0, pos) {
        let pos = choose|pos: int| is_first_occurrence(c, migrations_fn_header(), 0, pos);
        if exists|at: int| is_first_occurrence(c, migrations_list_end(), pos, at) {
            let at = choose|at: int| is_first_occurrence(c, migrations_list_end(), pos, at);
            c.take(at) + migration_entry(name) + c.skip(at)
        } else {
            c
        }
    } else {
        c
    }
}

/// Registers the migration of module `name` in the contents of a
/// migrations `mod.rs`.
pub fn register_migration(content: &str, name: &str) -> (r: String)
    ensures
        r@ == spec_register_migration(content@, name@),
{
    let mut decl = String::from_str("pub mod ");
    decl.append(name);
    decl.append(";");
    let mut c = String::from_str(content);
    if !contains_exec(content, decl.as_str()) {
        c.append("\npub mod ");
        c.append(name);
        c.append(";\n");
    }
    assert(c@ == with_mod_declared(content@, name@));
    let cv = chars_of(c.as_str());
    let header = chars_of("fn migrations() -> Vec<Box<dyn MigrationTrait>> {");
    let end = chars_of("        ]");
    match find_from(&cv, &header, 0) {
        Some(pos) => {
            match find_from(&cv, &end, pos) {
                Some(at) => {
                    let mut r = String::from_str(c.as_str().substring_char(0, at));
                    r.append("            Box::new(");
                    r.append(name);
                    r.append("::Migration),\n");
                    r.append(c.as_str().substring_char(at, cv.len()));
                    proof {
                        let s = c@;
                        assert(is_first_occurrence(s, migrations_fn_header(), 0, pos as int));
                        let p = choose|p: int| is_first_occurrence(s, migrations_fn_header(), 0, p);
                        assert(p == pos);
                        assert(is_first_occurrence(s, migrations_list_end(), pos as int, at as int));
                        let a = choose|a: int| is_first_occurrence(s, migrations_list_end(), pos as int, a);
                        assert(a == at);
                        assert(r@ =~= s.take(at as int) + migration_entry(name@) + s.skip(at as int));
                    }
                    r
                },
                None => {
                    proof {
                        let s = c@;
                        let p = choose|p: int| is_first_occurrence(s, migrations_fn_header(), 0, p);
                        assert(p == pos);
                    }
                    c
                },
            }
        },
        None => c,
    }
}

/// The declaration of model module `snake`.
pub open spec fn model_mod_line(snake: Seq<char>) -> Seq<char> {
    "pub mod "@ + snake + ";"@
}

/// The declaration of the plural model module of `snake`.
pub open spec fn plural_model_mod_line(snake: Seq<char>) -> Seq<char> {
    "pub mod "@ + snake + "s;"@
}

/// The lines that register model `snake` (its entity exported as
/// `class`) in a models `mod.rs`: none when the module, singular or plural,
/// is already declared.
pub open spec fn spec_model_registration(content: Seq<char>, class: Seq<char>, snake: Seq<char>) -> Option<
    Seq<char>,
> {
    if contains_text(content, model_mod_line(snake)) || contains_text(
        content,
        plural_model_mod_line(snake),
    ) {
        None
    } else {
        Some("pub mod "@ + snake + ";\npub use "@ + snake + "::Entity as "@ + class + ";\n"@)
    }
}

/// The lines to append to a models `mod.rs` to register model `snake`.
pub fn model_registration(content: &str, class: &str, snake: &str) -> (r: Option<String>)
    ensures
        match r {
            Some(t) => spec_model_registration(content@, class@, snake@) == Some(t@),
            None => spec_model_registration(content@, class@, snake@) is None,
        },
{
    let mut singular = String::from_str("pub mod ");
    singular.append(snake);
    singular.append(";");
    let mut plural = String::from_str("pub mod ");
    plural.append(snake);
    plural.append("s;");
    if contains_exec(content, singular.as_str()) || contains_exec(content, plural.as_str()) {
        return None;
    }
    let mut r = String::from_str("pub mod ");
    r.append(snake);
    r.append(";\npub use ");
    r.append(snake);
    r.append("::Entity as ");
    r.append(class);
    r.append(";\n");
    Some(r)
}

/// Appending the JWT settings, or writing a new `.env` file, leaves a file
/// that counts as configured, so the settings are added only once.
pub proof fn lemma_written_settings_count_as_configured(content: Seq<char>, secret: Seq<char>)
    ensures
        contains_text(content + spec_jwt_config_appendix(secret), "JWT_SECRET"@),
        contains_text(spec_new_env_file(secret), "JWT_SECRET"@),
{
    reveal_strlit("JWT_SECRET");
    reveal_strlit("JWT_SECRET=");
    reveal_strlit("\n# --- JWT CONFIG ---\nJWT_SECRET=");
    let key = "JWT_SECRET"@;
    let n: int = content.len() as int;
    let a = content + spec_jwt_config_appendix(secret);
    assert(a.subrange(n + 22, n + 32) =~= key);
    assert(occurs_at(a, key, n + 22));
    let f = spec_new_env_file(secret);
    assert(f.subrange(0, 10) =~= key);
    assert(occurs_at(f, key, 0));
}

/// A model, once registered, is not registered again.
pub proof fn lemma_model_registered_once(content: Seq<char>, class: Seq<char>, snake: Seq<char>)
    ensures
        spec_model_registration(content, class, snake) matches Some(t) ==> spec_model_registration(
            content + t,
            class,
            snake,
        ) is None,
{
    reveal_strlit("pub mod ");
    reveal_strlit(";");
    reveal_strlit(";\npub use ");
    if let Some(t) = spec_model_registration(content, class, snake) {
        let line = model_mod_line(snake);
        let all = content + t;
        let n: int = content.len() as int;
        assert(all.subrange(n, n + line.len()) =~= line);
        assert(occurs_at(all, line, content.len() as int));
    }
}

/// Registering a migration declares its module, and declaring twice is
/// declaring once.
pub proof fn lemma_migration_module_declared(content: Seq<char>, name: Seq<char>)
    ensures
        contains_text(with_mod_declared(content, name), mod_declaration(name)),
        with_mod_declared(with_mod_declared(content, name), name) == with_mod_declared(content, name),
{
    reveal_strlit("pub mod ");
    reveal_strlit(";");
    reveal_strlit("\npub mod ");
    reveal_strlit(";\n");
    if !contains_text(content, mod_declaration(name)) {
        let c = with_mod_declared(content, name);
        let d = mod_declaration(name);
        let n: int = content.len() as int;
        assert(c.subrange(n + 1, n + 1 + d.len()) =~= d);
        assert(occurs_at(c, d, n + 1));
    }
}

/// The builder method a migration calls to declare a column of `kind`.
pub open spec fn column_method(kind: ColumnKind) -> Seq<char> {
    match kind {
        ColumnKind::String => "string"@,
        ColumnKind::BigInteger => "big_integer"@,
    }
}

/// The line of a migration's `up` that declares column `c`, with its
/// constraints.
pub open spec fn column_statement(c: ColumnDefinition) -> Seq<char> {
    "            table."@ + column_method(c.kind) + "(\""@ + c.name@ + "\")"@ + (if c.unique {
        ".unique()"@
    } else {
        ""@
    }) + (if c.not_null {
        ".not_null()"@
    } else {
        ""@
    }) + ";\n"@
}

/// The lines that declare `columns`, in order.
pub open spec fn column_statements(columns: Seq<ColumnDefinition>) -> Seq<char>
    decreases columns.len(),
{
    if columns.len() == 0 {
        Seq::empty()
    } else {
        column_statements(columns.drop_last()) + column_statement(columns.last())
    }
}

/// The call of a migration's `up` that creates table `t` with its columns.
pub open spec fn create_table_call(t: TableDefinition) -> Seq<char> {
    "Schema::create(manager, \""@ + t.name@ + "\", |table| {\n"@ + column_statements(t.columns@)
        + "        }).await?;"@
}

/// The call of a migration's `down` that drops the table named `table`.
pub open spec fn drop_table_call(table: Seq<char>) -> Seq<char> {
    "Schema::drop(manager, \""@ + table + "\").await?;"@
}

/// The scaffolded users migration, whatever its name, creates in `up`
/// exactly the table that the users migration creates (`users`, with its
/// columns in order and their constraints: name, unique email, password,
/// all non-null), and drops that table in `down`.
pub proof fn lemma_users_migration_source_creates_the_users_table(name: Seq<char>, change: SchemaChange)
    requires
        creates_users_table(change),
    ensures
        change matches SchemaChange::CreateTable(t) && contains_text(
            spec_users_migration_source(name),
            create_table_call(t),
        ) && contains_text(spec_users_migration_source(name), drop_table_call(t.name@)),
{
    reveal_strlit("Schema::create(manager, \"");
    reveal_strlit("\", |table| {\n");
    reveal_strlit("        }).await?;");
    reveal_strlit("            table.");
    reveal_strlit("string");
    reveal_strlit("big_integer");
    reveal_strlit("(\"");
    reveal_strlit("\")");
    reveal_strlit(".unique()");
    reveal_strlit(".not_null()");
    reveal_strlit(";\n");
    reveal_strlit("");
    reveal_strlit("Schema::drop(manager, \"");
    reveal_strlit("\").await?;");
    reveal_strlit("use rustbasic_core::{Schema, SchemaManager, MigrationTrait, DbErr};\nuse rustbasic_core::async_trait;\n\npub struct Migration;\n\n#[async_trait]\nimpl MigrationTrait for Migration {\n    fn name(&self) -> &str {\n        \"");
    reveal_strlit("\"\n    }\n\n    async fn up<'a>(&self, manager: &'a SchemaManager<'a>) -> Result<(), DbErr> {\n        Schema::create(manager, \"users\", |table| {\n            table.string(\"name\").not_null();\n            table.string(\"email\").unique().not_null();\n            table.string(\"password\").not_null();\n        }).await?;\n\n        Ok(())\n    }\n\n    async fn down<'a>(&self, manager: &'a SchemaManager<'a>) -> Result<(), DbErr> {\n        Schema::drop(manager, \"users\").await?;\n        Ok(())\n    }\n}\n");
    reveal_strlit("Schema::create(manager, \"users\", |table| {\n            table.string(\"name\").not_null();\n            table.string(\"email\").unique().not_null();\n            table.string(\"password\").not_null();\n        }).await?;");
    reveal_strlit("Schema::drop(manager, \"users\").await?;");
    reveal_strlit("users");
    reveal_strlit("name");
    reveal_strlit("email");
    reveal_strlit("password");
    let t = change->CreateTable_0;
    let cols = t.columns@;
    assert(cols.drop_last().drop_last().drop_last() =~= Seq::<ColumnDefinition>::empty());
    reveal_with_fuel(column_statements, 4);
    reveal_strlit("            table.string(\"name\").not_null();\n");
    assert(column_statement(cols[0]) =~= "            table.string(\"name\").not_null();\n"@);
    reveal_strlit("            table.string(\"email\").unique().not_null();\n");
    assert(column_statement(cols[1]) =~= "            table.string(\"email\").unique().not_null();\n"@);
    reveal_strlit("            table.string(\"password\").not_null();\n");
    assert(column_statement(cols[2]) =~= "            table.string(\"password\").not_null();\n"@);
    assert(cols.drop_last()[1] == cols[1] && cols.drop_last().drop_last()[0] == cols[0]);
    assert(column_statements(cols) =~= column_statement(cols[0]) + column_statement(cols[1]) + column_statement(cols[2]));
    assert(create_table_call(t) =~= "Schema::create(manager, \"users\", |table| {\n            table.string(\"name\").not_null();\n            table.string(\"email\").unique().not_null();\n            table.string(\"password\").not_null();\n        }).await?;"@);
    assert(drop_table_call(t.name@) =~= "Schema::drop(manager, \"users\").await?;"@);
    let src = spec_users_migration_source(name);
    let at: int = 214 + name.len() as int;
    let tail = "\"\n    }\n\n    async fn up<'a>(&self, manager: &'a SchemaManager<'a>) -> Result<(), DbErr> {\n        Schema::create(manager, \"users\", |table| {\n            table.string(\"name\").not_null();\n            table.string(\"email\").unique().not_null();\n            table.string(\"password\").not_null();\n        }).await?;\n\n        Ok(())\n    }\n\n    async fn down<'a>(&self, manager: &'a SchemaManager<'a>) -> Result<(), DbErr> {\n        Schema::drop(manager, \"users\").await?;\n        Ok(())\n    }\n}\n"@;
    assert(src =~= "use rustbasic_core::{Schema, SchemaManager, MigrationTrait, DbErr};\nuse rustbasic_core::async_trait;\n\npub struct Migration;\n\n#[async_trait]\nimpl MigrationTrait for Migration {\n    fn name(&self) -> &str {\n        \""@ + name + tail);
    assert(tail.subrange(99, 309) =~= "Schema::create(manager, \"users\", |table| {\n            table.string(\"name\").not_null();\n            table.string(\"email\").unique().not_null();\n            table.string(\"password\").not_null();\n        }).await?;"@);
    assert(src.subrange(at + 99, at + 309) =~= "Schema::create(manager, \"users\", |table| {\n            table.string(\"name\").not_null();\n            table.string(\"email\").unique().not_null();\n            table.string(\"password\").not_null();\n        }).await?;"@);
    assert(occurs_at(src, create_table_call(t), at + 99));
    assert(tail.subrange(425, 463) =~= "Schema::drop(manager, \"users\").await?;"@);
    assert(src.subrange(at + 425, at + 463) =~= "Schema::drop(manager, \"users\").await?;"@);
    assert(occurs_at(src, drop_table_call(t.name@), at + 425));
}

/// The scaffolded blacklist migration, whatever its name, creates in `up`
/// exactly the table that the blacklist migration creates
/// (`jwt_blacklists`, with a unique token id and an expiry, both non-null),
/// and drops that table in `down`.
pub proof fn lemma_blacklist_migration_source_creates_the_blacklist_table(name: Seq<char>, change: SchemaChange)
    requires
        creates_blacklist_table(change),
    ensures
        change matches SchemaChange::CreateTable(t) && contains_text(
            spec_blacklist_migration_source(name),
            create_table_call(t),
        ) && contains_text(spec_blacklist_migration_source(name), drop_table_call(t.name@)),
{
    reveal_strlit("Schema::create(manager, \"");
    reveal_strlit("\", |table| {\n");
    reveal_strlit("        }).await?;");
    reveal_strlit("            table.");
    reveal_strlit("string");
    reveal_strlit("big_integer");
    reveal_strlit("(\"");
    reveal_strlit("\")");
    reveal_strlit(".unique()");
    reveal_strlit(".not_null()");
    reveal_strlit(";\n");
    reveal_strlit("");
    reveal_strlit("Schema::drop(manager, \"");
    reveal_strlit("\").await?;");
    reveal_strlit("use rustbasic_core::{Schema, SchemaManager, MigrationTrait, DbErr};\nuse rustbasic_core::async_trait;\n\npub struct Migration;\n\n#[async_trait]\nimpl MigrationTrait for Migration {\n    fn name(&self) -> &str {\n        \"");
    reveal_strlit("\"\n    }\n\n    async fn up<'a>(&self, manager: &'a SchemaManager<'a>) -> Result<(), DbErr> {\n        Schema::create(manager, \"jwt_blacklists\", |table| {\n            table.string(\"jti\").unique().not_null();\n            table.big_integer(\"exp\").not_null();\n        }).await?;\n\n        Ok(())\n    }\n\n    async fn down<'a>(&self, manager: &'a SchemaManager<'a>) -> Result<(), DbErr> {\n        Schema::drop(manager, \"jwt_blacklists\").await?;\n        Ok(())\n    }\n}\n");
    reveal_strlit("Schema::create(manager, \"jwt_blacklists\", |table| {\n            table.string(\"jti\").unique().not_null();\n            table.big_integer(\"exp\").not_null();\n        }).await?;");
    reveal_strlit("Schema::drop(manager, \"jwt_blacklists\").await?;");
    reveal_strlit("jwt_blacklists");
    reveal_strlit("jti");
    reveal_strlit("exp");
    let t = change->CreateTable_0;
    let cols = t.columns@;
    assert(cols.drop_last().drop_last() =~= Seq::<ColumnDefinition>::empty());
    reveal_with_fuel(column_statements, 3);
    reveal_strlit("            table.string(\"jti\").unique().not_null();\n");
    assert(column_statement(cols[0]) =~= "            table.string(\"jti\").unique().not_null();\n"@);
    reveal_strlit("            table.big_integer(\"exp\").not_null();\n");
    assert(column_statement(cols[1]) =~= "            table.big_integer(\"exp\").not_null();\n"@);
    assert(cols.drop_last()[0] == cols[0]);
    assert(column_statements(cols) =~= column_statement(cols[0]) + column_statement(cols[1]));
    assert(create_table_call(t) =~= "Schema::create(manager, \"jwt_blacklists\", |table| {\n            table.string(\"jti\").unique().not_null();\n            table.big_integer(\"exp\").not_null();\n        }).await?;"@);
    assert(drop_table_call(t.name@) =~= "Schema::drop(manager, \"jwt_blacklists\").await?;"@);
    let src = spec_blacklist_migration_source(name);
    let at: int = 214 + name.len() as int;
    let tail = "\"\n    }\n\n    async fn up<'a>(&self, manager: &'a SchemaManager<'a>) -> Result<(), DbErr> {\n        Schema::create(manager, \"jwt_blacklists\", |table| {\n            table.string(\"jti\").unique().not_null();\n            table.big_integer(\"exp\").not_null();\n        }).await?;\n\n        Ok(())\n    }\n\n    async fn down<'a>(&self, manager: &'a SchemaManager<'a>) -> Result<(), DbErr> {\n        Schema::drop(manager, \"jwt_blacklists\").await?;\n        Ok(())\n    }\n}\n"@;
    assert(src =~= "use rustbasic_core::{Schema, SchemaManager, MigrationTrait, DbErr};\nuse rustbasic_core::async_trait;\n\npub struct Migration;\n\n#[async_trait]\nimpl MigrationTrait for Migration {\n    fn name(&self) -> &str {\n        \""@ + name + tail);
    assert(tail.subrange(99, 271) =~= "Schema::create(manager, \"jwt_blacklists\", |table| {\n            table.string(\"jti\").unique().not_null();\n            table.big_integer(\"exp\").not_null();\n        }).await?;"@);
    assert(src.subrange(at + 99, at + 271) =~= "Schema::create(manager, \"jwt_blacklists\", |table| {\n            table.string(\"jti\").unique().not_null();\n            table.big_integer(\"exp\").not_null();\n        }).await?;"@);
    assert(occurs_at(src, create_table_call(t), at + 99));
    assert(tail.subrange(387, 434) =~= "Schema::drop(manager, \"jwt_blacklists\").await?;"@);
    assert(src.subrange(at + 387, at + 434) =~= "Schema::drop(manager, \"jwt_blacklists\").await?;"@);
    assert(occurs_at(src, drop_table_call(t.name@), at + 387));
}

} // verus!
