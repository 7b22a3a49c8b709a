//! The migration that creates the users table.

use vstd::prelude::*;
use vstd::string::*;
use super::{ColumnDefinition, ColumnKind, SchemaChange, TableDefinition};

verus! {

/// Creates (and, undone, drops) the `users` table: name, unique email and
/// password.
pub struct Migration;

/// Whether `change` creates the `users` table with non-null string columns
/// `name`, `email` (unique) and `password`.
pub open spec fn creates_users_table(change: SchemaChange) -> bool {
    change matches SchemaChange::CreateTable(t) && {
        &&& t.name@ == "users"@
        &&& t.columns@.len() == 3
        &&& t.columns@[0].describes("name"@, ColumnKind::String, false, true)
        &&& t.columns@[1].describes("email"@, ColumnKind::String, true, true)
        &&& t.columns@[2].describes("password"@, ColumnKind::String, false, true)
    }
}

impl Migration {
    /// The migration's name.
    pub fn name(&self) -> (r: &'static str)
        ensures
            r@ == "m20260515_160658_create_users_table"@,
    {
        "m20260515_160658_create_users_table"
    }

    /// The change that applies the migration.
    pub fn up(&self) -> (r: SchemaChange)
        ensures
            creates_users_table(r),
    {
        let mut columns: Vec<ColumnDefinition> = Vec::new();
        columns.push(ColumnDefinition::new("name", ColumnKind::String, false, true));
        columns.push(ColumnDefinition::new("email", ColumnKind::String, true, true));
        columns.push(ColumnDefinition::new("password", ColumnKind::String, false, true));
        SchemaChange::CreateTable(TableDefinition { name: String::from_str("users"), columns })
    }

    /// The change that undoes the migration.
    pub fn down(&self) -> (r: SchemaChange)
        ensures
            r matches SchemaChange::DropTable(n) && n@ == "users"@,
    {
        SchemaChange::DropTable(String::from_str("users"))
    }
}

} // verus!
