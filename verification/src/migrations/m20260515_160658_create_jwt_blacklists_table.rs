//! The migration that creates the token blacklist table.

use vstd::prelude::*;
use vstd::string::*;
use super::{ColumnDefinition, ColumnKind, SchemaChange, TableDefinition};

verus! {

/// Creates (and, undone, drops) the `jwt_blacklists` table: the id of each
/// invalidated token, unique, and its expiry.
pub struct Migration;

/// Whether `change` creates the `jwt_blacklists` table with a unique,
/// non-null string column `jti` and a non-null big-integer column `exp`.
pub open spec fn creates_blacklist_table(change: SchemaChange) -> bool {
    change matches SchemaChange::CreateTable(t) && {
        &&& t.name@ == "jwt_blacklists"@
        &&& t.columns@.len() == 2
        &&& t.columns@[0].describes("jti"@, ColumnKind::String, true, true)
        &&& t.columns@[1].describes("exp"@, ColumnKind::BigInteger, false, true)
    }
}

impl Migration {
    /// The migration's name.
    pub fn name(&self) -> (r: &'static str)
        ensures
            r@ == "m20260515_160658_create_jwt_blacklists_table"@,
    {
        "m20260515_160658_create_jwt_blacklists_table"
    }

    /// The change that applies the migration.
    pub fn up(&self) -> (r: SchemaChange)
        ensures
            creates_blacklist_table(r),
    {
        let mut columns: Vec<ColumnDefinition> = Vec::new();
        columns.push(ColumnDefinition::new("jti", ColumnKind::String, true, true));
        columns.push(ColumnDefinition::new("exp", ColumnKind::BigInteger, false, true));
        SchemaChange::CreateTable(TableDefinition { name: String::from_str("jwt_blacklists"), columns })
    }

    /// The change that undoes the migration.
    pub fn down(&self) -> (r: SchemaChange)
        ensures
            r matches SchemaChange::DropTable(n) && n@ == "jwt_blacklists"@,
    {
        SchemaChange::DropTable(String::from_str("jwt_blacklists"))
    }
}

} // verus!
