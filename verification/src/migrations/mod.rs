//! The schema migrations the package installs, each described as the schema
//! change it makes; running a change against a database is the caller's.

use vstd::prelude::*;
use vstd::string::*;

pub mod m20260515_160658_create_users_table;
pub mod m20260515_160658_create_jwt_blacklists_table;

verus! {

/// The type of a column.
#[derive(Clone, Copy, Debug, PartialEq, Eq, Structural)]
pub enum ColumnKind {
    /// A string column.
    String,
    /// A 64-bit integer column.
    BigInteger,
}

/// A column of a table to create.
pub struct ColumnDefinition {
    pub name: String,
    pub kind: ColumnKind,
    pub unique: bool,
    pub not_null: bool,
}

/// A table to create: its name and its columns, in order.
pub struct TableDefinition {
    pub name: String,
    pub columns: Vec<ColumnDefinition>,
}

/// A change to a database schema.
pub enum SchemaChange {
    /// Create this table.
    CreateTable(TableDefinition),
    /// Drop the table of this name.
    DropTable(String),
}

impl ColumnDefinition {
    /// Whether this column is named `name`, holds `kind`, and has the given
    /// constraints.
    pub open spec fn describes(self, name: Seq<char>, kind: ColumnKind, unique: bool, not_null: bool) -> bool {
        self.name@ == name && self.kind == kind && self.unique == unique && self.not_null == not_null
    }

    /// A column named `name` of type `kind` with the given constraints.
    pub fn new(name: &str, kind: ColumnKind, unique: bool, not_null: bool) -> (c: ColumnDefinition)
        ensures
            c.describes(name@, kind, unique, not_null),
    {
        ColumnDefinition { name: String::from_str(name), kind, unique, not_null }
    }
}

} // verus!
