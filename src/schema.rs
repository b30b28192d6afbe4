use vstd::prelude::*;
use vstd::string::StringExecFns;

verus! {

/// Whether a migration evolves the schema forward or rolls it back.
#[derive(Clone, Copy, Debug, PartialEq, Eq, Structural)]
pub enum MigrationDirection {
    Up,
    Down,
}

/// One versioned schema script for the local database.
#[derive(Debug)]
pub struct SchemaMigration {
    pub version: i64,
    pub description: String,
    pub sql: String,
    pub direction: MigrationDirection,
}

/// Versions rise strictly along the list, so each script runs once, in order.
pub open spec fn ascending_versions(m: Seq<SchemaMigration>) -> bool {
    forall|i: int, j: int| 0 <= i < j < m.len() ==> #[trigger] m[i].version < #[trigger] m[j].version
}

/// The location of the application's database, as the SQL plugin takes it.
pub fn database_url() -> (r: String)
    ensures
        r@ == "sqlite:simple-pos.db"@,
{
    String::from_str("sqlite:simple-pos.db")
}

/// The migrations applied at start-up: the initial tables, then the complete
/// schema, both forward, with the given script texts.
pub fn app_migrations(initial_sql: String, complete_sql: String) -> (r: Vec<SchemaMigration>)
    ensures
        r.len() == 2,
        r[0].version == 1,
        r[0].description@ == "create initial tables"@,
        r[0].sql@ == initial_sql@,
        r[0].direction == MigrationDirection::Up,
        r[1].version == 2,
        r[1].description@ == "complete schema"@,
        r[1].sql@ == complete_sql@,
        r[1].direction == MigrationDirection::Up,
        ascending_versions(r@),
{
    let mut r: Vec<SchemaMigration> = Vec::new();
    r.push(
        SchemaMigration {
            version: 1,
            description: String::from_str("create initial tables"),
            sql: initial_sql,
            direction: MigrationDirection::Up,
        },
    );
    r.push(
        SchemaMigration {
            version: 2,
            description: String::from_str("complete schema"),
            sql: complete_sql,
            direction: MigrationDirection::Up,
        },
    );
    r
}

} // verus!
