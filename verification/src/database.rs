//! The state of the database schema.

use vstd::prelude::*;

verus! {

/// A migration, and whether it has been applied.
#[derive(Debug, Clone, Copy, PartialEq, Eq, Structural)]
pub struct MigrationStatus {
    pub version: i64,
    pub applied: bool,
}

/// The status of the `available` migrations, in their order: a migration
/// is applied where its version is among `applied`.
pub open spec fn migration_status_spec(available: Seq<i64>, applied: Seq<i64>) -> Seq<MigrationStatus> {
    Seq::new(
        available.len(),
        |i: int| MigrationStatus { version: available[i], applied: applied.contains(available[i]) },
    )
}

/// Whether `version` is among `applied`.
pub fn is_applied(applied: &Vec<i64>, version: i64) -> (found: bool)
    ensures
        found == applied@.contains(version),
{
    let mut index: usize = 0;
    while index < applied.len()
        invariant
            index <= applied@.len(),
            forall|j: int| 0 <= j < index ==> applied@[j] != version,
        decreases applied@.len() - index,
    {
        if applied[index] == version {
            return true;
        }
        index = index + 1;
    }
    false
}

/// Tells for each available migration whether it has been applied; see
/// [`migration_status_spec`].
pub fn migration_status(available: &Vec<i64>, applied: &Vec<i64>) -> (status: Vec<MigrationStatus>)
    ensures
        status@ == migration_status_spec(available@, applied@),
{
    let mut status: Vec<MigrationStatus> = Vec::new();
    let mut index: usize = 0;
    while index < available.len()
        invariant
            index <= available@.len(),
            status@.len() == index,
            forall|j: int|
                0 <= j < index ==> status@[j] == (MigrationStatus {
                    version: available@[j],
                    applied: applied@.contains(available@[j]),
                }),
        decreases available@.len() - index,
    {
        let version = available[index];
        status.push(MigrationStatus { version, applied: is_applied(applied, version) });
        index = index + 1;
    }
    assert(status@ =~= migration_status_spec(available@, applied@));
    status
}

} // verus!
