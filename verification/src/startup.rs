//! Startup: schema migrations and the fail-fast decision.
//!
//! Migrations are an ordered, versioned list of schema scripts. Before the
//! service accepts traffic the pending ones — those whose version the store
//! has not recorded as applied — are applied in order; already-applied ones
//! are skipped, so running the step twice applies nothing the second time.
//! If migrations cannot be applied the service refuses to start.

use vstd::prelude::*;

verus! {

/// Why startup was refused.
#[derive(Clone, Copy, Debug, PartialEq, Eq, Structural)]
pub enum MigrationError {
    /// No store handle was available to migrate.
    PoolMissing,
    /// A migration script failed to apply.
    Failed,
}

/// One versioned schema script.
pub struct Migration {
    /// The script's place in the order; versions strictly increase.
    pub version: u64,
    /// The schema-changing statement itself.
    pub sql: String,
}

/// Whether `versions` records `v` as applied.
fn is_applied(versions: &Vec<u64>, v: u64) -> (r: bool)
    ensures
        r == versions@.contains(v),
{
    let n = versions.len();
    let mut i: usize = 0;
    while i < n
        invariant
            n == versions@.len(),
            i <= n,
            forall|j: int| 0 <= j < i ==> versions@[j] != v,
        decreases n - i,
    {
        if versions[i] == v {
            return true;
        }
        i = i + 1;
    }
    false
}

/// The positions, in order, of the migrations still to apply: exactly those
/// of `all` whose version `applied` does not record. When every version is
/// recorded, nothing is pending — the step is idempotent.
pub fn pending_migrations(all: &Vec<Migration>, applied: &Vec<u64>) -> (r: Vec<usize>)
    ensures
        forall|a: int, b: int| 0 <= a < b < r@.len() ==> r@[a] < r@[b],
        forall|j: int|
            0 <= j < r@.len() ==> r@[j] < all@.len() && !applied@.contains(
                all@[r@[j] as int].version,
            ),
        forall|i: int|
            0 <= i < all@.len() && !applied@.contains(all@[i].version) ==> r@.contains(i as usize),
        (forall|i: int| 0 <= i < all@.len() ==> applied@.contains(all@[i].version)) ==> r@.len()
            == 0,
{
    let n = all.len();
    let mut r: Vec<usize> = Vec::new();
    let mut i: usize = 0;
    while i < n
        invariant
            n == all@.len(),
            i <= n,
            forall|a: int, b: int| 0 <= a < b < r@.len() ==> r@[a] < r@[b],
            forall|j: int|
                0 <= j < r@.len() ==> r@[j] < i && !applied@.contains(all@[r@[j] as int].version),
            forall|k: int|
                0 <= k < i && !applied@.contains(all@[k].version) ==> r@.contains(k as usize),
        decreases n - i,
    {
        if !is_applied(applied, all[i].version) {
            let ghost prior = r@;
            r.push(i);
            proof {
                assert(r@[r@.len() - 1] == i);
                assert forall|k: int|
                    0 <= k < i + 1 && !applied@.contains(all@[k].version) implies r@.contains(
                    k as usize,
                ) by {
                    if k < i {
                        let j = choose|j: int| 0 <= j < prior.len() && prior[j] == k as usize;
                        assert(r@[j] == k as usize);
                    } else {
                        assert(r@[r@.len() - 1] == k as usize);
                    }
                }
            }
        }
        i = i + 1;
    }
    proof {
        if r@.len() > 0 {
            assert(!applied@.contains(all@[r@[0] as int].version));
        }
    }
    r
}

/// The fail-fast rule at startup, applied to what the migration step found:
/// start only when a store handle was fetched and every pending migration
/// applied; otherwise refuse, naming what went wrong.
pub fn run_migrations(pool_found: bool, migrations_ok: bool) -> (r: Result<(), MigrationError>)
    ensures
        r is Ok <==> pool_found && migrations_ok,
        !pool_found ==> r == Err::<(), MigrationError>(MigrationError::PoolMissing),
        pool_found && !migrations_ok ==> r == Err::<(), MigrationError>(MigrationError::Failed),
{
    if !pool_found {
        Err(MigrationError::PoolMissing)
    } else if !migrations_ok {
        Err(MigrationError::Failed)
    } else {
        Ok(())
    }
}

} // verus!
