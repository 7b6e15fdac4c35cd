//! What every chainstate database offers, whatever its schema: a backup.

use vstd::prelude::*;
use crate::error::ErrorKind;

verus! {

/// Whether `e` is one of the failures that a backup reports: the store does
/// not support it, the source does not exist, the source cannot be reached,
/// or the copy itself failed.
pub open spec fn is_backup_failure(e: ErrorKind) -> bool {
    e is NotImplemented || e is NoDBError || e is ConnectionError || e is StoreError
}

/// A persistent chainstate database.
///
/// Each concrete store implements this for itself. What `backup` promises
/// here is owed by the implementation; of one written outside verified code
/// it is taken on trust.
pub trait ChainstateDB {
    /// Copies the whole store, as of one moment, to `backup_path`. The call
    /// returns when the copy is complete or has failed, and a failure is one
    /// of the four that a backup reports.
    fn backup(backup_path: &String) -> (r: Result<(), ErrorKind>)
        ensures
            r matches Err(e) ==> is_backup_failure(e),
    ;
}

/// Rules on the source of a backup from what its owner found on looking for
/// it. A source that does not exist is reported as missing, whether or not a
/// connection to it was tried; one that exists and cannot be reached is a
/// connection failure.
pub fn check_source(exists: bool, reachable: bool) -> (r: Result<(), ErrorKind>)
    ensures
        !exists ==> r matches Err(ErrorKind::NoDBError),
        exists && !reachable ==> r matches Err(ErrorKind::ConnectionError),
        exists && reachable ==> r is Ok,
        r matches Err(e) ==> is_backup_failure(e),
{
    if !exists {
        Err(ErrorKind::NoDBError)
    } else if !reachable {
        Err(ErrorKind::ConnectionError)
    } else {
        Ok(())
    }
}

/// Reports what the relational engine said of the copy: its failure, kept as
/// the cause of a store error, or success.
pub fn check_copy(copied: Result<(), rusqlite::Error>) -> (r: Result<(), ErrorKind>)
    ensures
        copied is Ok ==> r is Ok,
        copied matches Err(cause) ==> r == Err::<(), ErrorKind>(ErrorKind::StoreError(cause)),
        r matches Err(e) ==> is_backup_failure(e),
{
    match copied {
        Ok(()) => Ok(()),
        Err(cause) => Err(ErrorKind::StoreError(cause)),
    }
}

} // verus!
