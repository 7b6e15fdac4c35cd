use chainstate_db::backup::{check_copy, check_source};
use chainstate_db::{ChainstateDB, ErrorKind};

struct Unsupported;

impl ChainstateDB for Unsupported {
    fn backup(_backup_path: &String) -> Result<(), ErrorKind> {
        Err(ErrorKind::NotImplemented)
    }
}

fn backup_through<S: ChainstateDB>(path: &String) -> Result<(), ErrorKind> {
    S::backup(path)
}

#[test]
fn missing_source_is_no_db_error() {
    assert!(matches!(check_source(false, false), Err(ErrorKind::NoDBError)));
}

#[test]
fn missing_source_is_never_a_connection_error() {
    assert!(matches!(check_source(false, true), Err(ErrorKind::NoDBError)));
    assert!(matches!(check_source(false, false), Err(ErrorKind::NoDBError)));
}

#[test]
fn unreachable_source_is_connection_error() {
    assert!(matches!(check_source(true, false), Err(ErrorKind::ConnectionError)));
}

#[test]
fn reachable_source_passes() {
    assert!(matches!(check_source(true, true), Ok(())));
}

#[test]
fn failed_copy_is_store_error_with_its_cause() {
    let failure = rusqlite::Error::InvalidPath(std::path::PathBuf::from("/nowhere/copy.db"));
    match check_copy(Err(failure)) {
        Err(ErrorKind::StoreError(cause)) => {
            assert_eq!(
                cause,
                rusqlite::Error::InvalidPath(std::path::PathBuf::from("/nowhere/copy.db"))
            );
        }
        _ => panic!("the copy's failure was not kept"),
    }
}

#[test]
fn failed_copy_displays_the_engine_message() {
    match check_copy(Err(rusqlite::Error::ExecuteReturnedResults)) {
        Err(e) => assert_eq!(
            e.to_string(),
            "Execute returned results - did you mean to call query?"
        ),
        Ok(()) => panic!("a failed copy passed"),
    }
}

#[test]
fn finished_copy_passes() {
    assert!(matches!(check_copy(Ok(())), Ok(())));
}

#[test]
fn store_without_backup_is_not_implemented() {
    let path = String::from("/tmp/chainstate.bak");
    match backup_through::<Unsupported>(&path) {
        Err(e) => {
            assert!(matches!(e, ErrorKind::NotImplemented));
            assert_eq!(e.description(), "Not implemented");
        }
        Ok(()) => panic!("a store without backup reported success"),
    }
}
