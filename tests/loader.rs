use libfoo::loader::{LazyLoader, LoadError, LoadPhase, LoaderAction, LoaderEvent};

#[test]
fn first_request_writes_then_opens() {
    let mut l = LazyLoader::new();
    assert_eq!(l.phase, LoadPhase::Uninitialized);
    assert_eq!(l.advance(LoaderEvent::Request), LoaderAction::MaterializeFile);
    assert_eq!(l.phase, LoadPhase::Materializing);
    assert_eq!(l.advance(LoaderEvent::FileWritten), LoaderAction::OpenLibrary);
    assert_eq!(l.phase, LoadPhase::FileMaterialized);
    assert_eq!(l.advance(LoaderEvent::Opened), LoaderAction::Ready);
    assert_eq!(l.phase, LoadPhase::Loaded);
    assert_eq!(l.error, None);
}

#[test]
fn many_callers_share_one_initialization() {
    let mut l = LazyLoader::new();
    let mut writes = 0;
    let mut opens = 0;
    let mut readies = 0;
    for _ in 0..5 {
        let mut ev = LoaderEvent::Request;
        loop {
            match l.advance(ev) {
                LoaderAction::MaterializeFile => {
                    writes += 1;
                    ev = LoaderEvent::FileWritten;
                }
                LoaderAction::OpenLibrary => {
                    opens += 1;
                    ev = LoaderEvent::Opened;
                }
                LoaderAction::Ready => {
                    readies += 1;
                    break;
                }
                other => panic!("unexpected {:?}", other),
            }
        }
    }
    assert_eq!((writes, opens, readies), (1, 1, 5));
}

#[test]
fn request_during_initialization_waits() {
    let mut l = LazyLoader::new();
    assert_eq!(l.advance(LoaderEvent::Request), LoaderAction::MaterializeFile);
    assert_eq!(l.advance(LoaderEvent::Request), LoaderAction::Wait);
    assert_eq!(l.phase, LoadPhase::Materializing);
    assert_eq!(l.advance(LoaderEvent::FileWritten), LoaderAction::OpenLibrary);
    assert_eq!(l.advance(LoaderEvent::Request), LoaderAction::Wait);
    assert_eq!(l.phase, LoadPhase::FileMaterialized);
}

#[test]
fn corrupt_blob_fails_for_good() {
    let mut l = LazyLoader::new();
    l.advance(LoaderEvent::Request);
    l.advance(LoaderEvent::FileWritten);
    let a = l.advance(LoaderEvent::OpenFailed { reason: "invalid ELF header".to_string() });
    assert_eq!(a, LoaderAction::Fail);
    assert_eq!(l.phase, LoadPhase::Failed);
    assert_eq!(l.error, Some(LoadError::NotLoadable { reason: "invalid ELF header".to_string() }));
    for _ in 0..3 {
        assert_eq!(l.advance(LoaderEvent::Request), LoaderAction::Fail);
    }
    assert_eq!(l.advance(LoaderEvent::Opened), LoaderAction::Fail);
    assert_eq!(l.phase, LoadPhase::Failed);
}

#[test]
fn temp_file_failure_is_final() {
    let mut l = LazyLoader::new();
    l.advance(LoaderEvent::Request);
    assert_eq!(l.advance(LoaderEvent::FileFailed { reason: "disk full".to_string() }), LoaderAction::Fail);
    assert_eq!(l.error, Some(LoadError::TempFile { reason: "disk full".to_string() }));
    assert_eq!(l.advance(LoaderEvent::Request), LoaderAction::Fail);
}

#[test]
fn stray_reports_change_nothing() {
    let mut l = LazyLoader::new();
    assert_eq!(l.advance(LoaderEvent::Opened), LoaderAction::Wait);
    assert_eq!(l.phase, LoadPhase::Uninitialized);
}
