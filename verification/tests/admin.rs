use hawk::admin::{sessions_cleared, Removal, RemovalAction, RemovalEvent, RemovalStage};
use hawk::cache::{CatalogCache, CatalogLookup, SessionCache, SessionLookup};
use hawk::error::Error;
use hawk::ids::VideoId;
use hawk::response::StatusCode;

fn id() -> VideoId {
    VideoId { raw: 0xa1a2a3a4b1b2c1c2d1d2d3d4d5d6d7d8 }
}

#[test]
fn cleared_sessions_are_signalled() {
    let mut sessions = SessionCache::new();
    assert_eq!(sessions.is_session_valid("abc", || Ok(true)), Ok(true));
    assert_eq!(sessions_cleared(Ok(()), &mut sessions), Ok(StatusCode(200)));
    assert_eq!(sessions.is_session_valid("abc", || Ok(false)), Ok(false));
}

#[test]
fn failed_clearing_signals_nothing() {
    let mut sessions = SessionCache::new();
    assert_eq!(sessions.is_session_valid("abc", || Ok(true)), Ok(true));
    assert_eq!(sessions_cleared(Err(Error::StoreFailure), &mut sessions), Err(Error::StoreFailure));
    assert_eq!(sessions.lookup("abc"), SessionLookup::Hit(true));
}

#[test]
fn removal_deletes_row_then_file_then_commits() {
    let (mut removal, action) = Removal::begin(id());
    assert_eq!(action, RemovalAction::DeleteRow { id: id() });
    assert_eq!(removal.stage, RemovalStage::DeletingRow);
    assert_eq!(
        removal.step(RemovalEvent::RowDeleted(Ok(()))),
        RemovalAction::RemoveFile { path: String::from("a1a2a3a4-b1b2-c1c2-d1d2-d3d4d5d6d7d8.webp") }
    );
    assert_eq!(removal.step(RemovalEvent::FileRemoved(Ok(()))), RemovalAction::Commit);
    assert_eq!(removal.step(RemovalEvent::Committed(Ok(()))), RemovalAction::Publish);
    assert_eq!(removal.stage, RemovalStage::Done);
    let mut catalog = CatalogCache::new();
    assert_eq!(catalog.get_all_video_ids(|| Ok(vec![id()])), Ok(vec![id()]));
    assert_eq!(removal.settle(&mut catalog), Some(Ok(StatusCode(200))));
    assert_eq!(catalog.get_all_video_ids(|| Ok(vec![])), Ok(vec![]));
}

#[test]
fn removal_fails_at_any_stage() {
    let (mut removal, _) = Removal::begin(id());
    assert_eq!(
        removal.step(RemovalEvent::RowDeleted(Err(Error::StoreFailure))),
        RemovalAction::Abort { error: Error::StoreFailure }
    );
    assert_eq!(removal.stage, RemovalStage::Failed(Error::StoreFailure));

    let (mut removal, _) = Removal::begin(id());
    removal.step(RemovalEvent::RowDeleted(Ok(())));
    assert_eq!(
        removal.step(RemovalEvent::FileRemoved(Err(Error::IoFailure))),
        RemovalAction::Abort { error: Error::IoFailure }
    );
    assert_eq!(removal.step(RemovalEvent::Committed(Ok(()))), RemovalAction::Idle);

    let (mut removal, _) = Removal::begin(id());
    removal.step(RemovalEvent::RowDeleted(Ok(())));
    removal.step(RemovalEvent::FileRemoved(Ok(())));
    assert_eq!(
        removal.step(RemovalEvent::Committed(Err(Error::StoreFailure))),
        RemovalAction::Abort { error: Error::StoreFailure }
    );
    let mut catalog = CatalogCache::new();
    assert_eq!(catalog.get_all_video_ids(|| Ok(vec![id()])), Ok(vec![id()]));
    assert_eq!(removal.settle(&mut catalog), Some(Err(Error::StoreFailure)));
    assert_eq!(catalog.lookup(), CatalogLookup::Hit(vec![id()]));
}

#[test]
fn removal_ignores_events_out_of_turn() {
    let (mut removal, _) = Removal::begin(id());
    assert_eq!(removal.step(RemovalEvent::Committed(Ok(()))), RemovalAction::Idle);
    assert_eq!(removal.step(RemovalEvent::FileRemoved(Ok(()))), RemovalAction::Idle);
    assert_eq!(removal.stage, RemovalStage::DeletingRow);
    let mut catalog = CatalogCache::new();
    assert_eq!(removal.settle(&mut catalog), None);
}
