use gfx_file_manager::calls::Call;
use gfx_file_manager::codec::Mode;
use gfx_file_manager::proxy::GFXFileManager;
use gfx_file_manager::proxy::LifecycleState;
use gfx_file_manager::proxy::TransferReply;
use gfx_file_manager::proxy::OBJECT_VERSION;

#[test]
fn fresh_proxy_is_not_open() {
    let p = GFXFileManager::new(Mode::CW);
    assert!(!p.is_open());
    assert_eq!(
        p.call_log().as_slice(),
        &[Call::CreateObject { mode: 2, version: OBJECT_VERSION }]
    );
    assert!(p.outstanding_files().is_empty());
    assert!(p.outstanding_searches().is_empty());
}

#[test]
fn new_with_version_records_the_version_tag() {
    let p = GFXFileManager::new_with_version(Mode::CP, 0x2001);
    assert_eq!(
        p.call_log().as_slice(),
        &[Call::CreateObject { mode: 1, version: 0x2001 }]
    );
}

#[test]
fn state_machine_walks_closed_open_closed() {
    let mut p = GFXFileManager::new(Mode::CW);
    assert!(!p.is_open());
    assert_eq!(p.lifecycle_state(), LifecycleState::ConstructedClosed);
    assert!(p.create_container("test.pk2", "pw", 1));
    assert!(p.is_open());
    assert_eq!(p.lifecycle_state(), LifecycleState::Open);
    assert!(p.close_container(1));
    assert!(!p.is_open());
    assert_eq!(p.lifecycle_state(), LifecycleState::Closed);
}

#[test]
fn failed_create_leaves_the_proxy_closed() {
    let mut p = GFXFileManager::new(Mode::CW);
    assert!(!p.create_container("test.pk2", "pw", 0));
    assert!(!p.is_open());
}

#[test]
fn open_container_opens_on_success() {
    let mut p = GFXFileManager::new(Mode::CP);
    assert!(p.open_container("old.pk2", "pw", 0, 1));
    assert!(p.is_open());
}

#[test]
fn closing_twice_releases_only_once() {
    let mut p = GFXFileManager::new(Mode::CW);
    assert!(p.create_container("test.pk2", "pw", 1));
    assert!(p.close_container(1));
    // The second close must not panic, delegates nothing, and reports
    // failure: exactly one native close stays on record.
    assert!(!p.close_container(1));
    assert!(!p.close_container(1));
    let closes = p
        .call_log()
        .iter()
        .filter(|c| **c == Call::CloseContainer)
        .count();
    assert_eq!(closes, 1);
}

#[test]
fn end_to_end_write_scenario() {
    let mut p = GFXFileManager::new(Mode::CW);
    assert!(p.create_container("test.pk2", "pw", 1));
    assert!(p.is_open());
    assert!(p.create_directory("sub", 1));
    let file = p.create_file("sub/a.txt", 0, 42);
    assert_eq!(file.handle(), 42);
    assert_eq!(p.outstanding_files().as_slice(), &[42]);
    let r = p.write(&file, 10, TransferReply { status: 1, transferred: 10 });
    assert!(r.transferred <= 10);
    let _ = p.close_file(file, 0);
    assert!(p.outstanding_files().is_empty());
    assert!(p.outstanding_searches().is_empty());
    let log = p.teardown(1);
    // The container was still open, so teardown closed it and released the
    // foreign object, in that order.
    let tail = &log[log.len() - 3..];
    assert_eq!(
        tail,
        &[Call::CloseAllFiles, Call::CloseContainer, Call::ReleaseObject]
    );
}

#[test]
fn teardown_of_a_closed_proxy_skips_the_container_close() {
    let p = GFXFileManager::new(Mode::CP);
    let log = p.teardown(1);
    assert_eq!(
        log.as_slice(),
        &[
            Call::CreateObject { mode: 1, version: OBJECT_VERSION },
            Call::CloseAllFiles,
            Call::ReleaseObject,
        ]
    );
}
