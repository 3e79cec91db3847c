use gfx_file_manager::calls::Call;
use gfx_file_manager::codec::Mode;
use gfx_file_manager::codec::MoveMethod;
use gfx_file_manager::proxy::DialogData;
use gfx_file_manager::proxy::FileTime;
use gfx_file_manager::proxy::FileTimeReply;
use gfx_file_manager::proxy::FindNextReply;
use gfx_file_manager::proxy::FindFirstReply;
use gfx_file_manager::proxy::GFXFileManager;
use gfx_file_manager::proxy::ResultEntry;
use gfx_file_manager::proxy::TransferReply;
use gfx_file_manager::proxy::UnknownPair;

#[test]
fn read_reports_the_native_transfer_count() {
    let mut p = GFXFileManager::new(Mode::CP);
    let f = p.open_file("a", gfx_file_manager::codec::Access::OpenExisting, 0, 2);
    // A partial transfer is handed back unmodified, not rounded up to the
    // requested count.
    let r = p.read(&f, 10, TransferReply { status: 1, transferred: 3 });
    assert_eq!(r.transferred, 3);
    assert_eq!(r.status, 1);
}

#[test]
fn write_reports_the_native_transfer_count() {
    let mut p = GFXFileManager::new(Mode::CW);
    let f = p.create_file("a", 0, 2);
    let r = p.write(&f, 100, TransferReply { status: 0, transferred: 99 });
    assert_eq!(r.transferred, 99);
    assert_eq!(r.status, 0);
}

#[test]
fn mode_decodes_the_native_reply() {
    let mut p = GFXFileManager::new(Mode::CP);
    assert_eq!(p.mode(1), Some(Mode::CP));
    assert_eq!(p.mode(2), Some(Mode::CW));
    // A reply outside the supported set is an ABI mismatch, surfaced for
    // the caller to abort on.
    assert_eq!(p.mode(9), None);
}

#[test]
fn statuses_pass_through_unmodified() {
    let mut p = GFXFileManager::new(Mode::CP);
    assert_eq!(p.config_set(1, 2, -7), -7);
    assert_eq!(p.config_get(1, 2, 5), 5);
    assert_eq!(p.function_9(0, 3), 3);
    assert_eq!(p.function_12(4), 4);
    assert_eq!(p.function_13(5), 5);
    assert_eq!(p.function_50(1, 6), 6);
    assert_eq!(p.delete_file("x", 1), 1);
    assert_eq!(p.set_unknown(1, 2, 8), 8);
    assert_eq!(p.get_unknown(UnknownPair(3, 4)), UnknownPair(3, 4));
    assert_eq!(p.get_version(0x1007), 0x1007);
    assert_eq!(p.check_version(0x1007, 0), 0);
    assert_eq!(p.update_current_directory(2), 2);
    assert_eq!(p.file_exists("x", 0, 1), 1);
    assert_eq!(p.register_error_handler(0), 0);
    assert_eq!(p.for_each_entry_in_container("*", 12), 12);
    assert_eq!(p.main_module_handle(0xdead), 0xdead);
    assert_eq!(p.get_hwnd(0xbeef), 0xbeef);
    assert_eq!(p.set_hwnd(0xbeef, 1), 1);
    assert_eq!(p.cmd_line_path(b"C:\\game".to_vec()), b"C:\\game");
    assert_eq!(p.cmd_line_exe(b"game.exe".to_vec()), b"game.exe");
    let mut dialog = DialogData { bytes: vec![9, 9] };
    assert_eq!(p.show_dialog(&mut dialog, 1), 1);
    assert_eq!(dialog.bytes, vec![9, 9]);
}

#[test]
fn import_export_report_the_native_status() {
    let mut p = GFXFileManager::new(Mode::CW);
    assert_eq!(p.import_directory("src", "dst", "d", true, 0), 0);
    assert_eq!(p.import_file("src", "dst", "f", false, 3), 3);
    assert_eq!(p.export_directory("src", "dst", "d", true, 0), 0);
    assert_eq!(p.export_file("src", "dst", "f", false, -1), -1);
}

#[test]
fn boolean_operations_decode_nonzero_as_success() {
    let mut p = GFXFileManager::new(Mode::CW);
    assert!(p.create_directory("d", 1));
    assert!(!p.create_directory("d", 0));
    assert!(p.delete_directory("d", 5));
    assert!(p.reset_directory(1));
    assert!(!p.change_directory("d", 0));
    assert!(p.set_virtual_path("v", 1));
    assert!(p.unlock(1));
    assert!(!p.lock(0, 0));
}

#[test]
fn seek_reports_the_native_position() {
    let mut p = GFXFileManager::new(Mode::CP);
    let f = p.open_file("a", gfx_file_manager::codec::Access::OpenExisting, 0, 2);
    assert_eq!(p.seek(&f, 16, MoveMethod::Start, 16), 16);
    assert_eq!(p.seek(&f, -4, MoveMethod::Current, 12), 12);
    assert_eq!(p.seek(&f, 0, MoveMethod::End, -1), -1);
    assert_eq!(p.get_file_size(&f, 1024), 1024);
}

#[test]
fn file_times_pass_through_unmodified() {
    let mut p = GFXFileManager::new(Mode::CP);
    let f = p.open_file("a", gfx_file_manager::codec::Access::ShareRead, 0, 2);
    let reply = FileTimeReply {
        ok: true,
        creation: FileTime { low: 1, high: 2 },
        last_write: FileTime { low: 3, high: 4 },
    };
    assert_eq!(p.get_file_time(&f, reply), reply);
    assert!(p.set_file_time(&f, FileTime { low: 1, high: 2 }, FileTime { low: 3, high: 4 }, true));
}

#[test]
fn search_replies_pass_through_unmodified() {
    let mut p = GFXFileManager::new(Mode::CP);
    let (s, first) = p.find_first_file(
        "*.txt",
        FindFirstReply { search: 3, entry: ResultEntry { bytes: vec![1] } },
    );
    assert_eq!(s.handle(), 3);
    assert_eq!(first.bytes, vec![1]);
    let (status, next) = p.find_next_file(
        &s,
        FindNextReply { status: 0, entry: ResultEntry { bytes: vec![2] } },
    );
    assert_eq!(status, 0);
    assert_eq!(next.bytes, vec![2]);
    assert_eq!(p.find_close(s, 7), 7);
    assert!(p.outstanding_searches().is_empty());
}

#[test]
fn every_table_operation_has_its_slot() {
    assert_eq!(Call::Mode.slot(), Some(0));
    assert_eq!(Call::CreateContainer.slot(), Some(3));
    assert_eq!(Call::IsOpen.slot(), Some(6));
    assert_eq!(Call::OpenFile { access: 0, unknown: 0 }.slot(), Some(11));
    assert_eq!(Call::Read { handle: 0, bytes_to_read: 0 }.slot(), Some(18));
    assert_eq!(Call::GetDirName.slot(), Some(28));
    assert_eq!(Call::Seek { handle: 0, distance: 0, method: 0 }.slot(), Some(38));
    assert_eq!(Call::Unlock.slot(), Some(54));
    // The factory and release entry points stand beside the table.
    assert_eq!(Call::CreateObject { mode: 1, version: 0 }.slot(), None);
    assert_eq!(Call::ReleaseObject.slot(), None);
}
