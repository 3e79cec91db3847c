use gfx_file_manager::codec::Mode;
use gfx_file_manager::marshal::NATIVE_TEXT_BUFFER_LEN;
use gfx_file_manager::proxy::GFXFileManager;
use gfx_file_manager::proxy::TextReply;

fn native_buffer(payload: &[u8]) -> Vec<u8> {
    let mut buf = payload.to_vec();
    buf.resize(NATIVE_TEXT_BUFFER_LEN, 0x77);
    buf
}

#[test]
fn directory_name_honours_the_reported_count() {
    let mut p = GFXFileManager::new(Mode::CP);
    let mut payload = b"music\0".to_vec();
    payload.extend_from_slice(b"junk");
    let reply = TextReply { buffer: native_buffer(&payload), reported_len: 5 };
    assert_eq!(p.get_directory_name(reply).unwrap(), "music");
}

#[test]
fn directory_name_surfaces_a_decode_failure() {
    let mut p = GFXFileManager::new(Mode::CP);
    let reply = TextReply { buffer: native_buffer(&[0x61, 0xff, 0xfe]), reported_len: 3 };
    let e = p.get_directory_name(reply).unwrap_err();
    assert_eq!(e.bytes, vec![0x61, 0xff, 0xfe]);
}

#[test]
fn virtual_path_truncates_at_the_first_nul() {
    let mut p = GFXFileManager::new(Mode::CP);
    let mut payload = b"a/b\0".to_vec();
    payload.extend_from_slice(b"leftover\0");
    assert_eq!(p.get_virtual_path(native_buffer(&payload)).unwrap(), "a/b");
}

#[test]
fn virtual_path_decodes_multibyte_utf8() {
    let mut p = GFXFileManager::new(Mode::CP);
    let mut payload = "héllo/wörld\0".as_bytes().to_vec();
    payload.push(b'x');
    assert_eq!(p.get_virtual_path(native_buffer(&payload)).unwrap(), "héllo/wörld");
}

#[test]
fn virtual_path_surfaces_a_decode_failure() {
    let mut p = GFXFileManager::new(Mode::CP);
    let e = p.get_virtual_path(native_buffer(&[0xf0, 0x28, 0x8c, 0x28, 0])).unwrap_err();
    assert_eq!(e.bytes, vec![0xf0, 0x28, 0x8c, 0x28]);
}

#[test]
fn file_name_truncates_at_the_first_nul() {
    let mut p = GFXFileManager::new(Mode::CW);
    let f = p.create_file("a.txt", 0, 4);
    let name = p
        .file_name_from_handle(&f, 255, native_buffer(b"a.txt\0garbage"))
        .unwrap();
    assert_eq!(name, "a.txt");
}

#[test]
fn buffer_without_a_nul_is_taken_whole() {
    let mut p = GFXFileManager::new(Mode::CP);
    let buf = vec![b'z'; NATIVE_TEXT_BUFFER_LEN];
    assert_eq!(
        p.get_virtual_path(buf).unwrap(),
        "z".repeat(NATIVE_TEXT_BUFFER_LEN)
    );
}
