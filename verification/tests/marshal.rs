use gfx_file_manager::marshal::decode_text;
use gfx_file_manager::marshal::has_interior_nul;
use gfx_file_manager::marshal::nul_terminated;
use gfx_file_manager::marshal::truncate_at_nul;
use gfx_file_manager::marshal::truncate_reported;
use gfx_file_manager::marshal::NATIVE_TEXT_BUFFER_LEN;

#[test]
fn buffer_length_is_fixed() {
    assert_eq!(NATIVE_TEXT_BUFFER_LEN, 255);
}

#[test]
fn interior_nul_is_detected() {
    assert!(!has_interior_nul("test.pk2"));
    assert!(!has_interior_nul(""));
    assert!(!has_interior_nul("héllo"));
    assert!(has_interior_nul("a\0b"));
    assert!(has_interior_nul("\0"));
}

#[test]
fn nul_terminated_appends_a_nul() {
    assert_eq!(nul_terminated(b"abc"), Some(vec![b'a', b'b', b'c', 0]));
    assert_eq!(nul_terminated(b""), Some(vec![0]));
}

#[test]
fn nul_terminated_rejects_interior_nul() {
    assert_eq!(nul_terminated(b"ab\0c"), None);
    assert_eq!(nul_terminated(b"\0"), None);
}

#[test]
fn truncate_at_nul_cuts_at_first_nul() {
    assert_eq!(truncate_at_nul(b"abc\0def\0g".to_vec()), b"abc".to_vec());
    assert_eq!(truncate_at_nul(b"\0abc".to_vec()), Vec::<u8>::new());
    assert_eq!(truncate_at_nul(b"abc".to_vec()), b"abc".to_vec());
    assert_eq!(truncate_at_nul(Vec::new()), Vec::<u8>::new());
}

#[test]
fn truncate_reported_honours_the_count() {
    assert_eq!(truncate_reported(b"abcdef".to_vec(), 3), b"abc".to_vec());
    assert_eq!(truncate_reported(b"abcdef".to_vec(), 0), Vec::<u8>::new());
}

#[test]
fn truncate_reported_ignores_a_count_outside_the_buffer() {
    assert_eq!(truncate_reported(b"abc".to_vec(), 7), b"abc".to_vec());
    assert_eq!(truncate_reported(b"abc".to_vec(), -1), b"abc".to_vec());
}

#[test]
fn decode_text_accepts_utf8() {
    let r = decode_text(b"music".to_vec()).unwrap();
    assert_eq!(r, "music");
    // A multi-byte sequence decodes to its characters, not to its bytes.
    let r = decode_text("héllo".as_bytes().to_vec()).unwrap();
    assert_eq!(r, "héllo");
    assert_eq!(r.chars().count(), 5);
}

#[test]
fn decode_text_hands_invalid_bytes_back() {
    let bad = vec![0x66, 0xff, 0xfe];
    let e = decode_text(bad.clone()).unwrap_err();
    assert_eq!(e.bytes, bad);
    // An overlong encoding is not valid UTF-8 either.
    let overlong = vec![0xc0, 0x80];
    let e = decode_text(overlong.clone()).unwrap_err();
    assert_eq!(e.bytes, overlong);
}
