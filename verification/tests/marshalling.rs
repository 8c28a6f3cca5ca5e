use clipboard_win::buffer::{raw_image, text_image, CF_UNICODETEXT};
use clipboard_win::{byte_strlen, read_raw, read_text, rust_strlen, WinResult};

fn text_round_trip(s: &str) -> String {
    let image = text_image(s);
    read_text(&image)
}

#[test]
fn text_image_is_units_and_terminator() {
    assert_eq!(text_image("ab"), vec![97u16, 98, 0]);
    assert_eq!(text_image(""), vec![0u16]);
}

#[test]
fn text_image_encodes_supplementary_plane_as_pair() {
    assert_eq!(text_image("\u{1D11E}"), vec![0xD834u16, 0xDD1E, 0]);
}

#[test]
fn raw_image_is_bytes_and_terminator() {
    assert_eq!(raw_image(&[1, 2, 3]), vec![1u8, 2, 3, 0]);
    assert_eq!(raw_image(&[]), vec![0u8]);
}

#[test]
fn text_round_trip_is_exact_for_well_formed_text() {
    assert_eq!(text_round_trip(""), "");
    assert_eq!(text_round_trip("for my waifu!"), "for my waifu!");
    assert_eq!(text_round_trip("h\u{e9}llo w\u{f6}rld"), "h\u{e9}llo w\u{f6}rld");
    assert_eq!(text_round_trip("clef \u{1D11E} and \u{1F600}"), "clef \u{1D11E} and \u{1F600}");
}

#[test]
fn text_with_embedded_nul_comes_back_cut() {
    assert_eq!(text_round_trip("ab\0cd"), "ab");
}

#[test]
fn raw_round_trip_is_exact_without_zero_bytes() {
    let data: Vec<u8> = (1..=255u8).collect();
    assert_eq!(read_raw(&raw_image(&data)), data);
    let empty: Vec<u8> = Vec::new();
    assert_eq!(read_raw(&raw_image(&empty)), empty);
}

#[test]
fn raw_with_embedded_zero_comes_back_cut() {
    assert_eq!(read_raw(&raw_image(&[7, 8, 0, 9])), vec![7u8, 8]);
}

#[test]
fn strlen_finds_first_zero_unit() {
    assert_eq!(rust_strlen(&[5, 6, 7, 0, 9, 0]), 3);
    assert_eq!(rust_strlen(&[0, 1]), 0);
    assert_eq!(rust_strlen(&[]), 0);
}

#[test]
fn strlen_is_bounded_by_the_buffer() {
    assert_eq!(rust_strlen(&[5, 6, 7]), 3);
    assert_eq!(byte_strlen(&[1, 1, 1, 1]), 4);
}

#[test]
fn byte_strlen_finds_first_zero_byte() {
    assert_eq!(byte_strlen(&[1, 2, 0, 3]), 2);
    assert_eq!(byte_strlen(&[0]), 0);
}

#[test]
fn read_text_ignores_what_follows_the_terminator() {
    let mem: Vec<u16> = vec![104, 105, 0, 120, 121, 0, 0];
    assert_eq!(read_text(&mem), "hi");
}

#[test]
fn read_text_replaces_unpaired_surrogates() {
    let mem: Vec<u16> = vec![0x61, 0xD800, 0x62, 0];
    assert_eq!(read_text(&mem), "a\u{FFFD}b");
    let mem: Vec<u16> = vec![0xDC00, 0];
    assert_eq!(read_text(&mem), "\u{FFFD}");
}

#[test]
fn read_text_without_terminator_reads_whole_buffer() {
    let mem: Vec<u16> = vec![0x6f, 0x6b];
    assert_eq!(read_text(&mem), "ok");
}

#[test]
fn unicode_text_format_code() {
    assert_eq!(CF_UNICODETEXT, 13);
}

#[test]
fn win_result_zero_is_ok() {
    let ok = WinResult::new(0);
    assert!(ok.is_ok());
    assert!(!ok.is_err());
    assert_eq!(ok.errno(), 0);
}

#[test]
fn win_result_nonzero_is_err() {
    let err = WinResult::new(5);
    assert!(err.is_err());
    assert!(!err.is_ok());
    assert_eq!(err.errno(), 5);
    assert_eq!(WinResult::new(u32::MAX).errno(), u32::MAX);
}

#[test]
fn win_result_equality_is_by_value() {
    assert_eq!(WinResult::new(5), WinResult::new(5));
    assert_ne!(WinResult::new(5), WinResult::new(6));
    assert_ne!(WinResult::new(0), WinResult::new(1));
}

#[test]
fn errno_desc_falls_back_when_lookup_finds_nothing() {
    let buff = [0u16; 300];
    assert_eq!(WinResult::new(1).errno_desc(0, &buff), "Unknown error");
}

#[test]
fn errno_desc_decodes_what_the_lookup_wrote() {
    let mut buff = [0u16; 300];
    let msg: Vec<u16> = "Access is denied.".encode_utf16().collect();
    buff[..msg.len()].copy_from_slice(&msg);
    assert_eq!(WinResult::new(5).errno_desc(msg.len() as u32, &buff), "Access is denied.");
}

#[test]
fn errno_desc_falls_back_on_ill_formed_units() {
    let buff = [0xD800u16, 0x41, 0, 0];
    assert_eq!(WinResult::new(5).errno_desc(2, &buff), "Unknown error");
}

#[test]
fn errno_desc_falls_back_when_count_exceeds_buffer() {
    let buff = [0x41u16, 0x42];
    assert_eq!(WinResult::new(5).errno_desc(3, &buff), "Unknown error");
    assert_eq!(WinResult::new(5).errno_desc(2, &buff), "AB");
}

#[test]
fn text_without_nul_has_no_zero_unit() {
    for s in ["", "plain", "h\u{e9}llo", "\u{1D11E}\u{10000}\u{10FFFF}", "\u{100}\u{FF00}"] {
        let image = text_image(s);
        assert_eq!(rust_strlen(&image), image.len() - 1);
    }
    let image = text_image("a\0b");
    assert_eq!(rust_strlen(&image), 1);
}
