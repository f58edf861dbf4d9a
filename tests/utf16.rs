use native_search::oledb::string_to_pcwstr;
use native_search::utf16::{decode_wide_buffer, encode_wide, REPLACEMENT_CHARACTER};

fn padded(text: &str, size: usize) -> Vec<u16> {
    let mut buf: Vec<u16> = text.encode_utf16().collect();
    buf.resize(size, 0);
    buf
}

#[test]
fn fixed_buffer_drops_trailing_padding() {
    let buf = padded("abc", 512);
    let text = decode_wide_buffer(&buf);
    assert_eq!(text, "abc");
    assert!(!text.contains('\u{0}'));
}

#[test]
fn fixed_buffer_ends_at_first_terminator() {
    let buf: Vec<u16> = vec![0x61, 0, 0x62, 0x63, 0];
    assert_eq!(decode_wide_buffer(&buf), "a");
}

#[test]
fn fixed_buffer_without_terminator_is_read_whole() {
    let buf: Vec<u16> = vec![0x41, 0x42, 0x43];
    assert_eq!(decode_wide_buffer(&buf), "ABC");
}

#[test]
fn fixed_buffer_all_padding_is_empty() {
    let buf: Vec<u16> = vec![0; 512];
    assert_eq!(decode_wide_buffer(&buf), "");
    assert_eq!(decode_wide_buffer(&[]), "");
}

#[test]
fn fixed_buffer_decodes_surrogate_pairs() {
    let buf = padded("file-\u{1F600}.png", 64);
    assert_eq!(decode_wide_buffer(&buf), "file-\u{1F600}.png");
}

#[test]
fn fixed_buffer_replaces_lone_surrogates() {
    let buf: Vec<u16> = vec![0xD800, 0x41, 0xDC00, 0];
    let expected: String = [REPLACEMENT_CHARACTER, 'A', REPLACEMENT_CHARACTER].iter().collect();
    assert_eq!(decode_wide_buffer(&buf), expected);
}

#[test]
fn fixed_buffer_agrees_with_std_lossy_decoding() {
    let units: Vec<u16> = vec![0x48, 0xD834, 0xDD1E, 0xDBFF, 0x20, 0xAC00, 0];
    let std_text = String::from_utf16_lossy(&units[..6]);
    assert_eq!(decode_wide_buffer(&units), std_text);
}

#[test]
fn encode_wide_matches_std() {
    for s in ["", "report.pdf", "caf\u{e9}", "\u{1F600}x\u{10FFFF}", "\u{D7FF}\u{E000}"] {
        let expected: Vec<u16> = s.encode_utf16().collect();
        assert_eq!(encode_wide(s), expected);
    }
}

#[test]
fn pcwstr_is_zero_terminated() {
    assert_eq!(string_to_pcwstr("ab".to_string()), vec![0x61, 0x62, 0]);
    assert_eq!(string_to_pcwstr(String::new()), vec![0]);
    assert_eq!(string_to_pcwstr("\u{1F600}".to_string()), vec![0xD83D, 0xDE00, 0]);
}

#[test]
fn encode_then_decode_gives_text_back() {
    let text = "\u{d55c}\u{ae00} notes \u{1F4C4}.pdf";
    let wide = string_to_pcwstr(text.to_string());
    assert_eq!(decode_wide_buffer(&wide), text);
}
