use dynamips::cstr::first_nul;
use dynamips::{
    c_string_bytes, decode_char, error_text, has_char, perror_line, perror_message, read_char,
    try_view_c_string, view_c_string, vm_log_args, PtrAsStr,
};

#[test]
fn dup_appends_terminator() {
    assert_eq!(c_string_bytes("abc"), vec![b'a', b'b', b'c', 0]);
}

#[test]
fn dup_of_empty_is_one_zero_byte() {
    assert_eq!(c_string_bytes(""), vec![0]);
}

#[test]
fn dup_length_counts_utf8_bytes() {
    let b = c_string_bytes("h\u{e9}!");
    assert_eq!(b, vec![b'h', 0xC3, 0xA9, b'!', 0]);
    assert_eq!(b.len(), "h\u{e9}!".len() + 1);
    assert_eq!(*b.last().unwrap(), 0);
}

#[test]
fn dup_then_view_round_trips() {
    for t in ["hello", "", "d\u{e9}j\u{e0} vu", "\u{1F600} smile"] {
        let b = c_string_bytes(t);
        assert_eq!(view_c_string(&b), t);
    }
}

#[test]
fn view_stops_at_interior_nul() {
    let b = c_string_bytes("a\0b");
    assert_eq!(view_c_string(&b), "a");
}

#[test]
fn first_nul_finds_first_zero() {
    assert_eq!(first_nul(&[1, 2, 0, 3, 0]), Some(2));
    assert_eq!(first_nul(&[0]), Some(0));
    assert_eq!(first_nul(&[1, 2, 3]), None);
    assert_eq!(first_nul(&[]), None);
}

#[test]
fn try_view_rejects_unterminated() {
    assert_eq!(try_view_c_string(b"abc"), None);
}

#[test]
fn try_view_rejects_invalid_utf8() {
    assert_eq!(try_view_c_string(&[0xFF, 0xFE, 0]), None);
}

#[test]
fn try_view_decodes_utf8_text() {
    assert_eq!(try_view_c_string(&[0xC3, 0xA9, b't', 0xC3, 0xA9, 0, b'x']), Some("\u{e9}t\u{e9}"));
}

#[test]
fn try_view_ignores_bytes_after_terminator() {
    assert_eq!(try_view_c_string(&[b'o', b'k', 0, 0xFF]), Some("ok"));
}

#[test]
fn vec_as_str_reads_text() {
    let v: Vec<u8> = b"terminal\0junk".to_vec();
    assert_eq!(v.as_str(), "terminal");
}

#[test]
fn error_text_without_description_is_fallback() {
    let t = error_text(None);
    assert_eq!(t, "(null)");
    assert!(!t.is_empty());
}

#[test]
fn error_text_reads_description() {
    assert_eq!(error_text(Some(b"No such file or directory\0")), "No such file or directory");
}

#[test]
fn report_with_empty_context_is_text_alone() {
    assert_eq!(perror_line("", "Permission denied"), "Permission denied");
}

#[test]
fn report_with_context_is_prefixed() {
    assert_eq!(perror_line("ctx", "Permission denied"), "ctx: Permission denied");
}

#[test]
fn report_for_fixed_error_description() {
    let desc: &[u8] = b"No such file or directory\0";
    assert_eq!(perror_message("", Some(desc)), "No such file or directory");
    assert_eq!(perror_message("ctx", Some(desc)), "ctx: No such file or directory");
    assert_eq!(perror_message("ctx", None), "ctx: (null)");
}

#[test]
fn has_char_reads_flag() {
    assert!(!has_char(0));
    assert!(has_char(1));
    assert!(has_char(-7));
}

#[test]
fn decode_char_bytes_and_sentinel() {
    assert_eq!(decode_char(65), Some(65));
    assert_eq!(decode_char(0), Some(0));
    assert_eq!(decode_char(255), Some(255));
    assert_eq!(decode_char(-1), None);
    assert_eq!(decode_char(256), None);
}

#[test]
fn no_input_gives_no_char() {
    for raw in [-1, 0, 65, 255, 1000] {
        assert_eq!(read_char(0, raw), None);
    }
    assert_eq!(read_char(1, 65), Some(65));
    assert_eq!(read_char(1, -1), None);
}

#[test]
fn vm_log_buffers_are_terminated() {
    let call = vm_log_args("devA", "hello");
    assert_eq!(call.module, b"devA\0".to_vec());
    assert_eq!(call.msg, b"hello\0".to_vec());
}
