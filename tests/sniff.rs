use findrep::sniff::{is_binary_content, is_text_file, SAMPLE_LEN};

#[test]
fn plain_text_is_text() {
    assert!(!is_binary_content(b"hello foo world\n"));
    assert!(is_text_file(Some(&b"hello foo world\n"[..])));
    assert!(is_text_file(Some(&b""[..])));
}

#[test]
fn nul_byte_in_sample_is_binary() {
    let bytes = b"foo\x00foo";
    assert!(is_binary_content(bytes));
    assert!(!is_text_file(Some(&bytes[..])));
}

#[test]
fn nul_byte_past_sample_is_not_seen() {
    let mut bytes = vec![b'a'; SAMPLE_LEN];
    bytes.push(0);
    assert!(!is_binary_content(&bytes));
    let mut early = vec![b'a'; SAMPLE_LEN - 1];
    early.push(0);
    assert!(is_binary_content(&early));
}

#[test]
fn unreadable_file_is_not_text() {
    assert!(!is_text_file(None));
}

#[test]
fn byte_order_mark_without_nul_is_text() {
    assert!(!is_binary_content(b"\xEF\xBB\xBFplain text"));
    assert!(!is_binary_content(b"\xFF\xFE\xFF\xFF"));
}

#[test]
fn nul_byte_after_byte_order_mark_is_binary() {
    let bytes = b"\xEF\xBB\xBF\x00foo";
    assert!(is_binary_content(bytes));
    assert!(!is_text_file(Some(&bytes[..])));
    assert!(is_binary_content(b"\xFF\xFEa\x00b\x00"));
}

#[test]
fn pdf_signature_is_binary() {
    assert!(is_binary_content(b"%PDF-1.4 text"));
}
