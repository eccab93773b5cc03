use matrix_link::stream::{decode_stream, LineDecoder};

#[test]
fn splits_terminated_lines_in_order() {
    let lines = decode_stream(&b"first\nsecond\nthird\n".to_vec());
    assert_eq!(lines, vec!["first", "second", "third"]);
}

#[test]
fn keeps_final_unterminated_line() {
    let lines = decode_stream(&b"one\ntail".to_vec());
    assert_eq!(lines, vec!["one", "tail"]);
}

#[test]
fn drops_empty_final_segment() {
    let lines = decode_stream(&b"one\n".to_vec());
    assert_eq!(lines, vec!["one"]);
}

#[test]
fn strips_carriage_returns() {
    let lines = decode_stream(&b"a\r\nb\r\n".to_vec());
    assert_eq!(lines, vec!["a", "b"]);
}

#[test]
fn keeps_empty_lines() {
    let lines = decode_stream(&b"\n\nx\n".to_vec());
    assert_eq!(lines, vec!["", "", "x"]);
}

#[test]
fn drops_undecodable_lines_and_keeps_the_rest() {
    let mut bytes: Vec<u8> = Vec::new();
    bytes.extend_from_slice(b"ok\n");
    bytes.extend_from_slice(&[0xff, 0xfe, b'\n']);
    bytes.extend_from_slice(b"still ok\n");
    let lines = decode_stream(&bytes);
    assert_eq!(lines, vec!["ok", "still ok"]);
}

#[test]
fn decodes_multibyte_text() {
    let lines = decode_stream(&"héllo wörld\n".as_bytes().to_vec());
    assert_eq!(lines, vec!["héllo wörld"]);
}

#[test]
fn incremental_chunks_reassemble_lines() {
    let mut d = LineDecoder::new();
    let out = d.push_chunk(&b"he".to_vec());
    assert!(out.is_empty());
    let out = d.push_chunk(&b"llo\nwor".to_vec());
    assert_eq!(out, vec!["hello"]);
    let out = d.push_chunk(&b"ld\n".to_vec());
    assert_eq!(out, vec!["world"]);
    assert_eq!(d.finish(), None::<String>);
}

#[test]
fn finish_yields_the_pending_line() {
    let mut d = LineDecoder::new();
    let out = d.push_chunk(&b"a\nrest".to_vec());
    assert_eq!(out, vec!["a"]);
    assert_eq!(d.finish(), Some("rest".to_string()));
}
