use gpu_program::source::{SHARED_BEGIN, SHARED_END};
use gpu_program::{prepare_source_code, RendererError};

fn block(library: &str) -> Vec<u8> {
    let mut b = Vec::new();
    b.extend_from_slice(&SHARED_BEGIN);
    b.extend_from_slice(library.as_bytes());
    b.extend_from_slice(&SHARED_END);
    b
}

#[test]
fn shared_block_follows_version_line() {
    let out = prepare_source_code("#version 450\ncode", "float k;").ok().unwrap();
    let mut expected = b"#version 450\n".to_vec();
    expected.extend(block("float k;"));
    expected.extend_from_slice(b"code");
    expected.push(0);
    assert_eq!(out, expected);
}

#[test]
fn shared_block_precedes_text_without_directive() {
    let out = prepare_source_code("void main() {}", "float k;").ok().unwrap();
    let mut expected = block("float k;");
    expected.extend_from_slice(b"void main() {}");
    expected.push(0);
    assert_eq!(out, expected);
}

#[test]
fn shared_block_follows_last_directive_line() {
    let code = "#version 330\n#define N 4\nuniform int n;\n";
    let out = prepare_source_code(code, "L").ok().unwrap();
    let mut expected = b"#version 330\n#define N 4\n".to_vec();
    expected.extend(block("L"));
    expected.extend_from_slice(b"uniform int n;\n");
    expected.push(0);
    assert_eq!(out, expected);
}

#[test]
fn directive_without_line_feed_puts_block_at_end() {
    let out = prepare_source_code("#version 450", "L").ok().unwrap();
    let mut expected = b"#version 450".to_vec();
    expected.extend(block("L"));
    expected.push(0);
    assert_eq!(out, expected);
}

#[test]
fn empty_source_is_the_block_alone() {
    let out = prepare_source_code("", "").ok().unwrap();
    let mut expected = block("");
    expected.push(0);
    assert_eq!(out, expected);
}

#[test]
fn zero_byte_in_source_is_an_encoding_error() {
    let r = prepare_source_code("void main() {}\0", "L");
    assert!(matches!(r, Err(RendererError::EncodingError)));
}

#[test]
fn zero_byte_in_library_is_an_encoding_error() {
    let r = prepare_source_code("#version 450\nvoid main() {}", "a\0b");
    assert!(matches!(r, Err(RendererError::EncodingError)));
}

#[test]
fn markers_are_comments_on_their_own_lines() {
    let begin = String::from_utf8(SHARED_BEGIN.to_vec()).unwrap();
    let end = String::from_utf8(SHARED_END.to_vec()).unwrap();
    assert!(begin.starts_with("\n// ") && begin.ends_with(" 'shared.glsl'\n"));
    assert!(end.starts_with("\n// end of ") && end.ends_with('\n'));
    assert_eq!(begin.len(), 26);
    assert_eq!(end.len(), 19);
}
