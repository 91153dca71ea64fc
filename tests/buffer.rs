use termedit::buffer::Buffer;
use termedit::error::EditorError;

#[test]
fn new_buffer_is_empty() {
    let b = Buffer::new(3, 7);
    assert_eq!((b.rows, b.columns), (3, 7));
    assert_eq!(b.content, "");
}

#[test]
fn append_stages_without_loss() {
    let mut b = Buffer::new(1, 1);
    b.append("ab");
    b.append("c");
    assert_eq!(b.content, "abc");
}

#[test]
fn write_accepts_utf8() {
    let mut b = Buffer::new(1, 1);
    b.append("x");
    let bytes = "é~".as_bytes();
    assert_eq!(b.write(bytes), Ok(3));
    assert_eq!(b.content, "xé~");
}

#[test]
fn write_refuses_bad_bytes() {
    let mut b = Buffer::new(1, 1);
    b.append("x");
    assert_eq!(b.write(&[0x61, 0xff, 0x62]), Err(EditorError::Encoding));
    assert_eq!(b.content, "x");
}

#[test]
fn write_of_nothing_stages_nothing() {
    let mut b = Buffer::new(1, 1);
    assert_eq!(b.write(&[]), Ok(0));
    assert_eq!(b.content, "");
}

#[test]
fn flush_hands_over_everything_once() {
    let mut b = Buffer::new(1, 1);
    b.append("frame one");
    assert_eq!(b.write(b" and more"), Ok(9));
    let out = b.flush();
    assert_eq!(out, "frame one and more");
    assert_eq!(b.content, "");
    assert_eq!(b.flush(), "");
}
