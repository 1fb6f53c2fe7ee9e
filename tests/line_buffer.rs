use line_editor::error::EditError;
use line_editor::line_buffer::LineBuffer;

#[test]
fn delete_last_character() {
    let mut line = LineBuffer::new("abcde");
    line.remove(4).unwrap();
    assert_eq!(line.to_string(), "abcd");
    assert_eq!(line.len(), 4);
}

#[test]
fn line_insert_and_text() {
    let mut line = LineBuffer::new("héllo\n");
    assert_eq!(line.len(), 6);
    assert_eq!(line.to_string(), "héllo\n");
    line.insert(5, '!').unwrap();
    assert_eq!(line.to_string(), "héllo!\n");
    assert_eq!(line.chars(), "héllo!\n".chars().collect::<Vec<_>>());
}

#[test]
fn line_out_of_bounds() {
    let mut line = LineBuffer::new("ab");
    assert_eq!(line.insert(3, 'x'), Err(EditError::OutOfBounds));
    assert_eq!(line.remove(2), Err(EditError::OutOfBounds));
    assert_eq!(line.to_string(), "ab");
}

#[test]
fn empty_line() {
    let line = LineBuffer::new("");
    assert_eq!(line.len(), 0);
    assert_eq!(line.to_string(), "");
}
