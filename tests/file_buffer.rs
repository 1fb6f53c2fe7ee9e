use line_editor::error::EditError;
use line_editor::file_buffer::FileBuffer;

fn loaded(text: &str) -> FileBuffer {
    let mut fb = FileBuffer::new();
    fb.load("notes.txt", text);
    fb
}

#[test]
fn load_splits_lines_keeping_terminators() {
    let fb = loaded("abcde\nfg\nh");
    assert_eq!(fb.len(), 3);
    assert_eq!(
        fb.get_strings_between(0, 3).unwrap(),
        vec!["abcde\n", "fg\n", "h"]
    );
    assert_eq!(fb.len_at(0), 6);
    assert_eq!(fb.len_at(2), 1);
    assert_eq!(fb.file_path(), "notes.txt");
}

#[test]
fn load_empty_text_has_no_rows() {
    let fb = loaded("");
    assert_eq!(fb.len(), 0);
    assert_eq!(fb.contents(), "");
}

#[test]
fn load_keeps_empty_lines() {
    let fb = loaded("\n\nx\n");
    assert_eq!(fb.get_strings_between(0, 3).unwrap(), vec!["\n", "\n", "x\n"]);
}

#[test]
fn load_then_persist_gives_the_text_back() {
    for text in ["abcde\nfg\nh\n", "no terminator", "", "\n", "a\n\nb", "ünï\ncödé\n"] {
        assert_eq!(loaded(text).contents(), text);
    }
}

#[test]
fn window_reads_repeat() {
    let fb = loaded("a\nb\nc\n");
    let first = fb.get_strings_between(1, 3);
    let second = fb.get_strings_between(1, 3);
    assert_eq!(first, second);
    assert_eq!(first.unwrap(), vec!["b\n", "c\n"]);
    assert_eq!(fb.get_strings_between(2, 2).unwrap(), Vec::<String>::new());
}

#[test]
fn window_out_of_bounds() {
    let fb = loaded("a\nb\n");
    assert_eq!(fb.get_strings_between(0, 3), Err(EditError::OutOfBounds));
    assert_eq!(fb.get_strings_between(2, 1), Err(EditError::OutOfBounds));
}

#[test]
fn edits_by_row_and_column() {
    let mut fb = loaded("abc\nde\n");
    fb.insert_at(1, 2, 'f').unwrap();
    fb.delete_at(0, 0).unwrap();
    assert_eq!(fb.contents(), "bc\ndef\n");
    assert_eq!(fb.insert_at(2, 0, 'x'), Err(EditError::OutOfBounds));
    assert_eq!(fb.insert_at(0, 4, 'x'), Err(EditError::OutOfBounds));
    assert_eq!(fb.delete_at(1, 4), Err(EditError::OutOfBounds));
    assert_eq!(fb.delete_at(5, 0), Err(EditError::OutOfBounds));
    assert_eq!(fb.contents(), "bc\ndef\n");
}
