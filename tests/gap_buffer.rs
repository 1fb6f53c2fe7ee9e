use line_editor::error::EditError;
use line_editor::gap_buffer::{GapBuffer, Operation};

fn text_of(buf: &GapBuffer<char>) -> String {
    buf.as_vec().iter().collect::<String>()
}

#[test]
fn insert() {
    let cases = vec![
        ("abcde", 0, 'k', "kabcde"),
        ("abcde", 1, 'k', "akbcde"),
        ("abcde", 5, 'k', "abcdek"),
    ];

    for (init, index, ch, result) in cases {
        let mut buf = GapBuffer::from(init.chars().collect::<Vec<_>>());

        buf.insert(index, ch).unwrap();
        assert_eq!(text_of(&buf), result);
    }
}

#[test]
fn insert_many() {
    let cases = vec![
        (
            "abcde",
            vec![(0, 'k'), (1, 'l'), (2, 'm'), (3, 'n')],
            "klmnabcde",
        ),
        (
            "abcde",
            vec![(0, 'k'), (1, 'l'), (2, 'm'), (7, 'n'), (9, 'o')],
            "klmabcdneo",
        ),
    ];

    for (init, ops, result) in cases {
        let mut buf = GapBuffer::from(init.chars().collect::<Vec<_>>());

        for (index, ch) in ops {
            buf.insert(index, ch).unwrap();
        }

        assert_eq!(text_of(&buf), result);
    }
}

#[test]
fn delete() {
    let cases = vec![
        ("abcde", 0, "bcde"),
        ("abcde", 1, "acde"),
        ("abcde", 4, "abcd"),
    ];

    for (init, index, result) in cases {
        let mut buf = GapBuffer::from(init.chars().collect::<Vec<_>>());

        buf.delete(index).unwrap();
        assert_eq!(text_of(&buf), result);
    }
}

#[test]
fn ex() {
    let case = (
        "abcde",
        vec![
            (Operation::Insert('k'), 2, "abkcde"),
            (Operation::Delete, 4, "abkce"),
            (Operation::Insert('u'), 3, "abkuce"),
            (Operation::Insert('v'), 5, "abkucve"),
        ],
    );

    let mut buf = GapBuffer::from(case.0.chars().collect::<Vec<_>>());
    for (op, i, result) in case.1 {
        buf.operate(i, op).unwrap();
        assert_eq!(text_of(&buf), result);
    }
}

#[test]
fn construct_then_insert_at_front() {
    let mut buf = GapBuffer::from("abcde".chars().collect::<Vec<_>>());
    buf.insert(0, 'X').unwrap();
    assert_eq!(text_of(&buf), "Xabcde");
}

#[test]
fn insert_past_end_is_out_of_bounds() {
    let mut buf = GapBuffer::from("abc".chars().collect::<Vec<_>>());
    assert_eq!(buf.insert(4, 'x'), Err(EditError::OutOfBounds));
    assert_eq!(text_of(&buf), "abc");
    assert_eq!(buf.len(), 3);
}

#[test]
fn delete_at_length_is_out_of_bounds() {
    let mut buf = GapBuffer::from("abc".chars().collect::<Vec<_>>());
    assert_eq!(buf.delete(3), Err(EditError::OutOfBounds));
    assert_eq!(text_of(&buf), "abc");
    let mut empty: GapBuffer<char> = GapBuffer::from(Vec::new());
    assert_eq!(empty.delete(0), Err(EditError::OutOfBounds));
    assert_eq!(
        empty.operate(1, Operation::Insert('a')),
        Err(EditError::OutOfBounds)
    );
}

#[test]
fn edits_at_the_end() {
    let mut buf = GapBuffer::from("abc".chars().collect::<Vec<_>>());
    buf.insert(3, 'd').unwrap();
    assert_eq!(text_of(&buf), "abcd");
    buf.delete(3).unwrap();
    assert_eq!(text_of(&buf), "abc");
    buf.delete(2).unwrap();
    assert_eq!(text_of(&buf), "ab");
    assert_eq!(buf.len(), 2);
}

#[test]
fn insert_into_empty_buffer() {
    let mut buf: GapBuffer<char> = GapBuffer::from(Vec::new());
    assert_eq!(buf.len(), 0);
    buf.insert(0, 'a').unwrap();
    buf.insert(1, 'b').unwrap();
    buf.insert(0, 'c').unwrap();
    assert_eq!(text_of(&buf), "cab");
}

#[test]
fn matches_plain_vector_on_mixed_edits() {
    let mut buf = GapBuffer::from(vec![1u32, 2, 3, 4, 5, 6, 7]);
    let mut reference = vec![1u32, 2, 3, 4, 5, 6, 7];
    let mut seed: u64 = 12345;
    for step in 0..500u32 {
        seed = seed.wrapping_mul(6364136223846793005).wrapping_add(1442695040888963407);
        let len = reference.len();
        let index = ((seed >> 33) as usize) % (len + 2);
        if (seed >> 20) % 3 == 0 {
            let r = buf.delete(index);
            if index < len {
                assert_eq!(r, Ok(()));
                reference.remove(index);
            } else {
                assert_eq!(r, Err(EditError::OutOfBounds));
            }
        } else {
            let r = buf.insert(index, step);
            if index <= len {
                assert_eq!(r, Ok(()));
                reference.insert(index, step);
            } else {
                assert_eq!(r, Err(EditError::OutOfBounds));
            }
        }
        assert_eq!(buf.as_vec(), reference);
        assert_eq!(buf.len(), reference.len());
    }
}
