use line_editor::file_manager::FlexReader;

#[test]
fn read_line() {
    let mut r = FlexReader::from_reader("aaaaaa\nbbbbb\nccc\ndd");

    assert_eq!(r.read_line().0, "aaaaaa\n");
    assert_eq!(r.read_line().0, "bbbbb\n");
    assert_eq!(r.read_line().0, "ccc\n");
    assert_eq!(r.read_line().0, "dd");
}

#[test]
fn read_lines() {
    let cases = vec![
        ("aaaaaa\nbbbbb\nccc\ndd", 2, vec!["aaaaaa\n", "bbbbb\n"]),
        (
            "aaaaaa\nbbbbb\nccc\ndd",
            5,
            vec!["aaaaaa\n", "bbbbb\n", "ccc\n", "dd"],
        ),
        ("aaaaaa", 2, vec!["aaaaaa"]),
        ("", 1, vec![]),
    ];

    for (s, i, r) in cases {
        let mut reader = FlexReader::from_reader(s);

        assert_eq!(reader.read_lines(i), r);
    }
}

#[test]
fn read_line_backward_from_end() {
    let cases = vec![
        ("", ""),
        ("aaaaaa", "aaaaaa"),
        ("aaaaaa\nbbbbb\nccc\ndd", "dd"),
        ("aaaa\nbbbb\nccc\n", "ccc\n"),
    ];

    for (s, r) in cases {
        let mut reader = FlexReader::from_reader(s);
        reader.seek_to_end();

        assert_eq!(reader.read_line_backward().0, r);
    }
}

#[test]
fn read_lines_backward() {
    let cases = vec![
        ("", 2, vec![]),
        ("aaaaaa", 1, vec!["aaaaaa"]),
        (
            "aaaaaa\nbbbbb\nccc\ndd",
            4,
            vec!["aaaaaa\n", "bbbbb\n", "ccc\n", "dd"],
        ),
    ];

    for (s, i, r) in cases {
        let mut reader = FlexReader::from_reader(s);
        reader.seek_to_end();

        assert_eq!(reader.read_lines_backward(i), r);
    }
}

#[test]
fn read_counts_and_seeks() {
    let mut reader = FlexReader::from_reader("ab\ncd\n");
    assert_eq!(reader.read_line(), ("ab\n".to_string(), 3));
    assert_eq!(reader.read_line(), ("cd\n".to_string(), 3));
    assert_eq!(reader.read_line(), (String::new(), 0));
    assert_eq!(reader.read_line_backward(), ("cd\n".to_string(), 3));
    assert_eq!(reader.read_lines_backward(5), vec!["ab\n"]);
    assert_eq!(reader.read_line_backward(), (String::new(), 0));
    reader.seek_to_end();
    assert_eq!(reader.read_lines_backward(1), vec!["cd\n"]);
    assert_eq!(reader.read_lines_backward(-1), Vec::<String>::new());
    reader.seek_to_top();
    assert_eq!(reader.read_lines(0), Vec::<String>::new());
    assert_eq!(reader.read_lines(9), vec!["ab\n", "cd\n"]);
}
