use aws_pass::util::{
    clone_strings, is_white_space_char, join, prompt_for, prompt_non_empty_str, prompt_stdin_line,
    read_first_line, trim, trim_end, write_lines,
};

#[test]
fn white_space_is_what_std_calls_white_space() {
    for code in 0u32..0x11000 {
        if let Some(c) = char::from_u32(code) {
            assert_eq!(is_white_space_char(c), c.is_whitespace(), "U+{:04X}", code);
        }
    }
}

#[test]
fn trim_end_agrees_with_std() {
    for text in ["", " ", "a", "a ", " a", "a \t\r\n", "  a b  ", "\u{3000}x\u{2003}\u{a0}", "é \n"] {
        assert_eq!(trim_end(text), text.trim_end());
        assert_eq!(trim(text), text.trim());
        assert_eq!(prompt_stdin_line(text), text.trim_end());
    }
}

#[test]
fn first_line_is_what_a_line_reader_yields() {
    assert_eq!(read_first_line(""), None);
    assert_eq!(read_first_line("serial").as_deref(), Some("serial"));
    assert_eq!(read_first_line("serial\n").as_deref(), Some("serial"));
    assert_eq!(read_first_line("serial\r\nnext").as_deref(), Some("serial"));
    assert_eq!(read_first_line("serial\rmore").as_deref(), Some("serial\rmore"));
    assert_eq!(read_first_line("serial\r").as_deref(), Some("serial\r"));
    assert_eq!(read_first_line("\nsecond").as_deref(), Some(""));
    assert_eq!(read_first_line("\r\n").as_deref(), Some(""));
    assert_eq!(read_first_line("a\n\nb").as_deref(), Some("a"));
    for text in ["", "x", "x\n", "x\r\ny", "\r\n", "\n", "é\r", "a\r\r\nb"] {
        let expected = text.lines().next().map(|l| l.to_string());
        let std_reader = std::io::BufRead::lines(text.as_bytes()).next().map(|l| l.unwrap());
        assert_eq!(read_first_line(text), std_reader, "{:?}", text);
        if !text.ends_with('\r') {
            assert_eq!(read_first_line(text), expected, "{:?}", text);
        }
    }
}

#[test]
fn prompt_label_ends_with_a_colon() {
    assert_eq!(prompt_for("AWS Access Key Id"), "AWS Access Key Id:");
    assert_eq!(prompt_for(""), ":");
}

#[test]
fn non_empty_answer_is_trimmed_at_its_end() {
    assert_eq!(prompt_non_empty_str("Name", " value \n"), Ok(" value".to_string()));
    assert_eq!(prompt_non_empty_str("Name", "\n"), Err("Name must be non-empty".to_string()));
    assert_eq!(prompt_non_empty_str("Name", ""), Err("Name must be non-empty".to_string()));
    assert_eq!(prompt_non_empty_str("Name", " \t"), Err("Name must be non-empty".to_string()));
}

#[test]
fn write_lines_adds_nothing_between_lines() {
    let lines = vec!["[default]\n".to_string(), "a=b\n".to_string(), "tail".to_string()];
    assert_eq!(write_lines(&lines), "[default]\na=b\ntail");
    assert_eq!(write_lines(&[]), "");
}

#[test]
fn join_puts_the_separator_between_items() {
    let items = vec!["a".to_string(), "".to_string(), "c".to_string()];
    assert_eq!(join(&items, "\n"), "a\n\nc");
    assert_eq!(join(&items[..1], "\n"), "a");
    assert_eq!(join(&[], "\n"), "");
    assert_eq!(join(&items, ", "), items.join(", "));
    assert_eq!(clone_strings(&items), items);
}
