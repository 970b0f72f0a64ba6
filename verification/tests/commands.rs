use sam_wd::command::{is_whitespace, parse_command_line, split_whitespace, CommandLine};

fn strings(words: &[&str]) -> Vec<String> {
    words.iter().map(|w| String::from(*w)).collect()
}

#[test]
fn whitespace_is_what_std_says() {
    let mut code: u32 = 0;
    while code <= 0x10ffff {
        if let Some(c) = char::from_u32(code) {
            assert_eq!(is_whitespace(c), c.is_whitespace(), "U+{:04X}", code);
        }
        code += 1;
    }
}

#[test]
fn whitespace_examples() {
    assert!(is_whitespace(' '));
    assert!(is_whitespace('\t'));
    assert!(is_whitespace('\n'));
    assert!(is_whitespace('\r'));
    assert!(is_whitespace('\u{a0}'));
    assert!(is_whitespace('\u{3000}'));
    assert!(!is_whitespace('a'));
    assert!(!is_whitespace('0'));
    assert!(!is_whitespace('\u{200b}'));
    assert!(!is_whitespace('\u{0}'));
}

#[test]
fn split_gives_the_words_in_order() {
    assert_eq!(split_whitespace("./sam_dap"), strings(&["./sam_dap"]));
    assert_eq!(split_whitespace("./sam_dap -f dap.log"), strings(&["./sam_dap", "-f", "dap.log"]));
    assert_eq!(split_whitespace("a b"), strings(&["a", "b"]));
    assert_eq!(split_whitespace("  a   b  "), strings(&["a", "b"]));
    assert_eq!(split_whitespace("a\tb\nc\r\nd"), strings(&["a", "b", "c", "d"]));
    assert_eq!(split_whitespace("x"), strings(&["x"]));
}

#[test]
fn split_of_blank_text_is_empty() {
    assert_eq!(split_whitespace(""), Vec::<String>::new());
    assert_eq!(split_whitespace(" "), Vec::<String>::new());
    assert_eq!(split_whitespace(" \t\r\n \u{3000}"), Vec::<String>::new());
}

#[test]
fn split_knows_no_quotes_and_no_escapes() {
    assert_eq!(
        split_whitespace("sh -c \"echo hi\" 'a b' c\\ d"),
        strings(&["sh", "-c", "\"echo", "hi\"", "'a", "b'", "c\\", "d"])
    );
}

#[test]
fn split_handles_text_beyond_ascii() {
    assert_eq!(
        split_whitespace("\u{e9}t\u{e9}\u{a0}\u{4e16}\u{754c}\u{3000}\u{1f600}"),
        strings(&["\u{e9}t\u{e9}", "\u{4e16}\u{754c}", "\u{1f600}"])
    );
    assert_eq!(split_whitespace("a\u{200b}b"), strings(&["a\u{200b}b"]));
}

#[test]
fn split_agrees_with_std() {
    let texts = [
        "",
        " ",
        "a",
        " a",
        "a ",
        "ab  cd\tef",
        "./bin --flag=1   value\n",
        "\u{2003}wide\u{2003}spaces\u{2003}",
        "x\u{85}y\u{1680}z\u{2028}w\u{2029}v\u{202f}u\u{205f}t",
        "one two three four five six seven eight nine ten",
    ];
    for text in texts {
        let want: Vec<String> = text.split_whitespace().map(String::from).collect();
        assert_eq!(split_whitespace(text), want);
    }
}

#[test]
fn parse_parts_program_and_arguments() {
    assert_eq!(
        parse_command_line("./sam_dap"),
        Some(CommandLine { program: String::from("./sam_dap"), args: Vec::new() })
    );
    assert_eq!(
        parse_command_line("  /bin/sh  -c   true "),
        Some(CommandLine { program: String::from("/bin/sh"), args: strings(&["-c", "true"]) })
    );
}

#[test]
fn parse_of_blank_line_gives_nothing() {
    assert_eq!(parse_command_line(""), None);
    assert_eq!(parse_command_line("   \t "), None);
}
