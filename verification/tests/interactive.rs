use worker_preview::interactive::{delete, strip_trailing_whitespace};

#[test]
fn it_trims_user_input_right_whitespace_chars() {
    let test_str = "mysecret\r".to_string();

    let truncated_str = strip_trailing_whitespace(test_str);
    assert_eq!(truncated_str, "mysecret")
}

#[test]
fn trimming_keeps_inner_and_leading_white_space() {
    assert_eq!(strip_trailing_whitespace("  a b \t\r\n".to_string()), "  a b");
    assert_eq!(strip_trailing_whitespace("".to_string()), "");
    assert_eq!(strip_trailing_whitespace(" \n ".to_string()), "");
    assert_eq!(strip_trailing_whitespace("plain".to_string()), "plain");
}

#[test]
fn trimming_agrees_with_the_standard_library() {
    let samples = [
        "tab\t",
        "nbsp\u{a0}",
        "ideographic\u{3000}\u{2003}",
        "next line\u{85}",
        "zero width stays\u{200b}",
        "caf\u{e9}  ",
        "\u{1680}",
        "line\u{2028}\u{2029}\u{202f}\u{205f}",
        "control\u{1f}",
    ];
    for s in samples {
        assert_eq!(strip_trailing_whitespace(s.to_string()), s.trim_end());
    }
}

#[test]
fn delete_reads_yes_and_no() {
    assert_eq!(delete("y").ok(), Some(true));
    assert_eq!(delete("yes").ok(), Some(true));
    assert_eq!(delete("Yes").ok(), Some(true));
    assert_eq!(delete("  Y es").ok(), Some(true));
    assert_eq!(delete("n").ok(), Some(false));
    assert_eq!(delete("no").ok(), Some(false));
    assert_eq!(delete("No\n").ok(), Some(false));
    assert_eq!(delete("\t N").ok(), Some(false));
}

#[test]
fn delete_refuses_anything_else() {
    assert!(delete("").is_err());
    assert!(delete("   ").is_err());
    assert!(delete("maybe").is_err());
    assert!(delete("1").is_err());
    assert!(delete("\u{e9}").is_err());
    assert!(delete("oui, yes").is_err());
}

#[test]
fn refusal_says_what_is_expected() {
    let e = delete("x").unwrap_err();
    assert_eq!(e.message(), "Response must either be \"y\" for yes or \"n\" for no");
}
