use resume_scan::text::{chars_of, join, paragraph_end, split_window, string_of, trim_window};

fn chars(s: &str) -> Vec<char> {
    s.chars().collect()
}

fn strings(items: &[&str]) -> Vec<String> {
    items.iter().map(|s| s.to_string()).collect()
}

fn trim_by_window(s: &str) -> String {
    let v = chars(s);
    let (a, b) = trim_window(&v, 0, v.len());
    string_of(&v, a, b)
}

#[test]
fn chars_of_gives_each_character() {
    assert_eq!(chars_of(""), Vec::<char>::new());
    assert_eq!(chars_of("aé日\n"), vec!['a', 'é', '日', '\n']);
}

#[test]
fn string_of_copies_a_window() {
    let v = chars("héllo wörld");
    assert_eq!(string_of(&v, 0, v.len()), "héllo wörld");
    assert_eq!(string_of(&v, 1, 5), "éllo");
    assert_eq!(string_of(&v, 4, 4), "");
}

#[test]
fn trim_window_narrows_to_the_core() {
    let v = chars("  ab c \n");
    assert_eq!(trim_window(&v, 0, v.len()), (2, 6));
    assert_eq!(trim_window(&v, 3, 5), (3, 4));
    assert_eq!(trim_window(&v, 2, 6), (2, 6));
    let blank = chars(" \t\n ");
    assert_eq!(trim_window(&blank, 0, 4), (4, 4));
    assert_eq!(trim_window(&blank, 1, 3), (3, 3));
    assert_eq!(trim_window(&blank, 2, 2), (2, 2));
}

#[test]
fn trimming_agrees_with_the_standard_library() {
    for s in [
        "",
        " ",
        "a",
        " a",
        "a ",
        "\t\r\n a b \u{b}\u{c}",
        "\u{85}x\u{a0}",
        "\u{1680}\u{2000}\u{200a}mid dle\u{2028}\u{2029}\u{202f}\u{205f}\u{3000}",
        "\u{200b}zero width space is no whitespace\u{200b}",
        "\u{feff}bom",
        "  \n\n  ",
    ] {
        assert_eq!(trim_by_window(s), s.trim(), "{:?}", s);
    }
}

#[test]
fn paragraph_end_is_the_first_blank_line() {
    assert_eq!(paragraph_end(&chars("")), 0);
    assert_eq!(paragraph_end(&chars("\n")), 1);
    assert_eq!(paragraph_end(&chars("\n\n")), 0);
    assert_eq!(paragraph_end(&chars("ab\ncd")), 5);
    assert_eq!(paragraph_end(&chars("ab\n\ncd\n\nef")), 2);
    assert_eq!(paragraph_end(&chars("ab\n \ncd\n\n\n")), 7);
    assert_eq!(paragraph_end(&chars("ab\r\n\r\ncd")), 8);
}

#[test]
fn split_window_divides_and_trims() {
    let v = chars("a, b ,,c");
    assert_eq!(split_window(&v, 0, v.len(), ','), strings(&["a", "b", "", "c"]));
    assert_eq!(split_window(&v, 0, v.len(), ';'), strings(&["a, b ,,c"]));
    assert_eq!(split_window(&v, 1, 5, ','), strings(&["", "b"]));
    assert_eq!(split_window(&v, 3, 3, ','), strings(&[""]));
    let commas = chars(",,");
    assert_eq!(split_window(&commas, 0, 2, ','), strings(&["", "", ""]));
}

#[test]
fn splitting_agrees_with_the_standard_library() {
    for s in ["", "a", ",", "a,b", " a , b ", ",a,,b,", "x\ny,z", "日本, 語"] {
        let v = chars(s);
        let expected: Vec<String> = s.split(',').map(|p| p.trim().to_string()).collect();
        assert_eq!(split_window(&v, 0, v.len(), ','), expected, "{:?}", s);
    }
}

#[test]
fn join_puts_the_separator_between_neighbours() {
    assert_eq!(join(&strings(&[]), "; "), "");
    assert_eq!(join(&strings(&["a"]), "; "), "a");
    assert_eq!(join(&strings(&["a", "b"]), "; "), "a; b");
    assert_eq!(join(&strings(&["", "", ""]), "; "), "; ; ");
    assert_eq!(join(&strings(&["Python", "Go", "Rust"]), ""), "PythonGoRust");
    assert_eq!(join(&strings(&["x", "y"]), "—"), "x—y");
}

#[test]
fn join_agrees_with_the_standard_library() {
    for parts in [vec![], vec!["a"], vec!["a", "b", "c"], vec!["", "x", ""], vec!["a; b", "c"]] {
        let owned = strings(&parts);
        assert_eq!(join(&owned, "; "), owned.join("; "));
    }
}
