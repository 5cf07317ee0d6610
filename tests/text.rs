use rust_bits::text::{csl, csl_texts, find_last_utf8, fold, fold_texts, indent, label, label_def, offset};

#[test]
fn offset_builds_spaces() {
    assert_eq!(offset(3), "   ");
    assert_eq!(offset(0), "");
}

#[test]
fn find_last_utf8_finds_last() {
    assert_eq!(find_last_utf8("a,b,c", ','), Some(3));
    assert_eq!(find_last_utf8(",", ','), Some(0));
}

#[test]
fn find_last_utf8_absent() {
    assert_eq!(find_last_utf8("abc", ','), None);
    assert_eq!(find_last_utf8("", ','), None);
}

#[test]
fn find_last_utf8_counts_characters() {
    // 'é' is two bytes but one character
    assert_eq!(find_last_utf8("héllo,", ','), Some(5));
    assert_eq!(find_last_utf8("ü,ö,ä", 'ö'), Some(2));
}

#[test]
fn indent_repeats_char() {
    assert_eq!(indent('*', 4), "****");
    assert_eq!(indent('-', 0), "");
    assert_eq!(indent('é', 2), "éé");
}

#[test]
fn label_frames_note() {
    assert_eq!(label("hi", 3), "\n---\n  hi\n---\n");
    assert_eq!(label("", 0), "\n\n  \n\n");
}

#[test]
fn label_def_uses_fifty_dashes() {
    let line = "-".repeat(50);
    assert_eq!(label_def("note"), format!("\n{line}\n  note\n{line}\n"));
}

#[test]
fn fold_texts_wraps_rows() {
    let texts: Vec<String> = ["1", "2", "3", "4", "5"].iter().map(|s| s.to_string()).collect();
    assert_eq!(fold_texts(&texts, 2, 2), "  1, 2, \n  3, 4, \n  5");
}

#[test]
fn fold_texts_width_one_keeps_first_pair() {
    let texts: Vec<String> = ["a", "b", "c"].iter().map(|s| s.to_string()).collect();
    assert_eq!(fold_texts(&texts, 0, 1), "a, b, \nc");
}

#[test]
fn fold_texts_keeps_commas_inside_items() {
    let texts: Vec<String> = ["(1, 2)", "(3, 4)"].iter().map(|s| s.to_string()).collect();
    assert_eq!(fold_texts(&texts, 1, 5), " (1, 2), (3, 4)");
}

#[test]
fn fold_texts_empty_is_indent() {
    let texts: Vec<String> = Vec::new();
    assert_eq!(fold_texts(&texts, 4, 0), "    ");
}

#[test]
fn fold_formats_debug_items() {
    assert_eq!(fold(&[1, 2, 3], 0, 10), "1, 2, 3");
    assert_eq!(fold(&[1, 2, 3, 4], 2, 3), "  1, 2, 3, \n  4");
    assert_eq!(fold(&["a", "b"], 0, 5), "\"a\", \"b\"");
}

#[test]
fn fold_empty_slice() {
    let empty: [i32; 0] = [];
    assert_eq!(fold(&empty, 3, 0), "   ");
}

#[test]
fn csl_texts_joins_with_commas() {
    let texts: Vec<String> = ["1", "2", "3"].iter().map(|s| s.to_string()).collect();
    assert_eq!(csl_texts(&texts), "1, 2, 3");
    let one: Vec<String> = vec!["only".to_string()];
    assert_eq!(csl_texts(&one), "only");
    assert_eq!(csl_texts(&Vec::new()), "");
}

#[test]
fn csl_texts_keeps_commas_inside_items() {
    let texts: Vec<String> = ["a,b", "c,"].iter().map(|s| s.to_string()).collect();
    assert_eq!(csl_texts(&texts), "a,b, c,");
}

#[test]
fn csl_formats_debug_items() {
    assert_eq!(csl(&[1, 2, 3, 4, 3, 2, 1]), "1, 2, 3, 4, 3, 2, 1");
    assert_eq!(csl(&[1.5f64, -2.0]), "1.5, -2.0");
    assert_eq!(csl(&['x', 'y']), "'x', 'y'");
    let empty: Vec<u8> = Vec::new();
    assert_eq!(csl(&empty), "");
}
