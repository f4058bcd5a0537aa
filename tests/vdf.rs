use melodia::vdf::{parse_vdf_line, values_for_key};

#[test]
fn parses_matching_line() {
    assert_eq!(parse_vdf_line("\t\t\"installdir\"\t\t\"MyGame\"", "installdir"), Some("MyGame"));
    assert_eq!(parse_vdf_line("  \"path\"   \"/home/u/lib\"  ", "path"), Some("/home/u/lib"));
}

#[test]
fn keeps_empty_value() {
    assert_eq!(parse_vdf_line("\"path\" \"\"", "path"), Some(""));
}

#[test]
fn other_key_is_no_match() {
    assert_eq!(parse_vdf_line("\"name\"\t\"Game\"", "installdir"), None);
    assert_eq!(parse_vdf_line("\"pathx\"\t\"/a\"", "path"), None);
    assert_eq!(parse_vdf_line("\"Path\"\t\"/a\"", "path"), None);
}

#[test]
fn malformed_lines_are_no_match() {
    assert_eq!(parse_vdf_line("", "path"), None);
    assert_eq!(parse_vdf_line("{", "path"), None);
    assert_eq!(parse_vdf_line("}", "path"), None);
    assert_eq!(parse_vdf_line("// comment", "path"), None);
    assert_eq!(parse_vdf_line("\"path\"", "path"), None);
    assert_eq!(parse_vdf_line("\"path\" \"", "path"), None);
    assert_eq!(parse_vdf_line("\"path\" \"abc", "path"), None);
    assert_eq!(parse_vdf_line("\"path\" abc\"", "path"), None);
    assert_eq!(parse_vdf_line("\"path\"\"abc\"", "path"), None);
    assert_eq!(parse_vdf_line("\"name\" \"unbalanced", "path"), None);
    assert_eq!(parse_vdf_line("\"pa", "path"), None);
}

#[test]
fn non_ascii_values() {
    assert_eq!(parse_vdf_line("\"path\"\u{3000}\"/home/ü/ß\"", "path"), Some("/home/ü/ß"));
}

#[test]
fn collects_values_in_line_order() {
    let text = "\"libraryfolders\"\n{\n\t\"0\"\n\t{\n\t\t\"path\"\t\t\"/a\"\r\n\t}\n\t\"path\" \"/b\"\n\"path\" \"/c\"";
    assert_eq!(values_for_key(text, "path"), vec!["/a", "/b", "/c"]);
    assert_eq!(values_for_key("", "path"), Vec::<&str>::new());
    assert_eq!(values_for_key("\"path\" \"/a\"\n", "path"), vec!["/a"]);
}
