use file_explorer::extension_of;

#[test]
fn extension_is_the_last_segment_only() {
    assert_eq!(extension_of("report.v2.csv"), "csv");
}

#[test]
fn name_without_dot_has_no_extension() {
    assert_eq!(extension_of("README"), "");
    assert_eq!(extension_of(""), "");
    assert_eq!(extension_of("Makefile"), "");
}

#[test]
fn simple_extension() {
    assert_eq!(extension_of("a.txt"), "txt");
}

#[test]
fn extension_keeps_its_case() {
    assert_eq!(extension_of("archive.TAR"), "TAR");
    assert_eq!(extension_of("Photo.JpEg"), "JpEg");
}

#[test]
fn trailing_dot_gives_empty_extension() {
    assert_eq!(extension_of("notes."), "");
    assert_eq!(extension_of("a.b."), "");
}

#[test]
fn leading_dot_counts_as_a_dot() {
    assert_eq!(extension_of(".bashrc"), "bashrc");
    assert_eq!(extension_of(".config.json"), "json");
}

#[test]
fn extension_of_non_ascii_name() {
    assert_eq!(extension_of("résumé.pdf"), "pdf");
    assert_eq!(extension_of("日本語.テキスト"), "テキスト");
}

#[test]
fn extension_never_holds_a_dot() {
    for name in ["a.b.c", "..", "x..y", "...", "a.b.c.d.e"] {
        assert!(!extension_of(name).contains('.'));
    }
    assert_eq!(extension_of("x..y"), "y");
    assert_eq!(extension_of(".."), "");
}
