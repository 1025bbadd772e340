use mandy::paths::{file_name, replace_extension, to_file_url};

#[test]
fn file_url_drops_extended_length_marker() {
    let url = to_file_url(r"\\?\C:\Users\me\doc.temp.html");
    assert_eq!(url, "file:///C:/Users/me/doc.temp.html");
    assert!(!url.contains('\\'));
    assert!(!url.contains("?"));
}

#[test]
fn file_url_of_plain_windows_path() {
    assert_eq!(to_file_url(r"C:\docs\a.temp.html"), "file:///C:/docs/a.temp.html");
}

#[test]
fn file_url_of_rooted_path() {
    assert_eq!(to_file_url("/tmp/a b/x.temp.html"), "file:///tmp/a b/x.temp.html");
}

#[test]
fn output_path_replaces_extension() {
    assert_eq!(replace_extension("notes/report.md", "pdf"), "notes/report.pdf");
    assert_eq!(replace_extension(r"C:\docs\a.md", "pdf"), r"C:\docs\a.pdf");
    assert_eq!(replace_extension("report.md", "temp.html"), "report.temp.html");
}

#[test]
fn extension_edge_cases() {
    assert_eq!(replace_extension("archive.tar.gz", "pdf"), "archive.tar.pdf");
    assert_eq!(replace_extension("README", "pdf"), "README.pdf");
    assert_eq!(replace_extension(".bashrc", "pdf"), ".bashrc.pdf");
    assert_eq!(replace_extension("dir.d/file", "pdf"), "dir.d/file.pdf");
    assert_eq!(replace_extension("name.", "pdf"), "name.pdf");
    assert_eq!(replace_extension("a.md", ""), "a");
    assert_eq!(replace_extension("..", "pdf"), "..");
    assert_eq!(replace_extension("a/.", "pdf"), "a/.");
    assert_eq!(replace_extension("", "pdf"), "");
}

#[test]
fn extension_agrees_with_path_on_ordinary_names() {
    for p in ["notes/report.md", "report.md", "a.b.c", "x", "dir/.hidden", "d/name."] {
        let expected = std::path::Path::new(p).with_extension("pdf");
        assert_eq!(replace_extension(p, "pdf"), expected.to_str().unwrap(), "{:?}", p);
    }
}

#[test]
fn file_name_after_last_separator() {
    assert_eq!(file_name("notes/report.pdf"), "report.pdf");
    assert_eq!(file_name(r"C:\a\b.pdf"), "b.pdf");
    assert_eq!(file_name("plain.pdf"), "plain.pdf");
    assert_eq!(file_name("dir/"), "");
}
