use paste_client::content_type::{extension, infer_mime, or_octet_stream};

#[test]
fn extension_follows_the_last_dot() {
    assert_eq!(extension("a.png"), "png");
    assert_eq!(extension("archive.tar.gz"), "gz");
    assert_eq!(extension("dir.d/readme.TXT"), "TXT");
}

#[test]
fn extension_is_empty_without_a_dot() {
    assert_eq!(extension("a"), "");
    assert_eq!(extension(""), "");
    assert_eq!(extension("Makefile"), "");
}

#[test]
fn extension_at_the_edges_of_a_name() {
    assert_eq!(extension("a."), "");
    assert_eq!(extension(".bashrc"), "bashrc");
    assert_eq!(extension("."), "");
    assert_eq!(extension(".."), "");
}

#[test]
fn extension_counts_characters_not_bytes() {
    assert_eq!(extension("r\u{e9}sum\u{e9}.p\u{e9}"), "p\u{e9}");
    assert_eq!(extension("\u{65e5}\u{672c}.\u{8a9e}"), "\u{8a9e}");
}

#[test]
fn png_is_an_image() {
    let media_type = infer_mime("a.png");
    assert_eq!(media_type, "image/png");
    assert!(media_type.starts_with("image/"));
}

#[test]
fn name_without_extension_is_an_octet_stream() {
    assert_eq!(infer_mime("a"), "application/octet-stream");
    assert_eq!(infer_mime(""), "application/octet-stream");
    assert_eq!(infer_mime("a."), "application/octet-stream");
}

#[test]
fn unknown_extension_is_an_octet_stream() {
    assert_eq!(infer_mime("a.qzxy"), "application/octet-stream");
}

#[test]
fn known_extensions_are_looked_up() {
    assert_eq!(infer_mime("notes.txt"), "text/plain");
    assert_eq!(infer_mime("page.html"), "text/html");
    assert_eq!(infer_mime("data.json"), "application/json");
    assert_eq!(infer_mime("photo.JPG"), "image/jpeg");
}

#[test]
fn only_the_last_extension_counts() {
    assert_eq!(infer_mime("a.png.txt"), "text/plain");
    assert_eq!(infer_mime("a.txt.png"), "image/png");
}

#[test]
fn a_missing_guess_is_an_octet_stream() {
    assert_eq!(or_octet_stream(None), "application/octet-stream");
    assert_eq!(or_octet_stream(Some(String::from("image/png"))), "image/png");
    assert_eq!(or_octet_stream(Some(String::new())), "");
}
