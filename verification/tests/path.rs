use clipper::path::{destination, extension, is_renamed, join, output_name, proposed_name};

fn ext(path: &str) -> Option<String> {
    extension(path)
}

#[test]
fn extension_follows_the_last_dot() {
    assert_eq!(ext("a.mp4"), Some("mp4".to_string()));
    assert_eq!(ext("archive.tar.gz"), Some("gz".to_string()));
    assert_eq!(ext("clips/day 1/a.b.mov"), Some("mov".to_string()));
}

#[test]
fn extension_is_read_from_the_last_component() {
    assert_eq!(ext("dir.d/file"), None);
    assert_eq!(ext(r"dir.d\file"), None);
    assert_eq!(ext(r".\test\a.mp4"), Some("mp4".to_string()));
    assert_eq!(ext("./test/a.mp4"), Some("mp4".to_string()));
    assert_eq!(ext("a.mp4/"), None);
}

#[test]
fn names_without_extension() {
    assert_eq!(ext(""), None);
    assert_eq!(ext("file"), None);
    assert_eq!(ext(".hidden"), None);
    assert_eq!(ext("dir/.hidden"), None);
    assert_eq!(ext("/"), None);
}

#[test]
fn the_directory_above_has_no_extension() {
    assert_eq!(ext(".."), None);
    assert_eq!(ext("clips/.."), None);
    assert_eq!(ext(r"clips\.."), None);
    assert_eq!(ext("..."), Some(String::new()));
    assert_eq!(ext("..mp4"), Some("mp4".to_string()));
    assert_eq!(ext("a.."), Some(String::new()));
}

#[test]
fn hidden_file_with_extension() {
    assert_eq!(ext(".hidden.mp4"), Some("mp4".to_string()));
}

#[test]
fn empty_extension_after_a_trailing_dot() {
    assert_eq!(ext("file."), Some(String::new()));
}

#[test]
fn extension_with_wide_characters() {
    assert_eq!(ext("vidéo/ça.mp4"), Some("mp4".to_string()));
    assert_eq!(ext("a.é✓"), Some("é✓".to_string()));
}

#[test]
fn join_puts_a_slash_between() {
    assert_eq!(join("out", "Ex1.mp4"), "out/Ex1.mp4");
    assert_eq!(join("a/b", "c.mov"), "a/b/c.mov");
}

#[test]
fn join_adds_no_second_separator() {
    assert_eq!(join("out/", "Ex1.mp4"), "out/Ex1.mp4");
    assert_eq!(join(r"out\", "Ex1.mp4"), r"out\Ex1.mp4");
}

#[test]
fn join_under_no_directory() {
    assert_eq!(join("", "Ex1.mp4"), "Ex1.mp4");
}

#[test]
fn output_name_is_label_and_extension() {
    assert_eq!(output_name("Ex1", "a.mp4"), Some("Ex1.mp4".to_string()));
    assert_eq!(output_name("Ex. 192 A", r".\test\a.mp4"), Some("Ex. 192 A.mp4".to_string()));
}

#[test]
fn output_name_is_sanitized() {
    assert_eq!(output_name("Ex:1", "a.mp4"), Some("Ex-1.mp4".to_string()));
    assert_eq!(output_name("a/b?", "x.mov"), Some("a-b-.mov".to_string()));
}

#[test]
fn no_output_name_without_extension() {
    assert_eq!(output_name("Ex1", "a"), None);
    assert_eq!(output_name("Ex1", ""), None);
}

#[test]
fn destination_lies_under_the_directory() {
    assert_eq!(destination("out", "Ex1", "a.mp4"), Some("out/Ex1.mp4".to_string()));
    assert_eq!(destination("out", "Ex:1", "a.mp4"), Some("out/Ex-1.mp4".to_string()));
    assert_eq!(destination("out", "Ex1", "a"), None);
}

#[test]
fn proposed_name_is_label_dot_extension() {
    assert_eq!(proposed_name("Ex:1", "a.mp4"), Some("Ex:1.mp4".to_string()));
    assert_eq!(proposed_name("Ex1", "dir/a.b.mov"), Some("Ex1.mov".to_string()));
    assert_eq!(proposed_name("Ex1", "a"), None);
}

#[test]
fn renamed_exactly_when_a_reserved_character_is_replaced() {
    assert!(is_renamed("Ex:1", "a.mp4"));
    assert!(is_renamed("what?", "a.mp4"));
    assert!(!is_renamed("Ex1", "a.mp4"));
    assert!(!is_renamed("Ex1", r"C:\clips\a.mp4"));
    assert!(!is_renamed("Ex:1", "a"));
}

#[test]
fn extension_agrees_with_the_standard_library_on_plain_paths() {
    for path in [
        "a.mp4",
        "a",
        ".hidden",
        ".hidden.mp4",
        "dir/a.mp4",
        "dir.d/a",
        "dir.d/.a",
        "/abs/olute/clip.final.mov",
        "./test/a.mp4",
        "clips/day 1/Ex. 192 A.mkv",
        "a.b.c.d",
        "file.",
        "vidéo/ça.mp4",
        "",
        "..",
        "dir/..",
        "...",
        "..mp4",
    ] {
        let expected = std::path::Path::new(path)
            .extension()
            .map(|e| e.to_str().unwrap().to_string());
        assert_eq!(extension(path), expected, "for {path:?}");
    }
}

#[test]
fn join_agrees_with_the_standard_library_on_plain_paths() {
    for (directory, name) in
        [("out", "Ex1.mp4"), ("out/", "Ex1.mp4"), ("", "Ex1.mp4"), ("a/b/c", "d.mov"), ("./out", "x")]
    {
        let expected = std::path::Path::new(directory).join(name);
        assert_eq!(join(directory, name), expected.to_str().unwrap(), "for {directory:?}");
    }
}
