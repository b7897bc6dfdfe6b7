use podlet::file::File;

#[test]
fn url_file_name() {
    let sut = File::parse("https://example.com/test.yaml");
    assert!(matches!(sut, File::Url(_)));
    assert_eq!(sut.name(), Some("test"));
}

#[test]
fn path_file_name() {
    let sut = File::parse("test.yaml");
    assert!(matches!(sut, File::Path(_)));
    assert_eq!(sut.name(), Some("test"));
}

#[test]
fn parse_is_total_and_classifies() {
    assert!(matches!(File::parse("https://example.com/test.yaml"), File::Url(_)));
    assert!(matches!(File::parse("mailto:user@example.com"), File::Url(_)));
    assert!(matches!(File::parse("test.yaml"), File::Path(_)));
    assert!(matches!(File::parse("relative/dir/pod.yaml"), File::Path(_)));
    assert!(matches!(File::parse("not a url at all"), File::Path(_)));
    assert!(matches!(File::parse(""), File::Path(_)));
}

#[test]
fn url_display_is_canonical() {
    // The canonical serialization differs from the input: the scheme and
    // host are lowercased and the empty path becomes "/".
    let sut = File::parse("HTTPS://EXAMPLE.COM/Test.yaml");
    assert_eq!(sut.display(), "https://example.com/Test.yaml");
    let bare = File::parse("https://example.com");
    assert_eq!(bare.display(), "https://example.com/");
}

#[test]
fn path_display_is_verbatim() {
    let sut = File::parse("some dir/pod.yaml");
    assert_eq!(sut.display(), "some dir/pod.yaml");
}

#[test]
fn url_name_empty_last_segment_is_absent() {
    let sut = File::parse("https://example.com/");
    assert!(matches!(sut, File::Url(_)));
    assert_eq!(sut.name(), None);
}

#[test]
fn url_name_splits_at_first_dot() {
    let sut = File::parse("https://example.com/a.b.c");
    assert_eq!(sut.name(), Some("a"));
}

#[test]
fn url_name_without_segments_is_absent() {
    let sut = File::parse("mailto:user@example.com");
    assert!(matches!(sut, File::Url(_)));
    assert_eq!(sut.name(), None);
}

#[test]
fn path_name_without_extension_is_whole_stem() {
    let sut = File::parse("test");
    assert_eq!(sut.name(), Some("test"));
}

#[test]
fn path_name_strips_directories_and_last_extension() {
    assert_eq!(File::parse("/some/dir/pod.yaml").name(), Some("pod"));
    assert_eq!(File::parse("a.b.c").name(), Some("a.b"));
    assert_eq!(File::parse("dir/").name(), Some("dir"));
    assert_eq!(File::parse(".yaml").name(), Some(".yaml"));
}

#[test]
fn path_name_skips_trailing_current_dir_components() {
    // As in std's path model, trailing `.` components and separators do
    // not take part in the file name.
    assert_eq!(File::parse("foo.txt/.").name(), Some("foo"));
    assert_eq!(File::parse("foo.txt/.//").name(), Some("foo"));
    assert_eq!(File::parse("a/./.").name(), Some("a"));
    assert_eq!(File::parse("./a").name(), Some("a"));
}

#[test]
fn path_name_absent_for_bare_components() {
    assert_eq!(File::parse("").name(), None);
    assert_eq!(File::parse("/").name(), None);
    assert_eq!(File::parse(".").name(), None);
    assert_eq!(File::parse("./.").name(), None);
    assert_eq!(File::parse("..").name(), None);
    assert_eq!(File::parse("some/dir/..").name(), None);
    assert_eq!(File::parse("some/dir/../").name(), None);
}
