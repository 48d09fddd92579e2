use blurhash_cli::local_path::{
    classify_path, contains_separator, is_extension_shaped, looks_like_local_path,
    path_rule_of, starts_with_drive, PathRule,
};
use blurhash_cli::text::to_chars;

#[test]
fn test_looks_like_local_path() {
    // Test Windows-style paths
    assert!(looks_like_local_path("C:\\Users\\test\\image.jpg"));
    assert!(looks_like_local_path("D:\\photos\\vacation\\pic.png"));
    assert!(looks_like_local_path(".\\relative\\path.jpg"));
    assert!(looks_like_local_path("..\\parent\\path.jpg"));
    assert!(looks_like_local_path("folder\\subfolder\\image.jpg"));

    // Test Unix-style paths
    assert!(looks_like_local_path("/usr/local/images/test.jpg"));
    assert!(looks_like_local_path("./relative/path.jpg"));
    assert!(looks_like_local_path("../parent/path.jpg"));
    assert!(looks_like_local_path("folder/subfolder/image.jpg"));
    assert!(looks_like_local_path("/root/path.jpg"));

    // Test simple filenames
    assert!(looks_like_local_path("image.jpg"));
    assert!(looks_like_local_path("document.pdf"));
    assert!(looks_like_local_path("test-file.png"));
    assert!(looks_like_local_path("my.complex.file.name.jpg"));

    // Test invalid paths
    assert!(!looks_like_local_path("https://example.com/image.jpg"));
    assert!(!looks_like_local_path("http://example.com/image.jpg"));
    assert!(!looks_like_local_path("")); // Empty string
    assert!(!looks_like_local_path("noextension"));
    assert!(!looks_like_local_path(".hidden")); // Hidden file without extension
    assert!(!looks_like_local_path(".")); // Current directory
    assert!(!looks_like_local_path("..")); // Parent directory
}

#[test]
fn verdict_of_each_path_rule() {
    assert!(PathRule::Absolute.verdict());
    assert!(PathRule::DrivePrefix.verdict());
    assert!(PathRule::DirectoryStructure.verdict());
    assert!(PathRule::FileName.verdict());
    assert!(!PathRule::NoMatch.verdict());
}

#[test]
fn absolute_path_is_accepted_first() {
    assert_eq!(classify_path("/usr/local/file.jpg", true, "file.jpg"), PathRule::Absolute);
    assert_eq!(classify_path("/a://b", true, "b"), PathRule::Absolute);
    assert_eq!(classify_path("noextension", true, "noextension"), PathRule::Absolute);
}

#[test]
fn separator_rules_need_no_answer_of_the_platform() {
    assert_eq!(classify_path("C:\\x\\y.jpg", false, ""), PathRule::DrivePrefix);
    assert_eq!(classify_path("C:/x://y", false, ""), PathRule::DrivePrefix);
    assert_eq!(classify_path("a/b", false, ""), PathRule::DirectoryStructure);
    assert_eq!(classify_path("a\\b", false, ""), PathRule::DirectoryStructure);
    assert_eq!(classify_path("/usr/local/file.jpg", false, ""), PathRule::DirectoryStructure);
    assert_eq!(path_rule_of("folder/sub/image.jpg"), PathRule::DirectoryStructure);
    assert_eq!(path_rule_of("x:\\image.jpg"), PathRule::DrivePrefix);
}

#[test]
fn scheme_separator_blocks_the_relative_rules() {
    assert_eq!(classify_path("https://example.com/image.jpg", false, "image.jpg"), PathRule::NoMatch);
    assert_eq!(classify_path("ab://c.d", false, "c.d"), PathRule::NoMatch);
    assert_eq!(classify_path("ab://", false, ""), PathRule::NoMatch);
}

#[test]
fn one_letter_scheme_reads_as_a_drive() {
    assert_eq!(classify_path("a://b.c", false, "b.c"), PathRule::DrivePrefix);
}

#[test]
fn file_name_rule_reads_the_final_segment() {
    assert_eq!(classify_path("image.jpg", false, "image.jpg"), PathRule::FileName);
    assert_eq!(classify_path("image.jpg", false, ""), PathRule::NoMatch);
    assert_eq!(classify_path("image.jpg", false, ".jpg"), PathRule::NoMatch);
    assert_eq!(classify_path("image.jpg", false, "image"), PathRule::NoMatch);
    assert_eq!(classify_path("noextension", false, "noextension"), PathRule::NoMatch);
    assert_eq!(classify_path("noextension", false, "a.b"), PathRule::NoMatch);
    assert_eq!(classify_path(".hidden", false, ".hidden"), PathRule::NoMatch);
    assert_eq!(classify_path("www.example.com", false, "www.example.com"), PathRule::NoMatch);
    assert_eq!(classify_path("", false, ""), PathRule::NoMatch);
}

#[test]
fn drive_prefix_needs_a_separator() {
    assert_eq!(classify_path("C:file", false, "C:file"), PathRule::NoMatch);
    assert_eq!(classify_path("C:", false, "C:"), PathRule::NoMatch);
    assert!(starts_with_drive(&to_chars("C:")));
    assert!(starts_with_drive(&to_chars("::")));
    assert!(!starts_with_drive(&to_chars("C")));
    assert!(!starts_with_drive(&to_chars(":C")));
    assert!(!starts_with_drive(&to_chars("")));
}

#[test]
fn separators_are_slash_and_backslash() {
    assert!(contains_separator(&to_chars("a/b")));
    assert!(contains_separator(&to_chars("a\\b")));
    assert!(contains_separator(&to_chars("/")));
    assert!(!contains_separator(&to_chars("a:b|c")));
    assert!(!contains_separator(&to_chars("")));
}

#[test]
fn extension_shape_of_a_segment() {
    assert!(is_extension_shaped("image.jpg"));
    assert!(is_extension_shaped("a."));
    assert!(is_extension_shaped("my.complex.file.name.jpg"));
    assert!(!is_extension_shaped(".hidden"));
    assert!(!is_extension_shaped(".hidden.txt"));
    assert!(!is_extension_shaped("noextension"));
    assert!(!is_extension_shaped("."));
    assert!(!is_extension_shaped(""));
}

#[test]
fn bare_file_names_on_this_platform() {
    assert_eq!(path_rule_of("image.jpg"), PathRule::FileName);
    assert_eq!(path_rule_of("host.name"), PathRule::FileName);
    assert_eq!(path_rule_of("noextension"), PathRule::NoMatch);
    assert_eq!(path_rule_of(".hidden"), PathRule::NoMatch);
    assert_eq!(path_rule_of("www.example.com"), PathRule::NoMatch);
    assert_eq!(path_rule_of(""), PathRule::NoMatch);
    assert_eq!(path_rule_of(".."), PathRule::NoMatch);
}

#[test]
fn single_names_are_judged_by_their_own_shape() {
    assert!(looks_like_local_path("a.b"));
    assert!(looks_like_local_path("archive.tar.gz"));
    assert!(looks_like_local_path("name."));
    assert!(!looks_like_local_path("www.example.com"));
    assert!(!looks_like_local_path(".hidden.txt"));
    assert!(!looks_like_local_path("..."));
    assert!(!looks_like_local_path("plain"));
}

#[test]
fn unanchored_string_with_scheme_separator_is_refused() {
    assert!(!looks_like_local_path("ftp://example.com/file.png"));
    assert!(!looks_like_local_path("ab://c"));
    assert_eq!(path_rule_of("https://host.example/img.png"), PathRule::NoMatch);
}
