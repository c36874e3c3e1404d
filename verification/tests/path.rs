use powerline_prompt::path::format_path;

#[test]
fn path_below_home_is_shortened() {
    assert_eq!(format_path("/home/u/proj/", Some("/home/u")), "~/proj");
    assert_eq!(format_path("/home/u/proj", Some("/home/u")), "~/proj");
    assert_eq!(format_path("/home/u/a/b", Some("/home/u/")), "~/a/b");
}

#[test]
fn path_outside_home_is_unchanged() {
    assert_eq!(format_path("/var/data", Some("/home/u")), "/var/data");
    assert_eq!(format_path("/var/data", None), "/var/data");
}

#[test]
fn path_that_only_shares_letters_with_home_is_unchanged() {
    assert_eq!(format_path("/home/user2/x", Some("/home/u")), "/home/user2/x");
    assert_eq!(format_path("/home", Some("/home/u")), "/home");
}

#[test]
fn home_itself_is_a_tilde() {
    assert_eq!(format_path("/home/u", Some("/home/u")), "~");
    assert_eq!(format_path("/home/u/", Some("/home/u")), "~");
}

#[test]
fn root_keeps_its_marker() {
    assert_eq!(format_path("/", None), "/");
    assert_eq!(format_path("/", Some("/home/u")), "/");
}

#[test]
fn only_one_trailing_separator_is_removed() {
    assert_eq!(format_path("/var/data//", None), "/var/data/");
    assert_eq!(format_path("/var/data/", None), "/var/data");
}

#[test]
fn backslashes_become_forward_slashes() {
    assert_eq!(format_path("C:\\Users\\u\\proj", Some("C:\\Users\\u")), "~/proj");
    assert_eq!(format_path("C:\\Windows\\", Some("C:\\Users\\u")), "C:/Windows");
    assert_eq!(format_path("D:\\", None), "D:");
}

#[test]
fn home_at_the_root_holds_every_absolute_path() {
    assert_eq!(format_path("/var", Some("/")), "~/var");
    assert_eq!(format_path("/", Some("/")), "~");
    assert_eq!(format_path("var", Some("/")), "var");
}

#[test]
fn empty_home_counts_as_unknown() {
    assert_eq!(format_path("/var", Some("")), "/var");
}

#[test]
fn path_with_other_scripts_is_kept() {
    assert_eq!(format_path("/home/\u{fc}/\u{65e5}\u{672c}/", Some("/home/\u{fc}")), "~/\u{65e5}\u{672c}");
}
