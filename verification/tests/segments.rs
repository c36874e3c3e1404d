use powerline_prompt::git::{Branch, GitState, TrackingState};
use powerline_prompt::palette::Color;
use powerline_prompt::segment::{
    build_segments, directory_segment, duration_segment, error_segment, git_segment,
    parse_exit_status, ExitStatus, Segment,
};

const COMMIT: &str = "89abcdef0123456789abcdef0123456789abcdef";

fn segment(text: &str, foreground: Color, background: Color) -> Segment {
    Segment { text: text.to_string(), foreground, background }
}

#[test]
fn exit_code_zero_gives_no_error_segment() {
    assert_eq!(parse_exit_status(Some("0")), ExitStatus::Code(0));
    assert_eq!(error_segment(parse_exit_status(Some("0"))), None);
}

#[test]
fn missing_exit_code_counts_as_success() {
    assert_eq!(parse_exit_status(None), ExitStatus::Code(0));
    assert_eq!(error_segment(parse_exit_status(None)), None);
}

#[test]
fn exit_code_one_gives_an_error_segment_with_the_code() {
    assert_eq!(parse_exit_status(Some("1")), ExitStatus::Code(1));
    let shown = error_segment(parse_exit_status(Some("1")));
    assert_eq!(shown, Some(segment("\u{2716} 1", Color::Red, Color::BrightWhite)));
}

#[test]
fn negative_exit_code_keeps_its_sign() {
    let shown = error_segment(parse_exit_status(Some("-1073741510")));
    assert_eq!(shown, Some(segment("\u{2716} -1073741510", Color::Red, Color::BrightWhite)));
}

#[test]
fn unreadable_exit_code_gives_an_error_segment_without_code() {
    for argument in ["abc", "", "1.5", "99999999999", " 1"] {
        assert_eq!(parse_exit_status(Some(argument)), ExitStatus::Unreadable);
        let shown = error_segment(parse_exit_status(Some(argument)));
        assert_eq!(shown, Some(segment("\u{2716}", Color::Red, Color::BrightWhite)));
    }
}

#[test]
fn duration_segment_is_there_when_a_duration_is() {
    assert_eq!(duration_segment(None), None);
    assert_eq!(duration_segment(Some(1500)), Some(segment("1.50s", Color::Black, Color::Cyan)));
}

#[test]
fn directory_segment_shows_the_path() {
    let shown = directory_segment("~/proj".to_string());
    assert_eq!(shown, segment("~/proj", Color::Black, Color::Blue));
}

#[test]
fn git_segment_is_green_when_clean_and_yellow_when_dirty() {
    assert_eq!(git_segment(None), None);
    let branch = Branch { name: "main".to_string(), tracking: TrackingState::NoUpstream };
    let clean = GitState::new(COMMIT.to_string(), Some(branch.clone()), 0).unwrap();
    let dirty = GitState::new(COMMIT.to_string(), Some(branch), 5).unwrap();
    assert_eq!(
        git_segment(Some(&clean)),
        Some(segment("\u{e0a0} main \u{2262}", Color::Black, Color::Green))
    );
    assert_eq!(
        git_segment(Some(&dirty)),
        Some(segment("\u{e0a0} main \u{2262} \u{b1}5", Color::Black, Color::Yellow))
    );
}

#[test]
fn segments_with_nothing_but_the_directory() {
    let segments = build_segments(ExitStatus::Code(0), None, "/var".to_string(), None);
    assert_eq!(segments, vec![segment("/var", Color::Black, Color::Blue)]);
}

#[test]
fn segments_come_in_their_order() {
    let state = GitState::new(COMMIT.to_string(), None, 2).unwrap();
    let segments =
        build_segments(ExitStatus::Code(2), Some(61_000), "~".to_string(), Some(&state));
    assert_eq!(
        segments,
        vec![
            segment("\u{2716} 2", Color::Red, Color::BrightWhite),
            segment("1.02m", Color::Black, Color::Cyan),
            segment("~", Color::Black, Color::Blue),
            segment("\u{e0a0} 89abcde \u{b1}2", Color::Black, Color::Yellow),
        ]
    );
}

#[test]
fn segments_after_an_unreadable_exit_code() {
    let segments = build_segments(ExitStatus::Unreadable, None, "/".to_string(), None);
    assert_eq!(
        segments,
        vec![
            segment("\u{2716}", Color::Red, Color::BrightWhite),
            segment("/", Color::Black, Color::Blue),
        ]
    );
}
