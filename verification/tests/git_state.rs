use powerline_prompt::git::{summarize, Branch, GitState, TrackingState};
use powerline_prompt::palette::Color;

const COMMIT: &str = "0123456789abcdef0123456789abcdef01234567";

fn on_branch(name: &str, tracking: TrackingState, changes: usize) -> GitState {
    let branch = Branch { name: name.to_string(), tracking };
    GitState::new(COMMIT.to_string(), Some(branch), changes).unwrap()
}

#[test]
fn branch_without_upstream_and_without_changes() {
    let state = on_branch("main", TrackingState::NoUpstream, 0);
    assert_eq!(state.identity_token(), "main");
    assert_eq!(state.tracking_token(), Some("\u{2262}".to_string()));
    assert_eq!(state.change_token(), None);
    assert_eq!(state.background(), Color::Green);
    assert_eq!(state.segment_text(), "\u{e0a0} main \u{2262}");
}

#[test]
fn diverged_branch_with_untracked_files() {
    let state = on_branch("main", TrackingState::Divergence { ahead: 2, behind: 1 }, 3);
    assert_eq!(state.identity_token(), "main");
    assert_eq!(state.tracking_token(), Some("2\u{2191} 1\u{2193}".to_string()));
    assert_eq!(state.change_token(), Some("\u{b1}3".to_string()));
    assert_eq!(state.background(), Color::Yellow);
    assert_eq!(state.segment_text(), "\u{e0a0} main 2\u{2191} 1\u{2193} \u{b1}3");
}

#[test]
fn tracking_token_of_each_state() {
    assert_eq!(TrackingState::NoUpstream.token(), "\u{2262}");
    assert_eq!(TrackingState::Divergence { ahead: 0, behind: 0 }.token(), "\u{2263}");
    assert_eq!(TrackingState::Divergence { ahead: 4, behind: 0 }.token(), "4\u{2191}");
    assert_eq!(TrackingState::Divergence { ahead: 0, behind: 12 }.token(), "12\u{2193}");
    assert_eq!(
        TrackingState::Divergence { ahead: 10, behind: 200 }.token(),
        "10\u{2191} 200\u{2193}"
    );
}

#[test]
fn tracking_tokens_of_the_three_outcomes_differ() {
    let in_sync = TrackingState::Divergence { ahead: 0, behind: 0 }.token();
    let diverged = TrackingState::Divergence { ahead: 1, behind: 0 }.token();
    let none = TrackingState::NoUpstream.token();
    assert_ne!(in_sync, diverged);
    assert_ne!(in_sync, none);
    assert_ne!(diverged, none);
}

#[test]
fn tracking_state_from_divergence() {
    assert_eq!(TrackingState::from_divergence(None), TrackingState::NoUpstream);
    assert_eq!(
        TrackingState::from_divergence(Some((0, 0))),
        TrackingState::Divergence { ahead: 0, behind: 0 }
    );
    assert_eq!(
        TrackingState::from_divergence(Some((3, 5))),
        TrackingState::Divergence { ahead: 3, behind: 5 }
    );
}

#[test]
fn detached_head_shows_the_start_of_the_commit_id() {
    let state = GitState::new(COMMIT.to_string(), None, 0).unwrap();
    assert_eq!(state.identity_token(), "0123456");
    assert_eq!(state.tracking_token(), None);
    assert_eq!(state.segment_text(), "\u{e0a0} 0123456");
    assert_eq!(state.background(), Color::Green);
}

#[test]
fn detached_head_with_changes() {
    let state = GitState::new(COMMIT.to_string(), None, 17).unwrap();
    assert_eq!(state.segment_text(), "\u{e0a0} 0123456 \u{b1}17");
    assert_eq!(state.background(), Color::Yellow);
}

#[test]
fn background_does_not_depend_on_tracking() {
    assert_eq!(on_branch("b", TrackingState::NoUpstream, 1).background(), Color::Yellow);
    let diverged = TrackingState::Divergence { ahead: 9, behind: 9 };
    assert_eq!(on_branch("b", diverged, 0).background(), Color::Green);
}

#[test]
fn state_keeps_its_parts() {
    let state = on_branch("topic", TrackingState::Divergence { ahead: 1, behind: 0 }, 2);
    assert_eq!(state.commit_id(), COMMIT);
    assert_eq!(state.change_count(), 2);
    let branch = state.branch().unwrap();
    assert_eq!(branch.name, "topic");
    assert_eq!(branch.tracking, TrackingState::Divergence { ahead: 1, behind: 0 });
}

#[test]
fn commit_id_must_be_forty_hex_digits() {
    assert!(GitState::new(COMMIT.to_string(), None, 0).is_some());
    assert!(GitState::new(COMMIT.to_uppercase(), None, 0).is_some());
    assert!(GitState::new(String::new(), None, 0).is_none());
    assert!(GitState::new(COMMIT[..39].to_string(), None, 0).is_none());
    assert!(GitState::new(format!("{}0", COMMIT), None, 0).is_none());
    assert!(GitState::new(format!("{}g", &COMMIT[..39]), None, 0).is_none());
    assert!(GitState::new(format!("{}\u{e9}", &COMMIT[..39]), None, 0).is_none());
}

#[test]
fn summarize_builds_a_branch_state() {
    let state = summarize(
        true,
        Some("main".to_string()),
        Some(COMMIT.to_string()),
        Some((2, 1)),
        Some(3),
    );
    let expected = on_branch("main", TrackingState::Divergence { ahead: 2, behind: 1 }, 3);
    assert_eq!(state, Some(expected));
}

#[test]
fn summarize_without_upstream_keeps_the_state() {
    let state = summarize(true, Some("main".to_string()), Some(COMMIT.to_string()), None, Some(0));
    assert_eq!(state, Some(on_branch("main", TrackingState::NoUpstream, 0)));
}

#[test]
fn summarize_of_a_detached_head_has_no_branch() {
    let state = summarize(false, None, Some(COMMIT.to_string()), None, Some(0));
    assert_eq!(state, GitState::new(COMMIT.to_string(), None, 0));
    let ignored = summarize(
        false,
        Some("HEAD".to_string()),
        Some(COMMIT.to_string()),
        Some((1, 1)),
        Some(0),
    );
    assert_eq!(ignored, GitState::new(COMMIT.to_string(), None, 0));
}

#[test]
fn summarize_is_absent_when_a_required_step_failed() {
    let id = || Some(COMMIT.to_string());
    let name = || Some("main".to_string());
    assert_eq!(summarize(true, None, id(), Some((0, 0)), Some(0)), None);
    assert_eq!(summarize(true, name(), None, Some((0, 0)), Some(0)), None);
    assert_eq!(summarize(true, name(), id(), Some((0, 0)), None), None);
    assert_eq!(summarize(true, name(), Some("abc".to_string()), Some((0, 0)), Some(0)), None);
    assert_eq!(summarize(false, None, None, None, Some(0)), None);
}

#[test]
fn summarize_gives_the_same_state_for_the_same_findings() {
    let first = summarize(true, Some("main".to_string()), Some(COMMIT.to_string()), None, Some(4));
    let second = summarize(true, Some("main".to_string()), Some(COMMIT.to_string()), None, Some(4));
    assert!(first.is_some());
    assert_eq!(first, second);
}
