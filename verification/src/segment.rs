//! The segments of the prompt: which are present, in what order, with what
//! text and colours.

use vstd::prelude::*;
use vstd::string::*;
use crate::duration::{duration_text, format_duration};
use crate::git::{git_background, git_text, GitState, GitStateView};
use crate::palette::{Color, SEGMENT_FOREGROUND};
use crate::text::{parse_i32, parse_i32_text, signed_decimal, signed_decimal_text};

verus! {

/// How the previous command ended.
#[derive(Clone, Copy, Debug, PartialEq, Eq, Structural)]
pub enum ExitStatus {
    /// It ended with this exit code.
    Code(i32),
    /// An exit code was handed over but is no integer.
    Unreadable,
}

/// A piece of text with its colours.
#[derive(Clone, Debug, PartialEq, Eq)]
pub struct Segment {
    pub text: String,
    pub foreground: Color,
    pub background: Color,
}

/// A segment as a value in specifications.
pub struct SegmentView {
    pub text: Seq<char>,
    pub foreground: Color,
    pub background: Color,
}

impl View for Segment {
    type V = SegmentView;

    open spec fn view(&self) -> SegmentView {
        SegmentView {
            text: self.text@,
            foreground: self.foreground,
            background: self.background,
        }
    }
}

/// The segments that a vector holds.
pub open spec fn segment_views(segments: Seq<Segment>) -> Seq<SegmentView> {
    segments.map_values(|segment: Segment| segment@)
}

/// The exit status that an argument stands for: success without an
/// argument, the code it denotes, or unreadable.
pub open spec fn exit_status_of(argument: Option<Seq<char>>) -> ExitStatus {
    match argument {
        None => ExitStatus::Code(0),
        Some(text) => match parse_i32_text(text) {
            Some(code) => ExitStatus::Code(code),
            None => ExitStatus::Unreadable,
        },
    }
}

/// The glyph of a failed command.
pub const FAILURE_GLYPH: &'static str = "\u{2716}";

/// The glyph of a failed command.
pub open spec fn failure_glyph() -> Seq<char> {
    seq!['\u{2716}']
}

/// The text of a failure: the glyph, and the exit code where it is known.
pub open spec fn failure_text(status: ExitStatus) -> Seq<char> {
    match status {
        ExitStatus::Code(code) => failure_glyph() + seq![' '] + signed_decimal(code as int),
        ExitStatus::Unreadable => failure_glyph(),
    }
}

/// The segment of the exit status: none after a success, else the failure
/// in red on bright white.
pub open spec fn error_part(status: ExitStatus) -> Option<SegmentView> {
    if status == ExitStatus::Code(0) {
        None
    } else {
        Some(
            SegmentView {
                text: failure_text(status),
                foreground: Color::Red,
                background: Color::BrightWhite,
            },
        )
    }
}

/// The segment of the duration: present when a duration is known.
pub open spec fn duration_part(millis: Option<u64>) -> Option<SegmentView> {
    match millis {
        Some(m) => Some(
            SegmentView {
                text: duration_text(m as nat),
                foreground: SEGMENT_FOREGROUND,
                background: Color::Cyan,
            },
        ),
        None => None,
    }
}

/// The segment of the working directory.
pub open spec fn directory_part(directory: Seq<char>) -> SegmentView {
    SegmentView { text: directory, foreground: SEGMENT_FOREGROUND, background: Color::Blue }
}

/// The segment of the repository: present inside a repository.
pub open spec fn git_part(state: Option<GitStateView>) -> Option<SegmentView> {
    match state {
        Some(s) => Some(
            SegmentView {
                text: git_text(s),
                foreground: SEGMENT_FOREGROUND,
                background: git_background(s),
            },
        ),
        None => None,
    }
}

/// A sequence of no segment or one.
pub open spec fn optional_segment(part: Option<SegmentView>) -> Seq<SegmentView> {
    match part {
        Some(segment) => seq![segment],
        None => Seq::empty(),
    }
}

/// The segments of a prompt in order: failure, duration, working directory,
/// repository. The working directory is always there.
pub open spec fn segment_model(
    status: ExitStatus,
    millis: Option<u64>,
    directory: Seq<char>,
    state: Option<GitStateView>,
) -> Seq<SegmentView> {
    optional_segment(error_part(status)) + optional_segment(duration_part(millis)) + seq![
        directory_part(directory),
    ] + optional_segment(git_part(state))
}

/// Without an exit code, and after the exit code 0, there is no failure
/// segment; after any other exit code there is one that shows the glyph and
/// the code.
pub proof fn lemma_exit_code_segment(code: i32)
    ensures
        error_part(exit_status_of(None)) is None,
        code == 0 ==> error_part(ExitStatus::Code(code)) is None,
        code != 0 ==> error_part(ExitStatus::Code(code)) == Some(
            SegmentView {
                text: failure_glyph() + seq![' '] + signed_decimal(code as int),
                foreground: Color::Red,
                background: Color::BrightWhite,
            },
        ),
{
}

/// An exit code that is no 32-bit integer gives a failure segment that
/// shows the glyph alone.
pub proof fn lemma_unreadable_exit_code(argument: Seq<char>)
    requires
        parse_i32_text(argument) is None,
    ensures
        error_part(exit_status_of(Some(argument))) == Some(
            SegmentView {
                text: failure_glyph(),
                foreground: Color::Red,
                background: Color::BrightWhite,
            },
        ),
{
}

/// The working directory is part of every prompt, and the segments that
/// are there keep their order: failure, duration, working directory,
/// repository.
pub proof fn lemma_directory_always_shown(
    status: ExitStatus,
    millis: Option<u64>,
    directory: Seq<char>,
    state: Option<GitStateView>,
)
    ensures
        ({
            let segments = segment_model(status, millis, directory, state);
            let before = optional_segment(error_part(status)).len() + optional_segment(
                duration_part(millis),
            ).len();
            &&& 1 <= segments.len() <= 4
            &&& segments[before as int] == directory_part(directory)
            &&& segments.len() == before + 1 + optional_segment(git_part(state)).len()
        }),
{
}

/// The view of an optional argument.
pub open spec fn argument_view(argument: Option<&str>) -> Option<Seq<char>> {
    match argument {
        Some(text) => Some(text@),
        None => None,
    }
}

/// The view of an optional segment.
pub open spec fn segment_view(segment: Option<Segment>) -> Option<SegmentView> {
    match segment {
        Some(s) => Some(s@),
        None => None,
    }
}

/// The view of an optional repository state.
pub open spec fn borrowed_state_view(state: Option<&GitState>) -> Option<GitStateView> {
    match state {
        Some(s) => Some(s@),
        None => None,
    }
}

/// Reads the exit status from the argument that may carry it.
pub fn parse_exit_status(argument: Option<&str>) -> (out: ExitStatus)
    ensures
        out == exit_status_of(argument_view(argument)),
{
    match argument {
        None => ExitStatus::Code(0),
        Some(text) => match parse_i32(text) {
            Some(code) => ExitStatus::Code(code),
            None => ExitStatus::Unreadable,
        },
    }
}

/// The segment of the exit status.
pub fn error_segment(status: ExitStatus) -> (out: Option<Segment>)
    ensures
        segment_view(out) == error_part(status),
{
    proof {
        reveal_strlit("\u{2716}");
        reveal_strlit(" ");
    }
    let text = match status {
        ExitStatus::Code(code) => {
            if code == 0 {
                return None;
            }
            let mut text = String::from_str(FAILURE_GLYPH);
            text.append(" ");
            let digits = signed_decimal_text(code);
            text.append(digits.as_str());
            assert(text@ =~= failure_text(status));
            text
        },
        ExitStatus::Unreadable => {
            let text = String::from_str(FAILURE_GLYPH);
            assert(text@ =~= failure_text(status));
            text
        },
    };
    Some(Segment { text, foreground: Color::Red, background: Color::BrightWhite })
}

/// The segment of the duration, given in whole milliseconds.
pub fn duration_segment(millis: Option<u64>) -> (out: Option<Segment>)
    ensures
        segment_view(out) == duration_part(millis),
{
    match millis {
        Some(m) => Some(
            Segment {
                text: format_duration(m),
                foreground: SEGMENT_FOREGROUND,
                background: Color::Cyan,
            },
        ),
        None => None,
    }
}

/// The segment of the working directory, given as it is to be shown.
pub fn directory_segment(directory: String) -> (out: Segment)
    ensures
        out@ == directory_part(directory@),
{
    Segment { text: directory, foreground: SEGMENT_FOREGROUND, background: Color::Blue }
}

/// The segment of the repository.
pub fn git_segment(state: Option<&GitState>) -> (out: Option<Segment>)
    ensures
        segment_view(out) == git_part(borrowed_state_view(state)),
{
    match state {
        Some(s) => Some(
            Segment {
                text: s.segment_text(),
                foreground: SEGMENT_FOREGROUND,
                background: s.background(),
            },
        ),
        None => None,
    }
}

fn push_optional(segments: &mut Vec<Segment>, segment: Option<Segment>)
    ensures
        segment_views(final(segments)@) == segment_views(old(segments)@) + optional_segment(
            segment_view(segment),
        ),
{
    match segment {
        Some(s) => {
            segments.push(s);
        },
        None => {},
    }
    assert(segment_views(segments@) =~= segment_views(old(segments)@) + optional_segment(
        segment_view(segment),
    ));
}

/// The segments of a prompt, in order.
pub fn build_segments(
    status: ExitStatus,
    millis: Option<u64>,
    directory: String,
    state: Option<&GitState>,
) -> (out: Vec<Segment>)
    ensures
        segment_views(out@) == segment_model(
            status,
            millis,
            directory@,
            borrowed_state_view(state),
        ),
        out.len() >= 1,
{
    let mut out: Vec<Segment> = Vec::new();
    assert(segment_views(out@) =~= Seq::<SegmentView>::empty());
    push_optional(&mut out, error_segment(status));
    push_optional(&mut out, duration_segment(millis));
    let ghost before = segment_views(out@);
    out.push(directory_segment(directory));
    assert(segment_views(out@) =~= before + seq![directory_part(directory@)]);
    push_optional(&mut out, git_segment(state));
    assert(segment_views(out@) =~= segment_model(
        status,
        millis,
        directory@,
        borrowed_state_view(state),
    ));
    assert(segment_views(out@).len() == out.len());
    out
}

} // verus!
