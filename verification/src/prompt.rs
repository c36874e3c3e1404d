//! Putting the prompt together: from the exit code and the duration of the
//! previous command and the working directory to the text that the shell
//! prints.

use vstd::prelude::*;
use vstd::string::*;
use crate::git::{is_commit_id, GitState, GitStateView};
use crate::path::{display_path, format_path, optional_text};
use crate::render::{is_clock_text, prompt_text, render_prompt, render_prompt_now};
use crate::resolver::resolve_git_state;
use crate::segment::{
    argument_view,
    borrowed_state_view,
    build_segments,
    exit_status_of,
    parse_exit_status,
    segment_model,
    segment_views,
    Segment,
    SegmentView,
};

verus! {

/// The segments of the prompt for the given arguments, home directory and
/// repository state.
pub open spec fn prompt_segments(
    exit_code: Option<Seq<char>>,
    millis: Option<u64>,
    directory: Seq<char>,
    home: Option<Seq<char>>,
    state: Option<GitStateView>,
) -> Seq<SegmentView> {
    segment_model(exit_status_of(exit_code), millis, display_path(directory, home), state)
}

/// The prompt for the given arguments, home directory, repository state and
/// clock text.
pub open spec fn assembled(
    exit_code: Option<Seq<char>>,
    millis: Option<u64>,
    directory: Seq<char>,
    home: Option<Seq<char>>,
    state: Option<GitStateView>,
    clock: Seq<char>,
) -> Seq<char> {
    prompt_text(prompt_segments(exit_code, millis, directory, home, state), clock)
}

/// The user's home directory, from `dirs::home_dir`, written with the
/// `Display` of the path. `None` when the system knows none. Nothing is
/// claimed of the result.
#[verifier::external_body]
fn home_directory() -> Option<String> {
    dirs::home_dir().map(|home| home.display().to_string())
}

fn segments_for(
    exit_code: Option<&str>,
    millis: Option<u64>,
    directory: &str,
    home: Option<&str>,
    state: Option<&GitState>,
) -> (out: Vec<Segment>)
    ensures
        segment_views(out@) == prompt_segments(
            argument_view(exit_code),
            millis,
            directory@,
            optional_text(home),
            borrowed_state_view(state),
        ),
{
    let status = parse_exit_status(exit_code);
    let shown = format_path(directory, home);
    build_segments(status, millis, shown, state)
}

/// The prompt from everything that it shows: the exit code as the shell
/// handed it over, the duration in whole milliseconds, the working directory,
/// the home directory, the state of the enclosing repository and the clock
/// text.
pub fn assemble(
    exit_code: Option<&str>,
    millis: Option<u64>,
    directory: &str,
    home: Option<&str>,
    state: Option<&GitState>,
    clock: &str,
) -> (out: String)
    ensures
        out@ == assembled(
            argument_view(exit_code),
            millis,
            directory@,
            optional_text(home),
            borrowed_state_view(state),
            clock@,
        ),
{
    let segments = segments_for(exit_code, millis, directory, home, state);
    render_prompt(&segments, clock)
}

/// The prompt for a working directory: looks up the home directory, the
/// enclosing repository and the time of day, and assembles the prompt from
/// them. Whatever these are, the result is the assembled prompt for some
/// home directory, some repository state with a well-formed commit id or
/// none, and some clock text of the shape `HH:MM`.
pub fn prompt(exit_code: Option<&str>, millis: Option<u64>, directory: &str) -> (out: String)
    ensures
        exists|home: Option<Seq<char>>, state: Option<GitStateView>, clock: Seq<char>|
            {
                &&& is_clock_text(clock)
                &&& (state matches Some(s) ==> is_commit_id(s.commit_id))
                &&& out@ == #[trigger] assembled(
                    argument_view(exit_code),
                    millis,
                    directory@,
                    home,
                    state,
                    clock,
                )
            },
{
    let home = home_directory();
    let state = resolve_git_state(directory);
    let home_text: Option<&str> = match &home {
        Some(h) => Some(h.as_str()),
        None => None,
    };
    let state_text: Option<&GitState> = state.as_ref();
    let segments = segments_for(exit_code, millis, directory, home_text, state_text);
    let out = render_prompt_now(&segments);
    proof {
        let clock = choose|clock: Seq<char>|
            is_clock_text(clock) && out@ == #[trigger] prompt_text(
                segment_views(segments@),
                clock,
            );
        assert(out@ == assembled(
            argument_view(exit_code),
            millis,
            directory@,
            optional_text(home_text),
            borrowed_state_view(state_text),
            clock,
        ));
    }
    out
}

} // verus!
