//! Turning segments into coloured text: each segment between spaces in its
//! own colours, a wedge in front of the first, and behind each a separator
//! that leads over to the background of the next.

use vstd::prelude::*;
use vstd::string::*;
use crate::palette::{
    paint,
    paint_bright_black,
    painted,
    painted_bright_black,
    Color,
    TERMINAL_BACKGROUND,
};
use crate::segment::{segment_views, Segment, SegmentView};
use crate::text::{digits_value, is_digit};

verus! {

/// The glyph between two segments.
pub const SEPARATOR: &'static str = "\u{e0b0}";

/// The glyph that ends the status line.
pub const PROMPT_MARKER: &'static str = "\u{25b6}";

/// The glyph between two segments.
pub open spec fn separator() -> Seq<char> {
    seq!['\u{e0b0}']
}

/// The glyph that ends the status line.
pub open spec fn prompt_marker() -> Seq<char> {
    seq!['\u{25b6}']
}

/// A text between two spaces.
pub open spec fn padded(text: Seq<char>) -> Seq<char> {
    seq![' '] + text + seq![' ']
}

/// A separator that leads from one background to the next: the glyph in
/// the colour it comes from, on the colour it goes to.
pub open spec fn wedge(from: Color, to: Color) -> Seq<char> {
    painted(separator(), from, to)
}

/// One segment as rendered: its padded text in its own colours, then the
/// separator that leads to `next`.
pub open spec fn powerline_text(segment: SegmentView, next: Color) -> Seq<char> {
    painted(padded(segment.text), segment.foreground, segment.background) + wedge(
        segment.background,
        next,
    )
}

/// The background behind the segment at `index`: that of the next segment,
/// or the terminal's own behind the last.
pub open spec fn background_after(segments: Seq<SegmentView>, index: int) -> Color {
    if index + 1 < segments.len() {
        segments[index + 1].background
    } else {
        TERMINAL_BACKGROUND
    }
}

/// The first `count` segments as rendered, one behind the other.
pub open spec fn links_text(segments: Seq<SegmentView>, count: int) -> Seq<char>
    decreases count,
{
    if count <= 0 {
        Seq::empty()
    } else {
        links_text(segments, count - 1) + powerline_text(
            segments[count - 1],
            background_after(segments, count - 1),
        )
    }
}

/// A chain of segments as rendered: nothing for no segments; else a wedge
/// from the terminal's background to the first segment, then the segments.
pub open spec fn chain_text(segments: Seq<SegmentView>) -> Seq<char> {
    if segments.len() == 0 {
        Seq::empty()
    } else {
        wedge(TERMINAL_BACKGROUND, segments[0].background) + links_text(
            segments,
            segments.len() as int,
        )
    }
}

/// The status line: a line break, the clock and the prompt marker in bright
/// black with a space between them, and a space at the end.
pub open spec fn status_text(clock: Seq<char>) -> Seq<char> {
    seq!['\n'] + painted_bright_black(clock) + seq![' '] + painted_bright_black(prompt_marker())
        + seq![' ']
}

/// The whole prompt: a line break, the chain of segments, the status line.
pub open spec fn prompt_text(segments: Seq<SegmentView>, clock: Seq<char>) -> Seq<char> {
    seq!['\n'] + chain_text(segments) + status_text(clock)
}

/// `true` for a time of day written as two digits of hours, a colon and two
/// digits of minutes.
pub open spec fn is_clock_text(clock: Seq<char>) -> bool {
    &&& clock.len() == 5
    &&& is_digit(clock[0])
    &&& is_digit(clock[1])
    &&& clock[2] == ':'
    &&& is_digit(clock[3])
    &&& is_digit(clock[4])
    &&& digits_value(clock.subrange(0, 2)) < 24
    &&& digits_value(clock.subrange(3, 5)) < 60
}

/// A chain of one segment is one wedge from the terminal's background into
/// the segment, the segment's text in its colours, and one separator back
/// to the terminal's background: nothing of a next segment shows.
pub proof fn lemma_single_segment_chain(segment: SegmentView)
    ensures
        chain_text(seq![segment]) == wedge(TERMINAL_BACKGROUND, segment.background) + painted(
            padded(segment.text),
            segment.foreground,
            segment.background,
        ) + wedge(segment.background, TERMINAL_BACKGROUND),
{
    let segments = seq![segment];
    assert(links_text(segments, 0) =~= Seq::<char>::empty());
    assert(links_text(segments, 1) =~= powerline_text(segment, TERMINAL_BACKGROUND)) by {
        reveal_with_fuel(links_text, 2);
    }
    assert(chain_text(segments) =~= wedge(TERMINAL_BACKGROUND, segment.background) + painted(
        padded(segment.text),
        segment.foreground,
        segment.background,
    ) + wedge(segment.background, TERMINAL_BACKGROUND));
}

/// The local time of day as `HH:MM`, from the `chrono` crate:
/// `Local::now`, `DateTime::format` with `%H:%M`, and the `Display` of the
/// result. Trusted: that the text is two digits of hours below 24, a colon
/// and two digits of minutes below 60. Which time it is, is not claimed.
#[verifier::external_body]
fn clock_now() -> (out: String)
    ensures
        is_clock_text(out@),
{
    chrono::Local::now().format("%H:%M").to_string()
}

fn paint_wedge(from: Color, to: Color) -> (out: String)
    ensures
        out@ == wedge(from, to),
{
    proof {
        reveal_strlit("\u{e0b0}");
        assert(SEPARATOR@ =~= separator());
    }
    paint(SEPARATOR, from, to)
}

impl Segment {
    /// Renders the segment, with the separator that leads to `next`.
    pub fn powerline(&self, next: Color) -> (out: String)
        ensures
            out@ == powerline_text(self@, next),
    {
        let mut body = String::from_str(" ");
        body.append(self.text.as_str());
        body.append(" ");
        proof {
            reveal_strlit(" ");
            assert(body@ =~= padded(self.text@));
        }
        let mut out = paint(body.as_str(), self.foreground, self.background);
        let tail = paint_wedge(self.background, next);
        out.append(tail.as_str());
        out
    }
}

/// Renders a chain of segments.
pub fn render_chain(segments: &Vec<Segment>) -> (out: String)
    ensures
        out@ == chain_text(segment_views(segments@)),
{
    let count = segments.len();
    if count == 0 {
        return String::new();
    }
    let ghost views = segment_views(segments@);
    let mut out = paint_wedge(TERMINAL_BACKGROUND, segments[0].background);
    let mut i: usize = 0;
    while i < count
        invariant
            i <= count,
            count == segments.len(),
            views == segment_views(segments@),
            out@ == wedge(TERMINAL_BACKGROUND, views[0].background) + links_text(views, i as int),
        decreases count - i,
    {
        let next = if i + 1 < count {
            segments[i + 1].background
        } else {
            TERMINAL_BACKGROUND
        };
        let link = segments[i].powerline(next);
        out.append(link.as_str());
        assert(out@ =~= wedge(TERMINAL_BACKGROUND, views[0].background) + links_text(
            views,
            i + 1,
        ));
        i = i + 1;
    }
    out
}

/// Renders the status line around the given clock text.
pub fn status_line(clock: &str) -> (out: String)
    ensures
        out@ == status_text(clock@),
{
    let mut out = String::from_str("\n");
    let time = paint_bright_black(clock);
    out.append(time.as_str());
    out.append(" ");
    let marker = paint_bright_black(PROMPT_MARKER);
    out.append(marker.as_str());
    out.append(" ");
    proof {
        reveal_strlit("\n");
        reveal_strlit(" ");
        reveal_strlit("\u{25b6}");
        assert(PROMPT_MARKER@ =~= prompt_marker());
        assert(out@ =~= status_text(clock@));
    }
    out
}

/// Renders the whole prompt around the given clock text.
pub fn render_prompt(segments: &Vec<Segment>, clock: &str) -> (out: String)
    ensures
        out@ == prompt_text(segment_views(segments@), clock@),
{
    let mut out = String::from_str("\n");
    let chain = render_chain(segments);
    out.append(chain.as_str());
    let status = status_line(clock);
    out.append(status.as_str());
    proof {
        reveal_strlit("\n");
        assert(out@ =~= prompt_text(segment_views(segments@), clock@));
    }
    out
}

/// Renders the whole prompt with the local time of day. The clock text is
/// whatever time it is, in the shape `HH:MM`.
pub fn render_prompt_now(segments: &Vec<Segment>) -> (out: String)
    ensures
        exists|clock: Seq<char>|
            is_clock_text(clock) && out@ == #[trigger] prompt_text(
                segment_views(segments@),
                clock,
            ),
{
    let clock = clock_now();
    render_prompt(segments, clock.as_str())
}

} // verus!
