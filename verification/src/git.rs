//! The state of the git repository that encloses a directory: the commit
//! that HEAD points to, the branch with its distance to its upstream, and the
//! number of pending changes.

use vstd::prelude::*;
use vstd::string::*;
use crate::palette::Color;
use crate::text::{decimal, decimal_text, join, joined, texts};

verus! {

/// How a branch stands to the branch it tracks.
#[derive(Clone, Copy, Debug, PartialEq, Eq, Structural)]
pub enum TrackingState {
    /// No upstream is configured, or it could not be resolved.
    NoUpstream,
    /// The commits that only the branch has, and those that only its
    /// upstream has.
    Divergence { ahead: usize, behind: usize },
}

/// A named branch that HEAD points to.
#[derive(Clone, Debug, PartialEq, Eq)]
pub struct Branch {
    pub name: String,
    pub tracking: TrackingState,
}

/// A branch as a value in specifications.
pub struct BranchView {
    pub name: Seq<char>,
    pub tracking: TrackingState,
}

impl View for Branch {
    type V = BranchView;

    open spec fn view(&self) -> BranchView {
        BranchView { name: self.name@, tracking: self.tracking }
    }
}

/// The state of a repository. The commit id is always 40 hexadecimal
/// digits; the branch is absent when HEAD is detached.
#[derive(Debug, PartialEq, Eq)]
pub struct GitState {
    commit_id: String,
    branch: Option<Branch>,
    change_count: usize,
}

/// A repository state as a value in specifications.
pub struct GitStateView {
    pub commit_id: Seq<char>,
    pub branch: Option<BranchView>,
    pub change_count: nat,
}

/// `true` for the characters `0`-`9`, `a`-`f` and `A`-`F`.
pub open spec fn is_hex_digit(c: char) -> bool {
    ('0' <= c && c <= '9') || ('a' <= c && c <= 'f') || ('A' <= c && c <= 'F')
}

/// `true` for a text of exactly 40 hexadecimal digits.
pub open spec fn is_commit_id(id: Seq<char>) -> bool {
    id.len() == 40 && forall|i: int| 0 <= i < id.len() ==> is_hex_digit(#[trigger] id[i])
}

/// The view of an optional branch.
pub open spec fn branch_view(branch: Option<Branch>) -> Option<BranchView> {
    match branch {
        Some(b) => Some(b@),
        None => None,
    }
}

/// The tracking state that a resolved or unresolved divergence gives.
pub open spec fn tracking_of(divergence: Option<(usize, usize)>) -> TrackingState {
    match divergence {
        Some((ahead, behind)) => TrackingState::Divergence { ahead, behind },
        None => TrackingState::NoUpstream,
    }
}

/// The state that the steps of a resolution add up to. HEAD must have
/// resolved to a commit with a well-formed id, a branch must have a readable
/// name, and the changes must have been counted; else there is no state. A
/// divergence that could not be resolved only makes the branch one without
/// upstream, and a detached HEAD has no branch at all.
pub open spec fn summary(
    on_branch: bool,
    shorthand: Option<Seq<char>>,
    commit_id: Option<Seq<char>>,
    divergence: Option<(usize, usize)>,
    changes: Option<usize>,
) -> Option<GitStateView> {
    if (on_branch && shorthand is None) || commit_id is None || !is_commit_id(commit_id->0)
        || changes is None {
        None
    } else {
        Some(
            GitStateView {
                commit_id: commit_id->0,
                branch: if on_branch {
                    Some(BranchView { name: shorthand->0, tracking: tracking_of(divergence) })
                } else {
                    None
                },
                change_count: changes->0 as nat,
            },
        )
    }
}

/// The glyph that opens the text of a repository.
pub const BRANCH_GLYPH: &'static str = "\u{e0a0}";

/// The glyph of a branch that is level with its upstream.
pub const IN_SYNC_GLYPH: &'static str = "\u{2263}";

/// The glyph of a branch without upstream.
pub const NO_UPSTREAM_GLYPH: &'static str = "\u{2262}";

/// The arrow behind the number of commits ahead of the upstream.
pub const AHEAD_ARROW: &'static str = "\u{2191}";

/// The arrow behind the number of commits behind the upstream.
pub const BEHIND_ARROW: &'static str = "\u{2193}";

/// The sign in front of the number of pending changes.
pub const CHANGE_SIGN: &'static str = "\u{b1}";

/// The glyph that opens the text of a repository.
pub open spec fn branch_glyph() -> Seq<char> {
    seq!['\u{e0a0}']
}

/// The glyph of a branch that is level with its upstream.
pub open spec fn in_sync_glyph() -> Seq<char> {
    seq!['\u{2263}']
}

/// The glyph of a branch without upstream.
pub open spec fn no_upstream_glyph() -> Seq<char> {
    seq!['\u{2262}']
}

/// What names the commit in the prompt: the branch, or for a detached HEAD
/// the first seven digits of the commit id.
pub open spec fn identity_text(state: GitStateView) -> Seq<char> {
    match state.branch {
        Some(branch) => branch.name,
        None => state.commit_id.subrange(0, 7),
    }
}

/// The counts of a divergence that are not zero, each with its arrow, the
/// commits ahead before those behind.
pub open spec fn divergence_parts(ahead: nat, behind: nat) -> Seq<Seq<char>> {
    let up = if ahead > 0 {
        seq![decimal(ahead).push('\u{2191}')]
    } else {
        Seq::empty()
    };
    let down = if behind > 0 {
        seq![decimal(behind).push('\u{2193}')]
    } else {
        Seq::empty()
    };
    up + down
}

/// What shows how a branch stands to its upstream.
pub open spec fn tracking_text(tracking: TrackingState) -> Seq<char> {
    match tracking {
        TrackingState::NoUpstream => no_upstream_glyph(),
        TrackingState::Divergence { ahead, behind } => if ahead == 0 && behind == 0 {
            in_sync_glyph()
        } else {
            joined(divergence_parts(ahead as nat, behind as nat), seq![' '])
        },
    }
}

/// What shows a number of pending changes.
pub open spec fn change_text(count: nat) -> Seq<char> {
    seq!['\u{b1}'] + decimal(count)
}

/// The tracking text of a state: present exactly when it has a branch.
pub open spec fn tracking_part(state: GitStateView) -> Option<Seq<char>> {
    match state.branch {
        Some(branch) => Some(tracking_text(branch.tracking)),
        None => None,
    }
}

/// The change text of a state: present exactly when something is pending.
pub open spec fn change_part(state: GitStateView) -> Option<Seq<char>> {
    if state.change_count > 0 {
        Some(change_text(state.change_count))
    } else {
        None
    }
}

/// A sequence of no text or one.
pub open spec fn optional_part(part: Option<Seq<char>>) -> Seq<Seq<char>> {
    match part {
        Some(text) => seq![text],
        None => Seq::empty(),
    }
}

/// The parts of the text of a repository, in order.
pub open spec fn git_parts(state: GitStateView) -> Seq<Seq<char>> {
    seq![branch_glyph(), identity_text(state)] + optional_part(tracking_part(state))
        + optional_part(change_part(state))
}

/// The text of a repository: its parts, a space between each two.
pub open spec fn git_text(state: GitStateView) -> Seq<char> {
    joined(git_parts(state), seq![' '])
}

/// The background of a repository: green when nothing is pending, else
/// yellow, whatever the tracking state.
pub open spec fn git_background(state: GitStateView) -> Color {
    if state.change_count == 0 {
        Color::Green
    } else {
        Color::Yellow
    }
}

/// Level with upstream, diverged from it and without upstream look
/// different from each other.
pub proof fn lemma_tracking_texts_distinct(ahead: usize, behind: usize)
    requires
        ahead > 0 || behind > 0,
    ensures
        tracking_text(TrackingState::Divergence { ahead: 0, behind: 0 }) != tracking_text(
            TrackingState::NoUpstream,
        ),
        tracking_text(TrackingState::Divergence { ahead, behind }) != tracking_text(
            TrackingState::Divergence { ahead: 0, behind: 0 },
        ),
        tracking_text(TrackingState::Divergence { ahead, behind }) != tracking_text(
            TrackingState::NoUpstream,
        ),
{
    let diverged = tracking_text(TrackingState::Divergence { ahead, behind });
    let parts = divergence_parts(ahead as nat, behind as nat);
    assert(in_sync_glyph()[0] != no_upstream_glyph()[0]);
    if ahead > 0 && behind > 0 {
        assert(parts.drop_last() =~= seq![decimal(ahead as nat).push('\u{2191}')]);
        assert(diverged.last() == '\u{2193}');
    } else if ahead > 0 {
        assert(diverged.last() == '\u{2191}');
    } else {
        assert(diverged.last() == '\u{2193}');
    }
    assert(in_sync_glyph().last() == '\u{2263}');
    assert(no_upstream_glyph().last() == '\u{2262}');
}

/// A state has a branch exactly when HEAD points to one, and its commit id
/// is always 40 hexadecimal digits.
pub proof fn lemma_summary_shape(
    on_branch: bool,
    shorthand: Option<Seq<char>>,
    commit_id: Option<Seq<char>>,
    divergence: Option<(usize, usize)>,
    changes: Option<usize>,
)
    ensures
        summary(on_branch, shorthand, commit_id, divergence, changes) matches Some(state) ==> {
            &&& state.branch is Some <==> on_branch
            &&& is_commit_id(state.commit_id)
        },
{
}

/// An upstream that cannot be resolved never takes the state away: it only
/// leaves the branch without upstream, and everything else as it is.
pub proof fn lemma_upstream_failure_keeps_state(
    on_branch: bool,
    shorthand: Option<Seq<char>>,
    commit_id: Option<Seq<char>>,
    divergence: Option<(usize, usize)>,
    changes: Option<usize>,
)
    ensures
        summary(on_branch, shorthand, commit_id, None, changes) is Some <==> summary(
            on_branch,
            shorthand,
            commit_id,
            divergence,
            changes,
        ) is Some,
        summary(on_branch, shorthand, commit_id, None, changes) matches Some(without) ==> {
            let with = summary(on_branch, shorthand, commit_id, divergence, changes)->0;
            &&& without.commit_id == with.commit_id
            &&& without.change_count == with.change_count
            &&& without.branch matches Some(branch) ==> branch.tracking
                == TrackingState::NoUpstream && branch.name == with.branch->0.name
        },
{
}

/// The view of an optional text.
pub open spec fn text_view(text: Option<String>) -> Option<Seq<char>> {
    match text {
        Some(t) => Some(t@),
        None => None,
    }
}

/// The view of an optional state.
pub open spec fn state_view(state: Option<GitState>) -> Option<GitStateView> {
    match state {
        Some(s) => Some(s@),
        None => None,
    }
}

impl TrackingState {
    /// The tracking state that a resolved or unresolved divergence gives.
    pub fn from_divergence(divergence: Option<(usize, usize)>) -> (out: TrackingState)
        ensures
            out == tracking_of(divergence),
    {
        match divergence {
            Some((ahead, behind)) => TrackingState::Divergence { ahead, behind },
            None => TrackingState::NoUpstream,
        }
    }

    /// What shows this tracking state in the prompt.
    pub fn token(&self) -> (out: String)
        ensures
            out@ == tracking_text(*self),
    {
        proof {
            reveal_strlit("\u{2262}");
            reveal_strlit("\u{2263}");
            reveal_strlit("\u{2191}");
            reveal_strlit("\u{2193}");
            reveal_strlit(" ");
        }
        match *self {
            TrackingState::NoUpstream => {
                let out = String::from_str(NO_UPSTREAM_GLYPH);
                assert(out@ =~= no_upstream_glyph());
                out
            },
            TrackingState::Divergence { ahead, behind } => {
                if ahead == 0 && behind == 0 {
                    let out = String::from_str(IN_SYNC_GLYPH);
                    assert(out@ =~= in_sync_glyph());
                    out
                } else {
                    let mut parts: Vec<String> = Vec::new();
                    assert(texts(parts@) =~= Seq::<Seq<char>>::empty());
                    if ahead > 0 {
                        let mut up = decimal_text(ahead as u64);
                        up.append(AHEAD_ARROW);
                        assert(up@ =~= decimal(ahead as nat).push('\u{2191}'));
                        parts.push(up);
                        assert(texts(parts@) =~= seq![decimal(ahead as nat).push('\u{2191}')]);
                    }
                    let ghost before = texts(parts@);
                    if behind > 0 {
                        let mut down = decimal_text(behind as u64);
                        down.append(BEHIND_ARROW);
                        assert(down@ =~= decimal(behind as nat).push('\u{2193}'));
                        parts.push(down);
                        assert(texts(parts@) =~= before + seq![
                            decimal(behind as nat).push('\u{2193}'),
                        ]);
                    }
                    assert(texts(parts@) =~= divergence_parts(ahead as nat, behind as nat));
                    let out = join(&parts, " ");
                    assert(" "@ =~= seq![' ']);
                    out
                }
            },
        }
    }
}

fn check_commit_id(id: &str) -> (out: bool)
    ensures
        out == is_commit_id(id@),
{
    let len = id.unicode_len();
    if len != 40 {
        return false;
    }
    let mut i: usize = 0;
    while i < len
        invariant
            i <= len,
            len == id@.len(),
            forall|j: int| 0 <= j < i ==> is_hex_digit(#[trigger] id@[j]),
        decreases len - i,
    {
        let c = id.get_char(i);
        let hex = (c >= '0' && c <= '9') || (c >= 'a' && c <= 'f') || (c >= 'A' && c <= 'F');
        if !hex {
            assert(!is_hex_digit(id@[i as int]));
            return false;
        }
        i = i + 1;
    }
    true
}

impl View for GitState {
    type V = GitStateView;

    closed spec fn view(&self) -> GitStateView {
        GitStateView {
            commit_id: self.commit_id@,
            branch: branch_view(self.branch),
            change_count: self.change_count as nat,
        }
    }
}

impl GitState {
    #[verifier::type_invariant]
    spec fn well_formed(&self) -> bool {
        is_commit_id(self.commit_id@)
    }

    /// A state from its parts: `Some` exactly when `commit_id` is 40
    /// hexadecimal digits.
    pub fn new(commit_id: String, branch: Option<Branch>, change_count: usize) -> (out: Option<
        GitState,
    >)
        ensures
            out is Some <==> is_commit_id(commit_id@),
            out matches Some(state) ==> state@ == (GitStateView {
                commit_id: commit_id@,
                branch: branch_view(branch),
                change_count: change_count as nat,
            }),
    {
        if check_commit_id(commit_id.as_str()) {
            Some(GitState { commit_id, branch, change_count })
        } else {
            None
        }
    }

    /// The id of the commit that HEAD points to.
    pub fn commit_id(&self) -> (out: &str)
        ensures
            out@ == self@.commit_id,
            is_commit_id(out@),
    {
        proof {
            use_type_invariant(self);
        }
        self.commit_id.as_str()
    }

    /// The branch that HEAD points to, if it is not detached.
    pub fn branch(&self) -> (out: Option<&Branch>)
        ensures
            out is Some <==> self@.branch is Some,
            out matches Some(b) ==> b@ == self@.branch->0,
    {
        self.branch.as_ref()
    }

    /// The number of entries that the status of the working tree lists.
    pub fn change_count(&self) -> (out: usize)
        ensures
            out == self@.change_count,
    {
        self.change_count
    }

    /// What names the commit: the branch, or the first seven digits of the
    /// commit id.
    pub fn identity_token(&self) -> (out: String)
        ensures
            out@ == identity_text(self@),
    {
        proof {
            use_type_invariant(self);
        }
        match &self.branch {
            Some(branch) => branch.name.clone(),
            None => String::from_str(self.commit_id.as_str().substring_char(0, 7)),
        }
    }

    /// What shows how the branch stands to its upstream; nothing for a
    /// detached HEAD.
    pub fn tracking_token(&self) -> (out: Option<String>)
        ensures
            text_view(out) == tracking_part(self@),
    {
        match &self.branch {
            Some(branch) => Some(branch.tracking.token()),
            None => None,
        }
    }

    /// What shows the number of pending changes; nothing when there are
    /// none.
    pub fn change_token(&self) -> (out: Option<String>)
        ensures
            text_view(out) == change_part(self@),
    {
        if self.change_count > 0 {
            let mut out = String::from_str(CHANGE_SIGN);
            let count = decimal_text(self.change_count as u64);
            out.append(count.as_str());
            proof {
                reveal_strlit("\u{b1}");
                assert(out@ =~= change_text(self.change_count as nat));
            }
            Some(out)
        } else {
            None
        }
    }

    /// The background of the repository's segment.
    pub fn background(&self) -> (out: Color)
        ensures
            out == git_background(self@),
    {
        if self.change_count == 0 {
            Color::Green
        } else {
            Color::Yellow
        }
    }

    /// The text of the repository's segment.
    pub fn segment_text(&self) -> (out: String)
        ensures
            out@ == git_text(self@),
    {
        let mut parts: Vec<String> = Vec::new();
        parts.push(String::from_str(BRANCH_GLYPH));
        parts.push(self.identity_token());
        proof {
            reveal_strlit("\u{e0a0}");
            reveal_strlit(" ");
            assert(BRANCH_GLYPH@ =~= branch_glyph());
            assert(texts(parts@) =~= seq![branch_glyph(), identity_text(self@)]);
        }
        let ghost head = texts(parts@);
        match self.tracking_token() {
            Some(token) => {
                parts.push(token);
            },
            None => {},
        }
        assert(texts(parts@) =~= head + optional_part(tracking_part(self@)));
        let ghost middle = texts(parts@);
        match self.change_token() {
            Some(token) => {
                parts.push(token);
            },
            None => {},
        }
        assert(texts(parts@) =~= middle + optional_part(change_part(self@)));
        let out = join(&parts, " ");
        assert(" "@ =~= seq![' ']);
        out
    }
}

/// Adds up what the steps of a resolution found; see `summary`.
pub fn summarize(
    on_branch: bool,
    shorthand: Option<String>,
    commit_id: Option<String>,
    divergence: Option<(usize, usize)>,
    changes: Option<usize>,
) -> (out: Option<GitState>)
    ensures
        state_view(out) == summary(
            on_branch,
            text_view(shorthand),
            text_view(commit_id),
            divergence,
            changes,
        ),
{
    let commit_id = match commit_id {
        Some(id) => id,
        None => {
            return None;
        },
    };
    let change_count = match changes {
        Some(count) => count,
        None => {
            return None;
        },
    };
    let branch = if on_branch {
        match shorthand {
            Some(name) => Some(
                Branch { name, tracking: TrackingState::from_divergence(divergence) },
            ),
            None => {
                return None;
            },
        }
    } else {
        None
    };
    GitState::new(commit_id, branch, change_count)
}

} // verus!
