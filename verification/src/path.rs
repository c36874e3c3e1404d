//! The working directory as the prompt shows it: forward slashes only, the
//! home directory shortened to `~`, no trailing separator.

use vstd::prelude::*;
use vstd::string::*;

verus! {

/// A path with every backslash turned into a forward slash.
pub open spec fn unified(path: Seq<char>) -> Seq<char> {
    path.map_values(
        |c: char|
            if c == '\\' {
                '/'
            } else {
                c
            },
    )
}

/// A text without its last character, if that is a separator and not the
/// whole text: one trailing separator goes, a lone root marker stays.
pub open spec fn without_trailing_separator(path: Seq<char>) -> Seq<char> {
    if path.len() > 1 && path.last() == '/' {
        path.drop_last()
    } else {
        path
    }
}

/// The home directory with forward slashes and without a separator at its
/// end; the root directory gives the empty stem.
pub open spec fn home_stem(home: Seq<char>) -> Seq<char> {
    let path = unified(home);
    if path.len() > 0 && path.last() == '/' {
        path.drop_last()
    } else {
        path
    }
}

/// `true` when `path` is the directory `stem` or lies below it: it starts
/// with `stem`, and ends there or goes on with a separator.
pub open spec fn is_under(stem: Seq<char>, path: Seq<char>) -> bool {
    stem.is_prefix_of(path) && (path.len() == stem.len() || path[stem.len() as int] == '/')
}

/// `true` when the home directory is known, not empty, and holds `path`.
pub open spec fn in_home(path: Seq<char>, home: Option<Seq<char>>) -> bool {
    home matches Some(h) && h.len() > 0 && is_under(home_stem(h), path)
}

/// The working directory as shown: with forward slashes; below the home
/// directory, `~` in place of the home directory; one trailing separator
/// removed, unless nothing else is left.
pub open spec fn display_path(directory: Seq<char>, home: Option<Seq<char>>) -> Seq<char> {
    let path = unified(directory);
    if in_home(path, home) {
        without_trailing_separator(seq!['~'] + path.skip(home_stem(home->0).len() as int))
    } else {
        without_trailing_separator(path)
    }
}

/// A working directory is never shown as nothing: the root keeps its
/// marker, and the home directory shows as `~`.
pub proof fn lemma_display_path_not_empty(directory: Seq<char>, home: Option<Seq<char>>)
    requires
        directory.len() > 0,
    ensures
        display_path(directory, home).len() > 0,
        display_path(seq!['/'], None) == seq!['/'],
        home matches Some(h) && h.len() > 0 && unified(directory) == home_stem(h)
            ==> display_path(directory, home) == seq!['~'],
{
    let root = seq!['/'];
    assert(unified(root) =~= root);
    if let Some(h) = home {
        if h.len() > 0 && unified(directory) == home_stem(h) {
            let path = unified(directory);
            assert(path.skip(path.len() as int) =~= Seq::<char>::empty());
            assert(seq!['~'] + Seq::<char>::empty() =~= seq!['~']);
        }
    }
}

/// The view of an optional text.
pub open spec fn optional_text(text: Option<&str>) -> Option<Seq<char>> {
    match text {
        Some(t) => Some(t@),
        None => None,
    }
}

fn unify_separators(path: &str) -> (out: String)
    ensures
        out@ == unified(path@),
{
    let len = path.unicode_len();
    let mut out = String::new();
    let mut i: usize = 0;
    proof {
        reveal_strlit("/");
    }
    while i < len
        invariant
            i <= len,
            len == path@.len(),
            out@ == unified(path@.take(i as int)),
            "/"@.len() == 1,
            "/"@[0] == '/',
        decreases len - i,
    {
        let c = path.get_char(i);
        if c == '\\' {
            out.append("/");
        } else {
            out.append(path.substring_char(i, i + 1));
        }
        assert(out@ =~= unified(path@.take(i + 1)));
        i = i + 1;
    }
    assert(path@.take(len as int) =~= path@);
    out
}

fn ends_with_separator(path: &str) -> (out: bool)
    ensures
        out == (path@.len() > 0 && path@.last() == '/'),
{
    let len = path.unicode_len();
    len > 0 && path.get_char(len - 1) == '/'
}

fn lies_under(stem: &str, path: &str) -> (out: bool)
    ensures
        out == is_under(stem@, path@),
{
    let stem_len = stem.unicode_len();
    let path_len = path.unicode_len();
    if stem_len > path_len {
        return false;
    }
    let mut i: usize = 0;
    while i < stem_len
        invariant
            i <= stem_len <= path_len,
            stem_len == stem@.len(),
            path_len == path@.len(),
            forall|j: int| 0 <= j < i ==> stem@[j] == path@[j],
        decreases stem_len - i,
    {
        if stem.get_char(i) != path.get_char(i) {
            return false;
        }
        i = i + 1;
    }
    path_len == stem_len || path.get_char(stem_len) == '/'
}

fn trimmed(path: String) -> (out: String)
    ensures
        out@ == without_trailing_separator(path@),
{
    let len = path.as_str().unicode_len();
    if len > 1 && path.as_str().get_char(len - 1) == '/' {
        let out = String::from_str(path.as_str().substring_char(0, len - 1));
        assert(out@ =~= path@.drop_last());
        out
    } else {
        path
    }
}

/// Writes the working directory as the prompt shows it.
pub fn format_path(directory: &str, home: Option<&str>) -> (out: String)
    ensures
        out@ == display_path(directory@, optional_text(home)),
{
    let path = unify_separators(directory);
    match home {
        Some(home) => {
            if home.unicode_len() > 0 {
                let unified_home = unify_separators(home);
                let stem = if ends_with_separator(unified_home.as_str()) {
                    let len = unified_home.as_str().unicode_len();
                    let stem = String::from_str(unified_home.as_str().substring_char(0, len - 1));
                    assert(stem@ =~= unified_home@.drop_last());
                    stem
                } else {
                    unified_home
                };
                assert(stem@ == home_stem(home@));
                if lies_under(stem.as_str(), path.as_str()) {
                    let stem_len = stem.as_str().unicode_len();
                    let path_len = path.as_str().unicode_len();
                    let mut shown = String::from_str("~");
                    shown.append(path.as_str().substring_char(stem_len, path_len));
                    proof {
                        reveal_strlit("~");
                        assert(shown@ =~= seq!['~'] + path@.skip(stem_len as int));
                    }
                    return trimmed(shown);
                }
            }
        },
        None => {},
    }
    trimmed(path)
}

} // verus!
