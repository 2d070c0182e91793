use vstd::prelude::*;

pub mod cascade;
pub mod clipboard;
pub mod filters;
pub mod listing;
pub mod ordering;
pub mod patterns;

verus! {

/// The view of `s` with every backslash turned into a forward slash.
pub open spec fn forward_slashes(s: Seq<char>) -> Seq<char> {
    s.map_values(|c: char| if c == '\\' { '/' } else { c })
}

/// What `path` is after `prefix` is removed from its front, if it starts with it.
pub open spec fn strip_front(path: Seq<char>, prefix: Seq<char>) -> Option<Seq<char>> {
    if prefix.is_prefix_of(path) {
        Some(path.skip(prefix.len() as int))
    } else {
        None
    }
}

/// The remainder of `path` once the leading components of `root` are removed,
/// as `std::path::Path::strip_prefix` computes it, or `None` where `root` is
/// not a leading part of `path`.
pub uninterp spec fn path_rest(path: Seq<char>, root: Seq<char>) -> Option<Seq<char>>;

/// How a path is shown relative to `root`: with the leading `./` dropped when
/// `root` is `.`, otherwise with `root`'s components removed when it leads the
/// path; backslashes always become forward slashes.
pub open spec fn rel_view(root: Seq<char>, path: Seq<char>) -> Seq<char> {
    if root == seq!['.'] {
        match strip_front(path, seq!['.', '/']) {
            Some(rest) => forward_slashes(rest),
            None => forward_slashes(path),
        }
    } else {
        match path_rest(path, root) {
            Some(rest) => forward_slashes(rest),
            None => forward_slashes(path),
        }
    }
}

/// Relies on `str::replace`: every occurrence of the pattern is replaced.
#[verifier::external_body]
fn replace_backslashes(s: &str) -> (r: String)
    ensures
        r@ == forward_slashes(s@),
{
    s.replace('\\', "/")
}

/// Relies on `str::strip_prefix`: the rest after the prefix, or `None`
/// where the string does not start with it.
#[verifier::external_body]
fn strip_str_prefix<'a>(s: &'a str, prefix: &str) -> (r: Option<&'a str>)
    ensures
        match r {
            Some(rest) => strip_front(s@, prefix@) == Some(rest@),
            None => strip_front(s@, prefix@) is None,
        },
{
    s.strip_prefix(prefix)
}

/// Relies on `std::path::Path::strip_prefix`, which compares whole path
/// components as the build target's path syntax splits them; the remainder
/// is read back as text.
#[verifier::external_body]
fn strip_path_prefix(path: &str, root: &str) -> (r: Option<String>)
    ensures
        match r {
            Some(rest) => path_rest(path@, root@) == Some(rest@),
            None => path_rest(path@, root@) is None,
        },
{
    std::path::Path::new(path).strip_prefix(root).ok().map(|p| p.to_string_lossy().into_owned())
}

/// Shows what is left of a path once its root is taken off (`rest`), or the
/// whole `path` where nothing was taken off, with forward slashes.
pub fn shown_path(path: &str, rest: Option<&str>) -> (r: String)
    ensures
        r@ == forward_slashes(
            match rest {
                Some(x) => x@,
                None => path@,
            },
        ),
{
    match rest {
        Some(x) => replace_backslashes(x),
        None => replace_backslashes(path),
    }
}

/// Shows `path` relative to `root`, with forward slashes: under `.` without
/// a leading `./`, elsewhere without `root`'s components where they lead.
pub fn rel_string(root: &str, path: &str) -> (r: String)
    ensures
        r@ == rel_view(root@, path@),
{
    proof {
        reveal_strlit(".");
        reveal_strlit("./");
    }
    let is_dot = match strip_str_prefix(root, ".") {
        Some(rest) => {
            assert(".".view() =~= seq!['.']);
            if rest.is_empty() {
                assert(root@ =~= seq!['.'] + rest@);
            } else {
                assert(root@.len() > 1);
            }
            rest.is_empty()
        },
        None => {
            assert(".".view() =~= seq!['.']);
            assert(root@ != seq!['.']) by {
                if root@ == seq!['.'] {
                    assert(seq!['.'].is_prefix_of(root@));
                }
            }
            false
        },
    };
    if is_dot {
        shown_path(path, strip_str_prefix(path, "./"))
    } else {
        match strip_path_prefix(path, root) {
            Some(rest) => shown_path(path, Some(rest.as_str())),
            None => shown_path(path, None),
        }
    }
}

} // verus!
