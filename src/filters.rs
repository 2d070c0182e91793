//! Selecting files by extension.
use vstd::prelude::*;

verus! {

/// What `str::trim` leaves of a string: it drops leading and trailing
/// Unicode white space.
pub uninterp spec fn trimmed(s: Seq<char>) -> Seq<char>;

/// The string without its leading dots.
pub open spec fn without_leading_dots(s: Seq<char>) -> Seq<char>
    decreases s.len(),
{
    if s.len() > 0 && s[0] == '.' {
        without_leading_dots(s.drop_first())
    } else {
        s
    }
}

pub open spec fn ascii_lower_char(c: char) -> char {
    if 'A' <= c && c <= 'Z' {
        ((c as u32) + 32) as char
    } else {
        c
    }
}

/// The string with ASCII capitals made small; other characters are kept.
pub open spec fn ascii_lower(s: Seq<char>) -> Seq<char> {
    s.map_values(|c: char| ascii_lower_char(c))
}

/// An extension as it is compared: trimmed, without leading dots, in ASCII
/// lower case.
pub open spec fn normal_ext(s: Seq<char>) -> Seq<char> {
    ascii_lower(without_leading_dots(trimmed(s)))
}

/// The normalized extensions of a list, each once, in the order in which
/// they first appear, empty ones left out.
pub open spec fn normal_ext_list(list: Seq<Seq<char>>) -> Seq<Seq<char>>
    decreases list.len(),
{
    if list.len() == 0 {
        Seq::empty()
    } else {
        let prev = normal_ext_list(list.drop_last());
        let e = normal_ext(list.last());
        if e.len() == 0 || prev.contains(e) {
            prev
        } else {
            prev.push(e)
        }
    }
}

/// Relies on `str::trim`; the result depends on the characters alone.
#[verifier::external_body]
fn trim_str(s: &str) -> (r: &str)
    ensures
        r@ == trimmed(s@),
{
    s.trim()
}

/// Relies on `str::trim_start_matches` with a character pattern: every
/// leading occurrence is removed.
#[verifier::external_body]
fn strip_leading_dots(s: &str) -> (r: &str)
    ensures
        r@ == without_leading_dots(s@),
{
    s.trim_start_matches('.')
}

/// Relies on `str::to_ascii_lowercase`: `A` to `Z` become `a` to `z`, all
/// else is kept.
#[verifier::external_body]
fn lowercase_ascii(s: &str) -> (r: String)
    ensures
        r@ == ascii_lower(s@),
{
    s.to_ascii_lowercase()
}

/// Normalizes an extension already trimmed of white space: drops its
/// leading dots and makes it ASCII lower case.
pub fn normalize_trimmed(s: &str) -> (r: String)
    ensures
        r@ == ascii_lower(without_leading_dots(s@)),
{
    lowercase_ascii(strip_leading_dots(s))
}

/// Normalizes one extension: `" .RS "` becomes `"rs"`.
pub fn normalize_ext(s: &str) -> (r: String)
    ensures
        r@ == normal_ext(s@),
{
    normalize_trimmed(trim_str(s))
}

fn contains_string(v: &Vec<String>, s: &String) -> (r: bool)
    ensures
        r == v@.map_values(|x: String| x@).contains(s@),
{
    let ghost views = v@.map_values(|x: String| x@);
    let mut i: usize = 0;
    while i < v.len()
        invariant
            i <= v@.len(),
            views == v@.map_values(|x: String| x@),
            forall|k: int| 0 <= k < i ==> views[k] != s@,
        decreases v@.len() - i,
    {
        if v[i] == *s {
            assert(views[i as int] == s@);
            return true;
        }
        i = i + 1;
    }
    false
}

/// Normalizes a list of extensions given on the command line, dropping
/// empty ones and repeats.
pub fn normalize_ext_list(list: &Vec<String>) -> (r: Vec<String>)
    ensures
        r@.map_values(|x: String| x@) == normal_ext_list(list@.map_values(|x: String| x@)),
{
    let ghost views = list@.map_values(|x: String| x@);
    let mut out: Vec<String> = Vec::new();
    let mut i: usize = 0;
    while i < list.len()
        invariant
            i <= list@.len(),
            views == list@.map_values(|x: String| x@),
            out@.map_values(|x: String| x@) == normal_ext_list(views.take(i as int)),
        decreases list@.len() - i,
    {
        let e = normalize_ext(list[i].as_str());
        proof {
            let t = views.take(i as int + 1);
            assert(t.drop_last() =~= views.take(i as int));
            assert(t.last() == views[i as int]);
        }
        if !e.as_str().is_empty() && !contains_string(&out, &e) {
            out.push(e);
            assert(out@.map_values(|x: String| x@) =~= normal_ext_list(views.take(i as int + 1)));
        }
        i = i + 1;
    }
    assert(views.take(i as int) =~= views);
    out
}

/// The allowed and denied extensions, each normalized, where given.
pub fn build_ext_filters(ext: &Option<Vec<String>>, not_ext: &Option<Vec<String>>) -> (r: (
    Option<Vec<String>>,
    Option<Vec<String>>,
))
    ensures
        ext is None <==> r.0 is None,
        not_ext is None <==> r.1 is None,
        ext is Some ==> r.0->Some_0@.map_values(|x: String| x@) == normal_ext_list(
            ext->Some_0@.map_values(|x: String| x@),
        ),
        not_ext is Some ==> r.1->Some_0@.map_values(|x: String| x@) == normal_ext_list(
            not_ext->Some_0@.map_values(|x: String| x@),
        ),
{
    let allow = match ext {
        Some(v) => Some(normalize_ext_list(v)),
        None => None,
    };
    let deny = match not_ext {
        Some(v) => Some(normalize_ext_list(v)),
        None => None,
    };
    (allow, deny)
}

/// Whether a file with extension `ext` (`None` where it has none) passes the
/// filters: it must be among the allowed ones where those are given, and
/// must not be among the denied ones. Extensions are compared in ASCII
/// lower case.
pub open spec fn ext_passes(
    ext: Option<Seq<char>>,
    allow: Option<Seq<Seq<char>>>,
    deny: Option<Seq<Seq<char>>>,
) -> bool {
    let allowed = match allow {
        None => true,
        Some(a) => ext is Some && a.contains(ascii_lower(ext->Some_0)),
    };
    let denied = match deny {
        None => false,
        Some(d) => ext is Some && d.contains(ascii_lower(ext->Some_0)),
    };
    allowed && !denied
}

pub open spec fn opt_views(v: &Option<Vec<String>>) -> Option<Seq<Seq<char>>> {
    match v {
        None => None,
        Some(l) => Some(l@.map_values(|x: String| x@)),
    }
}

/// Applies the extension filters to a file's extension.
pub fn ext_allowed(
    ext: Option<&str>,
    allow: &Option<Vec<String>>,
    deny: &Option<Vec<String>>,
) -> (r: bool)
    ensures
        r == ext_passes(
            match ext {
                None => None,
                Some(e) => Some(e@),
            },
            opt_views(allow),
            opt_views(deny),
        ),
{
    let lower = match ext {
        None => None,
        Some(e) => Some(lowercase_ascii(e)),
    };
    let allowed = match allow {
        None => true,
        Some(a) => match &lower {
            None => false,
            Some(e) => contains_string(a, e),
        },
    };
    let denied = match deny {
        None => false,
        Some(d) => match &lower {
            None => false,
            Some(e) => contains_string(d, e),
        },
    };
    allowed && !denied
}

} // verus!
