//! Building the Markdown output: code fences and the file listing.
use vstd::prelude::*;

verus! {

/// Whether `needle` occurs in `hay` as a contiguous run.
pub open spec fn occurs_in(hay: Seq<char>, needle: Seq<char>) -> bool {
    exists|i: int| 0 <= i <= hay.len() - needle.len() && #[trigger] hay.subrange(i, i + needle.len()) == needle
}

/// A run of `n` backticks.
pub open spec fn ticks(n: nat) -> Seq<char> {
    Seq::new(n, |i: int| '`')
}

/// The shortest fence of three to ten backticks that does not occur in
/// `content`, looking from `n` backticks up; twelve where all of them occur.
pub open spec fn fence_from(content: Seq<char>, n: nat) -> Seq<char>
    decreases 11 - n,
{
    if n > 10 {
        ticks(12)
    } else if !occurs_in(content, ticks(n)) {
        ticks(n)
    } else {
        fence_from(content, n + 1)
    }
}

pub open spec fn fence_for(content: Seq<char>) -> Seq<char> {
    fence_from(content, 3)
}

/// Relies on `str::contains` with a string pattern: whether the pattern
/// occurs as a substring.
#[verifier::external_body]
fn str_contains(s: &str, pat: &str) -> (r: bool)
    ensures
        r == occurs_in(s@, pat@),
{
    s.contains(pat)
}

fn backticks(n: usize) -> (r: String)
    ensures
        r@ == ticks(n as nat),
{
    let mut s = String::new();
    let mut i: usize = 0;
    while i < n
        invariant
            i <= n,
            s@ == ticks(i as nat),
        decreases n - i,
    {
        proof {
            reveal_strlit("`");
        }
        s.append("`");
        assert("`"@ =~= seq!['`']);
        i = i + 1;
        assert(s@ =~= ticks(i as nat));
    }
    s
}

/// The fence that wraps `content` without being closed by a line of it: the
/// shortest run of three to ten backticks that `content` does not hold, or
/// twelve backticks.
pub fn choose_fence(content: &str) -> (r: String)
    ensures
        r@ == fence_for(content@),
{
    let mut n: usize = 3;
    while n <= 10
        invariant
            3 <= n <= 11,
            fence_for(content@) == fence_from(content@, n as nat),
        decreases 11 - n,
    {
        let fence = backticks(n);
        if !str_contains(content, fence.as_str()) {
            return fence;
        }
        n = n + 1;
    }
    backticks(12)
}

/// The lines of a listing: each entry followed by a newline.
pub open spec fn listing_lines(rels: Seq<Seq<char>>) -> Seq<char>
    decreases rels.len(),
{
    if rels.len() == 0 {
        Seq::empty()
    } else {
        listing_lines(rels.drop_last()) + rels.last() + seq!['\n']
    }
}

/// A listing of relative paths inside a plain code block, followed by a blank
/// line.
pub open spec fn listing(rels: Seq<Seq<char>>) -> Seq<char> {
    seq!['`', '`', '`', '\n'] + listing_lines(rels) + seq!['`', '`', '`', '\n', '\n']
}

/// Lists the relative paths one per line inside a plain code block.
pub fn emit_dir_listing(rels: &Vec<String>) -> (r: String)
    ensures
        r@ == listing(rels@.map_values(|s: String| s@)),
{
    let ghost views = rels@.map_values(|s: String| s@);
    let mut s = String::new();
    proof {
        reveal_strlit("```\n");
        reveal_strlit("\n");
        reveal_strlit("```\n\n");
    }
    s.append("```\n");
    assert("```\n"@ =~= seq!['`', '`', '`', '\n']);
    assert(s@ =~= seq!['`', '`', '`', '\n'] + listing_lines(views.take(0)));
    let mut i: usize = 0;
    while i < rels.len()
        invariant
            i <= rels@.len(),
            views == rels@.map_values(|s: String| s@),
            s@ == seq!['`', '`', '`', '\n'] + listing_lines(views.take(i as int)),
        decreases rels@.len() - i,
    {
        proof {
            reveal_strlit("\n");
        }
        s.append(rels[i].as_str());
        s.append("\n");
        assert("\n"@ =~= seq!['\n']);
        proof {
            let t = views.take(i as int + 1);
            assert(t.drop_last() =~= views.take(i as int));
            assert(t.last() == views[i as int]);
        }
        i = i + 1;
    }
    s.append("```\n\n");
    assert("```\n\n"@ =~= seq!['`', '`', '`', '\n', '\n']);
    assert(views.take(i as int) =~= views);
    s
}

/// Whether a block of bytes holds a NUL byte, the sign of a binary file.
pub fn has_nul(bytes: &[u8]) -> (r: bool)
    ensures
        r == bytes@.contains(0u8),
{
    let mut i: usize = 0;
    while i < bytes.len()
        invariant
            i <= bytes@.len(),
            forall|k: int| 0 <= k < i ==> bytes@[k] != 0u8,
        decreases bytes@.len() - i,
    {
        if bytes[i] == 0u8 {
            return true;
        }
        i = i + 1;
    }
    false
}

/// One file in the output: the fence with the relative path as its info
/// string, the content ending in a newline, a blank line, and the closing
/// fence followed by a blank line.
pub open spec fn file_block(fence: Seq<char>, rel: Seq<char>, content: Seq<char>) -> Seq<char> {
    let body = if content.len() > 0 && content.last() == '\n' {
        content
    } else {
        content.push('\n')
    };
    fence + rel + seq!['\n'] + body + seq!['\n'] + fence + seq!['\n', '\n']
}

/// Relies on `str::ends_with` with a character pattern: whether the last
/// character is that one.
#[verifier::external_body]
fn ends_with_char(s: &str, c: char) -> (r: bool)
    ensures
        r == (s@.len() > 0 && s@.last() == c),
{
    s.ends_with(c)
}

/// Wraps one file's content in a fence that its content cannot close,
/// labelled with its relative path.
pub fn emit_file_block(rel: &str, content: &str) -> (r: String)
    ensures
        r@ == file_block(fence_for(content@), rel@, content@),
{
    let fence = choose_fence(content);
    let mut out = String::new();
    proof {
        reveal_strlit("\n");
        reveal_strlit("\n\n");
    }
    assert("\n"@ =~= seq!['\n']);
    assert("\n\n"@ =~= seq!['\n', '\n']);
    out.append(fence.as_str());
    out.append(rel);
    out.append("\n");
    out.append(content);
    if !ends_with_char(content, '\n') {
        out.append("\n");
    }
    out.append("\n");
    out.append(fence.as_str());
    out.append("\n\n");
    assert(out@ =~= file_block(fence_for(content@), rel@, content@));
    out
}

} // verus!
