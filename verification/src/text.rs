//! String building blocks: wrapping, blank removal and joining.

use vstd::prelude::*;

verus! {

/// `String::push` of the standard library appends one character to the string
/// and leaves the characters before it as they were.
pub assume_specification[ String::push ](s: &mut String, c: char)
    ensures
        final(s)@ == old(s)@.push(c),
;

/// The characters that are removed from an input before it is parsed: the
/// space and the line feed. Tabs and carriage returns are not among them.
pub open spec fn is_blank(c: char) -> bool {
    c == ' ' || c == '\n'
}

/// What is left of `s` once every blank is taken out, in the same order.
pub open spec fn without_blanks(s: Seq<char>) -> Seq<char> {
    s.filter(|c: char| !is_blank(c))
}

/// The lines one after the other, with a line feed between each two of them
/// and none at either end.
pub open spec fn joined(lines: Seq<Seq<char>>) -> Seq<char>
    decreases lines.len(),
{
    if lines.len() == 0 {
        Seq::empty()
    } else if lines.len() == 1 {
        lines[0]
    } else {
        joined(lines.drop_last()) + seq!['\n'] + lines.last()
    }
}

/// Puts `prefix` in front of `input` and `suffix` behind it.
pub fn soround_str(input: String, prefix: &str, suffix: &str) -> (out: String)
    ensures
        out@ == prefix@ + input@ + suffix@,
{
    let mut out = String::from_str(prefix);
    out.append(input.as_str());
    out.append(suffix);
    out
}

/// Removes every space and every line feed from `s`, also those inside text
/// content; all other characters stay, in their order.
pub fn strip_blanks(s: &str) -> (out: String)
    ensures
        out@ == without_blanks(s@),
{
    let mut out = String::new();
    for c in it: s.chars()
        invariant
            it.seq() == s@,
            out@ == without_blanks(s@.take(it.index() as int)),
    {
        proof {
            let n: int = it.index() as int;
            assert(s@.take(n + 1).drop_last() =~= s@.take(n));
            reveal(Seq::filter);
        }
        if c != ' ' && c != '\n' {
            out.push(c);
        }
    }
    proof {
        assert(s@.take(s@.len() as int) =~= s@);
    }
    out
}

/// Joins the lines with a line feed between each two of them.
pub fn join_lines(lines: &Vec<String>) -> (out: String)
    ensures
        out@ == joined(lines.deep_view()),
{
    let mut out = String::new();
    let mut i: usize = 0;
    while i < lines.len()
        invariant
            i <= lines.len(),
            out@ == joined(lines.deep_view().take(i as int)),
        decreases lines.len() - i,
    {
        proof {
            let all = lines.deep_view();
            assert(all.take(i + 1).drop_last() =~= all.take(i as int));
        }
        if i > 0 {
            out.push('\n');
        }
        out.append(lines[i].as_str());
        i += 1;
    }
    proof {
        assert(lines.deep_view().take(lines.len() as int) =~= lines.deep_view());
    }
    out
}

} // verus!
