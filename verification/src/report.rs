//! The texts that a command-line front end shows for a conversion's result.

use vstd::prelude::*;

use crate::error::{message_of, ConversionError};

verus! {

/// The text with a tab behind each of its line feeds, so that every line after
/// the first starts one tab in.
pub open spec fn indented(text: Seq<char>) -> Seq<char>
    decreases text.len(),
{
    if text.len() == 0 {
        Seq::empty()
    } else if text.last() == '\n' {
        indented(text.drop_last()) + seq!['\n', '\t']
    } else {
        indented(text.drop_last()).push(text.last())
    }
}

/// What is shown for the lines of a successful conversion.
pub open spec fn success_text(lines: Seq<char>) -> Seq<char> {
    "\nfor gradle: \n\t"@ + indented(lines)
}

/// What is shown for a failed conversion.
pub open spec fn failure_text(message: Seq<char>) -> Seq<char> {
    "\nError: \n\t"@ + message
}

/// The report on a successful conversion: a heading, then the Gradle lines,
/// each of them one tab in.
pub fn success_report(lines: &str) -> (report: String)
    ensures
        report@ == success_text(lines@),
{
    let mut report = String::from_str("\nfor gradle: \n\t");
    let ghost heading = report@;
    for c in it: lines.chars()
        invariant
            it.seq() == lines@,
            report@ == heading + indented(lines@.take(it.index() as int)),
    {
        proof {
            let n: int = it.index() as int;
            assert(lines@.take(n + 1).drop_last() =~= lines@.take(n));
        }
        report.push(c);
        if c == '\n' {
            report.push('\t');
        }
    }
    proof {
        assert(lines@.take(lines@.len() as int) =~= lines@);
    }
    report
}

/// The report on a failed conversion: a heading, then the error's message,
/// one tab in.
pub fn failure_report(error: &ConversionError) -> (report: String)
    ensures
        report@ == failure_text(message_of(error@)),
{
    let mut report = String::from_str("\nError: \n\t");
    report.append(error.message().as_str());
    report
}

} // verus!
