//! The wording of the transcript's lines, and the functions that build them.

use vstd::prelude::*;
use vstd::string::StringExecFns;

verus! {

/// The text placed between the two references shown on one line.
pub open spec fn separator() -> Seq<char> {
    ", "@
}

/// A line that shows one reading of the buffer after a label.
pub open spec fn single_line(label: Seq<char>, text: Seq<char>) -> Seq<char> {
    label + text
}

/// A line that shows two readings of the buffer after a label.
pub open spec fn paired_line(label: Seq<char>, first: Seq<char>, second: Seq<char>) -> Seq<char> {
    label + first + separator() + second
}

/// Builds the line for one reading of the buffer.
pub fn show_one(label: &str, text: &str) -> (line: String)
    ensures
        line@ == single_line(label@, text@),
{
    let mut line = String::from_str(label);
    line.append(text);
    line
}

/// Builds the line for two simultaneous readings of the buffer.
pub fn show_two(label: &str, first: &str, second: &str) -> (line: String)
    ensures
        line@ == paired_line(label@, first@, second@),
{
    let mut line = String::from_str(label);
    line.append(first);
    line.append(", ");
    line.append(second);
    line
}

} // verus!
