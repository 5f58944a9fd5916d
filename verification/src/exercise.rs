//! The routine itself: one buffer, five readings, one mutation.

use vstd::prelude::*;
use vstd::string::StringExecFns;
use crate::laws::lemma_standard_transcript;
use crate::lines::{paired_line, show_one, show_two, single_line};

verus! {

/// The buffer after its single mutation: the suffix stands behind the initial text.
pub open spec fn mutated(initial: Seq<char>, suffix: Seq<char>) -> Seq<char> {
    initial + suffix
}

/// The five lines that a run over `initial` and `suffix` produces, in order.
pub open spec fn transcript(initial: Seq<char>, suffix: Seq<char>) -> Seq<Seq<char>> {
    seq![
        single_line("Initial text: "@, initial),
        paired_line("Immutable references: "@, initial, initial),
        single_line("After mutation: "@, mutated(initial, suffix)),
        paired_line("New immutable references: "@, mutated(initial, suffix), mutated(initial, suffix)),
        single_line("Final text: "@, mutated(initial, suffix)),
    ]
}

/// The transcript of the standard run, written out in full.
pub open spec fn standard_transcript() -> Seq<Seq<char>> {
    seq![
        "Initial text: Hello"@,
        "Immutable references: Hello, Hello"@,
        "After mutation: Hello Rust"@,
        "New immutable references: Hello Rust, Hello Rust"@,
        "Final text: Hello Rust"@,
    ]
}

/// Runs the borrow sequence on a fresh buffer that starts as `initial` and is
/// extended once by `suffix`, and returns the five lines in order.
///
/// Both shared references of the first pair are used for the last time before
/// the exclusive reference is taken, and the exclusive reference is used for
/// the last time before the second pair is taken.
pub fn run_with(initial: &str, suffix: &str) -> (out: Vec<String>)
    ensures
        out.deep_view() == transcript(initial@, suffix@),
        out@.len() == 5,
        forall|i: int| 0 <= i < 5 ==> (#[trigger] out@[i])@ == transcript(initial@, suffix@)[i],
{
    let mut out: Vec<String> = Vec::new();
    let mut text = String::from_str(initial);
    out.push(show_one("Initial text: ", text.as_str()));

    let r1 = &text;
    let r2 = &text;
    out.push(show_two("Immutable references: ", r1.as_str(), r2.as_str()));

    let r3 = &mut text;
    r3.append(suffix);
    out.push(show_one("After mutation: ", r3.as_str()));

    let r4 = &text;
    let r5 = &text;
    out.push(show_two("New immutable references: ", r4.as_str(), r5.as_str()));

    out.push(show_one("Final text: ", text.as_str()));
    assert(out.deep_view() =~= transcript(initial@, suffix@));
    out
}

/// The standard run: the buffer starts as `Hello` and is extended by ` Rust`.
pub fn exercise_3() -> (out: Vec<String>)
    ensures
        out.deep_view() == transcript("Hello"@, " Rust"@),
        out.deep_view() == standard_transcript(),
        out@.len() == 5,
        forall|i: int| 0 <= i < 5 ==> (#[trigger] out@[i])@ == standard_transcript()[i],
{
    let out = run_with("Hello", " Rust");
    proof {
        lemma_standard_transcript();
    }
    out
}

} // verus!
