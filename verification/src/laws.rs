//! What holds of every run, stated over the transcript.

use vstd::prelude::*;
use crate::exercise::{mutated, standard_transcript, transcript};

verus! {

/// On `Hello` and ` Rust` the transcript is the five lines written out in
/// `standard_transcript`.
pub proof fn lemma_standard_transcript()
    ensures
        transcript("Hello"@, " Rust"@) == standard_transcript(),
{
    reveal_strlit("Hello");
    reveal_strlit(" Rust");
    reveal_strlit(", ");
    reveal_strlit("Initial text: ");
    reveal_strlit("Immutable references: ");
    reveal_strlit("After mutation: ");
    reveal_strlit("New immutable references: ");
    reveal_strlit("Final text: ");
    reveal_strlit("Initial text: Hello");
    reveal_strlit("Immutable references: Hello, Hello");
    reveal_strlit("After mutation: Hello Rust");
    reveal_strlit("New immutable references: Hello Rust, Hello Rust");
    reveal_strlit("Final text: Hello Rust");
    let t = transcript("Hello"@, " Rust"@);
    let s = standard_transcript();
    assert(t[0] =~= s[0]);
    assert(t[1] =~= s[1]);
    assert(t[2] =~= s[2]);
    assert(t[3] =~= s[3]);
    assert(t[4] =~= s[4]);
    assert(t =~= s);
}

/// Two runs on fresh buffers with the same initial text and the same suffix
/// produce the same five lines.
pub proof fn lemma_runs_agree(
    first: Vec<String>,
    second: Vec<String>,
    initial: Seq<char>,
    suffix: Seq<char>,
)
    requires
        first.deep_view() == transcript(initial, suffix),
        second.deep_view() == transcript(initial, suffix),
    ensures
        first.deep_view() == second.deep_view(),
        first@.len() == 5,
        second@.len() == 5,
        forall|i: int| 0 <= i < 5 ==> first@[i]@ == second@[i]@,
{
    assert(first.deep_view().len() == 5);
    assert(second.deep_view().len() == 5);
    assert forall|i: int| 0 <= i < 5 implies first@[i]@ == second@[i]@ by {
        assert(first.deep_view()[i] == second.deep_view()[i]);
    }
}

/// Appending to an empty buffer leaves exactly the suffix, and a run that
/// starts from the empty text shows the empty text in its first two lines and
/// the suffix alone in the other three.
pub proof fn lemma_empty_initial(suffix: Seq<char>)
    ensures
        mutated(Seq::<char>::empty(), suffix) == suffix,
        mutated(""@, suffix) == suffix,
        transcript(""@, suffix) == transcript(Seq::<char>::empty(), suffix),
        transcript(Seq::<char>::empty(), suffix) == seq![
            "Initial text: "@,
            "Immutable references: , "@,
            "After mutation: "@ + suffix,
            "New immutable references: "@ + suffix + ", "@ + suffix,
            "Final text: "@ + suffix,
        ],
{
    reveal_strlit("");
    reveal_strlit(", ");
    reveal_strlit("Immutable references: ");
    reveal_strlit("Immutable references: , ");
    let empty = Seq::<char>::empty();
    assert(""@ =~= empty);
    assert(mutated(empty, suffix) =~= suffix);
    let t = transcript(empty, suffix);
    let e = seq![
        "Initial text: "@,
        "Immutable references: , "@,
        "After mutation: "@ + suffix,
        "New immutable references: "@ + suffix + ", "@ + suffix,
        "Final text: "@ + suffix,
    ];
    assert(t[0] =~= e[0]);
    assert(t[1] =~= e[1]);
    assert(t[2] =~= e[2]);
    assert(t[3] =~= e[3]);
    assert(t[4] =~= e[4]);
    assert(t =~= e);
}

} // verus!
