//! Grades are written as a letter repeated: the more often, the less help a
//! game needs to run.

use vstd::prelude::*;
use vstd::string::StringExecFns;

verus! {

/// `text` written `copies` times in a row.
pub open spec fn repeated(text: Seq<char>, copies: nat) -> Seq<char>
    decreases copies,
{
    if copies == 0 {
        Seq::empty()
    } else {
        repeated(text, (copies - 1) as nat) + text
    }
}

/// Writes `text` `copies` times in a row.
pub fn repeat_text(text: &str, copies: usize) -> (r: String)
    ensures
        r@ == repeated(text@, copies as nat),
{
    let mut out = String::new();
    let mut done: usize = 0;
    while done < copies
        invariant
            done <= copies,
            out@ == repeated(text@, done as nat),
        decreases copies - done,
    {
        out.append(text);
        done = done + 1;
    }
    out
}

/// Repeating a single letter gives that letter at every place.
pub proof fn repeated_letter(letter: char, copies: nat)
    ensures
        repeated(seq![letter], copies) == Seq::new(copies, |i: int| letter),
    decreases copies,
{
    if copies > 0 {
        repeated_letter(letter, (copies - 1) as nat);
    }
    assert(repeated(seq![letter], copies) =~= Seq::new(copies, |i: int| letter));
}

} // verus!
