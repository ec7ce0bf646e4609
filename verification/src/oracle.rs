//! The tri-state verdict of the external satisfiability oracle, the
//! decoding of the oracle's raw answer code into it, and its textual form.
//! The oracle itself is an external decision procedure reached over a
//! foreign binding; only the decoding and the text stand here.

use vstd::prelude::*;

verus! {

/// The verdict of a satisfiability query: a satisfying assignment exists,
/// none exists, or the oracle could not decide. An undecided answer is a
/// normal outcome, not an error.
#[derive(Clone, Copy, PartialEq, Eq, Structural, Debug)]
pub enum SMTResults {
    SAT,
    UNSAT,
    UNDEF,
}

/// Decode the oracle's answer into a verdict. The decision procedure
/// answers in a three-valued logic code: negative for "no assignment
/// exists", zero for "could not decide", positive for "an assignment
/// exists".
pub fn verdict_from_code(code: i32) -> (r: SMTResults)
    ensures
        r == (if code == -1 {
            SMTResults::UNSAT
        } else if code == 0 {
            SMTResults::UNDEF
        } else {
            SMTResults::SAT
        }),
{
    if code == -1 {
        SMTResults::UNSAT
    } else if code == 0 {
        SMTResults::UNDEF
    } else {
        SMTResults::SAT
    }
}

/// The lower-case name of a verdict.
pub open spec fn verdict_text(r: SMTResults) -> Seq<char> {
    match r {
        SMTResults::SAT => seq!['s', 'a', 't'],
        SMTResults::UNSAT => seq!['u', 'n', 's', 'a', 't'],
        SMTResults::UNDEF => seq!['u', 'n', 'd', 'e', 'f'],
    }
}

impl SMTResults {
    /// The lower-case name of the verdict.
    pub fn as_text(self) -> (r: &'static str)
        ensures
            r@ == verdict_text(self),
    {
        proof {
            reveal_strlit("sat");
            reveal_strlit("unsat");
            reveal_strlit("undef");
        }
        match self {
            SMTResults::SAT => "sat",
            SMTResults::UNSAT => "unsat",
            SMTResults::UNDEF => "undef",
        }
    }
}

} // verus!
