//! What is said on the way out when something is broken beyond repair.
//!
//! A broken invariant is no error to hand to a caller. The host's handler
//! writes one line to the emergency log and stops the machine; this module
//! makes the line.

use vstd::prelude::*;
use vstd::string::StringExecFns;

verus! {

/// The text of the line for a fault: its description and the end of the line.
pub open spec fn emergency_text(description: Seq<char>) -> Seq<char> {
    description.push('\n')
}

/// Makes the one line that is logged for a fault, from its description.
pub fn emergency_line(description: &str) -> (line: String)
    ensures
        line@ == emergency_text(description@),
{
    proof {
        reveal_strlit("\n");
    }
    String::from_str(description).concat("\n")
}

} // verus!
