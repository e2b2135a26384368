//! The display text of a vector.

use vstd::prelude::*;
use vstd::string::StringExecFns;

verus! {

/// The text of a vector whose components are written `x`, `y` and `z`: the word `Vector`, then
/// the three components in parentheses, separated by a comma and a space.
pub open spec fn text(x: Seq<char>, y: Seq<char>, z: Seq<char>) -> Seq<char> {
    seq!['V', 'e', 'c', 't', 'o', 'r', '('] + x + seq![',', ' '] + y + seq![',', ' '] + z
        + seq![')']
}

/// Builds the display text of a vector from the texts of its three components.
pub fn format(x: &str, y: &str, z: &str) -> (s: String)
    ensures
        s@ == text(x@, y@, z@),
{
    proof {
        reveal_strlit("Vector(");
        reveal_strlit(", ");
        reveal_strlit(")");
    }
    let mut s: String = String::from_str("Vector(");
    s.append(x);
    s.append(", ");
    s.append(y);
    s.append(", ");
    s.append(z);
    s.append(")");
    assert("Vector("@ =~= seq!['V', 'e', 'c', 't', 'o', 'r', '(']);
    assert(", "@ =~= seq![',', ' ']);
    assert(")"@ =~= seq![')']);
    s
}

} // verus!
