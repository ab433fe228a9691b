//! The verdict of a detector: the disjunction of its checks.

use vstd::prelude::*;

verus! {

/// At least one of `checks` is positive.
pub open spec fn any_true(checks: Seq<bool>) -> bool {
    exists|i: int| 0 <= i < checks.len() && checks[i]
}

/// A verdict is negative exactly when every check is negative, and a verdict
/// over no check at all is negative.
pub proof fn law_verdict_negative_iff_all_negative(checks: Seq<bool>)
    ensures
        !any_true(checks) <==> forall|i: int| 0 <= i < checks.len() ==> !checks[i],
        checks.len() == 0 ==> !any_true(checks),
{
}

/// Evidence only adds: where every check that was positive stays positive, a
/// positive verdict stays positive.
pub proof fn law_verdict_monotone(before: Seq<bool>, after: Seq<bool>)
    requires
        before.len() == after.len(),
        forall|i: int| 0 <= i < before.len() && before[i] ==> after[i],
    ensures
        any_true(before) ==> any_true(after),
{
    if any_true(before) {
        let i = choose|i: int| 0 <= i < before.len() && before[i];
        assert(after[i]);
    }
}

} // verus!
