//! Running coupling constants: the discrete asymptotic-freedom criterion.
use vstd::prelude::*;

verus! {

/// One-loop QCD coefficient 33 − 2·n_f, whose sign decides the direction of running.
pub open spec fn qcd_b0_numerator(n_f: int) -> int {
    33 - 2 * n_f
}

/// Returns true if QCD is asymptotically free for the given number of flavors.
///
/// Asymptotic freedom requires 33 − 2n_f > 0, i.e. n_f < 17.
#[must_use]
pub fn is_asymptotically_free(n_f: u8) -> (free: bool)
    ensures
        free == (qcd_b0_numerator(n_f as int) > 0),
        free == (n_f < 17),
{
    n_f < 17
}

} // verus!
