//! The probe policy shared by encoder and decoder selection: walk an ordered
//! candidate list against the media layer's availability answers and take the
//! first candidate that is available.

use vstd::prelude::*;

verus! {

/// The first candidate marked available, walking both lists in step.
pub open spec fn spec_first_available<T>(candidates: Seq<T>, available: Seq<bool>) -> Option<T>
    decreases candidates.len(),
{
    if candidates.len() == 0 || available.len() == 0 {
        None
    } else if available[0] {
        Some(candidates[0])
    } else {
        spec_first_available(candidates.skip(1), available.skip(1))
    }
}

/// Walk the ordered candidate list: `available[i]` answers whether probing
/// `candidates[i]` succeeded, and the first available candidate wins.
pub fn first_available<T: Copy>(candidates: &Vec<T>, available: &Vec<bool>) -> (r: Option<T>)
    requires
        candidates@.len() == available@.len(),
    ensures
        r == spec_first_available(candidates@, available@),
{
    let n = candidates.len();
    let mut i: usize = 0;
    proof {
        assert(candidates@.skip(0) =~= candidates@);
        assert(available@.skip(0) =~= available@);
    }
    while i < n
        invariant
            candidates@.len() == available@.len(),
            n == candidates@.len(),
            i <= n,
            spec_first_available(candidates@, available@) == spec_first_available(
                candidates@.skip(i as int),
                available@.skip(i as int),
            ),
        decreases n - i,
    {
        if available[i] {
            assert(candidates@.skip(i as int)[0] == candidates@[i as int]);
            return Some(candidates[i]);
        }
        proof {
            assert(candidates@.skip(i as int).skip(1) =~= candidates@.skip(i as int + 1));
            assert(available@.skip(i as int).skip(1) =~= available@.skip(i as int + 1));
        }
        i = i + 1;
    }
    None
}

} // verus!
