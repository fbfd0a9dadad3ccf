use vstd::prelude::*;

verus! {

/// Bounds on the number of items a sequence will still yield: at least
/// the first, at most the second, where that is known.
pub type Hint = (usize, Option<usize>);

/// Whether one upper bound is no greater than another. An unknown bound
/// is greater than every known one.
pub open spec fn upper_le(a: Option<usize>, b: Option<usize>) -> bool {
    match (a, b) {
        (_, None) => true,
        (None, Some(_)) => false,
        (Some(a), Some(b)) => a <= b,
    }
}

/// Whether `lower` is the greatest of the lower bounds.
pub open spec fn is_greatest_lower(hints: Seq<Hint>, lower: usize) -> bool {
    &&& forall|i: int| 0 <= i < hints.len() ==> (#[trigger] hints[i]).0 <= lower
    &&& exists|i: int| 0 <= i < hints.len() && (#[trigger] hints[i]).0 == lower
}

/// Whether `lower` is the least of the lower bounds.
pub open spec fn is_least_lower(hints: Seq<Hint>, lower: usize) -> bool {
    &&& forall|i: int| 0 <= i < hints.len() ==> lower <= (#[trigger] hints[i]).0
    &&& exists|i: int| 0 <= i < hints.len() && (#[trigger] hints[i]).0 == lower
}

/// Whether `upper` is the greatest of the upper bounds.
pub open spec fn is_greatest_upper(hints: Seq<Hint>, upper: Option<usize>) -> bool {
    &&& forall|i: int| 0 <= i < hints.len() ==> upper_le((#[trigger] hints[i]).1, upper)
    &&& exists|i: int| 0 <= i < hints.len() && (#[trigger] hints[i]).1 == upper
}

/// Whether `upper` is the least of the upper bounds.
pub open spec fn is_least_upper(hints: Seq<Hint>, upper: Option<usize>) -> bool {
    &&& forall|i: int| 0 <= i < hints.len() ==> upper_le(upper, (#[trigger] hints[i]).1)
    &&& exists|i: int| 0 <= i < hints.len() && (#[trigger] hints[i]).1 == upper
}

/// Compares two upper bounds.
pub fn upper_is_le(a: Option<usize>, b: Option<usize>) -> (le: bool)
    ensures
        le == upper_le(a, b),
{
    match (a, b) {
        (_, None) => true,
        (None, Some(_)) => false,
        (Some(a), Some(b)) => a <= b,
    }
}

/// The greatest lower and the greatest upper bound of some sequences.
pub fn greatest(hints: &Vec<Hint>) -> (hint: Hint)
    requires
        hints@.len() > 0,
    ensures
        is_greatest_lower(hints@, hint.0),
        is_greatest_upper(hints@, hint.1),
{
    let mut lower: usize = hints[0].0;
    let mut upper: Option<usize> = hints[0].1;
    let mut i: usize = 1;
    assert(hints@.subrange(0, 1)[0] == hints@[0]);
    while i < hints.len()
        invariant
            1 <= i <= hints@.len(),
            is_greatest_lower(hints@.subrange(0, i as int), lower),
            is_greatest_upper(hints@.subrange(0, i as int), upper),
        decreases hints@.len() - i,
    {
        let ghost seen = hints@.subrange(0, i as int);
        let ghost more = hints@.subrange(0, i + 1);
        let ghost at_lower = choose|k: int| 0 <= k < seen.len() && (#[trigger] seen[k]).0 == lower;
        let ghost at_upper = choose|k: int| 0 <= k < seen.len() && (#[trigger] seen[k]).1 == upper;
        assert(forall|k: int| 0 <= k < i ==> more[k] == seen[k]);
        if hints[i].0 > lower {
            lower = hints[i].0;
            assert(more[i as int].0 == lower);
        } else {
            assert(more[at_lower].0 == lower);
        }
        if !upper_is_le(hints[i].1, upper) {
            upper = hints[i].1;
            assert(more[i as int].1 == upper);
        } else {
            assert(more[at_upper].1 == upper);
        }
        assert forall|k: int| 0 <= k < more.len() implies (#[trigger] more[k]).0 <= lower by {
            if k < i {
                assert(seen[k].0 <= lower);
            }
        }
        assert forall|k: int| 0 <= k < more.len() implies upper_le(
            (#[trigger] more[k]).1,
            upper,
        ) by {
            if k < i {
                assert(upper_le(seen[k].1, upper));
            }
        }
        i += 1;
    }
    assert(hints@.subrange(0, i as int) =~= hints@);
    (lower, upper)
}

/// The least lower and the least upper bound of some sequences.
pub fn least(hints: &Vec<Hint>) -> (hint: Hint)
    requires
        hints@.len() > 0,
    ensures
        is_least_lower(hints@, hint.0),
        is_least_upper(hints@, hint.1),
{
    let mut lower: usize = hints[0].0;
    let mut upper: Option<usize> = hints[0].1;
    let mut i: usize = 1;
    assert(hints@.subrange(0, 1)[0] == hints@[0]);
    while i < hints.len()
        invariant
            1 <= i <= hints@.len(),
            is_least_lower(hints@.subrange(0, i as int), lower),
            is_least_upper(hints@.subrange(0, i as int), upper),
        decreases hints@.len() - i,
    {
        let ghost seen = hints@.subrange(0, i as int);
        let ghost more = hints@.subrange(0, i + 1);
        let ghost at_lower = choose|k: int| 0 <= k < seen.len() && (#[trigger] seen[k]).0 == lower;
        let ghost at_upper = choose|k: int| 0 <= k < seen.len() && (#[trigger] seen[k]).1 == upper;
        assert(forall|k: int| 0 <= k < i ==> more[k] == seen[k]);
        if hints[i].0 < lower {
            lower = hints[i].0;
            assert(more[i as int].0 == lower);
        } else {
            assert(more[at_lower].0 == lower);
        }
        if !upper_is_le(upper, hints[i].1) {
            upper = hints[i].1;
            assert(more[i as int].1 == upper);
        } else {
            assert(more[at_upper].1 == upper);
        }
        assert forall|k: int| 0 <= k < more.len() implies lower <= (#[trigger] more[k]).0 by {
            if k < i {
                assert(lower <= seen[k].0);
            }
        }
        assert forall|k: int| 0 <= k < more.len() implies upper_le(
            upper,
            (#[trigger] more[k]).1,
        ) by {
            if k < i {
                assert(upper_le(upper, seen[k].1));
            }
        }
        i += 1;
    }
    assert(hints@.subrange(0, i as int) =~= hints@);
    (lower, upper)
}

} // verus!
