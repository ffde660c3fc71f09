//! The largest element of a slice, for any element type that can be compared and copied.
//!
//! [`largest`] keeps a running maximum and replaces it only by a strictly greater
//! element, so among equal maxima the first one wins. The contract names the element it
//! returns by position, through [`leader`]; [`lemma_leader_is_first_maximum`] shows that
//! under a total order this is the first occurrence of the maximum.

use std::cmp::Ordering;
use vstd::prelude::*;
use vstd::std_specs::cmp::PartialOrdSpec;

verus! {

/// The failure of asking for the largest element of nothing.
#[derive(Debug, Clone, Copy, PartialEq, Eq, Structural)]
pub struct EmptyInputError;

/// Holds when the comparison operators on `T` have a stated meaning, so that `>` in
/// executable code is known to agree with [`exceeds`]. The machine integers are such
/// types.
pub open spec fn has_specified_order<T: PartialOrd>() -> bool {
    T::obeys_partial_cmp_spec()
}

/// Holds when `a > b` in the order of `T`.
pub open spec fn exceeds<T: PartialOrd>(a: T, b: T) -> bool {
    a.partial_cmp_spec(&b) == Some(Ordering::Greater)
}

/// Holds when `>` on `T` is a strict total order: any two values are equal or one
/// exceeds the other, never both, and the relation is transitive.
pub open spec fn is_strict_total_order<T: PartialOrd>() -> bool {
    &&& forall|a: T, b: T| #[trigger] exceeds(a, b) ==> a != b && !exceeds(b, a)
    &&& forall|a: T, b: T| a != b ==> #[trigger] exceeds(a, b) || exceeds(b, a)
    &&& forall|a: T, b: T, c: T| #[trigger]
        exceeds(a, b) && #[trigger] exceeds(b, c) ==> exceeds(a, c)
}

/// The position of the element that a left-to-right scan settles on: it starts at
/// position 0 and moves to a later position only where that element exceeds the one
/// held so far. For an empty sequence this is 0.
pub open spec fn leader<T: PartialOrd>(s: Seq<T>) -> int
    decreases s.len(),
{
    if s.len() <= 1 {
        0
    } else {
        let held = leader(s.drop_last());
        if exceeds(s.last(), s[held]) {
            s.len() - 1
        } else {
            held
        }
    }
}

/// The leader is a position of the sequence.
pub proof fn lemma_leader_in_bounds<T: PartialOrd>(s: Seq<T>)
    requires
        s.len() > 0,
    ensures
        0 <= leader(s) < s.len(),
    decreases s.len(),
{
    if s.len() > 1 {
        lemma_leader_in_bounds(s.drop_last());
    }
}

/// Under a strict total order the leader is the first occurrence of the maximum: no
/// element exceeds it, and it exceeds every element before it.
pub proof fn lemma_leader_is_first_maximum<T: PartialOrd>(s: Seq<T>)
    requires
        s.len() > 0,
        is_strict_total_order::<T>(),
    ensures
        0 <= leader(s) < s.len(),
        forall|j: int| 0 <= j < s.len() ==> !exceeds(#[trigger] s[j], s[leader(s)]),
        forall|j: int| 0 <= j < leader(s) ==> exceeds(s[leader(s)], #[trigger] s[j]),
    decreases s.len(),
{
    lemma_leader_in_bounds(s);
    if s.len() > 1 {
        let front = s.drop_last();
        lemma_leader_is_first_maximum(front);
        let held = leader(front);
        let top = leader(s);
        assert forall|j: int| 0 <= j < s.len() implies !exceeds(#[trigger] s[j], s[top]) by {
            if j < s.len() - 1 {
                assert(front[j] == s[j]);
                assert(!exceeds(front[j], front[held]));
            }
        }
        assert forall|j: int| 0 <= j < top implies exceeds(s[top], #[trigger] s[j]) by {
            assert(front[j] == s[j]);
            if top != held {
                assert(!exceeds(front[j], front[held]));
            }
        }
    }
}

/// The machine integers have a stated order, and it is a strict total order: on
/// slices of them [`largest`] returns the first occurrence of the maximum.
pub proof fn lemma_integers_are_totally_ordered()
    ensures
        has_specified_order::<u8>() && is_strict_total_order::<u8>(),
        has_specified_order::<u16>() && is_strict_total_order::<u16>(),
        has_specified_order::<u32>() && is_strict_total_order::<u32>(),
        has_specified_order::<u64>() && is_strict_total_order::<u64>(),
        has_specified_order::<u128>() && is_strict_total_order::<u128>(),
        has_specified_order::<usize>() && is_strict_total_order::<usize>(),
        has_specified_order::<i8>() && is_strict_total_order::<i8>(),
        has_specified_order::<i16>() && is_strict_total_order::<i16>(),
        has_specified_order::<i32>() && is_strict_total_order::<i32>(),
        has_specified_order::<i64>() && is_strict_total_order::<i64>(),
        has_specified_order::<i128>() && is_strict_total_order::<i128>(),
        has_specified_order::<isize>() && is_strict_total_order::<isize>(),
{
}

/// The largest element of `list`, as a copy.
///
/// Fails on an empty slice, and only then. Otherwise the result is an element of
/// `list`; where the order of `T` is specified it is the one at position [`leader`],
/// which for a total order is the first occurrence of the maximum.
pub fn largest<T: PartialOrd + Copy>(list: &[T]) -> (result: Result<T, EmptyInputError>)
    ensures
        list@.len() == 0 <==> result == Err::<T, EmptyInputError>(EmptyInputError),
        result matches Ok(found) ==> exists|k: int| 0 <= k < list@.len() && list@[k] == found,
        has_specified_order::<T>() && list@.len() > 0 ==> result == Ok::<T, EmptyInputError>(
            list@[leader(list@)],
        ),
{
    if list.len() == 0 {
        return Err(EmptyInputError);
    }
    let mut largest = list[0];
    let ghost mut held: int = 0;
    let mut i: usize = 1;
    while i < list.len()
        invariant
            1 <= i <= list.len(),
            0 <= held < i,
            largest == list@[held],
            has_specified_order::<T>() ==> held == leader(list@.take(i as int)),
        decreases list.len() - i,
    {
        let item = list[i];
        proof {
            assert(list@.take(i + 1).drop_last() =~= list@.take(i as int));
        }
        if item > largest {
            largest = item;
            proof {
                held = i as int;
            }
        }
        i += 1;
    }
    proof {
        assert(list@.take(i as int) =~= list@);
    }
    Ok(largest)
}

} // verus!
