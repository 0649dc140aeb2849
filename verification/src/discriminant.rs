//! The discriminants of an enum's variants.
//!
//! A variant either declares its discriminant or leaves it out. A declared
//! discriminant is the variant's discriminant. A variant without one gets the
//! discriminant of the variant before it plus one, and zero if it is the
//! first variant.

use vstd::prelude::*;

verus! {

/// The discriminant of variant `i`, where `declared` lists for each variant
/// in order the discriminant it declares, if any.
pub open spec fn effective(declared: Seq<Option<u64>>, i: int) -> int
    recommends
        0 <= i < declared.len(),
    decreases i,
{
    match declared[i] {
        Some(value) => value as int,
        None => if i <= 0 {
            0
        } else {
            effective(declared, i - 1) + 1
        },
    }
}

/// Whether the discriminant of every variant fits in 64 bits.
pub open spec fn representable(declared: Seq<Option<u64>>) -> bool {
    forall|i: int| 0 <= i < declared.len() ==> effective(declared, i) <= u64::MAX
}

/// The discriminants of all variants, in order.
pub open spec fn effective_all(declared: Seq<Option<u64>>) -> Seq<u64>
    recommends
        representable(declared),
{
    Seq::new(declared.len(), |i: int| effective(declared, i) as u64)
}

/// No discriminant is negative. Where all fit in 64 bits, [`effective_all`]
/// lists them unchanged.
pub proof fn lemma_effective_all(declared: Seq<Option<u64>>, i: int)
    requires
        0 <= i < declared.len(),
    ensures
        0 <= effective(declared, i),
        representable(declared) ==> effective_all(declared)[i] == effective(declared, i),
    decreases i,
{
    if i > 0 {
        lemma_effective_all(declared, i - 1);
    }
}

/// The largest of `values`, and zero if there is none.
pub open spec fn biggest(values: Seq<u64>) -> u64
    decreases values.len(),
{
    if values.len() == 0 {
        0
    } else {
        let rest = biggest(values.drop_last());
        if values.last() >= rest {
            values.last()
        } else {
            rest
        }
    }
}

/// The largest of a non-empty sequence is one of its values, and none of its
/// values is larger.
pub proof fn lemma_biggest(values: Seq<u64>)
    requires
        values.len() > 0,
    ensures
        values.contains(biggest(values)),
        forall|i: int| 0 <= i < values.len() ==> values[i] <= biggest(values),
    decreases values.len(),
{
    let front = values.drop_last();
    let last = values.len() - 1;
    if front.len() > 0 {
        lemma_biggest(front);
    }
    let at = if biggest(front) > values.last() {
        choose|k: int| 0 <= k < front.len() && front[k] == biggest(front)
    } else {
        last
    };
    assert(values[at] == biggest(values));
    assert forall|i: int| 0 <= i < values.len() implies values[i] <= biggest(values) by {
        if i < last {
            assert(values[i] == front[i]);
        }
    }
}

/// Works out the discriminant of every variant.
///
/// Returns `None` when a variant without a declared discriminant follows one
/// whose discriminant is `u64::MAX`, so that its own does not fit in 64 bits.
pub fn effective_discriminants(declared: &Vec<Option<u64>>) -> (found: Option<Vec<u64>>)
    ensures
        found is Some <==> representable(declared@),
        found matches Some(values) ==> values@ == effective_all(declared@),
{
    let mut values: Vec<u64> = Vec::with_capacity(declared.len());
    let mut current: Option<u64> = None;
    for i in 0..declared.len()
        invariant
            values@.len() == i,
            forall|j: int| 0 <= j < i ==> values@[j] as int == effective(declared@, j),
            match current {
                Some(value) => i > 0 && value as int == effective(declared@, i - 1),
                None => i == 0,
            },
    {
        let next: u64 = match declared[i] {
            Some(value) => value,
            None => match current {
                Some(previous) => {
                    if previous == u64::MAX {
                        assert(effective(declared@, i as int) > u64::MAX);
                        return None;
                    }
                    previous + 1
                },
                None => 0,
            },
        };
        values.push(next);
        current = Some(next);
    }
    Some(values)
}

/// Finds the largest discriminant. There is none when there is no variant.
pub fn biggest_discriminant(values: &Vec<u64>) -> (found: Option<u64>)
    ensures
        found is Some <==> values@.len() > 0,
        found matches Some(value) ==> value == biggest(values@),
{
    let mut found: Option<u64> = None;
    for i in 0..values.len()
        invariant
            found is Some <==> i > 0,
            found matches Some(value) ==> value == biggest(values@.take(i as int)),
    {
        proof {
            assert(values@.take(i + 1).drop_last() =~= values@.take(i as int));
            if i == 0 {
                assert(biggest(values@.take(0)) == 0);
            }
        }
        let current: u64 = values[i];
        found = match found {
            Some(value) => if current >= value {
                Some(current)
            } else {
                Some(value)
            },
            None => Some(current),
        };
    }
    proof {
        assert(values@.take(values@.len() as int) =~= values@);
    }
    found
}

} // verus!
