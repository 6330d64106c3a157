use vstd::prelude::*;

use crate::solver::ErrorType;
use core::cmp::Ordering;
use vstd::std_specs::cmp::PartialOrdSpec;

verus! {

/// The largest item, as `Iterator::max_by` with `partial_cmp` picks it: going
/// left to right, a later item replaces the current one unless the current
/// one is greater (so the last of equal maxima wins).
pub open spec fn max_fold<T: PartialOrd>(s: Seq<T>) -> T
    decreases s.len(),
{
    if s.len() <= 1 {
        s[0]
    } else {
        let best = max_fold(s.drop_last());
        if best.partial_cmp_spec(&s.last()) == Some(Ordering::Greater) {
            best
        } else {
            s.last()
        }
    }
}

/// The smallest item, as `Iterator::min_by` with `partial_cmp` picks it: a
/// later item replaces the current one only if the current one is greater
/// (so the first of equal minima wins).
pub open spec fn min_fold<T: PartialOrd>(s: Seq<T>) -> T
    decreases s.len(),
{
    if s.len() <= 1 {
        s[0]
    } else {
        let best = min_fold(s.drop_last());
        if best.partial_cmp_spec(&s.last()) == Some(Ordering::Greater) {
            s.last()
        } else {
            best
        }
    }
}

/// Any two items can be compared (no NaN among temperatures).
pub open spec fn comparable<T: PartialOrd>(s: Seq<T>) -> bool {
    forall|i: int, j: int|
        0 <= i < s.len() && 0 <= j < s.len() ==> (#[trigger] s[i].partial_cmp_spec(
            &#[trigger] s[j],
        )) is Some
}

/// The highest temperature of a non-empty field.
pub fn max_temp<T: PartialOrd + Copy>(items: &Vec<T>) -> (r: T)
    requires
        items@.len() > 0,
        T::obeys_partial_cmp_spec(),
        comparable(items@),
    ensures
        r == max_fold(items@),
{
    let mut best = items[0];
    let mut i: usize = 1;
    while i < items.len()
        invariant
            1 <= i <= items@.len(),
            T::obeys_partial_cmp_spec(),
            best == max_fold(items@.subrange(0, i as int)),
        decreases items@.len() - i,
    {
        let prefix = Ghost(items@.subrange(0, i as int + 1));
        assert(prefix@.drop_last() =~= items@.subrange(0, i as int));
        match best.partial_cmp(&items[i]) {
            Some(Ordering::Greater) => {},
            _ => {
                best = items[i];
            },
        }
        i = i + 1;
    }
    assert(items@.subrange(0, items@.len() as int) =~= items@);
    best
}

/// The lowest temperature of a non-empty field.
pub fn min_temp<T: PartialOrd + Copy>(items: &Vec<T>) -> (r: T)
    requires
        items@.len() > 0,
        T::obeys_partial_cmp_spec(),
        comparable(items@),
    ensures
        r == min_fold(items@),
{
    let mut best = items[0];
    let mut i: usize = 1;
    while i < items.len()
        invariant
            1 <= i <= items@.len(),
            T::obeys_partial_cmp_spec(),
            best == min_fold(items@.subrange(0, i as int)),
        decreases items@.len() - i,
    {
        let prefix = Ghost(items@.subrange(0, i as int + 1));
        assert(prefix@.drop_last() =~= items@.subrange(0, i as int));
        match best.partial_cmp(&items[i]) {
            Some(Ordering::Greater) => {
                best = items[i];
            },
            _ => {},
        }
        i = i + 1;
    }
    assert(items@.subrange(0, items@.len() as int) =~= items@);
    best
}

/// The largest change at any one node between two fields.
#[derive(Clone, Copy, Debug)]
pub struct InfinityNorm;

/// The square root of the sum of the absolute changes. (Not the usual L1
/// norm, which has no square root; kept under this name for the records
/// that carry it.)
#[derive(Clone, Copy, Debug)]
pub struct L1Norm;

/// The square root of the sum of the squared changes.
#[derive(Clone, Copy, Debug)]
pub struct L2Norm;

/// The distances that `distance` gives for each pair of corresponding nodes.
pub open spec fn distances<T, D: Fn(T, T) -> T>(
    distance: D,
    previous: Seq<T>,
    current: Seq<T>,
    ds: Seq<T>,
) -> bool {
    &&& ds.len() == previous.len()
    &&& forall|i: int|
        0 <= i < ds.len() ==> call_ensures(distance, (previous[i], current[i]), #[trigger] ds[i])
}

impl InfinityNorm {
    /// The largest distance between corresponding nodes of two fields of the
    /// same non-empty size; `distance` measures one pair (the absolute
    /// difference) and gives values that can always be compared.
    pub fn calculate_error<T: PartialOrd + Copy, D: Fn(T, T) -> T>(
        &self,
        previous: &Vec<T>,
        current: &Vec<T>,
        distance: &D,
    ) -> (r: T)
        requires
            previous@.len() > 0,
            current@.len() == previous@.len(),
            T::obeys_partial_cmp_spec(),
            forall|a: T, b: T| call_requires(*distance, (a, b)),
            forall|a: T, b: T, c: T, d: T, v: T, w: T|
                call_ensures(*distance, (a, b), v) && call_ensures(*distance, (c, d), w) ==> (
                v.partial_cmp_spec(&w)) is Some,
        ensures
            exists|ds: Seq<T>|
                distances(*distance, previous@, current@, ds) && r == max_fold(ds),
    {
        let mut ds: Vec<T> = Vec::with_capacity(previous.len());
        let mut i: usize = 0;
        while i < previous.len()
            invariant
                i <= previous@.len(),
                current@.len() == previous@.len(),
                forall|a: T, b: T| call_requires(*distance, (a, b)),
                ds@.len() == i,
                forall|j: int|
                    0 <= j < i ==> call_ensures(
                        *distance,
                        (previous@[j], current@[j]),
                        #[trigger] ds@[j],
                    ),
            decreases previous@.len() - i,
        {
            let d = distance(previous[i], current[i]);
            ds.push(d);
            i = i + 1;
        }
        assert(distances(*distance, previous@, current@, ds@));
        assert(comparable(ds@));
        max_temp(&ds)
    }

    pub fn to_error_type(&self) -> (r: ErrorType)
        ensures
            r == ErrorType::InfinityNorm,
    {
        ErrorType::InfinityNorm
    }
}

impl L1Norm {
    pub fn to_error_type(&self) -> (r: ErrorType)
        ensures
            r == ErrorType::L1Norm,
    {
        ErrorType::L1Norm
    }
}

impl L2Norm {
    pub fn to_error_type(&self) -> (r: ErrorType)
        ensures
            r == ErrorType::L2Norm,
    {
        ErrorType::L2Norm
    }
}

proof fn lemma_max_of_uniform<T: PartialOrd>(s: Seq<T>, z: T)
    requires
        s.len() > 0,
        forall|i: int| 0 <= i < s.len() ==> s[i] == z,
    ensures
        max_fold(s) == z,
    decreases s.len(),
{
    if s.len() > 1 {
        lemma_max_of_uniform(s.drop_last(), z);
    }
}

proof fn lemma_max_of_single_peak<T: PartialOrd>(s: Seq<T>, z: T, d: T, k: int)
    requires
        0 <= k < s.len(),
        s[k] == d,
        forall|i: int| 0 <= i < s.len() && i != k ==> s[i] == z,
        z.partial_cmp_spec(&d) == Some(Ordering::Less),
        d.partial_cmp_spec(&z) == Some(Ordering::Greater),
    ensures
        max_fold(s) == d,
    decreases s.len(),
{
    if s.len() == 1 {
    } else if k == s.len() - 1 {
        let p = s.drop_last();
        if p.len() > 0 {
            lemma_max_of_uniform(p, z);
        }
    } else {
        lemma_max_of_single_peak(s.drop_last(), z, d, k);
    }
}

/// The infinity norm of two identical fields is the distance of a value to
/// itself (zero, for the absolute difference).
pub proof fn lemma_infinity_norm_identical<T: PartialOrd, D: Fn(T, T) -> T>(
    distance: D,
    field: Seq<T>,
    ds: Seq<T>,
    zero: T,
)
    requires
        field.len() > 0,
        forall|x: T, v: T| call_ensures(distance, (x, x), v) ==> v == zero,
        distances(distance, field, field, ds),
    ensures
        max_fold(ds) == zero,
{
    assert forall|i: int| 0 <= i < ds.len() implies ds[i] == zero by {
        assert(call_ensures(distance, (field[i], field[i]), ds[i]));
    }
    lemma_max_of_uniform(ds, zero);
}

/// The infinity norm of two fields that differ at a single node `k` is the
/// distance `d` between the two values there, when `d` exceeds the distance
/// of a value to itself.
pub proof fn lemma_infinity_norm_single_change<T: PartialOrd, D: Fn(T, T) -> T>(
    distance: D,
    previous: Seq<T>,
    current: Seq<T>,
    ds: Seq<T>,
    k: int,
    zero: T,
    d: T,
)
    requires
        0 <= k < previous.len(),
        current.len() == previous.len(),
        forall|i: int| 0 <= i < previous.len() && i != k ==> previous[i] == current[i],
        forall|x: T, v: T| call_ensures(distance, (x, x), v) ==> v == zero,
        forall|v: T| call_ensures(distance, (previous[k], current[k]), v) ==> v == d,
        zero.partial_cmp_spec(&d) == Some(Ordering::Less),
        d.partial_cmp_spec(&zero) == Some(Ordering::Greater),
        distances(distance, previous, current, ds),
    ensures
        max_fold(ds) == d,
{
    assert forall|i: int| 0 <= i < ds.len() && i != k implies ds[i] == zero by {
        assert(call_ensures(distance, (previous[i], current[i]), ds[i]));
    }
    assert(call_ensures(distance, (previous[k], current[k]), ds[k]));
    lemma_max_of_single_peak(ds, zero, d, k);
}

} // verus!
