use vstd::prelude::*;
use vstd::std_specs::cmp::PartialOrdSpec;

verus! {

/// Index of the running best after a left-to-right scan of `s[0..n]`: the scan
/// starts at the first element and moves on only to a strictly greater one.
pub open spec fn best_int(s: Seq<i32>, n: nat) -> int
    decreases n,
{
    if n <= 1 {
        0
    } else {
        let b = best_int(s, (n - 1) as nat);
        if s[n - 1] > s[b] {
            n - 1
        } else {
            b
        }
    }
}

/// The same scan over characters, ordered by code point.
pub open spec fn best_char(s: Seq<char>, n: nat) -> int
    decreases n,
{
    if n <= 1 {
        0
    } else {
        let b = best_char(s, (n - 1) as nat);
        if s[n - 1] > s[b] {
            n - 1
        } else {
            b
        }
    }
}

/// The same scan under an order capability: a later element replaces the
/// running best only when it compares strictly greater.
pub open spec fn best_index<T: PartialOrd>(s: Seq<T>, n: nat) -> int
    decreases n,
{
    if n <= 1 {
        0
    } else {
        let b = best_index(s, (n - 1) as nat);
        if s[n - 1].partial_cmp_spec(&s[b]) == Some(core::cmp::Ordering::Greater) {
            n - 1
        } else {
            b
        }
    }
}

/// `i` holds the first occurrence of the maximum of `s[0..n]`.
pub open spec fn is_first_max_i32(s: Seq<i32>, n: int, i: int) -> bool {
    &&& 0 <= i < n
    &&& forall|j: int| 0 <= j < n ==> s[j] <= s[i]
    &&& forall|j: int| 0 <= j < i ==> s[j] < s[i]
}

/// `i` holds the first occurrence of the greatest character of `s[0..n]`.
pub open spec fn is_first_max_char(s: Seq<char>, n: int, i: int) -> bool {
    &&& 0 <= i < n
    &&& forall|j: int| 0 <= j < n ==> s[j] <= s[i]
    &&& forall|j: int| 0 <= j < i ==> s[j] < s[i]
}

/// Returns the greatest number of a non-empty slice; among equal maxima the
/// first one.
pub fn largest_i32(list: &[i32]) -> (r: &i32)
    requires
        list@.len() > 0,
    ensures
        *r == list@[best_int(list@, list@.len())],
        is_first_max_i32(list@, list@.len() as int, best_int(list@, list@.len())),
{
    let mut best: usize = 0;
    let mut i: usize = 1;
    while i < list.len()
        invariant
            1 <= i <= list@.len(),
            best as int == best_int(list@, i as nat),
            is_first_max_i32(list@, i as int, best as int),
        decreases list@.len() - i,
    {
        if list[i] > list[best] {
            best = i;
        }
        i = i + 1;
    }
    &list[best]
}

/// Returns the greatest character of a non-empty slice; among equal maxima
/// the first one.
pub fn largest_char(list: &[char]) -> (r: &char)
    requires
        list@.len() > 0,
    ensures
        *r == list@[best_char(list@, list@.len())],
        is_first_max_char(list@, list@.len() as int, best_char(list@, list@.len())),
{
    let mut best: usize = 0;
    let mut i: usize = 1;
    while i < list.len()
        invariant
            1 <= i <= list@.len(),
            best as int == best_char(list@, i as nat),
            is_first_max_char(list@, i as int, best as int),
        decreases list@.len() - i,
    {
        if list[i] > list[best] {
            best = i;
        }
        i = i + 1;
    }
    &list[best]
}

/// Returns the element of a non-empty slice that a single scan under `T`'s
/// order keeps: the first element, replaced only by a strictly greater one.
/// Where `T`'s comparisons follow its specified order, that element is named
/// exactly; where the order ranks its values, it is also the first of the
/// greatest.
pub fn largest<T: PartialOrd>(list: &[T]) -> (r: &T)
    requires
        list@.len() > 0,
    ensures
        exists|i: int| 0 <= i < list@.len() && *r == list@[i],
        T::obeys_partial_cmp_spec() ==> *r == list@[best_index(list@, list@.len())],
        T::obeys_partial_cmp_spec() && ranks_values::<T>() ==> is_first_greatest(
            list@,
            list@.len() as int,
            best_index(list@, list@.len()),
        ),
{
    let mut best: usize = 0;
    let mut i: usize = 1;
    while i < list.len()
        invariant
            1 <= i <= list@.len(),
            0 <= best < i,
            T::obeys_partial_cmp_spec() ==> best as int == best_index(list@, i as nat),
        decreases list@.len() - i,
    {
        if list[i] > list[best] {
            best = i;
        }
        i = i + 1;
    }
    proof {
        if T::obeys_partial_cmp_spec() && ranks_values::<T>() {
            lemma_largest_first_greatest(list@);
        }
    }
    &list[best]
}

/// `a` compares strictly greater than `b` under `T`'s order.
pub open spec fn greater<T: PartialOrd>(a: T, b: T) -> bool {
    a.partial_cmp_spec(&b) == Some(core::cmp::Ordering::Greater)
}

/// `T`'s order ranks its values: "greater" is asymmetric, and "not greater"
/// is transitive (a strict weak order, as integers and characters have).
pub open spec fn ranks_values<T: PartialOrd>() -> bool {
    &&& forall|a: T, b: T| #[trigger] greater(a, b) ==> !greater(b, a)
    &&& forall|a: T, b: T, c: T|
        !#[trigger] greater(a, b) && !#[trigger] greater(b, c) ==> !greater(a, c)
}

/// `i` holds the first element of `s[0..n]` that no element exceeds.
pub open spec fn is_first_greatest<T: PartialOrd>(s: Seq<T>, n: int, i: int) -> bool {
    &&& 0 <= i < n
    &&& forall|j: int| 0 <= j < n ==> !greater(#[trigger] s[j], s[i])
    &&& forall|j: int| 0 <= j < i ==> greater(s[i], #[trigger] s[j])
}

/// Under an order that ranks its values, the element that `largest` keeps is
/// at least every element of the slice, and it is the first among equal
/// maxima.
pub proof fn lemma_largest_first_greatest<T: PartialOrd>(s: Seq<T>)
    requires
        s.len() > 0,
        ranks_values::<T>(),
    ensures
        is_first_greatest(s, s.len() as int, best_index(s, s.len())),
{
    lemma_best_index_prefix(s, s.len());
}

proof fn lemma_best_index_prefix<T: PartialOrd>(s: Seq<T>, n: nat)
    requires
        1 <= n <= s.len(),
        ranks_values::<T>(),
    ensures
        is_first_greatest(s, n as int, best_index(s, n)),
    decreases n,
{
    if n > 1 {
        lemma_best_index_prefix(s, (n - 1) as nat);
        let b = best_index(s, (n - 1) as nat);
        let c = s[n - 1];
        if greater(c, s[b]) {
            assert forall|j: int| 0 <= j < n - 1 implies greater(c, #[trigger] s[j]) by {
                if !greater(c, s[j]) {
                    assert(!greater(s[j], s[b]));
                }
            }
            assert(!greater(c, c));
        }
    }
}

} // verus!
