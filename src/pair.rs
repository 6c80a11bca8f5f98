use vstd::prelude::*;
use vstd::std_specs::cmp::PartialOrdSpec;
use vstd::string::to_string_from_display_ensures;

verus! {

/// Two values of one type.
pub struct Pair<T> {
    pub x: T,
    pub y: T,
}

impl<T> Pair<T> {
    /// Builds a pair from its two members; available for every `T`.
    pub fn new(x: T, y: T) -> (r: Self)
        ensures
            r.x == x,
            r.y == y,
    {
        Self { x, y }
    }
}

/// `x` ranks at least as high as `y` under `T`'s order.
pub open spec fn x_at_least_y<T: PartialOrd>(p: &Pair<T>) -> bool {
    p.x.partial_cmp_spec(&p.y) matches Some(core::cmp::Ordering::Greater | core::cmp::Ordering::Equal)
}

/// `r` announces `x` as the largest member, with some rendering of `x`.
pub open spec fn announces_x<T: std::fmt::Display>(p: &Pair<T>, r: Seq<char>) -> bool {
    exists|s: String|
        to_string_from_display_ensures::<T>(&p.x, s) && r == "The largest member is x = "@ + s@
}

/// `r` announces `y` as the largest member, with some rendering of `y`.
pub open spec fn announces_y<T: std::fmt::Display>(p: &Pair<T>, r: Seq<char>) -> bool {
    exists|s: String|
        to_string_from_display_ensures::<T>(&p.y, s) && r == "The largest member is y = "@ + s@
}

impl<T: std::fmt::Display + PartialOrd> Pair<T> {
    /// Names the larger member and renders it; offered only where `T` can be
    /// both ordered and rendered. A tie names `x`.
    pub fn cmp_display(&self) -> (r: String)
        ensures
            T::obeys_partial_cmp_spec() ==> (if x_at_least_y(self) {
                announces_x(self, r@)
            } else {
                announces_y(self, r@)
            }),
    {
        if self.x >= self.y {
            let s = self.x.to_string();
            String::from_str("The largest member is x = ").concat(s.as_str())
        } else {
            let s = self.y.to_string();
            String::from_str("The largest member is y = ").concat(s.as_str())
        }
    }
}

/// A point whose coordinates share one type.
pub struct Point_1<T> {
    pub x: T,
    pub y: T,
}

impl<T> Point_1<T> {
    /// The first coordinate.
    pub fn x(&self) -> (r: &T)
        ensures
            *r == self.x,
    {
        &self.x
    }
}

/// A point whose coordinates may differ in type.
pub struct Point_2<T, U> {
    pub x: T,
    pub y: U,
}

} // verus!
