use vstd::prelude::*;

verus! {

/// The view that `longest` picks: the one with more characters, the first
/// on a tie.
pub open spec fn longer_of(x: Seq<char>, y: Seq<char>) -> Seq<char> {
    if x.len() >= y.len() {
        x
    } else {
        y
    }
}

/// Returns the borrowed text with more characters, `x` when both have as
/// many. The result borrows from both inputs, so it may be used only while
/// both are alive.
pub fn longest<'a>(x: &'a str, y: &'a str) -> (r: &'a str)
    ensures
        r@ == longer_of(x@, y@),
{
    if x.unicode_len() >= y.unicode_len() {
        x
    } else {
        y
    }
}

/// A borrowed part of a larger text; it cannot outlive that text.
pub struct ImportantExcerpt<'a> {
    part: &'a str,
}

impl<'a> View for ImportantExcerpt<'a> {
    type V = Seq<char>;

    /// The text that the excerpt holds.
    closed spec fn view(&self) -> Seq<char> {
        self.part@
    }
}

impl<'a> ImportantExcerpt<'a> {
    /// Holds `part` of a text owned elsewhere.
    pub fn new(part: &'a str) -> (r: Self)
        ensures
            r@ == part@,
    {
        ImportantExcerpt { part }
    }

    /// The excerpt's level, the same for every excerpt.
    pub fn level(&self) -> (r: i32)
        ensures
            r == 3,
    {
        3
    }

    /// The held part, borrowed for as long as the text it comes from.
    pub fn part(&self) -> (r: &'a str)
        ensures
            r@ == self@,
    {
        self.part
    }
}

} // verus!
