use vstd::prelude::*;

verus! {

/// The sum of two numbers; it must fit in a `u64`.
pub fn add(left: u64, right: u64) -> (r: u64)
    requires
        left + right <= u64::MAX,
    ensures
        r == left + right,
{
    left + right
}

/// The number five.
pub fn five() -> (r: i32)
    ensures
        r == 5,
{
    5
}

/// `"Hello {name}!"`.
pub fn greeting(name: &str) -> (r: String)
    ensures
        r@ == "Hello "@ + name@ + "!"@,
{
    String::from_str("Hello ").concat(name).concat("!")
}

/// A message of one of four shapes.
pub enum Message {
    Quit,
    Move { x: i32, y: i32 },
    Write(String),
    ChangeColor(i32, i32, i32),
}

impl Message {
    /// Handles the message; every message is accepted and nothing changes.
    pub fn call(&self) {
    }
}

} // verus!
