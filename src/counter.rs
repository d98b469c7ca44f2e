use vstd::prelude::*;

verus! {

/// A one-byte counter account.
#[derive(Clone, Copy, Debug, PartialEq, Eq)]
pub struct Tokenlottery {
    pub count: u8,
}

/// A new counter, at zero.
pub fn initialize() -> (r: Tokenlottery)
    ensures
        r.count == 0,
{
    Tokenlottery { count: 0 }
}

/// Closes the counter account; its value is dropped.
pub fn close(_counter: Tokenlottery) {
}

/// Counts one down.
pub fn decrement(counter: &mut Tokenlottery)
    requires
        old(counter).count > 0,
    ensures
        final(counter).count == old(counter).count - 1,
{
    counter.count = counter.count - 1;
}

/// Counts one up.
pub fn increment(counter: &mut Tokenlottery)
    requires
        old(counter).count < 255,
    ensures
        final(counter).count == old(counter).count + 1,
{
    counter.count = counter.count + 1;
}

/// Sets the counter to `value`.
pub fn set(counter: &mut Tokenlottery, value: u8)
    ensures
        final(counter).count == value,
{
    counter.count = value;
}

} // verus!
