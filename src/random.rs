use vstd::prelude::*;

verus! {

/// The random source used for one request: a handle on the thread-local generator.
#[verifier::external_type_specification]
#[verifier::external_body]
pub struct ExThreadRng(rand::rngs::ThreadRng);

/// Relies on `rand::rng`: hands out a handle on the thread-local generator.
/// Nothing is promised of the values it will produce.
pub assume_specification[ rand::rng ]() -> rand::rngs::ThreadRng;

/// An inclusive interval of integers.
#[derive(Debug, Clone, Copy, PartialEq, Eq, Structural)]
pub struct Range {
    pub min: i32,
    pub max: i32,
}

impl Range {
    /// A range is valid when it holds at least one value.
    pub open spec fn wf(self) -> bool {
        self.min <= self.max
    }

    /// Whether `v` lies inside the range, both ends included.
    pub open spec fn contains(self, v: int) -> bool {
        self.min <= v <= self.max
    }
}

/// Relies on `rand::Rng::random_range` over an inclusive range of `i32`: the value
/// lies between both ends. The call panics on an empty range, which `requires`
/// leaves out.
#[verifier::external_body]
fn random_inclusive(rng: &mut rand::rngs::ThreadRng, min: i32, max: i32) -> (r: i32)
    requires
        min <= max,
    ensures
        min <= r <= max,
{
    rand::Rng::random_range(rng, min..=max)
}

/// Draws a value uniformly from `range`, both ends included.
pub fn get_random_from_range(rng: &mut rand::rngs::ThreadRng, range: Range) -> (r: i32)
    requires
        range.wf(),
    ensures
        range.contains(r as int),
{
    random_inclusive(rng, range.min, range.max)
}

} // verus!
