use vstd::prelude::*;

verus! {

/// Nanoseconds in one millisecond.
pub const NANOS_PER_MILLI: u128 = 1_000_000;

/// The whole milliseconds of a duration of `nanos` nanoseconds, truncated to
/// 32 bits the way `Duration::as_millis() as u32` truncates.
pub open spec fn spec_millis_u32(nanos: u128) -> u32 {
    ((nanos / NANOS_PER_MILLI) % 0x1_0000_0000) as u32
}

/// Milliseconds of a timeout, as the 32-bit value that C timer APIs take.
pub fn millis_u32(nanos: u128) -> (r: u32)
    ensures
        r == spec_millis_u32(nanos),
{
    ((nanos / NANOS_PER_MILLI) % 0x1_0000_0000) as u32
}

/// A duration of fewer than 2^32 milliseconds becomes its whole
/// milliseconds: at most the duration, and less than a millisecond short.
pub proof fn lemma_millis_bracket(nanos: u128)
    requires
        nanos < 0x1_0000_0000 * 1_000_000,
    ensures
        spec_millis_u32(nanos) * 1_000_000 <= nanos < (spec_millis_u32(nanos) + 1) * 1_000_000,
{
    let q: int = nanos as int / 1_000_000;
    assert(q * 1_000_000 <= nanos < (q + 1) * 1_000_000) by (nonlinear_arith)
        requires
            q == nanos as int / 1_000_000,
            nanos >= 0,
    ;
    assert(q < 0x1_0000_0000);
    assert(q % 0x1_0000_0000 == q);
    assert(spec_millis_u32(nanos) == q);
}

} // verus!
