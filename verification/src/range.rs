//! Byte-range resolution.
//!
//! A requested range is resolved against the actual byte length of an
//! object before any read happens.  This is the only place the store
//! validates an out-of-bounds request, so the policy is pinned down
//! exactly: a bounded or offset range whose start lies at or past the
//! end of the object is rejected, a bounded end past the object is
//! clamped, and a suffix request saturates to the whole object.

use vstd::prelude::*;

verus! {

/// A requested byte range, interpreted relative to an object's length.
#[derive(Clone, Copy, Debug, PartialEq, Eq, Structural)]
pub enum ByteRange {
    /// The bytes in `[start, end)`; `end` is clamped to the object's
    /// length, and an inverted request (`end < start`) resolves to the
    /// empty range at `start`.
    Bounded { start: u64, end: u64 },
    /// All bytes from `start` to the end of the object.
    Offset { start: u64 },
    /// The last `n` bytes; saturates to the whole object when `n`
    /// exceeds its length.
    Suffix { n: u64 },
}

/// The error of range resolution: the requested start lies at or past
/// the end of the object.
#[derive(Clone, Copy, Debug, PartialEq, Eq, Structural)]
pub enum InvalidGetRange {
    StartTooLarge { requested: u64, length: u64 },
}

/// What a request resolves to against an object of length `len`:
/// either a half-open interval `(start, end)` with
/// `start <= end <= len`, or `StartTooLarge`.
pub open spec fn spec_resolve(range: Option<ByteRange>, len: u64) -> Result<(u64, u64), InvalidGetRange> {
    match range {
        None => Ok((0u64, len)),
        Some(ByteRange::Bounded { start, end }) => {
            if start >= len {
                Err(InvalidGetRange::StartTooLarge { requested: start, length: len })
            } else {
                let clamped = if end > len { len } else { end };
                let hi = if clamped < start { start } else { clamped };
                Ok((start, hi))
            }
        },
        Some(ByteRange::Offset { start }) => {
            if start >= len {
                Err(InvalidGetRange::StartTooLarge { requested: start, length: len })
            } else {
                Ok((start, len))
            }
        },
        Some(ByteRange::Suffix { n }) => {
            let lo = if n >= len { 0u64 } else { (len - n) as u64 };
            Ok((lo, len))
        },
    }
}

/// Resolve a requested range against an object of `len` bytes.
/// `None` stands for a request without a range and resolves to the
/// whole object.
pub fn resolve_range(range: &Option<ByteRange>, len: u64) -> (r: Result<(u64, u64), InvalidGetRange>)
    ensures
        r == spec_resolve(*range, len),
{
    match range {
        None => Ok((0u64, len)),
        Some(ByteRange::Bounded { start, end }) => {
            let start = *start;
            let end = *end;
            if start >= len {
                Err(InvalidGetRange::StartTooLarge { requested: start, length: len })
            } else {
                let clamped = if end > len { len } else { end };
                let hi = if clamped < start { start } else { clamped };
                Ok((start, hi))
            }
        },
        Some(ByteRange::Offset { start }) => {
            let start = *start;
            if start >= len {
                Err(InvalidGetRange::StartTooLarge { requested: start, length: len })
            } else {
                Ok((start, len))
            }
        },
        Some(ByteRange::Suffix { n }) => {
            let lo = if *n >= len { 0u64 } else { len - *n };
            Ok((lo, len))
        },
    }
}

/// Every successful resolution is a well-formed sub-interval of the
/// object: `start <= end <= len`.
pub proof fn lemma_resolved_within(range: Option<ByteRange>, len: u64)
    requires
        spec_resolve(range, len) is Ok,
    ensures
        spec_resolve(range, len).unwrap().0 <= spec_resolve(range, len).unwrap().1,
        spec_resolve(range, len).unwrap().1 <= len,
{
}

/// A bounded request whose start lies inside the object succeeds, stays
/// inside `[0, len)`, and — unless inverted — has length
/// `min(end, len) - start`.
pub proof fn lemma_bounded_length(start: u64, end: u64, len: u64)
    requires
        start < len,
        start <= end,
    ensures
        ({
            let r = spec_resolve(Some(ByteRange::Bounded { start, end }), len);
            &&& r is Ok
            &&& r.unwrap().0 == start
            &&& r.unwrap().1 <= len
            &&& r.unwrap().1 - r.unwrap().0 == (if end <= len { end - start } else { len - start })
        }),
{
}

/// A bounded or offset request starting at or past the end of the
/// object fails with `StartTooLarge`, carrying the requested start and
/// the object's length.
pub proof fn lemma_start_too_large(range: ByteRange, len: u64)
    requires
        match range {
            ByteRange::Bounded { start, end: _ } => start >= len,
            ByteRange::Offset { start } => start >= len,
            ByteRange::Suffix { n: _ } => false,
        },
    ensures
        ({
            let requested = match range {
                ByteRange::Bounded { start, end: _ } => start,
                ByteRange::Offset { start } => start,
                ByteRange::Suffix { n } => n,
            };
            spec_resolve(Some(range), len) == Result::<(u64, u64), InvalidGetRange>::Err(
                InvalidGetRange::StartTooLarge { requested, length: len },
            )
        }),
{
}

/// A suffix request for at least the whole object saturates to
/// `[0, len)` and never fails.
pub proof fn lemma_suffix_saturates(n: u64, len: u64)
    requires
        n >= len,
    ensures
        spec_resolve(Some(ByteRange::Suffix { n }), len)
            == Result::<(u64, u64), InvalidGetRange>::Ok((0u64, len)),
{
}

/// The policy for an inverted bounded request (`end < start`) whose
/// start is inside the object: it resolves to the empty range at
/// `start` rather than failing.
pub proof fn lemma_inverted_is_empty(start: u64, end: u64, len: u64)
    requires
        start < len,
        end < start,
    ensures
        spec_resolve(Some(ByteRange::Bounded { start, end }), len)
            == Result::<(u64, u64), InvalidGetRange>::Ok((start, start)),
{
}

} // verus!
