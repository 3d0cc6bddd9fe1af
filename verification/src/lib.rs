//! The verified core of a thin adapter over a kernel-provided randomness
//! source.
//!
//! The kernel exposes a shared entropy pool; a collaborating pool library
//! maps that pool into the process and hands out per-consumer local views,
//! whose `fill` call overwrites a caller-supplied buffer with random bytes or
//! fails with a typed error. The adapter derives 32-bit and 64-bit unsigned
//! integers by filling a 4-byte or 8-byte buffer and reading it as a
//! little-endian integer — the byte order is a binary-compatibility contract
//! — and it surfaces every failure to its caller unchanged, with no retry and
//! no fallback.
//!
//! This crate holds the part of the adapter that decides and computes: given
//! the outcome of a fill, what integer comes out, and what error; and the one
//! fixed placeholder under which a handle may be printed, so that no buffer
//! contents, offsets or addresses can leak through its printable form. The
//! pool library itself, the process-wide one-time pool initialization, and
//! the handle that carries a local view are the embedding program's side: it
//! performs the fill and hands the outcome to these functions. The functions
//! are generic in the collaborator's error type, so that passing an error
//! through unchanged is proved for every such type.

use vstd::prelude::*;

verus! {

// ---------------------------------------------------------------------------
// What the integer derivations make of a fill outcome.
// ---------------------------------------------------------------------------

/// What deriving a 32-bit integer makes of a fill outcome: on success the
/// little-endian reading of the filled bytes, on failure the error unchanged.
pub open spec fn spec_next_u32<E>(outcome: Result<Seq<u8>, E>) -> Result<u32, E> {
    match outcome {
        Ok(b) => Ok(vstd::bytes::spec_u32_from_le_bytes(b)),
        Err(e) => Err(e),
    }
}

/// What deriving a 64-bit integer makes of a fill outcome: on success the
/// little-endian reading of the filled bytes, on failure the error unchanged.
pub open spec fn spec_next_u64<E>(outcome: Result<Seq<u8>, E>) -> Result<u64, E> {
    match outcome {
        Ok(b) => Ok(vstd::bytes::spec_u64_from_le_bytes(b)),
        Err(e) => Err(e),
    }
}

/// The outcome of filling a 4-byte buffer, with the bytes as a sequence.
pub open spec fn fill_view32<E>(outcome: Result<[u8; 4], E>) -> Result<Seq<u8>, E> {
    match outcome {
        Ok(b) => Ok(b@),
        Err(e) => Err(e),
    }
}

/// The outcome of filling an 8-byte buffer, with the bytes as a sequence.
pub open spec fn fill_view64<E>(outcome: Result<[u8; 8], E>) -> Result<Seq<u8>, E> {
    match outcome {
        Ok(b) => Ok(b@),
        Err(e) => Err(e),
    }
}

/// Turn the outcome of filling a 4-byte buffer into the 32-bit result: a
/// successful fill is read as a little-endian integer, a failure is passed
/// through unchanged.
pub fn u32_from_fill<E>(outcome: Result<[u8; 4], E>) -> (r: Result<u32, E>)
    ensures
        r == spec_next_u32(fill_view32(outcome)),
{
    match outcome {
        Ok(buf) => Ok(vstd::bytes::u32_from_le_bytes(buf.as_slice())),
        Err(e) => Err(e),
    }
}

/// Turn the outcome of filling an 8-byte buffer into the 64-bit result: a
/// successful fill is read as a little-endian integer, a failure is passed
/// through unchanged.
pub fn u64_from_fill<E>(outcome: Result<[u8; 8], E>) -> (r: Result<u64, E>)
    ensures
        r == spec_next_u64(fill_view64(outcome)),
{
    match outcome {
        Ok(buf) => Ok(vstd::bytes::u64_from_le_bytes(buf.as_slice())),
        Err(e) => Err(e),
    }
}

// ---------------------------------------------------------------------------
// The printable form of a handle.
// ---------------------------------------------------------------------------

/// The one printable form every handle has.
pub open spec fn spec_debug_repr() -> Seq<char> {
    "VdsoRng { .. }"@
}

/// The fixed placeholder under which a handle is printed. It depends on
/// nothing — not the handle's state, not its call history — so no buffer
/// contents, offsets or addresses can leak through the printable form.
pub fn debug_repr() -> (r: String)
    ensures
        r@ == spec_debug_repr(),
{
    "VdsoRng { .. }".to_owned()
}

// ---------------------------------------------------------------------------
// Laws.
// ---------------------------------------------------------------------------

/// A fill failure propagates unchanged through both integer derivations:
/// whatever the error and its type, it is neither swallowed nor replaced.
pub proof fn lemma_fill_error_propagates<E>(e: E)
    ensures
        spec_next_u32::<E>(Err(e)) == Result::<u32, E>::Err(e),
        spec_next_u64::<E>(Err(e)) == Result::<u64, E>::Err(e),
{
}

/// Deriving an integer from a successful fill is exactly the little-endian
/// reading of the filled bytes: 4 bytes for the 32-bit derivation, 8 for the
/// 64-bit one.
pub proof fn lemma_next_is_le_of_fill<E>(b4: Seq<u8>, b8: Seq<u8>)
    requires
        b4.len() == 4,
        b8.len() == 8,
    ensures
        spec_next_u32::<E>(Ok(b4)) == Result::<u32, E>::Ok(
            vstd::bytes::spec_u32_from_le_bytes(b4),
        ),
        spec_next_u64::<E>(Ok(b8)) == Result::<u64, E>::Ok(
            vstd::bytes::spec_u64_from_le_bytes(b8),
        ),
{
}

} // verus!
