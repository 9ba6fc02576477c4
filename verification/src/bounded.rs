//! Fixed-capacity buffers from `heapless`, as far as this crate uses them.
//!
//! Nothing here is proved: each contract restates what the `heapless` source
//! does, and the rest of the crate is verified against these contracts.

use vstd::prelude::*;
use vstd::string::StringSliceAdditionalSpecFns;
use crate::ws2812::PulseCode;

verus! {

/// Capacity of a request string, in bytes.
pub const REQUEST_CAPACITY: usize = 256;

/// Capacity of a pulse buffer, in pulses.
pub const PULSE_CAPACITY: usize = 512;

/// `heapless::Vec`: a vector of at most `N` items, stored in place. Its
/// contents are opaque here.
#[verifier::external_type_specification]
#[verifier::external_body]
#[verifier::reject_recursive_types(T)]
pub struct ExBoundedVec<T, const N: usize>(heapless::Vec<T, N>);

/// `heapless::String`: a string of at most `N` bytes, stored in place. Its
/// contents are opaque here.
#[verifier::external_type_specification]
#[verifier::external_body]
pub struct ExBoundedString<const N: usize>(heapless::String<N>);

/// The pulses that a pulse buffer holds, first to last.
pub uninterp spec fn pulse_seq(buf: heapless::Vec<PulseCode, PULSE_CAPACITY>) -> Seq<PulseCode>;

/// `heapless::Vec::new`: a buffer that holds no pulses.
#[verifier::external_body]
pub(crate) fn pulses_new() -> (buf: heapless::Vec<PulseCode, PULSE_CAPACITY>)
    ensures
        pulse_seq(buf) == Seq::<PulseCode>::empty(),
{
    heapless::Vec::new()
}

/// `heapless::Vec::push`: appends `pulse` if the buffer holds fewer pulses
/// than its capacity, and otherwise hands it back and leaves the buffer as it
/// was.
#[verifier::external_body]
pub(crate) fn pulses_push(
    buf: &mut heapless::Vec<PulseCode, PULSE_CAPACITY>,
    pulse: PulseCode,
) -> (r: Result<(), PulseCode>)
    ensures
        r is Ok <==> pulse_seq(*old(buf)).len() < PULSE_CAPACITY,
        r is Ok ==> pulse_seq(*final(buf)) == pulse_seq(*old(buf)).push(pulse),
        r matches Err(back) ==> back == pulse && pulse_seq(*final(buf)) == pulse_seq(*old(buf)),
{
    buf.push(pulse)
}

/// The bytes that a request string holds.
pub uninterp spec fn text_bytes(s: heapless::String<REQUEST_CAPACITY>) -> Seq<u8>;

/// `heapless::String::new`: a string that holds no bytes.
#[verifier::external_body]
pub(crate) fn text_new() -> (s: heapless::String<REQUEST_CAPACITY>)
    ensures
        text_bytes(s) == Seq::<u8>::empty(),
{
    heapless::String::new()
}

/// `heapless::String::push_str`: appends the bytes of `piece` if all of them
/// fit in the capacity, and otherwise fails and leaves the string as it was.
#[verifier::external_body]
pub(crate) fn text_push_str(
    s: &mut heapless::String<REQUEST_CAPACITY>,
    piece: &str,
) -> (r: Result<(), ()>)
    ensures
        r is Ok <==> text_bytes(*old(s)).len() + piece.spec_bytes().len() <= REQUEST_CAPACITY,
        r is Ok ==> text_bytes(*final(s)) == text_bytes(*old(s)) + piece.spec_bytes(),
        r is Err ==> text_bytes(*final(s)) == text_bytes(*old(s)),
{
    s.push_str(piece)
}

} // verus!
