//! The wire format of the notifications that the kernel sends: a compact
//! binary encoding of a closed set of message kinds, written by `postcard`.

use crate::types::{KernelError, KernelMessage};
use vstd::prelude::*;

verus! {

/// The error type of `postcard`. It is carried from the serializer to
/// `encoded` and never looked into.
#[verifier::external_type_specification]
#[verifier::external_body]
pub struct ExPostcardError(postcard::Error);

/// The number that stands for the kind of a notification on the wire.
pub open spec fn kind_of(msg: KernelMessage) -> u32 {
    match msg {
        KernelMessage::IRQFired(_) => 0,
    }
}

/// The bytes of a notification on the wire: the number of its kind, then
/// what it carries.
pub open spec fn wire_format(msg: KernelMessage) -> Seq<u8> {
    match msg {
        KernelMessage::IRQFired(irq) => seq![kind_of(msg) as u8, irq],
    }
}

/// Serializes the pair `(tag, value)` with `postcard::to_allocvec`.
///
/// Trusted, not proved: postcard writes a tuple as its fields in order, a
/// `u32` as a variable-length integer, which for a value below 128 is the
/// one byte of that value, and a `u8` as itself. So the output is the tag's
/// byte followed by `value`. The call succeeds: it writes into a growing
/// vector, whose three operations never report an error, and no other step
/// on the way of a pair of integers can fail.
#[verifier::external_body]
fn postcard_pair(tag: u32, value: u8) -> (r: Result<Vec<u8>, postcard::Error>)
    requires
        tag < 128,
    ensures
        r is Ok,
        r matches Ok(bytes) ==> bytes@ == seq![tag as u8, value],
{
    postcard::to_allocvec(&(tag, value))
}

/// Turns what the serializer returned into the encoder's result: the bytes
/// as they are, or `EncodingFailed` whatever the serializer's error was.
pub fn encoded(result: Result<Vec<u8>, postcard::Error>) -> (r: Result<Vec<u8>, KernelError>)
    ensures
        match result {
            Ok(bytes) => r == Ok::<Vec<u8>, KernelError>(bytes),
            Err(_) => r == Err::<Vec<u8>, KernelError>(KernelError::EncodingFailed),
        },
{
    match result {
        Ok(bytes) => Ok(bytes),
        Err(_) => Err(KernelError::EncodingFailed),
    }
}

/// Encodes a notification for the wire: the result is always `Ok`, and its
/// bytes are those of `wire_format`.
pub fn encode(msg: &KernelMessage) -> (r: Result<Vec<u8>, KernelError>)
    ensures
        r is Ok,
        r matches Ok(bytes) ==> bytes@ == wire_format(*msg),
{
    match msg {
        KernelMessage::IRQFired(irq) => encoded(postcard_pair(0, *irq)),
    }
}

/// Whether `payload` is the encoding of notification `msg`.
pub fn is_encoding_of(payload: &[u8], msg: &KernelMessage) -> (same: bool)
    ensures
        same == (payload@ == wire_format(*msg)),
{
    match msg {
        KernelMessage::IRQFired(irq) => {
            let same: bool = payload.len() == 2 && payload[0] == 0 && payload[1] == *irq;
            proof {
                if same {
                    assert(payload@ =~= wire_format(*msg));
                }
            }
            same
        },
    }
}

} // verus!
