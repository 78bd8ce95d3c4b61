//! The byte-level encoding of message inputs and outputs.
//!
//! The dispatcher never looks inside an encoded value. It only needs, for
//! every input type, a way to read a value from bytes, and for every output
//! type a way to turn a value into bytes. The two traits below state that
//! interface together with the mathematical function each operation computes,
//! so that contracts elsewhere can speak of "the bytes that encode `x`" and of
//! "the value that `bytes` decode to".
//!
//! The types that the dispatcher itself relies on (the unit type and `u32`)
//! are encoded by `parity_codec`.
use vstd::prelude::*;

verus! {

/// Types that can be turned into bytes.
pub trait Encode {
    /// The bytes that encode `self`.
    ///
    /// Verified implementations define it; implementations outside the
    /// verifier's view may leave it as it is.
    open spec fn encoded(&self) -> Seq<u8> {
        arbitrary()
    }

    /// Encodes `self`.
    fn encode(&self) -> (bytes: Vec<u8>)
        ensures
            bytes@ == self.encoded(),
    ;
}

/// Types that can be read from bytes.
pub trait Decode: Sized {
    /// The value that `bytes` decode to, or `None` where they do not decode.
    ///
    /// Verified implementations define it; implementations outside the
    /// verifier's view may leave it as it is.
    open spec fn decoded(bytes: Seq<u8>) -> Option<Self> {
        arbitrary()
    }

    /// Decodes a value from the front of `bytes`.
    fn decode(bytes: &[u8]) -> (value: Option<Self>)
        ensures
            value == Self::decoded(bytes@),
    ;
}

/// The number that four bytes hold in little-endian order.
pub open spec fn u32_from_le(bytes: Seq<u8>) -> u32
    recommends
        bytes.len() == 4,
{
    (bytes[0] + bytes[1] * 0x100 + bytes[2] * 0x1_0000 + bytes[3] * 0x100_0000) as u32
}

/// The four bytes of `value`, least significant first.
pub open spec fn u32_to_le(value: u32) -> Seq<u8> {
    seq![
        (value % 0x100) as u8,
        (value / 0x100 % 0x100) as u8,
        (value / 0x1_0000 % 0x100) as u8,
        (value / 0x100_0000 % 0x100) as u8,
    ]
}

/// Reading back the four bytes of a number gives the number, and any bytes
/// that follow them do not matter.
pub proof fn lemma_u32_le_round_trip(value: u32, rest: Seq<u8>)
    ensures
        u32_to_le(value).len() == 4,
        (u32_to_le(value) + rest).len() == 4 + rest.len(),
        u32_from_le((u32_to_le(value) + rest).take(4)) == value,
        (u32_to_le(value) + rest).skip(4) == rest,
{
    let wire = u32_to_le(value) + rest;
    assert(wire.take(4) == u32_to_le(value));
    assert(wire.skip(4) == rest);
}

/// Calls `parity_codec`'s `Decode::decode` for `u32` on a byte slice.
///
/// That function fills four bytes from the input and gives up when fewer are
/// left; otherwise it reads them as a little-endian number and leaves the
/// rest of the input alone.
#[verifier::external_body]
fn scale_decode_u32(bytes: &[u8]) -> (value: Option<u32>)
    ensures
        bytes@.len() < 4 ==> value is None,
        bytes@.len() >= 4 ==> value == Some(u32_from_le(bytes@.take(4))),
{
    let mut input = bytes;
    <u32 as parity_codec::Decode>::decode(&mut input)
}

/// Calls `parity_codec`'s `Encode::encode` for `u32`, which writes the four
/// bytes of the number, least significant first.
#[verifier::external_body]
fn scale_encode_u32(value: u32) -> (bytes: Vec<u8>)
    ensures
        bytes@ == u32_to_le(value),
{
    parity_codec::Encode::encode(&value)
}

/// Calls `parity_codec`'s `Decode::decode` for the unit type, which reads
/// nothing and always succeeds.
#[verifier::external_body]
fn scale_decode_unit(bytes: &[u8]) -> (value: Option<()>)
    ensures
        value == Some(()),
{
    let mut input = bytes;
    <() as parity_codec::Decode>::decode(&mut input)
}

/// Calls `parity_codec`'s `Encode::encode` for the unit type, which writes
/// nothing.
#[verifier::external_body]
fn scale_encode_unit(value: ()) -> (bytes: Vec<u8>)
    ensures
        bytes@ == Seq::<u8>::empty(),
{
    parity_codec::Encode::encode(&value)
}

impl Encode for u32 {
    open spec fn encoded(&self) -> Seq<u8> {
        u32_to_le(*self)
    }

    fn encode(&self) -> (bytes: Vec<u8>) {
        scale_encode_u32(*self)
    }
}

impl Decode for u32 {
    open spec fn decoded(bytes: Seq<u8>) -> Option<u32> {
        if bytes.len() >= 4 {
            Some(u32_from_le(bytes.take(4)))
        } else {
            None
        }
    }

    fn decode(bytes: &[u8]) -> (value: Option<u32>) {
        scale_decode_u32(bytes)
    }
}

impl Encode for () {
    open spec fn encoded(&self) -> Seq<u8> {
        Seq::empty()
    }

    fn encode(&self) -> (bytes: Vec<u8>) {
        scale_encode_unit(())
    }
}

impl Decode for () {
    open spec fn decoded(bytes: Seq<u8>) -> Option<()> {
        Some(())
    }

    fn decode(bytes: &[u8]) -> (value: Option<()>) {
        scale_decode_unit(bytes)
    }
}

} // verus!
