//! Trusted view of the byte buffers the codec consumes and fills.
//!
//! The input stream lives in a `bytes::BytesMut`; decoded PDUs are handed
//! out as immutable `bytes::Bytes`; the resynchronization log is a
//! `smallvec::SmallVec`.  Each type is declared opaque and given a
//! mathematical contents (a `Seq<u8>`), and each method the codec calls is
//! wrapped with a contract stating what the method does to that contents.

use bytes::Buf;
use bytes::BufMut;
use vstd::prelude::*;

verus! {

/// The maximum size of a Modbus RTU frame is 256 bytes, and the
/// dropped-byte log is bounded by the same constant.
pub const MAX_FRAME_LEN: usize = 256;

#[verifier::external_type_specification]
#[verifier::external_body]
pub struct ExBytesMut(bytes::BytesMut);

#[verifier::external_type_specification]
#[verifier::external_body]
pub struct ExBytes(bytes::Bytes);

/// The bounded dropped-byte log, backed by a `smallvec::SmallVec` so that
/// up to one maximum frame of noise is recorded without allocating.
/// Verus cannot declare `SmallVec` itself (its `Array` bound defeats the
/// declaration), so the vector is hidden in this opaque struct instead.
#[verifier::external_body]
pub struct DroppedLog {
    bytes: smallvec::SmallVec<[u8; MAX_FRAME_LEN]>,
}

/// The bytes held by a `BytesMut`, front to back.
pub uninterp spec fn buf_bytes(b: bytes::BytesMut) -> Seq<u8>;

/// The bytes held by a frozen `Bytes`, front to back.
pub uninterp spec fn pdu_bytes(b: bytes::Bytes) -> Seq<u8>;

/// The bytes held by the dropped-byte log, oldest first.
pub uninterp spec fn log_bytes(v: DroppedLog) -> Seq<u8>;

/// Relies on `BytesMut::len`: the number of bytes in the buffer.
#[verifier::external_body]
pub fn buf_len(b: &bytes::BytesMut) -> (r: usize)
    ensures
        r == buf_bytes(*b).len(),
{
    b.len()
}

/// Relies on `BytesMut`'s `Deref<Target = [u8]>`: the byte at position `i`.
#[verifier::external_body]
pub fn buf_byte_at(b: &bytes::BytesMut, i: usize) -> (r: u8)
    requires
        i < buf_bytes(*b).len(),
    ensures
        r == buf_bytes(*b)[i as int],
{
    b[i]
}

/// Relies on `BytesMut`'s `Deref<Target = [u8]>`: the buffer's bytes as a slice.
#[verifier::external_body]
pub fn buf_as_slice(b: &bytes::BytesMut) -> (r: &[u8])
    ensures
        r@ == buf_bytes(*b),
{
    b
}

/// Relies on `BytesMut::split_to`: afterwards `b` contains the elements
/// from `at` on and the returned buffer contains the first `at` elements.
#[verifier::external_body]
pub fn buf_split_to(b: &mut bytes::BytesMut, at: usize) -> (r: bytes::BytesMut)
    requires
        at <= buf_bytes(*old(b)).len(),
    ensures
        buf_bytes(r) == buf_bytes(*old(b)).take(at as int),
        buf_bytes(*final(b)) == buf_bytes(*old(b)).skip(at as int),
{
    b.split_to(at)
}

/// Relies on `BytesMut::unsplit`: appends `other` to `b`.
#[verifier::external_body]
pub fn buf_unsplit(b: &mut bytes::BytesMut, other: bytes::BytesMut)
    ensures
        buf_bytes(*final(b)) == buf_bytes(*old(b)) + buf_bytes(other),
{
    b.unsplit(other)
}

/// Relies on `Buf::advance` for `BytesMut`: discards the first `cnt` bytes.
#[verifier::external_body]
pub fn buf_advance(b: &mut bytes::BytesMut, cnt: usize)
    requires
        cnt <= buf_bytes(*old(b)).len(),
    ensures
        buf_bytes(*final(b)) == buf_bytes(*old(b)).skip(cnt as int),
{
    b.advance(cnt)
}

/// Relies on `BytesMut::freeze`: converts to an immutable `Bytes` holding
/// the same bytes.
#[verifier::external_body]
pub fn buf_freeze(b: bytes::BytesMut) -> (r: bytes::Bytes)
    ensures
        pdu_bytes(r) == buf_bytes(b),
{
    b.freeze()
}

/// Relies on `BufMut::put_u8` for `BytesMut`: appends one byte, growing the
/// buffer as needed.
#[verifier::external_body]
pub fn buf_put_u8(b: &mut bytes::BytesMut, v: u8)
    ensures
        buf_bytes(*final(b)) == buf_bytes(*old(b)).push(v),
{
    b.put_u8(v)
}

/// Relies on `BufMut::put_slice` for `BytesMut`: appends the slice, growing
/// the buffer as needed.
#[verifier::external_body]
pub fn buf_put_slice(b: &mut bytes::BytesMut, src: &[u8])
    ensures
        buf_bytes(*final(b)) == buf_bytes(*old(b)) + src@,
{
    b.put_slice(src)
}

/// Relies on `BufMut::put_u16` for `BytesMut`: appends the value in
/// big-endian byte order, high byte first.
#[verifier::external_body]
pub fn buf_put_u16_be(b: &mut bytes::BytesMut, v: u16)
    ensures
        buf_bytes(*final(b)) == buf_bytes(*old(b)) + seq![(v >> 8) as u8, v as u8],
{
    b.put_u16(v)
}

/// Relies on `BytesMut::reserve`: capacity grows, the contents do not change.
#[verifier::external_body]
pub fn buf_reserve(b: &mut bytes::BytesMut, additional: usize)
    ensures
        buf_bytes(*final(b)) == buf_bytes(*old(b)),
{
    b.reserve(additional)
}

/// Relies on `Bytes`'s `Deref<Target = [u8]>`: the bytes as a slice.
#[verifier::external_body]
pub fn pdu_as_slice(b: &bytes::Bytes) -> (r: &[u8])
    ensures
        r@ == pdu_bytes(*b),
{
    b
}

impl DroppedLog {
    /// Relies on `SmallVec::new`: an empty vector.
    #[verifier::external_body]
    pub fn new() -> (r: DroppedLog)
        ensures
            log_bytes(r) == Seq::<u8>::empty(),
    {
        DroppedLog { bytes: smallvec::SmallVec::new() }
    }

    /// Relies on `SmallVec::len`: the number of elements.
    #[verifier::external_body]
    pub fn len(&self) -> (r: usize)
        ensures
            r == log_bytes(*self).len(),
    {
        self.bytes.len()
    }

    /// Relies on `SmallVec::push`: appends one element.
    #[verifier::external_body]
    pub fn push(&mut self, b: u8)
        ensures
            log_bytes(*final(self)) == log_bytes(*old(self)).push(b),
    {
        self.bytes.push(b)
    }

    /// Relies on `SmallVec::clear`: removes all elements.
    #[verifier::external_body]
    pub fn clear(&mut self)
        ensures
            log_bytes(*final(self)) == Seq::<u8>::empty(),
    {
        self.bytes.clear()
    }
}

} // verus!
