//! Library-wide laws, proved over the codec's specification model:
//! round-trip of encode and decode, progress under garbage, patience on
//! incomplete frames, and totality of the length predictor.

use crate::crc::{crc16, u16_be};
use crate::rtu::{
    drive, encoded_frame, len_hint, recognized_code, DriveResult, LenHint, Outcome, Role,
};
use crate::slave::SlaveId;
use vstd::prelude::*;

verus! {

/// Reading back the two wire bytes of a byte-swapped CRC big-endian
/// yields the value that was written.
pub proof fn lemma_wire_crc(x: u16)
    ensures
        u16_be((x >> 8) as u8, x as u8) == x,
{
    assert((((x >> 8) as u8) as int) * 256 + ((x as u8) as int) == x as int) by (bit_vector);
}

/// Round-trip: an encoded frame whose function code the role's length
/// table maps to exactly the encoded PDU length decodes to the address
/// and PDU that were encoded, consuming the whole frame and nothing more.
/// (A frame whose code the table does not recognize, or whose embedded
/// byte count disagrees with the PDU length, is indistinguishable from
/// noise and is resynchronized over instead.)
pub proof fn lemma_encode_decode_roundtrip(role: Role, slave_id: SlaveId, pdu: Seq<u8>)
    requires
        1 <= pdu.len() <= 253,
        len_hint(role, encoded_frame(slave_id, pdu)) == LenHint::Pdu(pdu.len() as nat),
    ensures
        drive(role, encoded_frame(slave_id, pdu)) == (DriveResult {
            outcome: Outcome::Frame(slave_id, pdu),
            consumed: pdu.len() as int + 3,
        }),
{
    let f = encoded_frame(slave_id, pdu);
    let adu = seq![slave_id] + pdu;
    let n = pdu.len() as int;
    assert(f.len() == n + 3);
    assert(f.take(n + 1) =~= adu);
    assert(f[n + 1] == (crc16(adu) >> 8) as u8);
    assert(f[n + 2] == crc16(adu) as u8);
    lemma_wire_crc(crc16(adu));
    assert(u16_be(f[n + 1], f[n + 2]) == crc16(f.take(n + 1)));
    assert(f[0] == slave_id);
    assert(f.subrange(1, n + 1) =~= pdu);
}

/// A length prediction never changes as more bytes arrive: on a prefix
/// of a buffer the table answers "need more bytes", or exactly what it
/// answers on the longer buffer.
pub proof fn lemma_len_hint_prefix(role: Role, s: Seq<u8>, t: Seq<u8>)
    requires
        s.len() <= t.len(),
        s == t.take(s.len() as int),
    ensures
        (len_hint(role, s) is NeedMore) || len_hint(role, s) == len_hint(role, t),
{
    assert(forall|i: int| 0 <= i < s.len() ==> s[i] == t[i]);
}

/// Patience: feeding any strict prefix of a well-formed frame returns
/// "need more bytes" and consumes nothing, leaving the buffer exactly as
/// received.
pub proof fn lemma_prefix_needs_more(role: Role, f: Seq<u8>, m: int)
    requires
        (len_hint(role, f) matches LenHint::Pdu(n) && f.len() == n + 3),
        0 <= m < f.len(),
    ensures
        drive(role, f.take(m)) == (DriveResult { outcome: Outcome::NeedMore, consumed: 0 }),
{
    let p = f.take(m);
    lemma_len_hint_prefix(role, p, f);
}

/// A buffer position at which the driver drops the first byte at once:
/// the function code is unrecognized, or the full predicted frame is
/// present and its CRC does not match.
pub open spec fn drops_immediately(role: Role, s: Seq<u8>) -> bool {
    match len_hint(role, s) {
        LenHint::Invalid(_) => true,
        LenHint::Pdu(n) => s.len() >= n + 3 && u16_be(s[n as int + 1], s[n as int + 2]) != crc16(
            s.take(n as int + 1),
        ),
        _ => false,
    }
}

/// Progress under garbage: when every suffix of a garbage prefix fails
/// to decode at once, the driver consumes exactly the garbage, one byte
/// per error, and then behaves on the rest as it would on the rest
/// alone.
pub proof fn lemma_garbage_skipped(role: Role, g: Seq<u8>, rest: Seq<u8>)
    requires
        (forall|j: int| 0 <= j < g.len() ==> drops_immediately(
            role,
            #[trigger] (g.skip(j) + rest),
        )),
    ensures
        drive(role, g + rest) == (DriveResult {
            outcome: drive(role, rest).outcome,
            consumed: g.len() + drive(role, rest).consumed,
        }),
    decreases g.len(),
{
    if g.len() == 0 {
        assert(g + rest =~= rest);
    } else {
        assert(g.skip(0) + rest =~= g + rest);
        assert(drops_immediately(role, g + rest));
        assert((g + rest).skip(1) =~= g.skip(1) + rest);
        assert forall|j: int| 0 <= j < g.skip(1).len() implies drops_immediately(
            role,
            #[trigger] (g.skip(1).skip(j) + rest),
        ) by {
            assert(g.skip(1).skip(j) + rest =~= g.skip(j + 1) + rest);
        };
        lemma_garbage_skipped(role, g.skip(1), rest);
    }
}

/// Progress under garbage, end to end: a garbage prefix every suffix of
/// which fails to decode at once, followed by an encoded frame whose
/// function code the role's table maps to exactly its PDU length,
/// decodes to that frame, consuming the garbage and the frame and
/// nothing more.
pub proof fn lemma_garbage_then_frame(role: Role, g: Seq<u8>, slave_id: SlaveId, pdu: Seq<u8>)
    requires
        1 <= pdu.len() <= 253,
        len_hint(role, encoded_frame(slave_id, pdu)) == LenHint::Pdu(pdu.len() as nat),
        (forall|j: int| 0 <= j < g.len() ==> drops_immediately(
            role,
            #[trigger] (g.skip(j) + encoded_frame(slave_id, pdu)),
        )),
    ensures
        drive(role, g + encoded_frame(slave_id, pdu)) == (DriveResult {
            outcome: Outcome::Frame(slave_id, pdu),
            consumed: g.len() + pdu.len() as int + 3,
        }),
{
    lemma_garbage_skipped(role, g, encoded_frame(slave_id, pdu));
    lemma_encode_decode_roundtrip(role, slave_id, pdu);
}

/// Totality of the length predictor on a two-byte prefix: a recognized
/// function code yields a concrete length or "need more bytes"; an
/// unrecognized one yields exactly the invalid-function-code answer.
pub proof fn lemma_predictor_totality(role: Role, s: Seq<u8>)
    requires
        s.len() == 2,
    ensures
        recognized_code(role, s[1]) ==> ((len_hint(role, s) is Pdu) || (len_hint(role, s)
            is NeedMore)),
        !recognized_code(role, s[1]) ==> len_hint(role, s) == LenHint::Invalid(s[1]),
{
}

} // verus!

