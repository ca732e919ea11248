//! CRC-16/Modbus: polynomial 0xA001, initial value 0xFFFF, reflected,
//! with a final byte swap so that the checksum appears on the wire low
//! byte first when written big-endian.

use crate::error::CodecError;
use vstd::prelude::*;

verus! {

/// One shift step of the bit loop: shift right, folding in the polynomial
/// whenever the bit shifted out was set.
pub open spec fn crc_step(crc: u16) -> u16 {
    if crc & 1 == 1 {
        (crc >> 1) ^ 0xA001
    } else {
        crc >> 1
    }
}

/// `crc_step` applied `n` times.
pub open spec fn crc_step_n(crc: u16, n: nat) -> u16
    decreases n,
{
    if n == 0 {
        crc
    } else {
        crc_step(crc_step_n(crc, (n - 1) as nat))
    }
}

/// Folding one data byte into the accumulator: XOR into the low byte,
/// then eight shift steps.
pub open spec fn crc_update(crc: u16, byte: u8) -> u16 {
    crc_step_n(crc ^ (byte as u16), 8)
}

/// The raw accumulator over a byte sequence, starting from 0xFFFF.
pub open spec fn crc_acc(data: Seq<u8>) -> u16
    decreases data.len(),
{
    if data.len() == 0 {
        0xFFFF
    } else {
        crc_update(crc_acc(data.drop_last()), data.last())
    }
}

/// CRC-16/Modbus of a byte sequence: the accumulator with its two bytes
/// exchanged.
pub open spec fn crc16(data: Seq<u8>) -> u16 {
    (crc_acc(data) << 8) | (crc_acc(data) >> 8)
}

/// The value of two bytes read big-endian, high byte first.
pub open spec fn u16_be(hi: u8, lo: u8) -> u16 {
    ((hi as int) * 256 + (lo as int)) as u16
}

/// One byte folded into the accumulator.
fn crc_update_byte(crc: u16, byte: u8) -> (r: u16)
    ensures
        r == crc_update(crc, byte),
{
    let mut acc: u16 = crc ^ (byte as u16);
    let ghost base = acc;
    let mut k: usize = 0;
    while k < 8
        invariant
            k <= 8,
            acc == crc_step_n(base, k as nat),
        decreases 8 - k,
    {
        let odd = acc & 1 == 1;
        acc = acc >> 1;
        if odd {
            acc = acc ^ 0xA001;
        }
        k = k + 1;
    }
    acc
}

/// Compute CRC-16/Modbus over `data`.
pub fn calc_crc(data: &[u8]) -> (r: u16)
    ensures
        r == crc16(data@),
{
    let mut crc: u16 = 0xFFFF;
    let mut i: usize = 0;
    while i < data.len()
        invariant
            i <= data@.len(),
            crc == crc_acc(data@.take(i as int)),
        decreases data@.len() - i,
    {
        let b = data[i];
        crc = crc_update_byte(crc, b);
        proof {
            assert(data@.take(i + 1).drop_last() =~= data@.take(i as int));
            assert(data@.take(i + 1).last() == data@[i as int]);
        }
        i = i + 1;
    }
    proof {
        assert(data@.take(data@.len() as int) =~= data@);
    }
    (crc << 8) | (crc >> 8)
}

/// Compute CRC-16/Modbus over the ADU formed by an address byte followed
/// by the PDU bytes, without materializing the concatenation.
pub fn calc_crc_adu(slave_id: u8, pdu: &[u8]) -> (r: u16)
    ensures
        r == crc16(seq![slave_id] + pdu@),
{
    let ghost adu = seq![slave_id] + pdu@;
    let mut crc: u16 = 0xFFFF;
    crc = crc_update_byte(crc, slave_id);
    proof {
        assert(adu.len() == 1 + pdu@.len());
        assert(adu[0] == slave_id);
        assert(adu.take(1).drop_last() =~= Seq::<u8>::empty());
        assert(adu.take(1).last() == slave_id);
        assert(crc_acc(Seq::<u8>::empty()) == 0xFFFF);
        assert(crc == crc_acc(adu.take(1)));
    }
    let mut i: usize = 0;
    while i < pdu.len()
        invariant
            i <= pdu@.len(),
            adu == seq![slave_id] + pdu@,
            crc == crc_acc(adu.take(1 + i)),
        decreases pdu@.len() - i,
    {
        let b = pdu[i];
        crc = crc_update_byte(crc, b);
        proof {
            assert(adu.take(1 + i + 1).drop_last() =~= adu.take(1 + i));
            assert(adu.take(1 + i + 1).last() == pdu@[i as int]);
        }
        i = i + 1;
    }
    proof {
        assert(adu.take(1 + pdu@.len() as int) =~= adu);
    }
    (crc << 8) | (crc >> 8)
}

/// Verify the trailing CRC of an ADU against the value read from the wire.
pub fn check_crc(adu_data: &[u8], expected_crc: u16) -> (r: Result<(), CodecError>)
    ensures
        r is Ok <==> expected_crc == crc16(adu_data@),
        r is Err ==> r == Err::<(), CodecError>(CodecError::CrcMismatch {
            expected: expected_crc,
            actual: crc16(adu_data@),
        }),
{
    let actual_crc = calc_crc(adu_data);
    if expected_crc != actual_crc {
        return Err(CodecError::CrcMismatch { expected: expected_crc, actual: actual_crc });
    }
    Ok(())
}

} // verus!
