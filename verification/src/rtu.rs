//! The RTU frame codec: length prediction, frame decoding with CRC
//! validation, byte-stream resynchronization, and frame encoding.
//!
//! An RTU frame carries no length field; the expected frame length is
//! inferred from the function code at offset 1 and, for some codes, from
//! an embedded byte-count field.  The request and response sides differ
//! only in that table, so a single frame engine is driven by a [`Role`].

use crate::buffer::{
    buf_advance, buf_as_slice, buf_byte_at, buf_bytes, buf_freeze, buf_len, buf_put_slice,
    buf_put_u16_be, buf_put_u8, buf_reserve, buf_split_to, buf_unsplit, pdu_as_slice, pdu_bytes,
    log_bytes, DroppedLog, MAX_FRAME_LEN,
};
use crate::crc::{calc_crc_adu, check_crc, crc16, u16_be};
use crate::error::CodecError;
use crate::frame::{Header, RequestAdu, ResponseAdu};
use crate::slave::SlaveId;
use vstd::prelude::*;

verus! {

/// Which length-prediction table the frame engine consults.
#[derive(Clone, Copy, Debug, PartialEq, Eq, Structural)]
pub enum Role {
    Request,
    Response,
}

/// What the length predictor says about a buffer prefix: the exact PDU
/// length, too few bytes to decide, an unrecognized function code, or a
/// vendor subcall whose length table has no entry (a fault: callers must
/// keep such inputs out).
pub enum LenHint {
    NeedMore,
    Invalid(u8),
    Fault,
    Pdu(nat),
}

/// The request-side length table, as a function of the buffer prefix.
pub open spec fn request_len_hint(s: Seq<u8>) -> LenHint {
    if s.len() < 2 {
        LenHint::NeedMore
    } else {
        let fc = s[1];
        if 0x01 <= fc <= 0x06 {
            LenHint::Pdu(5)
        } else if fc == 0x07 || fc == 0x0B || fc == 0x0C || fc == 0x11 {
            LenHint::Pdu(1)
        } else if fc == 0x0F || fc == 0x10 {
            if s.len() < 7 {
                LenHint::NeedMore
            } else {
                LenHint::Pdu((6 + s[6]) as nat)
            }
        } else if fc == 0x16 {
            LenHint::Pdu(7)
        } else if fc == 0x17 {
            if s.len() < 11 {
                LenHint::NeedMore
            } else {
                LenHint::Pdu((10 + s[10]) as nat)
            }
        } else if fc == 0x18 {
            LenHint::Pdu(3)
        } else {
            LenHint::Invalid(fc)
        }
    }
}

/// The response-side length table, as a function of the buffer prefix.
pub open spec fn response_len_hint(s: Seq<u8>) -> LenHint {
    if s.len() < 2 {
        LenHint::NeedMore
    } else {
        let fc = s[1];
        if (0x01 <= fc <= 0x04) || fc == 0x0C || fc == 0x17 {
            if s.len() < 3 {
                LenHint::NeedMore
            } else {
                LenHint::Pdu((2 + s[2]) as nat)
            }
        } else if fc == 0x05 || fc == 0x06 || fc == 0x0B || fc == 0x0F || fc == 0x10 {
            LenHint::Pdu(5)
        } else if fc == 0x07 {
            LenHint::Pdu(2)
        } else if fc == 0x16 {
            LenHint::Pdu(7)
        } else if fc == 0x18 {
            if s.len() < 4 {
                LenHint::NeedMore
            } else {
                LenHint::Pdu((3 + u16_be(s[2], s[3])) as nat)
            }
        } else if 0x81 <= fc <= 0xAA {
            // Exception response: function code with the top bit set,
            // followed by one exception-code byte.
            LenHint::Pdu(2)
        } else if fc == 0xFE {
            if s.len() < 4 {
                LenHint::NeedMore
            } else {
                let subcall = u16_be(s[2], s[3]);
                if subcall == 0x0701 {
                    LenHint::Pdu(7)
                } else if subcall == 0x0702 {
                    LenHint::Pdu(3)
                } else if subcall == 0x0703 {
                    LenHint::Pdu(4)
                } else if subcall == 0x0704 {
                    LenHint::Pdu(71)
                } else {
                    LenHint::Fault
                }
            }
        } else {
            LenHint::Invalid(fc)
        }
    }
}

/// The length table for the given role.
pub open spec fn len_hint(role: Role, s: Seq<u8>) -> LenHint {
    match role {
        Role::Request => request_len_hint(s),
        Role::Response => response_len_hint(s),
    }
}

/// The function codes the request-side table recognizes.
pub open spec fn recognized_request_code(fc: u8) -> bool {
    0x01 <= fc <= 0x07 || fc == 0x0B || fc == 0x0C || fc == 0x0F || fc == 0x10 || fc == 0x11
        || fc == 0x16 || fc == 0x17 || fc == 0x18
}

/// The function codes the response-side table recognizes.
pub open spec fn recognized_response_code(fc: u8) -> bool {
    0x01 <= fc <= 0x07 || fc == 0x0B || fc == 0x0C || fc == 0x0F || fc == 0x10 || fc == 0x16
        || fc == 0x17 || fc == 0x18 || 0x81 <= fc <= 0xAA || fc == 0xFE
}

/// The function codes the given role's table recognizes.
pub open spec fn recognized_code(role: Role, fc: u8) -> bool {
    match role {
        Role::Request => recognized_request_code(fc),
        Role::Response => recognized_response_code(fc),
    }
}

/// A predicted PDU length is at least 1 and at most 3 + 0xFFFF.
pub proof fn lemma_hint_bound(role: Role, s: Seq<u8>)
    ensures
        len_hint(role, s) matches LenHint::Pdu(n) ==> 1 <= n <= 65538,
{
}

/// Predict the PDU length of a request frame from the function code at
/// offset 1 and, for the variable-length codes, the byte count embedded
/// in the buffer.  Never consumes bytes.
pub fn get_request_pdu_len(adu_buf: &bytes::BytesMut) -> (r: Result<Option<usize>, CodecError>)
    ensures
        ({
            let h = request_len_hint(buf_bytes(*adu_buf));
            match h {
                LenHint::NeedMore => r == Ok::<Option<usize>, CodecError>(None),
                LenHint::Pdu(n) => r == Ok::<Option<usize>, CodecError>(Some(n as usize)),
                LenHint::Invalid(fc) => r == Err::<Option<usize>, CodecError>(
                    CodecError::InvalidFunctionCode(fc),
                ),
                LenHint::Fault => false,
            }
        }),
{
    let len = buf_len(adu_buf);
    if len < 2 {
        return Ok(None);
    }
    let fn_code = buf_byte_at(adu_buf, 1);
    if 0x01 <= fn_code && fn_code <= 0x06 {
        Ok(Some(5))
    } else if fn_code == 0x07 || fn_code == 0x0B || fn_code == 0x0C || fn_code == 0x11 {
        Ok(Some(1))
    } else if fn_code == 0x0F || fn_code == 0x10 {
        if len < 7 {
            Ok(None)
        } else {
            let byte_count = buf_byte_at(adu_buf, 6);
            Ok(Some(6 + byte_count as usize))
        }
    } else if fn_code == 0x16 {
        Ok(Some(7))
    } else if fn_code == 0x17 {
        if len < 11 {
            Ok(None)
        } else {
            let byte_count = buf_byte_at(adu_buf, 10);
            Ok(Some(10 + byte_count as usize))
        }
    } else if fn_code == 0x18 {
        Ok(Some(3))
    } else {
        Err(CodecError::InvalidFunctionCode(fn_code))
    }
}

/// Predict the PDU length of a response frame.  Never consumes bytes.
/// Vendor subcalls (function code 0xFE) outside the explicit length table
/// are a fault and must be kept out by the caller; the table is
/// deliberately explicit so that new subcalls are added by hand.
pub fn get_response_pdu_len(adu_buf: &bytes::BytesMut) -> (r: Result<Option<usize>, CodecError>)
    requires
        !(response_len_hint(buf_bytes(*adu_buf)) is Fault),
    ensures
        ({
            let h = response_len_hint(buf_bytes(*adu_buf));
            match h {
                LenHint::NeedMore => r == Ok::<Option<usize>, CodecError>(None),
                LenHint::Pdu(n) => r == Ok::<Option<usize>, CodecError>(Some(n as usize)),
                LenHint::Invalid(fc) => r == Err::<Option<usize>, CodecError>(
                    CodecError::InvalidFunctionCode(fc),
                ),
                LenHint::Fault => false,
            }
        }),
{
    let len = buf_len(adu_buf);
    if len < 2 {
        return Ok(None);
    }
    let fn_code = buf_byte_at(adu_buf, 1);
    if (0x01 <= fn_code && fn_code <= 0x04) || fn_code == 0x0C || fn_code == 0x17 {
        if len < 3 {
            Ok(None)
        } else {
            let byte_count = buf_byte_at(adu_buf, 2);
            Ok(Some(2 + byte_count as usize))
        }
    } else if fn_code == 0x05 || fn_code == 0x06 || fn_code == 0x0B || fn_code == 0x0F || fn_code
        == 0x10 {
        Ok(Some(5))
    } else if fn_code == 0x07 {
        Ok(Some(2))
    } else if fn_code == 0x16 {
        Ok(Some(7))
    } else if fn_code == 0x18 {
        if len < 4 {
            Ok(None)
        } else {
            let hi = buf_byte_at(adu_buf, 2);
            let lo = buf_byte_at(adu_buf, 3);
            let byte_count = (hi as usize) * 256 + (lo as usize);
            Ok(Some(3 + byte_count))
        }
    } else if 0x81 <= fn_code && fn_code <= 0xAA {
        Ok(Some(2))
    } else if fn_code == 0xFE {
        if len < 4 {
            Ok(None)
        } else {
            let hi = buf_byte_at(adu_buf, 2);
            let lo = buf_byte_at(adu_buf, 3);
            let subcall = (hi as u16) * 256 + (lo as u16);
            if subcall == 0x0701 {
                Ok(Some(7))
            } else if subcall == 0x0702 {
                Ok(Some(3))
            } else if subcall == 0x0703 {
                Ok(Some(4))
            } else if subcall == 0x0704 {
                Ok(Some(71))
            } else {
                unreached()
            }
        }
    } else {
        Err(CodecError::InvalidFunctionCode(fn_code))
    }
}

/// What one call of the streaming driver produces: a complete frame, or
/// a request for more bytes.
pub enum Outcome {
    NeedMore,
    Frame(SlaveId, Seq<u8>),
}

/// The driver's result together with the number of leading bytes it
/// consumed from the input buffer.
pub struct DriveResult {
    pub outcome: Outcome,
    pub consumed: int,
}

/// One byte entering the dropped-byte log: the log is cleared when it has
/// already grown to one maximum frame.
pub open spec fn log_push(log: Seq<u8>, b: u8) -> Seq<u8> {
    if log.len() >= MAX_FRAME_LEN {
        seq![b]
    } else {
        log.push(b)
    }
}

/// The dropped-byte log after a run of dropped bytes, oldest first.
pub open spec fn log_after(log: Seq<u8>, dropped: Seq<u8>) -> Seq<u8>
    decreases dropped.len(),
{
    if dropped.len() == 0 {
        log
    } else {
        log_after(log_push(log, dropped[0]), dropped.skip(1))
    }
}

/// Dropping bytes one at a time builds the log back to front.
pub proof fn lemma_log_after_snoc(log: Seq<u8>, dropped: Seq<u8>, b: u8)
    ensures
        log_after(log, dropped.push(b)) == log_push(log_after(log, dropped), b),
    decreases dropped.len(),
{
    if dropped.len() == 0 {
        assert(dropped.push(b)[0] == b);
        assert(dropped.push(b).skip(1) =~= Seq::<u8>::empty());
        assert(log_after(log, dropped.push(b)) == log_after(
            log_push(log, b),
            dropped.push(b).skip(1),
        ));
        assert(log_after(log_push(log, b), Seq::<u8>::empty()) == log_push(log, b));
    } else {
        assert(dropped.push(b)[0] == dropped[0]);
        assert(dropped.push(b).skip(1) =~= dropped.skip(1).push(b));
        assert(log_after(log, dropped.push(b)) == log_after(
            log_push(log, dropped[0]),
            dropped.skip(1).push(b),
        ));
        lemma_log_after_snoc(log_push(log, dropped[0]), dropped.skip(1), b);
        assert(log_after(log, dropped) == log_after(log_push(log, dropped[0]), dropped.skip(1)));
    }
}

/// The streaming driver, as a function of the input bytes: predict the
/// frame length, check the CRC, and on any error drop one byte and retry,
/// until a frame is produced or more bytes are needed.
pub open spec fn drive(role: Role, s: Seq<u8>) -> DriveResult
    decreases s.len(),
{
    match len_hint(role, s) {
        LenHint::NeedMore => DriveResult { outcome: Outcome::NeedMore, consumed: 0 },
        LenHint::Fault => DriveResult { outcome: Outcome::NeedMore, consumed: 0 },
        LenHint::Invalid(_) => {
            if s.len() == 0 {
                DriveResult { outcome: Outcome::NeedMore, consumed: 0 }
            } else {
                let d = drive(role, s.skip(1));
                DriveResult { outcome: d.outcome, consumed: d.consumed + 1 }
            }
        },
        LenHint::Pdu(n) => {
            if s.len() < n + 3 {
                DriveResult { outcome: Outcome::NeedMore, consumed: 0 }
            } else if u16_be(s[n as int + 1], s[n as int + 2]) == crc16(s.take(n as int + 1)) {
                DriveResult {
                    outcome: Outcome::Frame(s[0], s.subrange(1, n as int + 1)),
                    consumed: n as int + 3,
                }
            } else {
                let d = drive(role, s.skip(1));
                DriveResult { outcome: d.outcome, consumed: d.consumed + 1 }
            }
        },
    }
}

/// The driver never reaches a vendor subcall outside the length table,
/// at this buffer position or at any position it can resynchronize to.
pub open spec fn resync_safe(role: Role, s: Seq<u8>) -> bool
    decreases s.len(),
{
    match len_hint(role, s) {
        LenHint::Fault => false,
        LenHint::NeedMore => true,
        LenHint::Invalid(_) => s.len() == 0 || resync_safe(role, s.skip(1)),
        LenHint::Pdu(n) => s.len() < n + 3 || u16_be(s[n as int + 1], s[n as int + 2]) == crc16(
            s.take(n as int + 1),
        ) || resync_safe(role, s.skip(1)),
    }
}

/// The request-side table never faults, so any request buffer is safe to
/// resynchronize over.
pub proof fn lemma_request_resync_safe(s: Seq<u8>)
    ensures
        resync_safe(Role::Request, s),
    decreases s.len(),
{
    match request_len_hint(s) {
        LenHint::Invalid(_) => {
            lemma_request_resync_safe(s.skip(1));
        },
        LenHint::Pdu(n) => {
            if s.len() >= n + 3 && u16_be(s[n as int + 1], s[n as int + 2]) != crc16(
                s.take(n as int + 1),
            ) {
                lemma_request_resync_safe(s.skip(1));
            }
        },
        _ => {},
    }
}

/// The engine shared by the request and response sides: splits complete
/// frames off the input buffer once their length is known, and owns the
/// dropped-byte log used while resynchronizing.
pub struct FrameDecoder {
    dropped_bytes: DroppedLog,
}

impl FrameDecoder {
    /// The bytes dropped so far while resynchronizing, oldest first.
    pub closed spec fn dropped(self) -> Seq<u8> {
        log_bytes(self.dropped_bytes)
    }

    /// The dropped-byte log never exceeds one maximum frame.
    pub open spec fn wf(self) -> bool {
        self.dropped().len() <= MAX_FRAME_LEN
    }

    /// The number of bytes currently recorded in the dropped-byte log.
    pub fn dropped_len(&self) -> (r: usize)
        ensures
            r == self.dropped().len(),
    {
        self.dropped_bytes.len()
    }

    /// Split the next frame off `buf`, given a predicted PDU length of
    /// `pdu_len` bytes.  Acts only if the buffer holds the full frame
    /// (1 address byte + PDU + 2 CRC bytes); verifies the trailing CRC,
    /// and on success clears the dropped-byte log and returns the address
    /// and the PDU.  On CRC mismatch the buffer is restored byte for
    /// byte, so that resynchronization is the only place bytes are lost.
    pub fn decode(&mut self, buf: &mut bytes::BytesMut, pdu_len: usize) -> (r: Result<
        Option<(SlaveId, bytes::Bytes)>,
        CodecError,
    >)
        requires
            old(self).wf(),
            pdu_len + 3 <= usize::MAX,
        ensures
            final(self).wf(),
            ({
                let s = buf_bytes(*old(buf));
                let n = pdu_len as int;
                &&& (s.len() < n + 3 ==> {
                    &&& r == Ok::<Option<(SlaveId, bytes::Bytes)>, CodecError>(None)
                    &&& buf_bytes(*final(buf)) == s
                    &&& *final(self) == *old(self)
                })
                &&& (s.len() >= n + 3 && u16_be(s[n as int + 1], s[n as int + 2]) == crc16(s.take(n + 1)) ==> {
                    &&& r matches Ok(Some(f)) && f.0 == s[0] && pdu_bytes(f.1) == s.subrange(
                        1,
                        n + 1,
                    )
                    &&& buf_bytes(*final(buf)) == s.skip(n + 3)
                    &&& final(self).dropped() == Seq::<u8>::empty()
                })
                &&& (s.len() >= n + 3 && u16_be(s[n as int + 1], s[n as int + 2]) != crc16(s.take(n + 1)) ==> {
                    &&& r == Err::<Option<(SlaveId, bytes::Bytes)>, CodecError>(
                        CodecError::CrcMismatch {
                            expected: u16_be(s[n as int + 1], s[n as int + 2]),
                            actual: crc16(s.take(n + 1)),
                        },
                    )
                    &&& buf_bytes(*final(buf)) == s
                    &&& *final(self) == *old(self)
                })
            }),
    {
        let ghost s = buf_bytes(*buf);
        let adu_len = 1 + pdu_len;
        if buf_len(buf) >= adu_len + 2 {
            let mut adu_buf = buf_split_to(buf, adu_len);
            let crc_buf = buf_split_to(buf, 2);
            proof {
                assert(buf_bytes(crc_buf)[0] == s[adu_len as int]);
                assert(buf_bytes(crc_buf)[1] == s[adu_len + 1]);
            }
            let hi = buf_byte_at(&crc_buf, 0);
            let lo = buf_byte_at(&crc_buf, 1);
            let crc = (hi as u16) * 256 + (lo as u16);
            proof {
                assert(crc == u16_be(s[pdu_len + 1], s[pdu_len + 2]));
            }
            match check_crc(buf_as_slice(&adu_buf), crc) {
                Ok(()) => {
                    if self.dropped_bytes.len() > 0 {
                        self.dropped_bytes.clear();
                    }
                    proof {
                        assert(self.dropped() =~= Seq::<u8>::empty());
                    }
                    let slave_id = buf_byte_at(&adu_buf, 0);
                    buf_advance(&mut adu_buf, 1);
                    let pdu_data = buf_freeze(adu_buf);
                    proof {
                        assert(pdu_bytes(pdu_data) =~= s.subrange(1, pdu_len + 1));
                        assert(buf_bytes(*buf) =~= s.skip(pdu_len + 3));
                    }
                    Ok(Some((slave_id, pdu_data)))
                },
                Err(e) => {
                    // Restore the input buffer before surfacing the error.
                    let rem_len = buf_len(buf);
                    let rem_buf = buf_split_to(buf, rem_len);
                    buf_unsplit(buf, adu_buf);
                    buf_unsplit(buf, crc_buf);
                    buf_unsplit(buf, rem_buf);
                    proof {
                        assert(buf_bytes(*buf) =~= s);
                    }
                    Err(e)
                },
            }
        } else {
            // Incomplete frame.
            Ok(None)
        }
    }

    /// Skip and record the first byte of the buffer after a decode error.
    /// When the log has already grown to one maximum frame it is cleared
    /// before the byte is recorded, so memory stays bounded under a
    /// persistent stream of garbage.
    pub fn recover_on_error(&mut self, buf: &mut bytes::BytesMut)
        requires
            old(self).wf(),
            buf_bytes(*old(buf)).len() > 0,
        ensures
            final(self).wf(),
            buf_bytes(*final(buf)) == buf_bytes(*old(buf)).skip(1),
            final(self).dropped() == log_push(old(self).dropped(), buf_bytes(*old(buf))[0]),
    {
        let first = buf_byte_at(buf, 0);
        if self.dropped_bytes.len() >= MAX_FRAME_LEN {
            self.dropped_bytes.clear();
            proof {
                assert(Seq::<u8>::empty().push(first) =~= seq![first]);
            }
        }
        self.dropped_bytes.push(first);
        buf_advance(buf, 1);
    }
}

impl Default for FrameDecoder {
    /// A decoder with an empty dropped-byte log.
    fn default() -> (r: Self)
        ensures
            r.dropped() == Seq::<u8>::empty(),
            r.wf(),
    {
        FrameDecoder { dropped_bytes: DroppedLog::new() }
    }
}

/// The streaming decode driver: predict, decode, and on error drop one
/// byte and retry, until a frame is produced or the buffer is exhausted.
/// This loop is the only place that advances past bad bytes, and every
/// error consumes exactly one byte, so progress is guaranteed.
#[verifier::loop_isolation(false)]
pub fn decode(role: Role, frame_decoder: &mut FrameDecoder, buf: &mut bytes::BytesMut) -> (r:
    Result<Option<(SlaveId, bytes::Bytes)>, CodecError>)
    requires
        old(frame_decoder).wf(),
        resync_safe(role, buf_bytes(*old(buf))),
    ensures
        final(frame_decoder).wf(),
        ({
            let s = buf_bytes(*old(buf));
            let d = drive(role, s);
            &&& buf_bytes(*final(buf)) == s.skip(d.consumed)
            &&& (d.outcome matches Outcome::NeedMore ==> {
                &&& r == Ok::<Option<(SlaveId, bytes::Bytes)>, CodecError>(None)
                &&& final(frame_decoder).dropped() == log_after(
                    old(frame_decoder).dropped(),
                    s.take(d.consumed),
                )
            })
            &&& (d.outcome matches Outcome::Frame(slave, pdu) ==> {
                &&& r matches Ok(Some(f)) && f.0 == slave && pdu_bytes(f.1) == pdu
                &&& final(frame_decoder).dropped() == Seq::<u8>::empty()
            })
        }),
{
    let ghost s0 = buf_bytes(*buf);
    let ghost log0 = frame_decoder.dropped();
    let ghost mut k: int = 0;
    proof {
        assert(s0.skip(0) =~= s0);
        assert(s0.take(0) =~= Seq::<u8>::empty());
    }
    loop
        invariant
            frame_decoder.wf(),
            0 <= k <= s0.len(),
            buf_bytes(*buf) == s0.skip(k),
            resync_safe(role, s0.skip(k)),
            frame_decoder.dropped() == log_after(log0, s0.take(k)),
            drive(role, s0).outcome == drive(role, s0.skip(k)).outcome,
            drive(role, s0).consumed == k + drive(role, s0.skip(k)).consumed,
        decreases s0.len() - k,
    {
        let ghost s = s0.skip(k);
        let pred = match role {
            Role::Request => get_request_pdu_len(buf),
            Role::Response => get_response_pdu_len(buf),
        };
        match pred {
            Ok(Some(n)) => {
                proof {
                    lemma_hint_bound(role, s);
                }
                match frame_decoder.decode(buf, n) {
                    Ok(Some(f)) => {
                        proof {
                            assert(s.skip(n as int + 3) =~= s0.skip(k + n + 3));
                            assert(s0.take(drive(role, s0).consumed) == s0.take(k + n + 3));
                        }
                        return Ok(Some(f));
                    },
                    Ok(None) => {
                        proof {
                            assert(drive(role, s).consumed == 0);
                            assert(s0.take(k) == s0.take(drive(role, s0).consumed));
                        }
                        return Ok(None);
                    },
                    Err(_e) => {
                        frame_decoder.recover_on_error(buf);
                        proof {
                            assert(s[0] == s0[k]);
                            assert(s.skip(1) =~= s0.skip(k + 1));
                            assert(s0.take(k + 1) =~= s0.take(k).push(s0[k]));
                            lemma_log_after_snoc(log0, s0.take(k), s0[k]);
                            k = k + 1;
                        }
                    },
                }
            },
            Ok(None) => {
                proof {
                    assert(drive(role, s).consumed == 0);
                    assert(s0.take(k) == s0.take(drive(role, s0).consumed));
                }
                return Ok(None);
            },
            Err(_e) => {
                frame_decoder.recover_on_error(buf);
                proof {
                    assert(s[0] == s0[k]);
                    assert(s.skip(1) =~= s0.skip(k + 1));
                    assert(s0.take(k + 1) =~= s0.take(k).push(s0[k]));
                    lemma_log_after_snoc(log0, s0.take(k), s0[k]);
                    k = k + 1;
                }
            },
        }
    }
}

/// Decodes request frames arriving at a server.
pub struct RequestDecoder {
    frame_decoder: FrameDecoder,
}

/// Decodes response frames arriving at a client.
pub struct ResponseDecoder {
    frame_decoder: FrameDecoder,
}

impl RequestDecoder {
    /// The bytes dropped so far while resynchronizing, oldest first.
    pub closed spec fn dropped(self) -> Seq<u8> {
        self.frame_decoder.dropped()
    }

    /// The dropped-byte log never exceeds one maximum frame.
    pub open spec fn wf(self) -> bool {
        self.dropped().len() <= MAX_FRAME_LEN
    }

    /// Decode the next request frame from `buf`.  The request-side length
    /// table never faults, so any buffer contents are acceptable.
    pub fn decode(&mut self, buf: &mut bytes::BytesMut) -> (r: Result<
        Option<(SlaveId, bytes::Bytes)>,
        CodecError,
    >)
        requires
            old(self).wf(),
        ensures
            final(self).wf(),
            ({
                let s = buf_bytes(*old(buf));
                let d = drive(Role::Request, s);
                &&& buf_bytes(*final(buf)) == s.skip(d.consumed)
                &&& (d.outcome matches Outcome::NeedMore ==> {
                    &&& r == Ok::<Option<(SlaveId, bytes::Bytes)>, CodecError>(None)
                    &&& final(self).dropped() == log_after(old(self).dropped(), s.take(d.consumed))
                })
                &&& (d.outcome matches Outcome::Frame(slave, pdu) ==> {
                    &&& r matches Ok(Some(f)) && f.0 == slave && pdu_bytes(f.1) == pdu
                    &&& final(self).dropped() == Seq::<u8>::empty()
                })
            }),
    {
        proof {
            lemma_request_resync_safe(buf_bytes(*buf));
        }
        decode(Role::Request, &mut self.frame_decoder, buf)
    }
}

impl ResponseDecoder {
    /// The bytes dropped so far while resynchronizing, oldest first.
    pub closed spec fn dropped(self) -> Seq<u8> {
        self.frame_decoder.dropped()
    }

    /// The dropped-byte log never exceeds one maximum frame.
    pub open spec fn wf(self) -> bool {
        self.dropped().len() <= MAX_FRAME_LEN
    }

    /// Decode the next response frame from `buf`.
    pub fn decode(&mut self, buf: &mut bytes::BytesMut) -> (r: Result<
        Option<(SlaveId, bytes::Bytes)>,
        CodecError,
    >)
        requires
            old(self).wf(),
            resync_safe(Role::Response, buf_bytes(*old(buf))),
        ensures
            final(self).wf(),
            ({
                let s = buf_bytes(*old(buf));
                let d = drive(Role::Response, s);
                &&& buf_bytes(*final(buf)) == s.skip(d.consumed)
                &&& (d.outcome matches Outcome::NeedMore ==> {
                    &&& r == Ok::<Option<(SlaveId, bytes::Bytes)>, CodecError>(None)
                    &&& final(self).dropped() == log_after(old(self).dropped(), s.take(d.consumed))
                })
                &&& (d.outcome matches Outcome::Frame(slave, pdu) ==> {
                    &&& r matches Ok(Some(f)) && f.0 == slave && pdu_bytes(f.1) == pdu
                    &&& final(self).dropped() == Seq::<u8>::empty()
                })
            }),
    {
        decode(Role::Response, &mut self.frame_decoder, buf)
    }
}

impl Default for RequestDecoder {
    /// A decoder with an empty dropped-byte log.
    fn default() -> (r: Self)
        ensures
            r.dropped() == Seq::<u8>::empty(),
            r.wf(),
    {
        RequestDecoder { frame_decoder: FrameDecoder::default() }
    }
}

impl Default for ResponseDecoder {
    /// A decoder with an empty dropped-byte log.
    fn default() -> (r: Self)
        ensures
            r.dropped() == Seq::<u8>::empty(),
            r.wf(),
    {
        ResponseDecoder { frame_decoder: FrameDecoder::default() }
    }
}

/// The on-wire image of a frame: the address byte, the PDU, and the
/// CRC-16/Modbus of both, low byte first on the wire.
pub open spec fn encoded_frame(slave_id: SlaveId, pdu: Seq<u8>) -> Seq<u8> {
    let adu = seq![slave_id] + pdu;
    adu + seq![(crc16(adu) >> 8) as u8, crc16(adu) as u8]
}

/// Serialize one ADU into `buf`: reserve capacity, append the address and
/// the PDU, and append the CRC computed over the just-appended bytes.
pub fn encode_adu(slave_id: SlaveId, pdu: &[u8], buf: &mut bytes::BytesMut)
    requires
        pdu@.len() + 3 <= usize::MAX,
    ensures
        buf_bytes(*final(buf)) == buf_bytes(*old(buf)) + encoded_frame(slave_id, pdu@),
{
    buf_reserve(buf, pdu.len() + 3);
    buf_put_u8(buf, slave_id);
    buf_put_slice(buf, pdu);
    let crc = calc_crc_adu(slave_id, pdu);
    buf_put_u16_be(buf, crc);
    proof {
        assert(buf_bytes(*buf) =~= buf_bytes(*old(buf)) + encoded_frame(slave_id, pdu@));
    }
}

/// The client-side codec: decodes response ADUs and encodes request ADUs.
pub struct ClientCodec {
    decoder: ResponseDecoder,
}

/// The server-side codec: decodes request ADUs and encodes response ADUs.
pub struct ServerCodec {
    decoder: RequestDecoder,
}

impl ClientCodec {
    /// The bytes dropped so far while resynchronizing, oldest first.
    pub closed spec fn dropped(self) -> Seq<u8> {
        self.decoder.dropped()
    }

    /// The dropped-byte log never exceeds one maximum frame.
    pub open spec fn wf(self) -> bool {
        self.dropped().len() <= MAX_FRAME_LEN
    }

    /// Decode the next response ADU from `buf`.  The PDU stays an opaque
    /// byte slice whose first byte is the function code; parsing it is a
    /// higher layer's concern.
    pub fn decode(&mut self, buf: &mut bytes::BytesMut) -> (r: Result<
        Option<ResponseAdu>,
        CodecError,
    >)
        requires
            old(self).wf(),
            resync_safe(Role::Response, buf_bytes(*old(buf))),
        ensures
            final(self).wf(),
            ({
                let s = buf_bytes(*old(buf));
                let d = drive(Role::Response, s);
                &&& buf_bytes(*final(buf)) == s.skip(d.consumed)
                &&& (d.outcome matches Outcome::NeedMore ==> {
                    &&& r == Ok::<Option<ResponseAdu>, CodecError>(None)
                    &&& final(self).dropped() == log_after(old(self).dropped(), s.take(d.consumed))
                })
                &&& (d.outcome matches Outcome::Frame(slave, pdu) ==> {
                    &&& r matches Ok(Some(adu)) && adu.hdr.slave_id == slave && pdu_bytes(adu.pdu)
                        == pdu
                    &&& final(self).dropped() == Seq::<u8>::empty()
                })
            }),
    {
        match self.decoder.decode(buf) {
            Ok(Some((slave_id, pdu_data))) => Ok(
                Some(ResponseAdu { hdr: Header { slave_id }, pdu: pdu_data }),
            ),
            Ok(None) => Ok(None),
            Err(e) => Err(e),
        }
    }

    /// Encode a request ADU into `buf`.  A request flagged `disconnect`
    /// emits nothing and surfaces the not-connected sentinel by which the
    /// higher level tears the transport down.
    pub fn encode(&mut self, adu: RequestAdu, buf: &mut bytes::BytesMut) -> (r: Result<
        (),
        CodecError,
    >)
        requires
            pdu_bytes(adu.pdu).len() + 3 <= usize::MAX,
        ensures
            adu.disconnect ==> r == Err::<(), CodecError>(CodecError::NotConnected) && buf_bytes(
                *final(buf),
            ) == buf_bytes(*old(buf)),
            !adu.disconnect ==> r == Ok::<(), CodecError>(()) && buf_bytes(*final(buf))
                == buf_bytes(*old(buf)) + encoded_frame(adu.hdr.slave_id, pdu_bytes(adu.pdu)),
    {
        if adu.disconnect {
            // The disconnect happens implicitly after letting this request
            // fail: the caller drops the attached transport.
            return Err(CodecError::NotConnected);
        }
        let pdu_slice = pdu_as_slice(&adu.pdu);
        encode_adu(adu.hdr.slave_id, pdu_slice, buf);
        Ok(())
    }
}

impl ServerCodec {
    /// The bytes dropped so far while resynchronizing, oldest first.
    pub closed spec fn dropped(self) -> Seq<u8> {
        self.decoder.dropped()
    }

    /// The dropped-byte log never exceeds one maximum frame.
    pub open spec fn wf(self) -> bool {
        self.dropped().len() <= MAX_FRAME_LEN
    }

    /// Decode the next request ADU from `buf`.  The codec itself never
    /// raises the disconnect flag; only the client encoder path does.
    pub fn decode(&mut self, buf: &mut bytes::BytesMut) -> (r: Result<
        Option<RequestAdu>,
        CodecError,
    >)
        requires
            old(self).wf(),
        ensures
            final(self).wf(),
            ({
                let s = buf_bytes(*old(buf));
                let d = drive(Role::Request, s);
                &&& buf_bytes(*final(buf)) == s.skip(d.consumed)
                &&& (d.outcome matches Outcome::NeedMore ==> {
                    &&& r == Ok::<Option<RequestAdu>, CodecError>(None)
                    &&& final(self).dropped() == log_after(old(self).dropped(), s.take(d.consumed))
                })
                &&& (d.outcome matches Outcome::Frame(slave, pdu) ==> {
                    &&& r matches Ok(Some(adu)) && adu.hdr.slave_id == slave && pdu_bytes(adu.pdu)
                        == pdu && !adu.disconnect
                    &&& final(self).dropped() == Seq::<u8>::empty()
                })
            }),
    {
        match self.decoder.decode(buf) {
            Ok(Some((slave_id, pdu_data))) => Ok(
                Some(RequestAdu { hdr: Header { slave_id }, pdu: pdu_data, disconnect: false }),
            ),
            Ok(None) => Ok(None),
            Err(e) => Err(e),
        }
    }

    /// Encode a response ADU into `buf`.
    pub fn encode(&mut self, adu: ResponseAdu, buf: &mut bytes::BytesMut) -> (r: Result<
        (),
        CodecError,
    >)
        requires
            pdu_bytes(adu.pdu).len() + 3 <= usize::MAX,
        ensures
            r == Ok::<(), CodecError>(()),
            buf_bytes(*final(buf)) == buf_bytes(*old(buf)) + encoded_frame(
                adu.hdr.slave_id,
                pdu_bytes(adu.pdu),
            ),
    {
        let pdu_slice = pdu_as_slice(&adu.pdu);
        encode_adu(adu.hdr.slave_id, pdu_slice, buf);
        Ok(())
    }
}

impl Default for ClientCodec {
    /// A codec with an empty dropped-byte log.
    fn default() -> (r: Self)
        ensures
            r.dropped() == Seq::<u8>::empty(),
            r.wf(),
    {
        ClientCodec { decoder: ResponseDecoder::default() }
    }
}

impl Default for ServerCodec {
    /// A codec with an empty dropped-byte log.
    fn default() -> (r: Self)
        ensures
            r.dropped() == Seq::<u8>::empty(),
            r.wf(),
    {
        ServerCodec { decoder: RequestDecoder::default() }
    }
}

} // verus!
