//! Tests of the streaming behaviour: round trips, recovery from noise,
//! and the dropped-byte log.

use bytes::{Bytes, BytesMut};
use modbus_rtu::frame::{Header, RequestAdu, ResponseAdu};
use modbus_rtu::rtu::{decode, ClientCodec, FrameDecoder, Role, ServerCodec};

#[test]
fn round_trip_response_frame() {
    // A ReadHoldingRegisters response: function code, byte count 2, one
    // register.  The response table predicts its length from the byte
    // count, so decoding recovers exactly what was encoded.
    let mut server = ServerCodec::default();
    let mut wire = BytesMut::new();
    let pdu = Bytes::from_static(&[0x03, 0x02, 0xAB, 0xCD]);
    let adu = ResponseAdu { hdr: Header { slave_id: 0x11 }, pdu: pdu.clone() };
    server.encode(adu, &mut wire).unwrap();
    assert_eq!(wire.len(), pdu.len() + 3);

    let mut client = ClientCodec::default();
    let decoded = client.decode(&mut wire).unwrap().unwrap();
    assert_eq!(decoded.hdr.slave_id, 0x11);
    assert_eq!(decoded.pdu, pdu);
    assert_eq!(wire.len(), 0);
}

#[test]
fn round_trip_request_frame() {
    // A ReadHoldingRegisters request: fixed five-byte PDU.
    let mut client = ClientCodec::default();
    let mut wire = BytesMut::new();
    let pdu = Bytes::from_static(&[0x03, 0x00, 0x6B, 0x00, 0x01]);
    let adu = RequestAdu { hdr: Header { slave_id: 0x2A }, pdu: pdu.clone(), disconnect: false };
    client.encode(adu, &mut wire).unwrap();
    assert_eq!(wire.len(), pdu.len() + 3);

    let mut server = ServerCodec::default();
    let decoded = server.decode(&mut wire).unwrap().unwrap();
    assert_eq!(decoded.hdr.slave_id, 0x2A);
    assert_eq!(decoded.pdu, pdu);
    assert!(!decoded.disconnect);
    assert_eq!(wire.len(), 0);
}

#[test]
fn long_garbage_run_is_skipped() {
    // More noise than one maximum frame: the dropped-byte log recycles,
    // and the valid frame that follows is still recognized.
    let mut buf = BytesMut::new();
    buf.extend_from_slice(&[0x42u8; 300]);
    buf.extend_from_slice(&[0x01, 0x03, 0x04, 0x89, 0x02, 0x42, 0xC7, 0x00, 0x9D]);
    let mut codec = ClientCodec::default();
    let adu = codec.decode(&mut buf).unwrap().unwrap();
    assert_eq!(adu.hdr.slave_id, 0x01);
    assert_eq!(&adu.pdu[..], &[0x03, 0x04, 0x89, 0x02, 0x42, 0xC7]);
    assert_eq!(buf.len(), 0);
}

#[test]
fn dropped_bytes_are_logged_until_a_frame_decodes() {
    let mut frame_decoder = FrameDecoder::default();
    let mut buf = BytesMut::new();
    buf.extend_from_slice(&[0x42, 0x43]);

    // Only noise so far: one byte is dropped and logged, then the single
    // remaining byte is not enough to decide anything.
    let res = decode(Role::Response, &mut frame_decoder, &mut buf).unwrap();
    assert!(res.is_none());
    assert_eq!(buf.len(), 1);
    assert_eq!(frame_decoder.dropped_len(), 1);

    // The rest of a valid frame arrives (plus one trailing byte): the
    // remaining noise byte is dropped too, the frame decodes, and the
    // log is cleared.
    buf.extend_from_slice(&[0x01, 0x03, 0x04, 0x89, 0x02, 0x42, 0xC7, 0x00, 0x9D, 0x00]);
    let (slave_id, pdu) = decode(Role::Response, &mut frame_decoder, &mut buf).unwrap().unwrap();
    assert_eq!(slave_id, 0x01);
    assert_eq!(&pdu[..], &[0x03, 0x04, 0x89, 0x02, 0x42, 0xC7]);
    assert_eq!(frame_decoder.dropped_len(), 0);
    assert_eq!(buf.len(), 1);
}
