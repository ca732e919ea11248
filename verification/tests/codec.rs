//! Tests of the RTU codec: CRC, length prediction, frame decoding,
//! resynchronization, and encoding.

use bytes::{Bytes, BytesMut};
use modbus_rtu::crc::calc_crc;
use modbus_rtu::error::CodecError;
use modbus_rtu::frame::{Header, RequestAdu, ResponseAdu};
use modbus_rtu::rtu::{
    get_request_pdu_len, get_response_pdu_len, ClientCodec, FrameDecoder, ServerCodec,
};

#[test]
fn test_calc_crc() {
    let msg = vec![0x01, 0x03, 0x08, 0x2B, 0x00, 0x02];
    assert_eq!(calc_crc(&msg), 0xB663);

    let msg = vec![0x01, 0x03, 0x04, 0x00, 0x20, 0x00, 0x00];
    assert_eq!(calc_crc(&msg), 0xFBF9);
}

#[test]
fn test_get_request_pdu_len() {
    let mut buf = BytesMut::new();

    buf.extend_from_slice(&[0x66, 0, 0, 0, 0, 0, 0, 0, 0, 0, 0, 0]);
    assert!(get_request_pdu_len(&buf).is_err());

    buf[1] = 0x01;
    assert_eq!(get_request_pdu_len(&buf).unwrap(), Some(5));

    buf[1] = 0x02;
    assert_eq!(get_request_pdu_len(&buf).unwrap(), Some(5));

    buf[1] = 0x03;
    assert_eq!(get_request_pdu_len(&buf).unwrap(), Some(5));

    buf[1] = 0x04;
    assert_eq!(get_request_pdu_len(&buf).unwrap(), Some(5));

    buf[1] = 0x05;
    assert_eq!(get_request_pdu_len(&buf).unwrap(), Some(5));

    buf[1] = 0x06;
    assert_eq!(get_request_pdu_len(&buf).unwrap(), Some(5));

    buf[1] = 0x07;
    assert_eq!(get_request_pdu_len(&buf).unwrap(), Some(1));

    buf[1] = 0x0B;
    assert_eq!(get_request_pdu_len(&buf).unwrap(), Some(1));

    buf[1] = 0x0C;
    assert_eq!(get_request_pdu_len(&buf).unwrap(), Some(1));

    buf[1] = 0x0F;
    buf[6] = 99;
    assert_eq!(get_request_pdu_len(&buf).unwrap(), Some(105));

    buf[1] = 0x10;
    buf[6] = 99;
    assert_eq!(get_request_pdu_len(&buf).unwrap(), Some(105));

    buf[1] = 0x11;
    assert_eq!(get_request_pdu_len(&buf).unwrap(), Some(1));

    buf[1] = 0x16;
    assert_eq!(get_request_pdu_len(&buf).unwrap(), Some(7));

    buf[1] = 0x17;
    buf[10] = 99; // write byte count
    assert_eq!(get_request_pdu_len(&buf).unwrap(), Some(109));

    buf[1] = 0x18;
    assert_eq!(get_request_pdu_len(&buf).unwrap(), Some(3));
}

#[test]
fn test_get_response_pdu_len() {
    let mut buf = BytesMut::new();
    buf.extend_from_slice(&[0x66, 0x01, 99]);
    assert_eq!(get_response_pdu_len(&buf).unwrap(), Some(101));

    let mut buf = BytesMut::new();
    buf.extend_from_slice(&[0x66, 0x00, 99, 0x00]);
    assert!(get_response_pdu_len(&buf).is_err());

    buf[1] = 0x01;
    assert_eq!(get_response_pdu_len(&buf).unwrap(), Some(101));

    buf[1] = 0x02;
    assert_eq!(get_response_pdu_len(&buf).unwrap(), Some(101));

    buf[1] = 0x03;
    assert_eq!(get_response_pdu_len(&buf).unwrap(), Some(101));

    buf[1] = 0x04;
    assert_eq!(get_response_pdu_len(&buf).unwrap(), Some(101));

    buf[1] = 0x05;
    assert_eq!(get_response_pdu_len(&buf).unwrap(), Some(5));

    buf[1] = 0x06;
    assert_eq!(get_response_pdu_len(&buf).unwrap(), Some(5));

    buf[1] = 0x07;
    assert_eq!(get_response_pdu_len(&buf).unwrap(), Some(2));

    buf[1] = 0x0B;
    assert_eq!(get_response_pdu_len(&buf).unwrap(), Some(5));

    buf[1] = 0x0C;
    assert_eq!(get_response_pdu_len(&buf).unwrap(), Some(101));

    buf[1] = 0x0F;
    assert_eq!(get_response_pdu_len(&buf).unwrap(), Some(5));

    buf[1] = 0x10;
    assert_eq!(get_response_pdu_len(&buf).unwrap(), Some(5));

    buf[1] = 0x16;
    assert_eq!(get_response_pdu_len(&buf).unwrap(), Some(7));

    buf[1] = 0x17;
    assert_eq!(get_response_pdu_len(&buf).unwrap(), Some(101));

    buf[1] = 0x18;
    buf[2] = 0x01; // byte count Hi
    buf[3] = 0x00; // byte count Lo
    assert_eq!(get_response_pdu_len(&buf).unwrap(), Some(259));

    for i in 0x81..0xAB {
        buf[1] = i;
        assert_eq!(get_response_pdu_len(&buf).unwrap(), Some(2));
    }
}

#[test]
fn decode_partly_received_client_message() {
    let mut codec = ClientCodec::default();
    let mut buf = BytesMut::from(
        &[
            0x12, // slave address
            0x02, // function code
            0x03, // byte count
            0x00, // data
            0x00, // data
            0x00, // data
            0x00, // CRC first byte
                  // missing crc second byte
        ][..],
    );
    let res = codec.decode(&mut buf).unwrap();
    assert!(res.is_none());
    assert_eq!(buf.len(), 7);
}

#[test]
fn decode_empty_client_message() {
    let mut codec = ClientCodec::default();
    let mut buf = BytesMut::new();
    assert_eq!(0, buf.len());

    let res = codec.decode(&mut buf).unwrap();

    assert!(res.is_none());
    assert_eq!(0, buf.len());
}

#[test]
fn decode_single_byte_client_message() {
    let mut codec = ClientCodec::default();
    let mut buf = BytesMut::from(&[0x00][..]);
    assert_eq!(1, buf.len());

    let res = codec.decode(&mut buf).unwrap();

    assert!(res.is_none());
    assert_eq!(1, buf.len());
}

#[test]
fn decode_empty_server_message() {
    let mut codec = ServerCodec::default();
    let mut buf = BytesMut::new();
    assert_eq!(0, buf.len());

    let res = codec.decode(&mut buf).unwrap();

    assert!(res.is_none());
    assert_eq!(0, buf.len());
}

#[test]
fn decode_single_byte_server_message() {
    let mut codec = ServerCodec::default();
    let mut buf = BytesMut::from(&[0x00][..]);
    assert_eq!(1, buf.len());

    let res = codec.decode(&mut buf).unwrap();

    assert!(res.is_none());
    assert_eq!(1, buf.len());
}

#[test]
fn decode_partly_received_server_message_0x16() {
    let mut codec = ServerCodec::default();
    let mut buf = BytesMut::from(
        &[
            0x12, // slave address
            0x16, // function code
        ][..],
    );
    assert_eq!(buf.len(), 2);

    let res = codec.decode(&mut buf).unwrap();

    assert!(res.is_none());
    assert_eq!(buf.len(), 2);
}

#[test]
fn decode_partly_received_server_message_0x0f() {
    let mut codec = ServerCodec::default();
    let mut buf = BytesMut::from(
        &[
            0x12, // slave address
            0x0F, // function code
        ][..],
    );
    assert_eq!(buf.len(), 2);

    let res = codec.decode(&mut buf).unwrap();

    assert!(res.is_none());
    assert_eq!(buf.len(), 2);
}

#[test]
fn decode_partly_received_server_message_0x10() {
    let mut codec = ServerCodec::default();
    let mut buf = BytesMut::from(
        &[
            0x12, // slave address
            0x10, // function code
        ][..],
    );
    assert_eq!(buf.len(), 2);

    let res = codec.decode(&mut buf).unwrap();

    assert!(res.is_none());
    assert_eq!(buf.len(), 2);
}

#[test]
fn decode_rtu_message() {
    let mut codec = ClientCodec::default();
    let mut buf = BytesMut::from(
        &[
            0x01, // slave address
            0x03, // function code
            0x04, // byte count
            0x89, //
            0x02, //
            0x42, //
            0xC7, //
            0x00, // crc
            0x9D, // crc
            0x00,
        ][..],
    );
    let ResponseAdu { hdr, pdu } = codec.decode(&mut buf).unwrap().unwrap();
    assert_eq!(buf.len(), 1);
    assert_eq!(hdr.slave_id, 0x01);
    // The PDU stays an opaque byte slice whose first byte is the
    // function code; parsing it further is a higher layer's concern.
    assert_eq!(&pdu[..], &[0x03, 0x04, 0x89, 0x02, 0x42, 0xC7]);
}

#[test]
fn decode_rtu_response_drop_invalid_bytes() {
    let mut codec = ClientCodec::default();
    let mut buf = BytesMut::from(
        &[
            0x42, // dropped byte
            0x43, // dropped byte
            0x01, // slave address
            0x03, // function code
            0x04, // byte count
            0x89, //
            0x02, //
            0x42, //
            0xC7, //
            0x00, // crc
            0x9D, // crc
            0x00,
        ][..],
    );
    let ResponseAdu { hdr, pdu } = codec.decode(&mut buf).unwrap().unwrap();
    assert_eq!(buf.len(), 1);
    assert_eq!(hdr.slave_id, 0x01);
    assert_eq!(&pdu[..], &[0x03, 0x04, 0x89, 0x02, 0x42, 0xC7]);
}

#[test]
fn decode_exception_message() {
    let mut codec = ClientCodec::default();
    let mut buf = BytesMut::from(
        &[
            0x66, //
            0x82, // exception = 0x80 + 0x02
            0x03, //
            0xB1, // crc
            0x7E, // crc
        ][..],
    );

    let ResponseAdu { pdu, .. } = codec.decode(&mut buf).unwrap().unwrap();
    // Function code 2 with exception code 3 ("Illegal data value");
    // mapping it to a typed error is the PDU parser's concern.
    assert_eq!(&pdu[..], &[0x82, 0x03]);
    assert_eq!(buf.len(), 0);
}

#[test]
fn encode_read_request() {
    let mut codec = ClientCodec::default();
    let mut buf = BytesMut::new();
    // The PDU of ReadHoldingRegisters(0x082B, 2): function code, address,
    // quantity, both big-endian.
    let pdu = Bytes::from_static(&[0x03, 0x08, 0x2B, 0x00, 0x02]);
    let slave_id = 0x01;
    let hdr = Header { slave_id };
    let adu = RequestAdu { hdr, pdu, disconnect: false };
    codec.encode(adu, &mut buf).unwrap();

    assert_eq!(buf, Bytes::from_static(&[0x01, 0x03, 0x08, 0x2B, 0x00, 0x02, 0xB6, 0x63]));
}

#[test]
fn encode_with_limited_buf_capacity() {
    let mut codec = ClientCodec::default();
    let pdu = Bytes::from_static(&[0x03, 0x08, 0x2B, 0x00, 0x02]);
    let slave_id = 0x01;
    let hdr = Header { slave_id };
    let adu = RequestAdu { hdr, pdu, disconnect: false };
    let mut buf = BytesMut::with_capacity(40);
    buf.extend_from_slice(&[0u8; 33]);
    assert!(codec.encode(adu, &mut buf).is_ok());
}

#[test]
fn crc_mismatch_is_non_destructive() {
    let mut decoder = FrameDecoder::default();
    // The frame of decode_rtu_message with its last CRC byte corrupted.
    let original = [0x01, 0x03, 0x04, 0x89, 0x02, 0x42, 0xC7, 0x00, 0x9E];
    let mut buf = BytesMut::new();
    buf.extend_from_slice(&original);
    let err = decoder.decode(&mut buf, 6).unwrap_err();
    assert_eq!(err, CodecError::CrcMismatch { expected: 0x009E, actual: 0x009D });
    // The buffer is restored byte for byte; only resynchronization
    // consumes, and it consumes exactly one byte.
    assert_eq!(&buf[..], &original);
    assert_eq!(decoder.dropped_len(), 0);
    decoder.recover_on_error(&mut buf);
    assert_eq!(buf.len(), original.len() - 1);
    assert_eq!(decoder.dropped_len(), 1);
}

#[test]
fn disconnect_request_encodes_nothing() {
    let mut codec = ClientCodec::default();
    let mut buf = BytesMut::new();
    let adu = RequestAdu {
        hdr: Header { slave_id: 0x01 },
        pdu: Bytes::from_static(&[0x03]),
        disconnect: true,
    };
    assert_eq!(codec.encode(adu, &mut buf), Err(CodecError::NotConnected));
    assert_eq!(buf.len(), 0);
}

#[test]
fn invalid_function_code_error_names_the_code() {
    let mut buf = BytesMut::new();
    buf.extend_from_slice(&[0x66, 0x00, 0x00, 0x00]);
    assert_eq!(get_request_pdu_len(&buf), Err(CodecError::InvalidFunctionCode(0x00)));
    assert_eq!(get_response_pdu_len(&buf), Err(CodecError::InvalidFunctionCode(0x00)));
}

#[test]
fn request_len_prediction_waits_for_byte_count() {
    // Function 0x10 with the byte count at offset 6 still missing.
    let mut buf = BytesMut::new();
    buf.extend_from_slice(&[0x11, 0x10, 0x00, 0x01, 0x00, 0x02]);
    assert_eq!(get_request_pdu_len(&buf).unwrap(), None);
}
