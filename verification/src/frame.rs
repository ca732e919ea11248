//! Typed frames: the raw Application Data Units the codec produces and
//! consumes, and the domain-level requests and responses of the client
//! layer.  The PDU inside an ADU is an opaque byte slice whose first byte
//! is the function code; parsing it further is the concern of a higher
//! layer.

use crate::slave::SlaveId;
use vstd::prelude::*;

verus! {

/// A register or coil address.
pub type Address = u16;

/// A number of coils or registers.
pub type Quantity = u16;

/// A 16-bit register value.
pub type Word = u16;

/// A single on/off value.
pub type Coil = bool;

/// The header of an Application Data Unit: the slave address.
#[derive(Clone, Copy, Debug, PartialEq, Eq, Structural)]
pub struct Header {
    pub slave_id: SlaveId,
}

/// A request frame: header, opaque PDU bytes, and the disconnect sentinel
/// by which the higher level tears the transport down.  The codec never
/// emits bytes for a request whose `disconnect` flag is set.
pub struct RequestAdu {
    pub hdr: Header,
    pub pdu: bytes::Bytes,
    pub disconnect: bool,
}

/// A response frame: header and opaque PDU bytes.
pub struct ResponseAdu {
    pub hdr: Header,
    pub pdu: bytes::Bytes,
}

/// A domain-level request, as handed to a transport client.
#[derive(Clone, Debug, PartialEq)]
pub enum Request {
    ReadCoils(Address, Quantity),
    ReadDiscreteInputs(Address, Quantity),
    ReadHoldingRegisters(Address, Quantity),
    ReadInputRegisters(Address, Quantity),
    ReadWriteMultipleRegisters(Address, Quantity, Address, Vec<Word>),
    WriteSingleCoil(Address, Coil),
    WriteMultipleCoils(Address, Vec<Coil>),
    WriteSingleRegister(Address, Word),
    WriteMultipleRegisters(Address, Vec<Word>),
    Disconnect,
}

/// A domain-level response, as handed back by a transport client.
#[derive(Clone, Debug, PartialEq)]
pub enum Response {
    ReadCoils(Vec<Coil>),
    ReadDiscreteInputs(Vec<Coil>),
    ReadHoldingRegisters(Vec<Word>),
    ReadInputRegisters(Vec<Word>),
    ReadWriteMultipleRegisters(Vec<Word>),
    WriteSingleCoil(Address, Coil),
    WriteMultipleCoils(Address, Quantity),
    WriteSingleRegister(Address, Word),
    WriteMultipleRegisters(Address, Quantity),
}

} // verus!
