//! The client layer: typed read/write calls over a transport client.
//!
//! A [`Client`] is the transport: it carries one request to the wire and
//! hands back one response, and nothing is assumed about what it returns.
//! What the client layer itself does with a response — truncating a coil
//! payload, checking an echo, rejecting a length mismatch — is stated
//! exactly, one validation function per operation, and the [`Context`]
//! methods are verified against those statements.

use crate::error::CodecError;
use crate::frame::{Address, Coil, Quantity, Request, Response, Word};
use crate::slave::{Slave, SlaveContext};
use vstd::prelude::*;
use vstd::slice::slice_to_vec;

verus! {

/// Transport-independent client: hands a request to the transport and
/// returns its response, or a transport error.
pub trait Client: SlaveContext {
    /// Invoke a Modbus function.
    fn call(&mut self, request: Request) -> Result<Response, CodecError>;
}

/// Typed read operations of a Modbus client.
pub trait Reader: Client {
    /// Read multiple coils (0x01).
    fn read_coils(&mut self, addr: Address, cnt: Quantity) -> (r: Result<Vec<Coil>, CodecError>)
        ensures
            r matches Ok(coils) ==> coils@.len() <= cnt,
    ;

    /// Read multiple discrete inputs (0x02).
    fn read_discrete_inputs(&mut self, addr: Address, cnt: Quantity) -> (r: Result<
        Vec<Coil>,
        CodecError,
    >)
        ensures
            r matches Ok(coils) ==> coils@.len() <= cnt,
    ;

    /// Read multiple holding registers (0x03).
    fn read_holding_registers(&mut self, addr: Address, cnt: Quantity) -> (r: Result<
        Vec<Word>,
        CodecError,
    >)
        ensures
            r matches Ok(words) ==> words@.len() == cnt,
    ;

    /// Read multiple input registers (0x04).
    fn read_input_registers(&mut self, addr: Address, cnt: Quantity) -> (r: Result<
        Vec<Word>,
        CodecError,
    >)
        ensures
            r matches Ok(words) ==> words@.len() == cnt,
    ;

    /// Read and write multiple holding registers (0x17).  The write
    /// operation is performed before the read, unlike the name of the
    /// operation might suggest.
    fn read_write_multiple_registers(
        &mut self,
        read_addr: Address,
        read_cnt: Quantity,
        write_addr: Address,
        write_data: &[Word],
    ) -> (r: Result<Vec<Word>, CodecError>)
        ensures
            r matches Ok(words) ==> words@.len() == read_cnt,
    ;
}

/// Typed write operations of a Modbus client.
pub trait Writer: Client {
    /// Write a single coil (0x05).
    fn write_single_coil(&mut self, addr: Address, coil: Coil) -> Result<(), CodecError>;

    /// Write a single holding register (0x06).
    fn write_single_register(&mut self, addr: Address, data: Word) -> Result<(), CodecError>;

    /// Write multiple coils (0x0F).
    fn write_multiple_coils(&mut self, addr: Address, coils: &[Coil]) -> Result<(), CodecError>;

    /// Write multiple holding registers (0x10).
    fn write_multiple_registers(&mut self, addr: Address, data: &[Word]) -> Result<
        (),
        CodecError,
    >;
}

/// What the client makes of a coil-read response: the first `cnt` coils
/// of the payload (the protocol always returns whole bytes, so the
/// payload may be longer than asked), or the error for any other kind.
pub fn read_coils_response(cnt: Quantity, rsp: Response) -> (r: Result<Vec<Coil>, CodecError>)
    ensures
        match rsp {
            Response::ReadCoils(coils) => r matches Ok(c) && c@ == coils@.take(
                if cnt <= coils@.len() {
                    cnt as int
                } else {
                    coils@.len() as int
                },
            ),
            _ => r == Err::<Vec<Coil>, CodecError>(CodecError::UnexpectedResponse),
        },
{
    match rsp {
        Response::ReadCoils(mut coils) => {
            proof {
                assert(coils@.take(coils@.len() as int) =~= coils@);
            }
            coils.truncate(cnt as usize);
            Ok(coils)
        },
        _ => Err(CodecError::UnexpectedResponse),
    }
}

/// As [`read_coils_response`], for discrete inputs.
pub fn read_discrete_inputs_response(cnt: Quantity, rsp: Response) -> (r: Result<
    Vec<Coil>,
    CodecError,
>)
    ensures
        match rsp {
            Response::ReadDiscreteInputs(inputs) => r matches Ok(c) && c@ == inputs@.take(
                if cnt <= inputs@.len() {
                    cnt as int
                } else {
                    inputs@.len() as int
                },
            ),
            _ => r == Err::<Vec<Coil>, CodecError>(CodecError::UnexpectedResponse),
        },
{
    match rsp {
        Response::ReadDiscreteInputs(mut inputs) => {
            proof {
                assert(inputs@.take(inputs@.len() as int) =~= inputs@);
            }
            inputs.truncate(cnt as usize);
            Ok(inputs)
        },
        _ => Err(CodecError::UnexpectedResponse),
    }
}

/// What the client makes of a holding-register read: the payload exactly
/// as received when it has the requested length, the invalid-response
/// error when it does not, the unexpected-response error for any other
/// response kind.
pub fn read_holding_registers_response(cnt: Quantity, rsp: Response) -> (r: Result<
    Vec<Word>,
    CodecError,
>)
    ensures
        match rsp {
            Response::ReadHoldingRegisters(words) => if words@.len() == cnt {
                r matches Ok(w) && w@ == words@
            } else {
                r == Err::<Vec<Word>, CodecError>(CodecError::InvalidResponse)
            },
            _ => r == Err::<Vec<Word>, CodecError>(CodecError::UnexpectedResponse),
        },
{
    match rsp {
        Response::ReadHoldingRegisters(words) => {
            if words.len() != cnt as usize {
                return Err(CodecError::InvalidResponse);
            }
            Ok(words)
        },
        _ => Err(CodecError::UnexpectedResponse),
    }
}

/// As [`read_holding_registers_response`], for input registers.
pub fn read_input_registers_response(cnt: Quantity, rsp: Response) -> (r: Result<
    Vec<Word>,
    CodecError,
>)
    ensures
        match rsp {
            Response::ReadInputRegisters(words) => if words@.len() == cnt {
                r matches Ok(w) && w@ == words@
            } else {
                r == Err::<Vec<Word>, CodecError>(CodecError::InvalidResponse)
            },
            _ => r == Err::<Vec<Word>, CodecError>(CodecError::UnexpectedResponse),
        },
{
    match rsp {
        Response::ReadInputRegisters(words) => {
            if words.len() != cnt as usize {
                return Err(CodecError::InvalidResponse);
            }
            Ok(words)
        },
        _ => Err(CodecError::UnexpectedResponse),
    }
}

/// As [`read_holding_registers_response`], for the combined
/// read/write-multiple-registers operation; `cnt` is the read count.
pub fn read_write_multiple_registers_response(cnt: Quantity, rsp: Response) -> (r: Result<
    Vec<Word>,
    CodecError,
>)
    ensures
        match rsp {
            Response::ReadWriteMultipleRegisters(words) => if words@.len() == cnt {
                r matches Ok(w) && w@ == words@
            } else {
                r == Err::<Vec<Word>, CodecError>(CodecError::InvalidResponse)
            },
            _ => r == Err::<Vec<Word>, CodecError>(CodecError::UnexpectedResponse),
        },
{
    match rsp {
        Response::ReadWriteMultipleRegisters(words) => {
            if words.len() != cnt as usize {
                return Err(CodecError::InvalidResponse);
            }
            Ok(words)
        },
        _ => Err(CodecError::UnexpectedResponse),
    }
}

/// What the client makes of a single-coil write: success exactly when the
/// device echoed the address and value written.
pub fn write_single_coil_response(addr: Address, coil: Coil, rsp: Response) -> (r: Result<
    (),
    CodecError,
>)
    ensures
        match rsp {
            Response::WriteSingleCoil(a, c) => if a == addr && c == coil {
                r == Ok::<(), CodecError>(())
            } else {
                r == Err::<(), CodecError>(CodecError::InvalidResponse)
            },
            _ => r == Err::<(), CodecError>(CodecError::UnexpectedResponse),
        },
{
    match rsp {
        Response::WriteSingleCoil(a, c) => {
            if a != addr || c != coil {
                return Err(CodecError::InvalidResponse);
            }
            Ok(())
        },
        _ => Err(CodecError::UnexpectedResponse),
    }
}

/// As [`write_single_coil_response`], for a single register.
pub fn write_single_register_response(addr: Address, data: Word, rsp: Response) -> (r: Result<
    (),
    CodecError,
>)
    ensures
        match rsp {
            Response::WriteSingleRegister(a, w) => if a == addr && w == data {
                r == Ok::<(), CodecError>(())
            } else {
                r == Err::<(), CodecError>(CodecError::InvalidResponse)
            },
            _ => r == Err::<(), CodecError>(CodecError::UnexpectedResponse),
        },
{
    match rsp {
        Response::WriteSingleRegister(a, w) => {
            if a != addr || w != data {
                return Err(CodecError::InvalidResponse);
            }
            Ok(())
        },
        _ => Err(CodecError::UnexpectedResponse),
    }
}

/// What the client makes of a multiple-coils write: success exactly when
/// the device echoed the address and the number of coils written.
pub fn write_multiple_coils_response(addr: Address, cnt: usize, rsp: Response) -> (r: Result<
    (),
    CodecError,
>)
    ensures
        match rsp {
            Response::WriteMultipleCoils(a, c) => if a == addr && c == cnt {
                r == Ok::<(), CodecError>(())
            } else {
                r == Err::<(), CodecError>(CodecError::InvalidResponse)
            },
            _ => r == Err::<(), CodecError>(CodecError::UnexpectedResponse),
        },
{
    match rsp {
        Response::WriteMultipleCoils(a, c) => {
            if a != addr || c as usize != cnt {
                return Err(CodecError::InvalidResponse);
            }
            Ok(())
        },
        _ => Err(CodecError::UnexpectedResponse),
    }
}

/// As [`write_multiple_coils_response`], for registers.
pub fn write_multiple_registers_response(addr: Address, cnt: usize, rsp: Response) -> (r: Result<
    (),
    CodecError,
>)
    ensures
        match rsp {
            Response::WriteMultipleRegisters(a, c) => if a == addr && c == cnt {
                r == Ok::<(), CodecError>(())
            } else {
                r == Err::<(), CodecError>(CodecError::InvalidResponse)
            },
            _ => r == Err::<(), CodecError>(CodecError::UnexpectedResponse),
        },
{
    match rsp {
        Response::WriteMultipleRegisters(a, c) => {
            if a != addr || c as usize != cnt {
                return Err(CodecError::InvalidResponse);
            }
            Ok(())
        },
        _ => Err(CodecError::UnexpectedResponse),
    }
}

/// A client context wrapping a concrete transport client.
pub struct Context<C: Client> {
    client: C,
}

impl<C: Client> Context<C> {
    /// Wrap a transport client.
    pub fn new(client: C) -> Self {
        Context { client }
    }
}

impl<C: Client> SlaveContext for Context<C> {
    fn set_slave(&mut self, slave: Slave) {
        self.client.set_slave(slave);
    }
}

impl<C: Client> Client for Context<C> {
    fn call(&mut self, request: Request) -> Result<Response, CodecError> {
        self.client.call(request)
    }
}

impl<C: Client> Reader for Context<C> {
    fn read_coils(&mut self, addr: Address, cnt: Quantity) -> (r: Result<Vec<Coil>, CodecError>) {
        let rsp = match self.client.call(Request::ReadCoils(addr, cnt)) {
            Ok(rsp) => rsp,
            Err(e) => {
                return Err(e);
            },
        };
        read_coils_response(cnt, rsp)
    }

    fn read_discrete_inputs(&mut self, addr: Address, cnt: Quantity) -> (r: Result<
        Vec<Coil>,
        CodecError,
    >) {
        let rsp = match self.client.call(Request::ReadDiscreteInputs(addr, cnt)) {
            Ok(rsp) => rsp,
            Err(e) => {
                return Err(e);
            },
        };
        read_discrete_inputs_response(cnt, rsp)
    }

    fn read_holding_registers(&mut self, addr: Address, cnt: Quantity) -> (r: Result<
        Vec<Word>,
        CodecError,
    >) {
        let rsp = match self.client.call(Request::ReadHoldingRegisters(addr, cnt)) {
            Ok(rsp) => rsp,
            Err(e) => {
                return Err(e);
            },
        };
        read_holding_registers_response(cnt, rsp)
    }

    fn read_input_registers(&mut self, addr: Address, cnt: Quantity) -> (r: Result<
        Vec<Word>,
        CodecError,
    >) {
        let rsp = match self.client.call(Request::ReadInputRegisters(addr, cnt)) {
            Ok(rsp) => rsp,
            Err(e) => {
                return Err(e);
            },
        };
        read_input_registers_response(cnt, rsp)
    }

    fn read_write_multiple_registers(
        &mut self,
        read_addr: Address,
        read_cnt: Quantity,
        write_addr: Address,
        write_data: &[Word],
    ) -> (r: Result<Vec<Word>, CodecError>) {
        let data = slice_to_vec(write_data);
        let rsp = match self.client.call(
            Request::ReadWriteMultipleRegisters(read_addr, read_cnt, write_addr, data),
        ) {
            Ok(rsp) => rsp,
            Err(e) => {
                return Err(e);
            },
        };
        read_write_multiple_registers_response(read_cnt, rsp)
    }
}

impl<C: Client> Writer for Context<C> {
    fn write_single_coil(&mut self, addr: Address, coil: Coil) -> Result<(), CodecError> {
        let rsp = match self.client.call(Request::WriteSingleCoil(addr, coil)) {
            Ok(rsp) => rsp,
            Err(e) => {
                return Err(e);
            },
        };
        write_single_coil_response(addr, coil, rsp)
    }

    fn write_single_register(&mut self, addr: Address, data: Word) -> Result<(), CodecError> {
        let rsp = match self.client.call(Request::WriteSingleRegister(addr, data)) {
            Ok(rsp) => rsp,
            Err(e) => {
                return Err(e);
            },
        };
        write_single_register_response(addr, data, rsp)
    }

    fn write_multiple_coils(&mut self, addr: Address, coils: &[Coil]) -> Result<(), CodecError> {
        let cnt = coils.len();
        let data = slice_to_vec(coils);
        let rsp = match self.client.call(Request::WriteMultipleCoils(addr, data)) {
            Ok(rsp) => rsp,
            Err(e) => {
                return Err(e);
            },
        };
        write_multiple_coils_response(addr, cnt, rsp)
    }

    fn write_multiple_registers(&mut self, addr: Address, data: &[Word]) -> Result<
        (),
        CodecError,
    > {
        let cnt = data.len();
        let words = slice_to_vec(data);
        let rsp = match self.client.call(Request::WriteMultipleRegisters(addr, words)) {
            Ok(rsp) => rsp,
            Err(e) => {
                return Err(e);
            },
        };
        write_multiple_registers_response(addr, cnt, rsp)
    }
}

} // verus!
