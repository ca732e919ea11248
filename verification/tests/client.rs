//! Tests of the client layer: typed reads through a mock transport, and
//! the per-operation response validation.

use modbus_rtu::client::{
    read_coils_response, read_holding_registers_response, write_multiple_coils_response,
    write_single_register_response, Client, Context, Reader,
};
use modbus_rtu::error::CodecError;
use modbus_rtu::frame::{Request, Response};
use modbus_rtu::slave::{Slave, SlaveContext};

#[derive(Default)]
#[allow(dead_code)]
struct ClientMock {
    slave: Option<Slave>,
    last_request: Option<Request>,
    next_response: Option<Result<Response, CodecError>>,
}

impl ClientMock {
    fn set_next_response(&mut self, next_response: Result<Response, CodecError>) {
        self.next_response = Some(next_response);
    }
}

impl SlaveContext for ClientMock {
    fn set_slave(&mut self, slave: Slave) {
        self.slave = Some(slave);
    }
}

impl Client for ClientMock {
    fn call(&mut self, request: Request) -> Result<Response, CodecError> {
        self.last_request = Some(request);
        self.next_response.clone().unwrap()
    }
}

#[test]
fn read_some_coils() {
    // The protocol will always return entire bytes with, i.e.
    // a multiple of 8 coils.
    let response_coils = [true, false, false, true, false, true, false, true].to_vec();
    for num_coils in 1usize..8usize {
        let mut client = ClientMock::default();
        client.set_next_response(Ok(Response::ReadCoils(response_coils.clone())));
        let mut context = Context::new(client);
        context.set_slave(Slave(1));
        let coils = context.read_coils(1, num_coils as u16).unwrap();
        assert_eq!(&response_coils[0..num_coils], &coils[..]);
    }
}

#[test]
fn read_some_discrete_inputs() {
    // The protocol will always return entire bytes with, i.e.
    // a multiple of 8 coils.
    let response_inputs = [true, false, false, true, false, true, false, true].to_vec();
    for num_inputs in 1usize..8usize {
        let mut client = ClientMock::default();
        client.set_next_response(Ok(Response::ReadDiscreteInputs(response_inputs.clone())));
        let mut context = Context::new(client);
        context.set_slave(Slave(1));
        let inputs = context.read_discrete_inputs(1, num_inputs as u16).unwrap();
        assert_eq!(&response_inputs[0..num_inputs], &inputs[..]);
    }
}

#[test]
fn holding_register_response_length_is_checked() {
    assert_eq!(
        read_holding_registers_response(3, Response::ReadHoldingRegisters(vec![1, 2])),
        Err(CodecError::InvalidResponse)
    );
    assert_eq!(
        read_holding_registers_response(2, Response::ReadHoldingRegisters(vec![1, 2])),
        Ok(vec![1, 2])
    );
}

#[test]
fn response_of_wrong_kind_is_rejected() {
    assert_eq!(
        read_coils_response(1, Response::WriteSingleCoil(0, true)),
        Err(CodecError::UnexpectedResponse)
    );
    assert_eq!(
        read_holding_registers_response(1, Response::ReadInputRegisters(vec![7])),
        Err(CodecError::UnexpectedResponse)
    );
}

#[test]
fn write_echo_is_checked() {
    assert_eq!(
        write_single_register_response(7, 9, Response::WriteSingleRegister(7, 9)),
        Ok(())
    );
    assert_eq!(
        write_single_register_response(7, 9, Response::WriteSingleRegister(7, 8)),
        Err(CodecError::InvalidResponse)
    );
    assert_eq!(
        write_multiple_coils_response(3, 2, Response::WriteMultipleCoils(3, 2)),
        Ok(())
    );
    assert_eq!(
        write_multiple_coils_response(3, 2, Response::WriteMultipleCoils(3, 1)),
        Err(CodecError::InvalidResponse)
    );
}

#[test]
fn transport_errors_pass_through() {
    let mut client = ClientMock::default();
    client.set_next_response(Err(CodecError::NotConnected));
    let mut context = Context::new(client);
    assert_eq!(context.read_coils(1, 1), Err(CodecError::NotConnected));
}
