//! The operations a device accepts, as found in an incoming frame.

use vstd::prelude::*;

verus! {

/// A validated request received by a device.
#[derive(Debug, Clone, PartialEq, Eq)]
pub enum RequestForm {
    /// Read `registers_count` holding registers from `start_register`.
    ReadHoldingRegisters { start_register: u16, registers_count: u16 },
    /// Read `registers_count` input registers from `start_register`.
    ReadInputRegisters { start_register: u16, registers_count: u16 },
    /// Write one holding register.
    WriteSingleRegister { register_address: u16, data_to_write: u16 },
    /// Write consecutive holding registers from `start_register`.
    WriteMultipleRegisters { start_register: u16, datas_to_write: Vec<u16> },
}

/// The mathematical content of a [`RequestForm`].
pub enum RequestFormView {
    ReadHoldingRegisters { start_register: u16, registers_count: u16 },
    ReadInputRegisters { start_register: u16, registers_count: u16 },
    WriteSingleRegister { register_address: u16, data_to_write: u16 },
    WriteMultipleRegisters { start_register: u16, datas_to_write: Seq<u16> },
}

impl View for RequestForm {
    type V = RequestFormView;

    open spec fn view(&self) -> RequestFormView {
        match self {
            RequestForm::ReadHoldingRegisters { start_register, registers_count } => {
                RequestFormView::ReadHoldingRegisters {
                    start_register: *start_register,
                    registers_count: *registers_count,
                }
            },
            RequestForm::ReadInputRegisters { start_register, registers_count } => {
                RequestFormView::ReadInputRegisters {
                    start_register: *start_register,
                    registers_count: *registers_count,
                }
            },
            RequestForm::WriteSingleRegister { register_address, data_to_write } => {
                RequestFormView::WriteSingleRegister {
                    register_address: *register_address,
                    data_to_write: *data_to_write,
                }
            },
            RequestForm::WriteMultipleRegisters { start_register, datas_to_write } => {
                RequestFormView::WriteMultipleRegisters {
                    start_register: *start_register,
                    datas_to_write: datas_to_write@,
                }
            },
        }
    }
}

impl RequestFormView {
    /// The function code of an operation.
    pub open spec fn code(self) -> u8 {
        match self {
            RequestFormView::ReadHoldingRegisters { .. } => 0x03,
            RequestFormView::ReadInputRegisters { .. } => 0x04,
            RequestFormView::WriteSingleRegister { .. } => 0x06,
            RequestFormView::WriteMultipleRegisters { .. } => 0x10,
        }
    }
}

impl RequestForm {
    /// Returns the function code of this operation.
    pub fn get_function_code(&self) -> (r: u8)
        ensures
            r == self@.code(),
    {
        match self {
            RequestForm::ReadHoldingRegisters { .. } => 0x03,
            RequestForm::ReadInputRegisters { .. } => 0x04,
            RequestForm::WriteSingleRegister { .. } => 0x06,
            RequestForm::WriteMultipleRegisters { .. } => 0x10,
        }
    }
}

} // verus!
