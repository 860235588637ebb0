//! Modbus RTU: frame encoding and decoding, CRC checking, device-side
//! register banks and request analysis, and the timing decisions of a bus
//! master, each with a machine-checked contract.

pub mod address_area;
pub mod baudrate;
pub mod bytes;
pub mod crc;
pub mod data;
pub mod data_area;
pub mod error;
pub mod exception;
pub mod function;
pub mod function_kind;
pub mod master;
pub mod request;
pub mod response;
pub mod slave;
pub mod utils;

pub use baudrate::Baudrate;
pub use exception::Exception;
pub use function::Function;
pub use function_kind::FunctionKind;
pub use request::Request;
pub use response::Response;
