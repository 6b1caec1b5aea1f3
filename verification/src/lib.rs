//! Marshalling of scalar port values between an embedded Python component and
//! a C-compatible boundary.
//!
//! A component is an object of the embedded interpreter with the behaviours
//! `configure` and `run` and an attribute `outports`, a mapping from port names
//! to records `{"type": .., "value": ..}`. This crate loads such a component,
//! drives it, and carries its ports across the boundary as flat records.

pub mod boundary;
pub mod component;
pub mod engine;
pub mod flat;
pub mod ports;
pub mod text;
pub mod value;

pub use boundary::{
    cpy_configure, cpy_free_ports, cpy_get, cpy_new, cpy_run, cpy_set, Outcome, STATUS_FAILED,
    STATUS_OK,
};
pub use component::{Behaviour, CPy, CPyModule, DoubleCodec, Key};
pub use flat::{as_c_ports, from_c_port, from_c_ports, CPyPort};
pub use ports::Ports;
pub use text::{as_c_string, read_c_text, text_eq};
pub use value::{as_c_port_type, as_c_port_value, CPyPortType, CPyPortValue, Value};
