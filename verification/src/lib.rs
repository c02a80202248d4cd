//! Boundary contract for plugin modules that extend a host engine with
//! custom scalar functions: a fixed tagged value representation crossing the
//! boundary in both directions, an argument marshaller that turns raw
//! per-argument handles into a typed value sequence under an arity guard, and
//! the registration handshake a plugin performs once against the host's
//! capability table.

pub mod marshal;
pub mod register;
pub mod value;

pub use marshal::{arity_ok, dispatch_scalar, marshal_args, IntegerDoubler, ScalarLogic};
pub use register::{encode_name, RegistrationBuilder, ResultCode, RESULT_ERROR, RESULT_OK};
pub use value::{Blob, TextValue, Value, ValueType};
