//! Dynamic invocation of platform objects: a type system for their
//! interfaces, the layout of their value types, the planning of calls
//! through their vtables, and the bridge from their completion callbacks to
//! polling. The library decides; it touches no platform memory itself.
pub mod abi;
pub mod call;
pub mod dasync;
pub mod guid;
pub mod interfaces;
pub mod layout;
pub mod registry;
pub mod result;
pub mod signature;
pub mod types;
pub mod value;

pub use crate::interfaces::uri_vtable;
pub use crate::signature::{InterfaceSignature, MethodSignature};
pub use crate::types::WinRTType;
pub use crate::value::WinRTValue;
