//! Supervision of a single sandboxed microVM: persistent network
//! namespaces, a privilege-dropping jail launcher, and a typed
//! control-plane client that speaks JSON over a local socket.

pub mod error;
pub mod firecracker;
pub mod json;
pub mod network;
pub mod supervisor;
pub mod text;
pub mod util;

mod sys;

pub use error::Error;
