//! Safe, verified core of the Cua Driver C ABI and of the Monterey platform shim.
//!
//! The exported C functions themselves (raw pointers, panics caught at the
//! boundary, the async executor) live in the companion `app/` crate; every
//! decision they make is taken by a function of this crate.

pub mod status;
pub mod text;
pub mod buffer;
pub mod handles;
pub mod input;
pub mod operation;
pub mod envflag;
pub mod authorization;
pub mod abi;
pub mod platform;
pub mod capture;
