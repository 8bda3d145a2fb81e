//! Endpoint allocation, the control-transfer phase machine and register-field
//! access for MUSB-family USB 2.0 device controllers.
//!
//! The library decides; the caller touches the hardware. Allocation works on
//! a slot table; the endpoint operations return the register values to write;
//! the phase machine of endpoint 0 and the interrupt flags are plain values
//! that the caller keeps and hands in.
pub mod alloc_endpoint;
pub mod bits;
pub mod common_impl;
pub mod control;
pub mod driver;
pub mod flags;
pub mod info;
pub mod readconf;
pub mod regs;
pub mod transfer;
pub mod usbd;
pub mod vals;
