//! A control-plane client for a hardware-assisted virtualization driver.
//!
//! The library holds everything the client decides: the numeric control codes,
//! the byte layouts of every structure exchanged with the driver, the register
//! snapshot and its overlapping views, the names of the control channels, and the
//! device → virtual machine → virtual CPU handle hierarchy. The raw exchange with
//! the driver (opening a channel, sending one request) is performed by the caller,
//! which hands the outcome back to the library.
#![allow(non_camel_case_types)]

pub mod ioctl;
pub mod registers;
pub mod state;
pub mod layout;
pub mod naming;
pub mod vcpu;
pub mod vm;
pub mod device;
