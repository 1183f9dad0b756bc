//! Verified core of a small RISC-V kernel: terminal input buffering for the
//! UART driver, process bookkeeping, the device directory and the decoding
//! of `ioctl` requests.
use vstd::prelude::*;

pub mod ring_buffer;
pub mod tty;
pub mod uart;
pub mod descriptor;
pub mod fs_trait;
pub mod ioctl;
pub mod process_data;
pub mod process;
pub mod devices;

verus! {
} // verus!
