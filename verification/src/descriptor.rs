//! What a file descriptor of a process refers to.
use vstd::prelude::*;

use crate::fs_trait::FilesystemIndex;

verus! {

/// A driver that backs a device file.
#[derive(Clone, Copy, Debug, PartialEq, Eq, Structural)]
pub enum DeviceDriver {
    Graphics,
    Uart,
}

/// The object behind a file descriptor.
#[derive(Clone, Copy, Debug, PartialEq, Eq, Structural)]
pub enum Descriptor {
    /// Discards writes and reads nothing; a device file's null descriptor
    /// remembers its inode.
    Null(Option<FilesystemIndex>),
    /// Terminal input from the UART.
    UARTIn,
    /// Terminal output to the UART.
    UARTOut,
    /// Terminal error output to the UART.
    UARTError,
    /// A file opened by path.
    InodeFile(FilesystemIndex),
    /// A device read and written a byte at a time.
    ByteInterface(DeviceDriver, FilesystemIndex),
    /// A device exposing a memory buffer.
    Buffer(DeviceDriver, FilesystemIndex),
    /// The secondary side of a teletype.
    TeletypeSecondary(DeviceDriver, FilesystemIndex),
}

} // verus!
