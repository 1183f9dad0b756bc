//! The device directory: which device files exist, what opening one gives,
//! and where its `ioctl` requests go.
use vstd::prelude::*;

use crate::descriptor::{Descriptor, DeviceDriver};
use crate::fs_trait::FilesystemIndex;
use crate::ioctl::IOControlCommand;

verus! {

/// Device Directory Enumeration
#[derive(Debug, Clone, Copy, PartialEq, Eq, Structural)]
pub enum DeviceDirectories {
    Root,
    PseudoTerminalSecondaries,
}

/// Marks an inode number as that of a pseudo terminal.
pub const PSUEDO_TERMINAL_FLAG: usize = 1 << (16 + 1);

/// The name a device directory is shown under.
pub open spec fn directory_name(d: DeviceDirectories) -> Seq<char> {
    match d {
        DeviceDirectories::Root => "root"@,
        DeviceDirectories::PseudoTerminalSecondaries => "pts"@,
    }
}

impl DeviceDirectories {
    /// The name the directory is shown under.
    pub fn to_string(&self) -> (r: String)
        ensures
            r@ == directory_name(*self),
    {
        match self {
            DeviceDirectories::Root => "root".to_owned(),
            DeviceDirectories::PseudoTerminalSecondaries => "pts".to_owned(),
        }
    }
}

/// Return all available device directories for the system
pub fn get_device_directories() -> (r: Vec<DeviceDirectories>)
    ensures
        r@ == seq![DeviceDirectories::PseudoTerminalSecondaries],
{
    let mut result: Vec<DeviceDirectories> = Vec::new();
    result.push(DeviceDirectories::PseudoTerminalSecondaries);
    assert(result@ =~= seq![DeviceDirectories::PseudoTerminalSecondaries]);
    result
}

/// What a device file gives access to.
#[derive(Debug, Clone, Copy, PartialEq, Eq, Structural)]
pub enum DeviceKind {
    /// Text mode on the frame buffer.
    Display,
    /// Raw frame buffer access.
    FrameBuffer,
    /// The UART port.
    UartPort,
    /// The teletype on the UART port.
    Teletype,
    /// Discards everything.
    Null,
    /// The real time clock.
    RealTimeClock,
}

/// Where an `ioctl` request on a device file goes.
#[derive(Debug, Clone, Copy, PartialEq, Eq, Structural)]
pub enum IoctlDispatch {
    /// The request is answered at once with this value.
    Answer(usize),
    /// The request is executed by the graphics driver.
    GraphicsDriver(IOControlCommand),
    /// The request is executed by the UART driver.
    UartDriver(IOControlCommand),
    /// The request is executed by the real time clock driver.
    RealTimeClockDriver(IOControlCommand),
}

/// The descriptor opening a device of kind `kind` at `index` gives.
pub open spec fn device_descriptor(kind: DeviceKind, index: FilesystemIndex) -> Descriptor {
    match kind {
        DeviceKind::Display => Descriptor::ByteInterface(DeviceDriver::Graphics, index),
        DeviceKind::FrameBuffer => Descriptor::Buffer(DeviceDriver::Graphics, index),
        DeviceKind::UartPort => Descriptor::ByteInterface(DeviceDriver::Uart, index),
        DeviceKind::Teletype => Descriptor::TeletypeSecondary(DeviceDriver::Uart, index),
        DeviceKind::Null => Descriptor::Null(Some(index)),
        DeviceKind::RealTimeClock => Descriptor::Null(Some(index)),
    }
}

/// Where an `ioctl` request on a device of kind `kind` goes: devices without
/// requests answer `usize::MAX`.
pub open spec fn device_ioctl(kind: DeviceKind, cmd: IOControlCommand) -> IoctlDispatch {
    match kind {
        DeviceKind::FrameBuffer => IoctlDispatch::GraphicsDriver(cmd),
        DeviceKind::Teletype => IoctlDispatch::UartDriver(cmd),
        DeviceKind::RealTimeClock => IoctlDispatch::RealTimeClockDriver(cmd),
        _ => IoctlDispatch::Answer(usize::MAX),
    }
}

/// The name of the file a device of kind `kind` is listed under.
pub open spec fn device_name(kind: DeviceKind) -> Seq<char> {
    match kind {
        DeviceKind::Display => "disp"@,
        DeviceKind::FrameBuffer => "fb0"@,
        DeviceKind::UartPort => "uart0"@,
        DeviceKind::Teletype => "tty0"@,
        DeviceKind::Null => "null"@,
        DeviceKind::RealTimeClock => "rtc0"@,
    }
}

/// The devices of the system, in the order they are listed: the graphics
/// devices only when the graphics driver is loaded.
pub open spec fn system_devices(graphics_loaded: bool) -> Seq<DeviceKind> {
    let always = seq![
        DeviceKind::UartPort,
        DeviceKind::Teletype,
        DeviceKind::Null,
        DeviceKind::RealTimeClock,
    ];
    if graphics_loaded {
        seq![DeviceKind::Display, DeviceKind::FrameBuffer] + always
    } else {
        always
    }
}

/// DeviceFile object
pub struct DeviceFile {
    pub name: &'static str,
    pub directory: DeviceDirectories,
    pub kind: DeviceKind,
}

impl DeviceFile {
    /// Create a new device file in the root device directory.
    pub fn new(name: &'static str, kind: DeviceKind) -> (r: Self)
        ensures
            r.name@ == name@,
            r.directory == DeviceDirectories::Root,
            r.kind == kind,
    {
        DeviceFile { name, kind, directory: DeviceDirectories::Root }
    }

    /// Create a new device file in a sub directory.
    pub fn new_in_dir(name: &'static str, kind: DeviceKind, directory: DeviceDirectories) -> (r:
        Self)
        ensures
            r.name@ == name@,
            r.directory == directory,
            r.kind == kind,
    {
        DeviceFile { name, kind, directory }
    }

    /// The descriptor that opening the device at `index` gives.
    pub fn make_descriptor(&self, index: FilesystemIndex) -> (r: Descriptor)
        ensures
            r == device_descriptor(self.kind, index),
    {
        match self.kind {
            DeviceKind::Display => Descriptor::ByteInterface(DeviceDriver::Graphics, index),
            DeviceKind::FrameBuffer => Descriptor::Buffer(DeviceDriver::Graphics, index),
            DeviceKind::UartPort => Descriptor::ByteInterface(DeviceDriver::Uart, index),
            DeviceKind::Teletype => Descriptor::TeletypeSecondary(DeviceDriver::Uart, index),
            DeviceKind::Null => Descriptor::Null(Some(index)),
            DeviceKind::RealTimeClock => Descriptor::Null(Some(index)),
        }
    }

    /// Where an `ioctl` request on the device goes.
    pub fn exec_ioctl(&self, cmd: IOControlCommand) -> (r: IoctlDispatch)
        ensures
            r == device_ioctl(self.kind, cmd),
    {
        match self.kind {
            DeviceKind::FrameBuffer => IoctlDispatch::GraphicsDriver(cmd),
            DeviceKind::Teletype => IoctlDispatch::UartDriver(cmd),
            DeviceKind::RealTimeClock => IoctlDispatch::RealTimeClockDriver(cmd),
            _ => IoctlDispatch::Answer(usize::MAX),
        }
    }
}

/// Return all available device files for the system: `disp` and `fb0` when
/// the graphics driver is loaded, then `uart0`, `tty0`, `null` and `rtc0`,
/// all in the root device directory.
pub fn get_device_files(graphics_loaded: bool) -> (r: Vec<DeviceFile>)
    ensures
        r@.len() == system_devices(graphics_loaded).len(),
        forall|i: int|
            0 <= i < r@.len() ==> {
                &&& #[trigger] r@[i].kind == system_devices(graphics_loaded)[i]
                &&& r@[i].name@ == device_name(system_devices(graphics_loaded)[i])
                &&& r@[i].directory == DeviceDirectories::Root
            },
{
    let mut result: Vec<DeviceFile> = Vec::new();
    if graphics_loaded {
        result.push(DeviceFile::new("disp", DeviceKind::Display));
        result.push(DeviceFile::new("fb0", DeviceKind::FrameBuffer));
    }
    result.push(DeviceFile::new("uart0", DeviceKind::UartPort));
    result.push(DeviceFile::new("tty0", DeviceKind::Teletype));
    result.push(DeviceFile::new("null", DeviceKind::Null));
    result.push(DeviceFile::new("rtc0", DeviceKind::RealTimeClock));
    result
}

/// No two devices of the system share a kind or a name.
pub proof fn lemma_device_names_distinct(graphics_loaded: bool)
    ensures
        forall|i: int, j: int|
            0 <= i < j < system_devices(graphics_loaded).len() ==> system_devices(
                graphics_loaded,
            )[i] != system_devices(graphics_loaded)[j] && device_name(
                #[trigger] system_devices(graphics_loaded)[i],
            ) != device_name(#[trigger] system_devices(graphics_loaded)[j]),
{
    reveal_strlit("disp");
    reveal_strlit("fb0");
    reveal_strlit("uart0");
    reveal_strlit("tty0");
    reveal_strlit("null");
    reveal_strlit("rtc0");
    assert("disp"@.len() == 4);
    assert("fb0"@.len() == 3);
    assert("uart0"@.len() == 5);
    assert("tty0"@.len() == 4);
    assert("null"@.len() == 4);
    assert("rtc0"@.len() == 4);
    assert("disp"@[0] != "tty0"@[0]);
    assert("disp"@[0] != "null"@[0]);
    assert("disp"@[0] != "rtc0"@[0]);
    assert("tty0"@[0] != "null"@[0]);
    assert("tty0"@[0] != "rtc0"@[0]);
    assert("null"@[0] != "rtc0"@[0]);
}

/// The graphics devices are listed exactly when the graphics driver is
/// loaded.
pub proof fn lemma_graphics_devices_listed(graphics_loaded: bool)
    ensures
        system_devices(graphics_loaded).contains(DeviceKind::Display) == graphics_loaded,
        system_devices(graphics_loaded).contains(DeviceKind::FrameBuffer) == graphics_loaded,
        system_devices(graphics_loaded).contains(DeviceKind::Teletype),
        system_devices(graphics_loaded).contains(DeviceKind::Null),
{
    let s = system_devices(graphics_loaded);
    if graphics_loaded {
        assert(s[0] == DeviceKind::Display);
        assert(s[1] == DeviceKind::FrameBuffer);
        assert(s[3] == DeviceKind::Teletype);
        assert(s[4] == DeviceKind::Null);
    } else {
        assert(s[1] == DeviceKind::Teletype);
        assert(s[2] == DeviceKind::Null);
        assert forall|i: int| 0 <= i < s.len() implies s[i] != DeviceKind::Display
            && s[i] != DeviceKind::FrameBuffer by {}
    }
}

/// Every `ioctl` request on the frame buffer goes unchanged to the graphics
/// driver, on the teletype to the UART driver and on the clock to the real
/// time clock driver, whatever the request; the other devices answer every
/// request with `usize::MAX`.
pub proof fn lemma_ioctl_forwarded_unchanged(cmd: IOControlCommand)
    ensures
        device_ioctl(DeviceKind::FrameBuffer, cmd) == IoctlDispatch::GraphicsDriver(cmd),
        device_ioctl(DeviceKind::Teletype, cmd) == IoctlDispatch::UartDriver(cmd),
        device_ioctl(DeviceKind::RealTimeClock, cmd) == IoctlDispatch::RealTimeClockDriver(cmd),
        device_ioctl(DeviceKind::Display, cmd) == IoctlDispatch::Answer(usize::MAX),
        device_ioctl(DeviceKind::UartPort, cmd) == IoctlDispatch::Answer(usize::MAX),
        device_ioctl(DeviceKind::Null, cmd) == IoctlDispatch::Answer(usize::MAX),
{
}

} // verus!
