use lib::descriptor::{Descriptor, DeviceDriver};
use lib::devices::{
    get_device_directories, get_device_files, DeviceDirectories, DeviceFile, DeviceKind,
    IoctlDispatch, PSUEDO_TERMINAL_FLAG,
};
use lib::fs_trait::FilesystemIndex;
use lib::ioctl::{ioctl_takes_response, syscall_ioctl, IOControlCommand};

#[test]
fn directories() {
    assert_eq!(get_device_directories(), vec![DeviceDirectories::PseudoTerminalSecondaries]);
    assert_eq!(DeviceDirectories::Root.to_string(), "root");
    assert_eq!(DeviceDirectories::PseudoTerminalSecondaries.to_string(), "pts");
    assert_eq!(PSUEDO_TERMINAL_FLAG, 0x20000);
}

#[test]
fn device_files_without_graphics() {
    let files = get_device_files(false);
    let names: Vec<&str> = files.iter().map(|f| f.name).collect();
    assert_eq!(names, vec!["uart0", "tty0", "null", "rtc0"]);
    assert!(files.iter().all(|f| f.directory == DeviceDirectories::Root));
}

#[test]
fn device_files_with_graphics() {
    let files = get_device_files(true);
    let names: Vec<&str> = files.iter().map(|f| f.name).collect();
    assert_eq!(names, vec!["disp", "fb0", "uart0", "tty0", "null", "rtc0"]);
    assert_eq!(files[1].kind, DeviceKind::FrameBuffer);
}

#[test]
fn descriptors_of_devices() {
    let i = FilesystemIndex { mount_id: 1, inode: 4 };
    let files = get_device_files(true);
    let kinds: Vec<Descriptor> = files.iter().map(|f| f.make_descriptor(i)).collect();
    assert_eq!(
        kinds,
        vec![
            Descriptor::ByteInterface(DeviceDriver::Graphics, i),
            Descriptor::Buffer(DeviceDriver::Graphics, i),
            Descriptor::ByteInterface(DeviceDriver::Uart, i),
            Descriptor::TeletypeSecondary(DeviceDriver::Uart, i),
            Descriptor::Null(Some(i)),
            Descriptor::Null(Some(i)),
        ]
    );
}

#[test]
fn ioctl_routing() {
    let cmd = IOControlCommand::FrameBufferFlush;
    let files = get_device_files(true);
    let routes: Vec<IoctlDispatch> = files.iter().map(|f| f.exec_ioctl(cmd)).collect();
    assert_eq!(
        routes,
        vec![
            IoctlDispatch::Answer(usize::MAX),
            IoctlDispatch::GraphicsDriver(cmd),
            IoctlDispatch::Answer(usize::MAX),
            IoctlDispatch::UartDriver(cmd),
            IoctlDispatch::Answer(usize::MAX),
            IoctlDispatch::RealTimeClockDriver(cmd),
        ]
    );
}

#[test]
fn device_file_constructors() {
    let f = DeviceFile::new("x", DeviceKind::Null);
    assert_eq!(f.directory, DeviceDirectories::Root);
    let g = DeviceFile::new_in_dir("0", DeviceKind::Teletype, DeviceDirectories::PseudoTerminalSecondaries);
    assert_eq!(g.name, "0");
    assert_eq!(g.directory, DeviceDirectories::PseudoTerminalSecondaries);
    assert_eq!(g.kind, DeviceKind::Teletype);
}

#[test]
fn ioctl_decoding() {
    let a = 0x8020_0000;
    assert_eq!(syscall_ioctl(0x4600, Some(a)), Some(IOControlCommand::FrameBufferGetVariableInfo { response: a }));
    assert_eq!(syscall_ioctl(0x4601, Some(a)), Some(IOControlCommand::FrameBufferPutVariableInfo { response: a }));
    assert_eq!(syscall_ioctl(0x4602, Some(a)), Some(IOControlCommand::FrameBufferGetFixedInfo { response: a }));
    assert_eq!(syscall_ioctl(0x46FF, None), Some(IOControlCommand::FrameBufferFlush));
    assert_eq!(syscall_ioctl(0x7009, Some(a)), Some(IOControlCommand::RealTimeClockGetTime { response: a }));
    assert_eq!(syscall_ioctl(0x70FF, Some(a)), Some(IOControlCommand::RealTimeClockGetTimestamp { response: a }));
    assert_eq!(syscall_ioctl(0x5401, Some(a)), Some(IOControlCommand::TeletypeGetSettings { response: a }));
    assert_eq!(syscall_ioctl(0x5402, Some(a)), Some(IOControlCommand::TeletypeSetSettingsNoWait { response: a }));
    assert_eq!(syscall_ioctl(0x5403, Some(a)), Some(IOControlCommand::TeletypeSetSettingsDrain { response: a }));
    assert_eq!(syscall_ioctl(0x5404, Some(a)), Some(IOControlCommand::TeletypeSetSettingsFlush { response: a }));
    assert_eq!(syscall_ioctl(0x540F, Some(a)), Some(IOControlCommand::TeletypeGetProcessGroup { response: a }));
    assert_eq!(syscall_ioctl(0x5410, Some(a)), Some(IOControlCommand::TeletypeSetProcessGroup { response: a }));
    assert_eq!(syscall_ioctl(0x5405, None), None);
    assert_eq!(syscall_ioctl(0, Some(a)), None);
}

#[test]
fn ioctl_commands_with_structures() {
    for cmd in [0x4600, 0x4601, 0x4602, 0x7009, 0x70FF, 0x5401, 0x5402, 0x5403, 0x5404, 0x540F, 0x5410] {
        assert!(ioctl_takes_response(cmd));
    }
    assert!(!ioctl_takes_response(0x46FF));
    assert!(!ioctl_takes_response(0x1234));
}
