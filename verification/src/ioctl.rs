//! Decoding of the `ioctl` system call's command numbers.
use vstd::prelude::*;

verus! {

/// Framebuffer: get the variable screen information.
pub const FBIOGET_VSCREENINFO: usize = 0x4600;
/// Framebuffer: set the variable screen information.
pub const FBIOPUT_VSCREENINFO: usize = 0x4601;
/// Framebuffer: get the fixed screen information.
pub const FBIOGET_FSCREENINFO: usize = 0x4602;
/// Framebuffer: flush the frame to the screen.
pub const FBIO_FLUSH: usize = 0x46FF;
/// Real time clock: get the time.
pub const RTC_RD_TIME: usize = 0x7009;
/// Real time clock: get the timestamp.
pub const RTC_RD_TIMESTAMP: usize = 0x70FF;
/// Teletype: get the settings.
pub const TCGETS: usize = 0x5401;
/// Teletype: set the settings now.
pub const TCSETS: usize = 0x5402;
/// Teletype: set the settings once output has drained.
pub const TCSETSW: usize = 0x5403;
/// Teletype: set the settings and flush input.
pub const TCSETSF: usize = 0x5404;
/// Teletype: get the foreground process group.
pub const TIOCGPGRP: usize = 0x540F;
/// Teletype: set the foreground process group.
pub const TIOCSPGRP: usize = 0x5410;

/// A decoded `ioctl` request. `response` is the physical address of the
/// structure that the request reads or fills: the caller's argument as the
/// calling process's page table maps it.
#[derive(Clone, Copy, Debug, PartialEq, Eq, Structural)]
pub enum IOControlCommand {
    FrameBufferGetVariableInfo { response: usize },
    FrameBufferPutVariableInfo { response: usize },
    FrameBufferGetFixedInfo { response: usize },
    FrameBufferFlush,
    RealTimeClockGetTime { response: usize },
    RealTimeClockGetTimestamp { response: usize },
    TeletypeGetSettings { response: usize },
    TeletypeSetSettingsNoWait { response: usize },
    TeletypeSetSettingsDrain { response: usize },
    TeletypeSetSettingsFlush { response: usize },
    TeletypeGetProcessGroup { response: usize },
    TeletypeSetProcessGroup { response: usize },
}

/// Whether the request with command number `cmd` carries the address of a
/// structure (every known request but the frame buffer flush).
pub open spec fn takes_response(cmd: usize) -> bool {
    cmd == FBIOGET_VSCREENINFO || cmd == FBIOPUT_VSCREENINFO || cmd == FBIOGET_FSCREENINFO
        || cmd == RTC_RD_TIME || cmd == RTC_RD_TIMESTAMP || cmd == TCGETS || cmd == TCSETS
        || cmd == TCSETSW || cmd == TCSETSF || cmd == TIOCGPGRP || cmd == TIOCSPGRP
}

/// The request that command number `cmd` stands for, with `args` as its
/// response address; `None` for an unknown number.
pub open spec fn decode_ioctl(cmd: usize, args: usize) -> Option<IOControlCommand> {
    if cmd == FBIOGET_VSCREENINFO {
        Some(IOControlCommand::FrameBufferGetVariableInfo { response: args })
    } else if cmd == FBIOPUT_VSCREENINFO {
        Some(IOControlCommand::FrameBufferPutVariableInfo { response: args })
    } else if cmd == FBIOGET_FSCREENINFO {
        Some(IOControlCommand::FrameBufferGetFixedInfo { response: args })
    } else if cmd == FBIO_FLUSH {
        Some(IOControlCommand::FrameBufferFlush)
    } else if cmd == RTC_RD_TIME {
        Some(IOControlCommand::RealTimeClockGetTime { response: args })
    } else if cmd == RTC_RD_TIMESTAMP {
        Some(IOControlCommand::RealTimeClockGetTimestamp { response: args })
    } else if cmd == TCGETS {
        Some(IOControlCommand::TeletypeGetSettings { response: args })
    } else if cmd == TCSETS {
        Some(IOControlCommand::TeletypeSetSettingsNoWait { response: args })
    } else if cmd == TCSETSW {
        Some(IOControlCommand::TeletypeSetSettingsDrain { response: args })
    } else if cmd == TCSETSF {
        Some(IOControlCommand::TeletypeSetSettingsFlush { response: args })
    } else if cmd == TIOCGPGRP {
        Some(IOControlCommand::TeletypeGetProcessGroup { response: args })
    } else if cmd == TIOCSPGRP {
        Some(IOControlCommand::TeletypeSetProcessGroup { response: args })
    } else {
        None
    }
}

/// The command number of a request.
pub open spec fn command_number(c: IOControlCommand) -> usize {
    match c {
        IOControlCommand::FrameBufferGetVariableInfo { .. } => FBIOGET_VSCREENINFO,
        IOControlCommand::FrameBufferPutVariableInfo { .. } => FBIOPUT_VSCREENINFO,
        IOControlCommand::FrameBufferGetFixedInfo { .. } => FBIOGET_FSCREENINFO,
        IOControlCommand::FrameBufferFlush => FBIO_FLUSH,
        IOControlCommand::RealTimeClockGetTime { .. } => RTC_RD_TIME,
        IOControlCommand::RealTimeClockGetTimestamp { .. } => RTC_RD_TIMESTAMP,
        IOControlCommand::TeletypeGetSettings { .. } => TCGETS,
        IOControlCommand::TeletypeSetSettingsNoWait { .. } => TCSETS,
        IOControlCommand::TeletypeSetSettingsDrain { .. } => TCSETSW,
        IOControlCommand::TeletypeSetSettingsFlush { .. } => TCSETSF,
        IOControlCommand::TeletypeGetProcessGroup { .. } => TIOCGPGRP,
        IOControlCommand::TeletypeSetProcessGroup { .. } => TIOCSPGRP,
    }
}

/// The argument a request is made with: its response address (any value for
/// a request without one).
pub open spec fn command_argument(c: IOControlCommand, fallback: usize) -> usize {
    match c {
        IOControlCommand::FrameBufferGetVariableInfo { response } => response,
        IOControlCommand::FrameBufferPutVariableInfo { response } => response,
        IOControlCommand::FrameBufferGetFixedInfo { response } => response,
        IOControlCommand::FrameBufferFlush => fallback,
        IOControlCommand::RealTimeClockGetTime { response } => response,
        IOControlCommand::RealTimeClockGetTimestamp { response } => response,
        IOControlCommand::TeletypeGetSettings { response } => response,
        IOControlCommand::TeletypeSetSettingsNoWait { response } => response,
        IOControlCommand::TeletypeSetSettingsDrain { response } => response,
        IOControlCommand::TeletypeSetSettingsFlush { response } => response,
        IOControlCommand::TeletypeGetProcessGroup { response } => response,
        IOControlCommand::TeletypeSetProcessGroup { response } => response,
    }
}

/// Whether the request with command number `cmd` carries the address of a
/// structure, which must be translated through the caller's page table.
pub fn ioctl_takes_response(cmd: usize) -> (r: bool)
    ensures
        r == takes_response(cmd),
{
    cmd == FBIOGET_VSCREENINFO || cmd == FBIOPUT_VSCREENINFO || cmd == FBIOGET_FSCREENINFO
        || cmd == RTC_RD_TIME || cmd == RTC_RD_TIMESTAMP || cmd == TCGETS || cmd == TCSETS
        || cmd == TCSETSW || cmd == TCSETSF || cmd == TIOCGPGRP || cmd == TIOCSPGRP
}

/// Decode the `ioctl` system call's command number `cmd`. `translated` is
/// the caller's argument translated through its page table (`None` where
/// the argument is not mapped); it is needed only for requests that carry
/// a structure, and those require it mapped to a non-null address. `None`
/// stands for an unknown command, which the call answers with 0; a request
/// is executed on the descriptor the call names.
pub fn syscall_ioctl(cmd: usize, translated: Option<usize>) -> (r: Option<IOControlCommand>)
    requires
        takes_response(cmd) ==> (translated matches Some(address) && address != 0),
    ensures
        takes_response(cmd) ==> r == decode_ioctl(cmd, translated->0),
        !takes_response(cmd) ==> r == decode_ioctl(cmd, 0),
        r is Some <==> (takes_response(cmd) || cmd == FBIO_FLUSH),
{
    let address: usize = match translated {
        Some(a) => a,
        None => 0,
    };
    match cmd {
        0x4600 => Some(IOControlCommand::FrameBufferGetVariableInfo { response: address }),
        0x4601 => Some(IOControlCommand::FrameBufferPutVariableInfo { response: address }),
        0x4602 => Some(IOControlCommand::FrameBufferGetFixedInfo { response: address }),
        0x46FF => Some(IOControlCommand::FrameBufferFlush),
        0x7009 => Some(IOControlCommand::RealTimeClockGetTime { response: address }),
        0x70FF => Some(IOControlCommand::RealTimeClockGetTimestamp { response: address }),
        0x5401 => Some(IOControlCommand::TeletypeGetSettings { response: address }),
        0x5402 => Some(IOControlCommand::TeletypeSetSettingsNoWait { response: address }),
        0x5403 => Some(IOControlCommand::TeletypeSetSettingsDrain { response: address }),
        0x5404 => Some(IOControlCommand::TeletypeSetSettingsFlush { response: address }),
        0x540F => Some(IOControlCommand::TeletypeGetProcessGroup { response: address }),
        0x5410 => Some(IOControlCommand::TeletypeSetProcessGroup { response: address }),
        _ => None,
    }
}

/// Every request is decoded back from its own command number and argument,
/// so no two requests share a command number.
pub proof fn lemma_decode_command_roundtrip(c: IOControlCommand, fallback: usize)
    ensures
        decode_ioctl(command_number(c), command_argument(c, fallback)) == Some(c),
{
}

/// A command number is known exactly when it is the number of some request.
pub proof fn lemma_known_commands(cmd: usize, args: usize)
    ensures
        decode_ioctl(cmd, args) is Some <==> (exists|c: IOControlCommand|
            command_number(c) == cmd),
        decode_ioctl(cmd, args) is Some ==> command_number(decode_ioctl(cmd, args)->0) == cmd,
{
    if decode_ioctl(cmd, args) is Some {
        let c = decode_ioctl(cmd, args)->0;
        assert(command_number(c) == cmd);
    }
}

} // verus!
