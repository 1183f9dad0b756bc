//! The UART driver's terminal state: input buffering, line discipline,
//! output translation, and the register values that set up the port.
use vstd::prelude::*;

use crate::ring_buffer::{
    append_bounded, lemma_append_bounded_push, ByteRingBuffer, RING_BUFFER_CAPACITY,
};
use crate::tty::{
    default_settings, is_canonical, output_bytes, receive, TeletypeSettings, CARRIAGE_RETURN,
    END_OF_TRANSMISSION, ICANON, ICRNL, NEWLINE, OPOST, PID,
};

verus! {

/// Offset of the data register (receive and transmit).
pub const UART_DATA_OFFSET: usize = 0;

/// Offset of the interrupt enable register (divisor high byte while the
/// divisor latch is open).
pub const UART_INTERRUPT_ENABLE_OFFSET: usize = 1;

/// Offset of the line control register.
pub const UART_LINE_CONTROL_OFFSET: usize = 3;

/// Offset of the line status register.
pub const UART_LINE_STATUS_OFFSET: usize = 5;

/// Baud rate divisor programmed into the port.
pub const UART_DIVISOR: u16 = 592;

/// The register writes, in order, that set up the port: an 8-bit word
/// length, receive interrupts on, and the baud divisor written low byte then
/// high byte while the divisor latch is open.
pub open spec fn init_sequence() -> Seq<(usize, u8)> {
    seq![
        (UART_LINE_CONTROL_OFFSET, 0x03u8),
        (UART_INTERRUPT_ENABLE_OFFSET, 0x01u8),
        (UART_LINE_CONTROL_OFFSET, 0x83u8),
        (UART_DATA_OFFSET, 0x50u8),
        (UART_INTERRUPT_ENABLE_OFFSET, 0x02u8),
        (UART_LINE_CONTROL_OFFSET, 0x03u8),
    ]
}

/// The register writes (offset, value) that set up the port, in the order
/// they must be made.
pub fn init_register_writes() -> (r: Vec<(usize, u8)>)
    ensures
        r@ == init_sequence(),
{
    let lcr: u8 = 0b0000011;
    let divisor: u16 = UART_DIVISOR;
    let divisor_low: u16 = divisor & 0xFF;
    let divisor_high: u16 = (divisor & 0xFF00) >> 8;
    assert(divisor_low == 0x50) by (bit_vector)
        requires
            divisor == 592u16,
            divisor_low == divisor & 0xFF,
    ;
    assert(divisor_high == 0x02) by (bit_vector)
        requires
            divisor == 592u16,
            divisor_high == (divisor & 0xFF00) >> 8,
    ;
    let latch: u8 = lcr | (1u8 << 7u8);
    assert(latch == 0x83) by (bit_vector)
        requires
            lcr == 3u8,
            latch == lcr | (1u8 << 7u8),
    ;
    let mut writes: Vec<(usize, u8)> = Vec::new();
    writes.push((UART_LINE_CONTROL_OFFSET, lcr));
    writes.push((UART_INTERRUPT_ENABLE_OFFSET, 0b0000001u8));
    writes.push((UART_LINE_CONTROL_OFFSET, latch));
    writes.push((UART_DATA_OFFSET, divisor_low as u8));
    writes.push((UART_INTERRUPT_ENABLE_OFFSET, divisor_high as u8));
    writes.push((UART_LINE_CONTROL_OFFSET, lcr));
    assert(writes@ =~= init_sequence());
    writes
}

/// Whether the line status register reports a received byte waiting in the
/// data register (its lowest bit).
pub fn line_status_data_ready(line_status: u8) -> (r: bool)
    ensures
        r == (line_status & 1 != 0),
{
    line_status & 1 != 0
}

/// The divisor bytes the set-up sequence writes, low byte then high byte,
/// make up `UART_DIVISOR`, and the latch is closed again at the end with the
/// same line control value it was opened from.
pub proof fn lemma_init_programs_divisor()
    ensures
        init_sequence()[3].1 as int + 256 * (init_sequence()[4].1 as int) == UART_DIVISOR as int,
        init_sequence()[3].0 == UART_DATA_OFFSET,
        init_sequence()[4].0 == UART_INTERRUPT_ENABLE_OFFSET,
        init_sequence()[2].1 == (init_sequence()[5].1 | 0x80u8),
        init_sequence().last() == init_sequence()[0],
{
    assert((0x03u8 | 0x80u8) == 0x83u8) by (bit_vector);
}

/// MMIO UART driver state.
pub struct UARTDriver {
    base: usize,
    input_buffer: ByteRingBuffer,
    line_buffer: ByteRingBuffer,
    terminal_settings: TeletypeSettings,
    fgpgid: PID,
    tty_paused: bool,
    tty_preserve_next: bool,
}

impl UARTDriver {
    /// The base address of the port's registers.
    pub closed spec fn base_spec(&self) -> usize {
        self.base
    }

    /// Received bytes not yet committed to a line (in canonical mode) or not
    /// yet read (otherwise).
    pub closed spec fn pending_input(&self) -> Seq<u8> {
        self.input_buffer@
    }

    /// Completed lines waiting to be read in canonical mode.
    pub closed spec fn completed_lines(&self) -> Seq<u8> {
        self.line_buffer@
    }

    /// The terminal settings.
    pub closed spec fn settings(&self) -> TeletypeSettings {
        self.terminal_settings
    }

    /// The foreground process group.
    pub closed spec fn foreground_group(&self) -> PID {
        self.fgpgid
    }

    /// Whether output is paused.
    pub closed spec fn paused(&self) -> bool {
        self.tty_paused
    }

    /// Whether the next byte is taken literally.
    pub closed spec fn preserve_next(&self) -> bool {
        self.tty_preserve_next
    }

    /// Whether `self` has the base address, settings, foreground group and
    /// flow-control flags of `other`.
    pub open spec fn same_controls(&self, other: &Self) -> bool {
        &&& self.base_spec() == other.base_spec()
        &&& self.settings() == other.settings()
        &&& self.foreground_group() == other.foreground_group()
        &&& self.paused() == other.paused()
        &&& self.preserve_next() == other.preserve_next()
    }

    /// The bytes `read_byte` takes from: completed lines in canonical mode,
    /// pending input otherwise.
    pub open spec fn readable(&self) -> Seq<u8> {
        if is_canonical(self.settings()) {
            self.completed_lines()
        } else {
            self.pending_input()
        }
    }

    /// Once both buffers are empty nothing is readable, whatever the mode.
    pub proof fn lemma_flushed_nothing_readable(&self)
        requires
            self.pending_input() == Seq::<u8>::empty(),
            self.completed_lines() == Seq::<u8>::empty(),
        ensures
            self.readable().len() == 0,
    {
    }

    /// A driver for the port whose registers start at `base`, with empty
    /// buffers and the default settings.
    pub fn new(base: usize) -> (r: Self)
        ensures
            r.base_spec() == base,
            r.pending_input() == Seq::<u8>::empty(),
            r.completed_lines() == Seq::<u8>::empty(),
            r.settings() == default_settings(),
            r.foreground_group() == 0,
            !r.paused(),
            !r.preserve_next(),
    {
        UARTDriver {
            base,
            input_buffer: ByteRingBuffer::new(),
            line_buffer: ByteRingBuffer::new(),
            terminal_settings: TeletypeSettings::new(),
            fgpgid: 0,
            tty_paused: false,
            tty_preserve_next: false,
        }
    }

    /// The base address of the port's registers.
    pub fn base(&self) -> (r: usize)
        ensures
            r == self.base_spec(),
    {
        self.base
    }

    /// Read a byte: the front of the completed lines in canonical mode, the
    /// front of the pending input otherwise; `None` when there is none.
    pub fn read_byte(&mut self) -> (r: Option<u8>)
        ensures
            final(self).same_controls(&*old(self)),
            old(self).readable().len() == 0 ==> r is None && final(self).readable() == old(
                self,
            ).readable(),
            old(self).readable().len() > 0 ==> r == Some(old(self).readable()[0])
                && final(self).readable() == old(self).readable().drop_first(),
            is_canonical(old(self).settings()) ==> final(self).pending_input() == old(
                self,
            ).pending_input(),
            !is_canonical(old(self).settings()) ==> final(self).completed_lines() == old(
                self,
            ).completed_lines(),
    {
        if self.terminal_settings.local_flags & ICANON != 0 {
            self.line_buffer.dequeue_byte()
        } else {
            self.input_buffer.dequeue_byte()
        }
    }

    /// Read a byte from the terminal (the same as `read_byte`).
    pub fn tty_read_byte(&mut self) -> (r: Option<u8>)
        ensures
            final(self).same_controls(&*old(self)),
            old(self).readable().len() == 0 ==> r is None && final(self).readable() == old(
                self,
            ).readable(),
            old(self).readable().len() > 0 ==> r == Some(old(self).readable()[0])
                && final(self).readable() == old(self).readable().drop_first(),
            is_canonical(old(self).settings()) ==> final(self).pending_input() == old(
                self,
            ).pending_input(),
            !is_canonical(old(self).settings()) ==> final(self).completed_lines() == old(
                self,
            ).completed_lines(),
    {
        self.read_byte()
    }

    /// The bytes to send to the port for one byte written to the terminal:
    /// with output post-processing a newline is followed by a carriage
    /// return.
    pub fn tty_write_byte(&self, byte: u8) -> (r: Vec<u8>)
        ensures
            r@ == output_bytes(self.settings(), byte),
    {
        let mut out: Vec<u8> = Vec::new();
        if self.terminal_settings.output_flags & OPOST != 0 && byte == NEWLINE {
            out.push(byte);
            out.push(CARRIAGE_RETURN);
            assert(out@ =~= seq![NEWLINE, CARRIAGE_RETURN]);
        } else {
            out.push(byte);
            assert(out@ =~= seq![byte]);
        }
        out
    }

    /// Store a received byte. `handled` says whether the line discipline
    /// already consumed the byte (a control character), in which case the
    /// buffers are left as they are. Otherwise the byte is stored in the
    /// pending input (a carriage return as a newline when `ICRNL` is set),
    /// and in canonical mode a carriage return or end of transmission moves
    /// all pending input to the completed lines.
    pub fn tty_push_byte(&mut self, byte: u8, handled: bool)
        ensures
            final(self).same_controls(&*old(self)),
            handled ==> final(self).pending_input() == old(self).pending_input()
                && final(self).completed_lines() == old(self).completed_lines(),
            !handled ==> (final(self).pending_input(), final(self).completed_lines()) == receive(
                old(self).settings(),
                old(self).pending_input(),
                old(self).completed_lines(),
                byte,
            ),
    {
        let settings = self.terminal_settings;
        if handled {
            return ;
        }
        if byte == CARRIAGE_RETURN && settings.input_flags & ICRNL != 0 {
            self.input_buffer.enqueue_byte(NEWLINE);
        } else {
            self.input_buffer.enqueue_byte(byte);
        }
        if settings.local_flags & ICANON != 0 {
            if byte == CARRIAGE_RETURN || byte == END_OF_TRANSMISSION {
                self.commit_pending_input();
            }
        }
    }

    /// Move every pending byte, in order, to the completed lines; bytes that
    /// do not fit are dropped.
    fn commit_pending_input(&mut self)
        ensures
            final(self).same_controls(&*old(self)),
            final(self).pending_input() == Seq::<u8>::empty(),
            final(self).completed_lines() == append_bounded(
                old(self).completed_lines(),
                old(self).pending_input(),
            ),
    {
        let ghost lines0 = self.line_buffer@;
        let ghost pending0 = self.input_buffer@;
        let ghost mut moved: int = 0;
        proof {
            use_type_invariant(&self.line_buffer);
            self.line_buffer.lemma_len_bounded();
        }
        assert(pending0.take(0) =~= Seq::<u8>::empty());
        assert(lines0 + Seq::<u8>::empty() =~= lines0);
        assert(pending0.skip(0) =~= pending0);
        loop
            invariant
                lines0.len() <= RING_BUFFER_CAPACITY,
                0 <= moved <= pending0.len(),
                self.input_buffer@ == pending0.skip(moved),
                self.line_buffer@ == append_bounded(lines0, pending0.take(moved)),
                self.base == old(self).base,
                self.terminal_settings == old(self).terminal_settings,
                self.fgpgid == old(self).fgpgid,
                self.tty_paused == old(self).tty_paused,
                self.tty_preserve_next == old(self).tty_preserve_next,
                lines0 == old(self).line_buffer@,
                pending0 == old(self).input_buffer@,
            ensures
                self.input_buffer@ == Seq::<u8>::empty(),
                self.line_buffer@ == append_bounded(lines0, pending0),
                self.base == old(self).base,
                self.terminal_settings == old(self).terminal_settings,
                self.fgpgid == old(self).fgpgid,
                self.tty_paused == old(self).tty_paused,
                self.tty_preserve_next == old(self).tty_preserve_next,
            decreases pending0.len() - moved,
        {
            match self.input_buffer.dequeue_byte() {
                Some(b) => {
                    proof {
                        assert(b == pending0[moved]);
                        lemma_append_bounded_push(lines0, pending0.take(moved), b);
                        assert(pending0.take(moved).push(b) =~= pending0.take(moved + 1));
                        assert(pending0.skip(moved).drop_first() =~= pending0.skip(moved + 1));
                        moved = moved + 1;
                    }
                    self.line_buffer.enqueue_byte(b);
                },
                None => {
                    assert(pending0.take(moved) =~= pending0);
                    break ;
                },
            }
        }
    }

    /// Take a received byte from the port: `received` is the byte the data
    /// register held, or `None` when the line status reported none, and
    /// `handled` whether the line discipline consumed it.
    pub fn notify_recieve(&mut self, received: Option<u8>, handled: bool)
        ensures
            final(self).same_controls(&*old(self)),
            (received is None || handled) ==> final(self).pending_input() == old(
                self,
            ).pending_input() && final(self).completed_lines() == old(self).completed_lines(),
            received is Some && !handled ==> (
                final(self).pending_input(),
                final(self).completed_lines(),
            ) == receive(
                old(self).settings(),
                old(self).pending_input(),
                old(self).completed_lines(),
                received->0,
            ),
    {
        if let Some(byte) = received {
            self.tty_push_byte(byte, handled);
        }
    }

    /// The terminal settings.
    pub fn get_tty_settings(&self) -> (r: TeletypeSettings)
        ensures
            r == self.settings(),
    {
        self.terminal_settings
    }

    /// Replace the terminal settings.
    pub fn set_tty_settings(&mut self, settings: TeletypeSettings)
        ensures
            final(self).settings() == settings,
            final(self).base_spec() == old(self).base_spec(),
            final(self).pending_input() == old(self).pending_input(),
            final(self).completed_lines() == old(self).completed_lines(),
            final(self).foreground_group() == old(self).foreground_group(),
            final(self).paused() == old(self).paused(),
            final(self).preserve_next() == old(self).preserve_next(),
    {
        self.terminal_settings = settings;
    }

    /// Whether there are pending bytes a backspace could remove.
    pub fn bytes_to_backaspace(&self) -> (r: bool)
        ensures
            r == (self.pending_input().len() > 0),
    {
        !self.input_buffer.is_empty()
    }

    /// Remove the last pending byte; `true` when there was one.
    pub fn backspace(&mut self) -> (r: bool)
        ensures
            r == (old(self).pending_input().len() > 0),
            r ==> final(self).pending_input() == old(self).pending_input().drop_last(),
            !r ==> final(self).pending_input() == old(self).pending_input(),
            final(self).completed_lines() == old(self).completed_lines(),
            final(self).same_controls(&*old(self)),
    {
        self.input_buffer.pop_byte().is_some()
    }

    /// Whether `read_byte` would give a byte.
    pub fn bytes_available(&self) -> (r: bool)
        ensures
            r == (self.readable().len() > 0),
    {
        if self.terminal_settings.local_flags & ICANON != 0 {
            !self.line_buffer.is_empty()
        } else {
            !self.input_buffer.is_empty()
        }
    }

    /// Discard all pending input and completed lines.
    pub fn flush_tty(&mut self)
        ensures
            final(self).pending_input() == Seq::<u8>::empty(),
            final(self).completed_lines() == Seq::<u8>::empty(),
            final(self).same_controls(&*old(self)),
    {
        loop
            invariant
                self.line_buffer@ == old(self).line_buffer@,
                self.base == old(self).base,
                self.terminal_settings == old(self).terminal_settings,
                self.fgpgid == old(self).fgpgid,
                self.tty_paused == old(self).tty_paused,
                self.tty_preserve_next == old(self).tty_preserve_next,
            ensures
                self.input_buffer@ == Seq::<u8>::empty(),
                self.line_buffer@ == old(self).line_buffer@,
                self.base == old(self).base,
                self.terminal_settings == old(self).terminal_settings,
                self.fgpgid == old(self).fgpgid,
                self.tty_paused == old(self).tty_paused,
                self.tty_preserve_next == old(self).tty_preserve_next,
            decreases self.input_buffer@.len(),
        {
            if self.input_buffer.pop_byte().is_none() {
                break ;
            }
        }
        loop
            invariant
                self.input_buffer@ == Seq::<u8>::empty(),
                self.base == old(self).base,
                self.terminal_settings == old(self).terminal_settings,
                self.fgpgid == old(self).fgpgid,
                self.tty_paused == old(self).tty_paused,
                self.tty_preserve_next == old(self).tty_preserve_next,
            ensures
                self.input_buffer@ == Seq::<u8>::empty(),
                self.line_buffer@ == Seq::<u8>::empty(),
                self.base == old(self).base,
                self.terminal_settings == old(self).terminal_settings,
                self.fgpgid == old(self).fgpgid,
                self.tty_paused == old(self).tty_paused,
                self.tty_preserve_next == old(self).tty_preserve_next,
            decreases self.line_buffer@.len(),
        {
            if self.line_buffer.pop_byte().is_none() {
                break ;
            }
        }
    }

    /// The foreground process group.
    pub fn get_foreground_process_group(&self) -> (r: PID)
        ensures
            r == self.foreground_group(),
    {
        self.fgpgid
    }

    /// Set the foreground process group.
    pub fn set_foreground_process_group(&mut self, pgid: PID)
        ensures
            final(self).foreground_group() == pgid,
            final(self).base_spec() == old(self).base_spec(),
            final(self).pending_input() == old(self).pending_input(),
            final(self).completed_lines() == old(self).completed_lines(),
            final(self).settings() == old(self).settings(),
            final(self).paused() == old(self).paused(),
            final(self).preserve_next() == old(self).preserve_next(),
    {
        self.fgpgid = pgid;
    }

    /// Whether output is paused.
    pub fn get_paused_state(&self) -> (r: bool)
        ensures
            r == self.paused(),
    {
        self.tty_paused
    }

    /// Pause or resume output.
    pub fn set_paused_state(&mut self, state: bool)
        ensures
            final(self).paused() == state,
            final(self).base_spec() == old(self).base_spec(),
            final(self).pending_input() == old(self).pending_input(),
            final(self).completed_lines() == old(self).completed_lines(),
            final(self).settings() == old(self).settings(),
            final(self).foreground_group() == old(self).foreground_group(),
            final(self).preserve_next() == old(self).preserve_next(),
    {
        self.tty_paused = state;
    }

    /// Whether the next byte is taken literally.
    pub fn get_preserve_next_state(&self) -> (r: bool)
        ensures
            r == self.preserve_next(),
    {
        self.tty_preserve_next
    }

    /// Set whether the next byte is taken literally.
    pub fn set_preserve_next_state(&mut self, state: bool)
        ensures
            final(self).preserve_next() == state,
            final(self).base_spec() == old(self).base_spec(),
            final(self).pending_input() == old(self).pending_input(),
            final(self).completed_lines() == old(self).completed_lines(),
            final(self).settings() == old(self).settings(),
            final(self).foreground_group() == old(self).foreground_group(),
            final(self).paused() == old(self).paused(),
    {
        self.tty_preserve_next = state;
    }
}

} // verus!
