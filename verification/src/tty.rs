//! Terminal settings and the line discipline's rules for input bytes.
use vstd::prelude::*;

use crate::ring_buffer::{append_bounded, push_bounded, RING_BUFFER_CAPACITY};

verus! {

/// A process identifier.
pub type PID = u16;

/// Input flag: translate a carriage return into a newline.
pub const ICRNL: u32 = 0x100;

/// Output flag: post-process output (a newline is followed by a carriage
/// return).
pub const OPOST: u32 = 0x1;

/// Local flag: canonical mode, input is made available a line at a time.
pub const ICANON: u32 = 0x2;

/// Carriage return.
pub const CARRIAGE_RETURN: u8 = 0xD;

/// Newline.
pub const NEWLINE: u8 = 0xA;

/// End of transmission (Ctrl-D), which also ends a line in canonical mode.
pub const END_OF_TRANSMISSION: u8 = 0x4;

/// Terminal settings, after the fields of `termios`.
#[derive(Clone, Copy, Debug, PartialEq, Eq)]
pub struct TeletypeSettings {
    pub input_flags: u32,
    pub output_flags: u32,
    pub control_flags: u32,
    pub local_flags: u32,
}

/// The settings a terminal starts with: carriage returns read as newlines,
/// output post-processing and canonical mode.
pub open spec fn default_settings() -> TeletypeSettings {
    TeletypeSettings { input_flags: ICRNL, output_flags: OPOST, control_flags: 0, local_flags: ICANON }
}

impl TeletypeSettings {
    /// The settings a terminal starts with.
    pub fn new() -> (r: Self)
        ensures
            r == default_settings(),
    {
        TeletypeSettings { input_flags: ICRNL, output_flags: OPOST, control_flags: 0, local_flags: ICANON }
    }
}

/// Whether input is made available a line at a time.
pub open spec fn is_canonical(s: TeletypeSettings) -> bool {
    s.local_flags & ICANON != 0
}

/// Whether output is post-processed.
pub open spec fn posts_output(s: TeletypeSettings) -> bool {
    s.output_flags & OPOST != 0
}

/// The byte stored for a received byte: a carriage return becomes a newline
/// when `ICRNL` is set.
pub open spec fn stored_byte(s: TeletypeSettings, byte: u8) -> u8 {
    if byte == CARRIAGE_RETURN && s.input_flags & ICRNL != 0 {
        NEWLINE
    } else {
        byte
    }
}

/// Whether a received byte ends the line in canonical mode.
pub open spec fn ends_line(byte: u8) -> bool {
    byte == CARRIAGE_RETURN || byte == END_OF_TRANSMISSION
}

/// The pending input and the completed lines after receiving `byte` (which
/// the line discipline did not consume): the byte is stored in the pending
/// input, and in canonical mode a line end moves all pending input to the
/// completed lines.
pub open spec fn receive(s: TeletypeSettings, input: Seq<u8>, lines: Seq<u8>, byte: u8) -> (
    Seq<u8>,
    Seq<u8>,
) {
    let pending = push_bounded(input, stored_byte(s, byte));
    if is_canonical(s) && ends_line(byte) {
        (Seq::empty(), append_bounded(lines, pending))
    } else {
        (pending, lines)
    }
}

/// The pending input and completed lines after receiving every byte of
/// `bytes` in order.
pub open spec fn receive_all(s: TeletypeSettings, input: Seq<u8>, lines: Seq<u8>, bytes: Seq<u8>) -> (
    Seq<u8>,
    Seq<u8>,
)
    decreases bytes.len(),
{
    if bytes.len() == 0 {
        (input, lines)
    } else {
        let (i, l) = receive_all(s, input, lines, bytes.drop_last());
        receive(s, i, l, bytes.last())
    }
}

/// The bytes written to the port for one byte of output: in post-processing
/// mode a newline is followed by a carriage return.
pub open spec fn output_bytes(s: TeletypeSettings, byte: u8) -> Seq<u8> {
    if posts_output(s) && byte == NEWLINE {
        seq![NEWLINE, CARRIAGE_RETURN]
    } else {
        seq![byte]
    }
}

/// In canonical mode, typing a line of bytes that holds no line end keeps
/// every byte pending, and nothing can be read yet.
pub proof fn lemma_line_stays_pending(s: TeletypeSettings, line: Seq<u8>)
    requires
        is_canonical(s),
        line.len() < RING_BUFFER_CAPACITY as nat,
        forall|i: int| 0 <= i < line.len() ==> !ends_line(#[trigger] line[i]),
    ensures
        receive_all(s, Seq::empty(), Seq::empty(), line) == (
            Seq::new(line.len(), |i: int| stored_byte(s, line[i])),
            Seq::<u8>::empty(),
        ),
    decreases line.len(),
{
    if line.len() > 0 {
        let prefix = line.drop_last();
        assert forall|i: int| 0 <= i < prefix.len() implies !ends_line(#[trigger] prefix[i]) by {
            assert(prefix[i] == line[i]);
        }
        lemma_line_stays_pending(s, prefix);
        assert(!ends_line(line.last()));
        assert(Seq::new(prefix.len(), |i: int| stored_byte(s, prefix[i])).push(
            stored_byte(s, line.last()),
        ) =~= Seq::new(line.len(), |i: int| stored_byte(s, line[i])));
    }
}

/// In canonical mode, typing a line of bytes that holds no line end and then
/// a carriage return makes the whole line readable, in order, with the line
/// end last (a newline where `ICRNL` is set), and leaves nothing pending.
pub proof fn lemma_line_completed_by_return(s: TeletypeSettings, line: Seq<u8>)
    requires
        is_canonical(s),
        line.len() < RING_BUFFER_CAPACITY as nat,
        forall|i: int| 0 <= i < line.len() ==> !ends_line(#[trigger] line[i]),
    ensures
        receive_all(s, Seq::empty(), Seq::empty(), line.push(CARRIAGE_RETURN)) == (
            Seq::<u8>::empty(),
            Seq::new(line.len(), |i: int| stored_byte(s, line[i])).push(
                stored_byte(s, CARRIAGE_RETURN),
            ),
        ),
{
    lemma_line_stays_pending(s, line);
    assert(line.push(CARRIAGE_RETURN).drop_last() =~= line);
    let pending = Seq::new(line.len(), |i: int| stored_byte(s, line[i]));
    assert(Seq::<u8>::empty() + pending.push(stored_byte(s, CARRIAGE_RETURN)) =~= pending.push(
        stored_byte(s, CARRIAGE_RETURN),
    ));
}

/// Removing the last pending byte undoes receiving a byte that did not end a
/// line, when there was room for it.
pub proof fn lemma_backspace_undoes_receive(
    s: TeletypeSettings,
    input: Seq<u8>,
    lines: Seq<u8>,
    byte: u8,
)
    requires
        input.len() < RING_BUFFER_CAPACITY as nat,
        !(is_canonical(s) && ends_line(byte)),
    ensures
        receive(s, input, lines, byte).0.len() > 0,
        receive(s, input, lines, byte).0.drop_last() == input,
        receive(s, input, lines, byte).1 == lines,
{
    assert(input.push(stored_byte(s, byte)).drop_last() =~= input);
}

/// Outside canonical mode every received byte is readable at once: receiving
/// `byte` with room left adds its stored form after the bytes already there.
pub proof fn lemma_raw_mode_immediate(
    s: TeletypeSettings,
    input: Seq<u8>,
    lines: Seq<u8>,
    byte: u8,
)
    requires
        !is_canonical(s),
        input.len() < RING_BUFFER_CAPACITY as nat,
    ensures
        receive(s, input, lines, byte) == (input.push(stored_byte(s, byte)), lines),
{
}

/// Receiving the bytes of `first` and then those of `second` is receiving
/// `first + second`.
pub proof fn lemma_receive_all_concat(
    s: TeletypeSettings,
    input: Seq<u8>,
    lines: Seq<u8>,
    first: Seq<u8>,
    second: Seq<u8>,
)
    ensures
        receive_all(s, input, lines, first + second) == receive_all(
            s,
            receive_all(s, input, lines, first).0,
            receive_all(s, input, lines, first).1,
            second,
        ),
    decreases second.len(),
{
    if second.len() == 0 {
        assert(first + second =~= first);
    } else {
        lemma_receive_all_concat(s, input, lines, first, second.drop_last());
        assert((first + second).drop_last() =~= first + second.drop_last());
        assert((first + second).last() == second.last());
    }
}

/// A carriage return is stored as a newline exactly when `ICRNL` is set, and
/// every other byte is stored as it came.
pub proof fn lemma_stored_byte_values(s: TeletypeSettings, byte: u8)
    ensures
        byte != 0x0D ==> stored_byte(s, byte) == byte,
        (byte == 0x0D && s.input_flags & ICRNL != 0) ==> stored_byte(s, byte) == 0x0Au8,
        (byte == 0x0D && s.input_flags & ICRNL == 0) ==> stored_byte(s, byte) == 0x0Du8,
{
}

/// In canonical mode, a line end appends the pending input and the line end
/// itself after the completed lines already waiting, which stay in front
/// untouched; with room for all of it nothing is dropped.
pub proof fn lemma_line_end_appends(
    s: TeletypeSettings,
    input: Seq<u8>,
    lines: Seq<u8>,
    byte: u8,
)
    requires
        s.local_flags & ICANON != 0,
        byte == 0x0D || byte == 0x04,
        input.len() < RING_BUFFER_CAPACITY as nat,
        lines.len() + input.len() + 1 <= RING_BUFFER_CAPACITY as nat,
    ensures
        receive(s, input, lines, byte).0.len() == 0,
        receive(s, input, lines, byte).1.len() == lines.len() + input.len() + 1,
        receive(s, input, lines, byte).1.subrange(0, lines.len() as int) == lines,
        receive(s, input, lines, byte).1.subrange(
            lines.len() as int,
            (lines.len() + input.len()) as int,
        ) == input,
        byte == 0x04 ==> receive(s, input, lines, byte).1.last() == 0x04u8,
        (byte == 0x0D && s.input_flags & ICRNL != 0) ==> receive(s, input, lines, byte).1.last()
            == 0x0Au8,
        (byte == 0x0D && s.input_flags & ICRNL == 0) ==> receive(s, input, lines, byte).1.last()
            == 0x0Du8,
{
    let pending = input.push(stored_byte(s, byte));
    let all = lines + pending;
    assert(receive(s, input, lines, byte).1 == all);
    assert(all.subrange(0, lines.len() as int) =~= lines);
    assert(all.subrange(lines.len() as int, (lines.len() + input.len()) as int) =~= input);
}

/// In canonical mode with `ICRNL`, typing two lines (neither holding a
/// carriage return or Ctrl-D) each followed by a carriage return, before
/// anything is read, leaves both readable one after the other, each ended by
/// a newline, and nothing pending; the second line does not displace the
/// first.
pub proof fn lemma_two_lines_both_kept(s: TeletypeSettings, first: Seq<u8>, second: Seq<u8>)
    requires
        s.local_flags & ICANON != 0,
        s.input_flags & ICRNL != 0,
        first.len() + second.len() + 2 <= RING_BUFFER_CAPACITY as nat,
        forall|i: int| 0 <= i < first.len() ==> #[trigger] first[i] != 0x0D && first[i] != 0x04,
        forall|i: int| 0 <= i < second.len() ==> #[trigger] second[i] != 0x0D && second[i] != 0x04,
    ensures
        receive_all(s, Seq::empty(), Seq::empty(), first.push(0x0D) + second.push(0x0D)) == (
            Seq::<u8>::empty(),
            first.push(0x0Au8) + second.push(0x0Au8),
        ),
{
    lemma_typed_line_appended(s, Seq::empty(), first);
    assert(Seq::<u8>::empty() + first.push(0x0Au8) =~= first.push(0x0Au8));
    lemma_typed_line_appended(s, first.push(0x0Au8), second);
    lemma_receive_all_concat(s, Seq::empty(), Seq::empty(), first.push(0x0D), second.push(0x0D));
}

/// In canonical mode with `ICRNL`, typing a line with no carriage return or
/// Ctrl-D and then a carriage return, starting with nothing pending, appends
/// the line and a newline after the completed lines already waiting.
pub proof fn lemma_typed_line_appended(s: TeletypeSettings, lines: Seq<u8>, line: Seq<u8>)
    requires
        s.local_flags & ICANON != 0,
        s.input_flags & ICRNL != 0,
        lines.len() + line.len() + 1 <= RING_BUFFER_CAPACITY as nat,
        forall|i: int| 0 <= i < line.len() ==> #[trigger] line[i] != 0x0D && line[i] != 0x04,
    ensures
        receive_all(s, Seq::empty(), lines, line.push(0x0D)) == (
            Seq::<u8>::empty(),
            lines + line.push(0x0Au8),
        ),
{
    lemma_pending_line(s, lines, line);
    assert(line.push(0x0D).drop_last() =~= line);
    assert(lines + line.push(0x0Au8) =~= lines + line.push(stored_byte(s, 0x0D)));
}

/// In canonical mode, typing bytes that hold no carriage return or Ctrl-D,
/// starting with nothing pending, keeps them all pending as typed and leaves
/// the completed lines alone.
pub proof fn lemma_pending_line(s: TeletypeSettings, lines: Seq<u8>, line: Seq<u8>)
    requires
        s.local_flags & ICANON != 0,
        line.len() < RING_BUFFER_CAPACITY as nat,
        forall|i: int| 0 <= i < line.len() ==> #[trigger] line[i] != 0x0D && line[i] != 0x04,
    ensures
        receive_all(s, Seq::empty(), lines, line) == (line, lines),
    decreases line.len(),
{
    if line.len() > 0 {
        let prefix = line.drop_last();
        assert forall|i: int| 0 <= i < prefix.len() implies #[trigger] prefix[i] != 0x0D
            && prefix[i] != 0x04 by {
            assert(prefix[i] == line[i]);
        }
        lemma_pending_line(s, lines, prefix);
        assert(line.last() == line[line.len() - 1]);
        assert(prefix.push(line.last()) =~= line);
    }
}

/// Output translation looks only at the output flags and the byte: with
/// `OPOST` a newline goes out followed by a carriage return, whatever the
/// input and local flags say; every other byte, and every byte without
/// `OPOST`, goes out alone and unchanged.
pub proof fn lemma_output_depends_on_output_flags(s: TeletypeSettings, t: TeletypeSettings, byte: u8)
    ensures
        s.output_flags == t.output_flags ==> output_bytes(s, byte) == output_bytes(t, byte),
        (s.output_flags & OPOST != 0 && byte == 0x0A) ==> output_bytes(s, byte) == seq![0x0Au8, 0x0Du8],
        (s.output_flags & OPOST == 0 || byte != 0x0A) ==> output_bytes(s, byte) == seq![byte],
{
}

} // verus!
