use lib::tty::{TeletypeSettings, ICANON, ICRNL, OPOST};
use lib::uart::{init_register_writes, line_status_data_ready, UARTDriver};

fn read_all(d: &mut UARTDriver) -> Vec<u8> {
    let mut out = Vec::new();
    while let Some(b) = d.read_byte() {
        out.push(b);
    }
    out
}

#[test]
fn new_driver_defaults() {
    let d = UARTDriver::new(0x1000_0000);
    assert_eq!(d.base(), 0x1000_0000);
    let s = d.get_tty_settings();
    assert_eq!(s, TeletypeSettings::new());
    assert!(s.local_flags & ICANON != 0);
    assert!(s.input_flags & ICRNL != 0);
    assert!(s.output_flags & OPOST != 0);
    assert_eq!(d.get_foreground_process_group(), 0);
    assert!(!d.get_paused_state());
    assert!(!d.get_preserve_next_state());
    assert!(!d.bytes_available());
    assert!(!d.bytes_to_backaspace());
}

#[test]
fn canonical_line_waits_for_return() {
    let mut d = UARTDriver::new(0);
    for b in b"hi" {
        d.tty_push_byte(*b, false);
    }
    assert!(!d.bytes_available());
    assert!(d.bytes_to_backaspace());
    assert_eq!(d.read_byte(), None);
    d.tty_push_byte(0x0D, false);
    assert!(d.bytes_available());
    assert!(!d.bytes_to_backaspace());
    assert_eq!(read_all(&mut d), vec![b'h', b'i', 0x0A]);
}

#[test]
fn end_of_transmission_commits_the_line() {
    let mut d = UARTDriver::new(0);
    d.tty_push_byte(b'x', false);
    d.tty_push_byte(0x04, false);
    assert_eq!(read_all(&mut d), vec![b'x', 0x04]);
}

#[test]
fn return_kept_without_icrnl() {
    let mut d = UARTDriver::new(0);
    let mut s = d.get_tty_settings();
    s.input_flags = 0;
    d.set_tty_settings(s);
    d.tty_push_byte(b'a', false);
    d.tty_push_byte(0x0D, false);
    assert_eq!(read_all(&mut d), vec![b'a', 0x0D]);
}

#[test]
fn raw_mode_bytes_available_at_once() {
    let mut d = UARTDriver::new(0);
    let mut s = d.get_tty_settings();
    s.local_flags = 0;
    d.set_tty_settings(s);
    d.tty_push_byte(b'q', false);
    assert!(d.bytes_available());
    assert_eq!(d.tty_read_byte(), Some(b'q'));
    d.tty_push_byte(0x0D, false);
    assert_eq!(d.read_byte(), Some(0x0A));
    assert_eq!(d.read_byte(), None);
}

#[test]
fn handled_byte_is_not_stored() {
    let mut d = UARTDriver::new(0);
    d.tty_push_byte(0x03, true);
    assert!(!d.bytes_to_backaspace());
    d.notify_recieve(Some(b'z'), true);
    assert!(!d.bytes_to_backaspace());
    d.notify_recieve(None, false);
    assert!(!d.bytes_to_backaspace());
    d.notify_recieve(Some(b'z'), false);
    assert!(d.bytes_to_backaspace());
}

#[test]
fn backspace_removes_last_pending_byte() {
    let mut d = UARTDriver::new(0);
    d.tty_push_byte(b'a', false);
    d.tty_push_byte(b'b', false);
    assert!(d.backspace());
    d.tty_push_byte(0x0D, false);
    assert_eq!(read_all(&mut d), vec![b'a', 0x0A]);
    assert!(!d.backspace());
}

#[test]
fn flush_discards_everything() {
    let mut d = UARTDriver::new(0);
    d.tty_push_byte(b'a', false);
    d.tty_push_byte(0x0D, false);
    d.tty_push_byte(b'b', false);
    d.flush_tty();
    assert!(!d.bytes_available());
    assert!(!d.bytes_to_backaspace());
    assert_eq!(d.read_byte(), None);
}

#[test]
fn newline_output_gets_carriage_return() {
    let mut d = UARTDriver::new(0);
    assert_eq!(d.tty_write_byte(0x0A), vec![0x0A, 0x0D]);
    assert_eq!(d.tty_write_byte(b'k'), vec![b'k']);
    let mut s = d.get_tty_settings();
    s.output_flags = 0;
    d.set_tty_settings(s);
    assert_eq!(d.tty_write_byte(0x0A), vec![0x0A]);
}

#[test]
fn state_setters() {
    let mut d = UARTDriver::new(0);
    d.set_foreground_process_group(7);
    assert_eq!(d.get_foreground_process_group(), 7);
    d.set_paused_state(true);
    assert!(d.get_paused_state());
    d.set_preserve_next_state(true);
    assert!(d.get_preserve_next_state());
}

#[test]
fn init_writes_set_divisor() {
    let w = init_register_writes();
    assert_eq!(w, vec![(3, 0x03), (1, 0x01), (3, 0x83), (0, 0x50), (1, 0x02), (3, 0x03)]);
    assert_eq!(w[3].1 as u16 + 256 * w[4].1 as u16, 592);
}

#[test]
fn line_status_ready_bit() {
    assert!(line_status_data_ready(0x61));
    assert!(!line_status_data_ready(0x60));
    assert!(!line_status_data_ready(0));
}
