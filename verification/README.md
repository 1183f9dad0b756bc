# qor-os kernel core, verified

The verified parts of a small RISC-V kernel, written in Verus.

- `src/ring_buffer.rs`: the byte queue behind terminal input.
- `src/tty.rs`, `src/uart.rs`: terminal settings, the line discipline's
  buffering rules, and the UART driver's state and set-up sequence.
- `src/process_data.rs`, `src/process.rs`, `src/descriptor.rs`: process
  bookkeeping, descriptor tables, process creation and fork.
- `src/devices.rs`, `src/ioctl.rs`: the device directory and `ioctl` decoding.
- `src/fs_trait.rs`: the filesystem interface and the checks its provided
  operations make.

`app/` holds the code that touches hardware or hands work to the rest of the
kernel (register access, page-table translation, freeing memory); it calls
the library for every decision. `tests/` exercises the library on concrete
values.
