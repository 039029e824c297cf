# bitos

The verified core of a small x86_64 hobby kernel, written in Verus.

- `src/` is the library. Its functions are verified, except a few trusted
  wrappers (marked `#[verifier::external_body]`) that call `crossbeam_queue`,
  `futures_util` and `pc_keyboard`, whose contracts are taken on trust:
  - `interrupts`: PIC vector numbering and the keyboard's number-row scancodes;
  - `gdt`: the double-fault interrupt stack entry;
  - `memory`: canonical virtual addresses, page-table entries, the four-level
    page-table walk (a state machine fed with the entries it asks for), and the
    frame allocator over the boot memory map;
  - `boot_info`: the boot memory map and the sequence of its usable frames;
  - `allocator`: the heap allocator that owns no memory;
  - `task`: tasks, the FIFO executor, the waker-driven executor, and the
    scancode queue shared with the keyboard interrupt handler, and the
    keyboard decoder.
- `app/` is the kernel binary around it: boot entry, interrupt handlers, port
  and page-table access, VGA output, and the loops that poll futures. It is a
  `no_std` kernel and needs a nightly compiler for the `x86-interrupt` ABI.
- `tests/` runs the library, comparing it against `x86_64` and `bootloader`
  where those crates compute the same thing.
