# rustemu86

An emulator of x86 CPUs whose core is verified with Verus.

The library (`src/`) holds the machine: the RAM, the serial port and the
VGA text screen behind a memory-mapped bus (`peripherals`, `display`), and
three CPU models over that bus:

- `targets::x86_64`: the 64-bit CPU, a pipeline of fetch (`cpu::fetcher`),
  decode into the micro-operations of `cpu::decoder`
  (`targets::x86_64::decoder`), execute (`targets::x86_64::ex_stage`) and
  write-back; `cpu::decoder` also holds the first, simpler decoder;
- `targets::x86`: the real-mode CPU that boots from the BIOS state;
- `compatible`: the first real-mode CPU, which knows `xor` and `hlt`.

Each stage has a specification as a spec function over values (`*_spec`),
and the run loops are proved to compute them. Laws such as "a quadword
written to RAM is read back", "`push` then `pop` copies a register and
restores the stack pointer" and "`call` then `ret` resumes after the call"
are proof functions next to the code they speak of.

`app/` is the program around the library: the command line, the loader,
the GTK window that shows the screen, the serial output and the printing
of the per-cycle status dumps, whose text the library writes. `tests/` runs the library on small programs.
