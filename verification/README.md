# nessers

A cycle-counting NES emulator whose core is verified with Verus.

- `src/` is the verified library: the 6502 CPU (two variants: `cpu6502` and
  `processor`), the picture processing unit (`ppu`, `ppu_regs`, `palette`),
  the integer state of the audio unit (`apu`), cartridges and their mappers
  (`cart`, `mapper`), the devices on the CPU bus (`ram`, `mirror`,
  `peripherals`), the console that wires them together (`nes`), and the
  tracer, disassembler and debugger helpers (`trace`, `text`, `debugger`).
  Each public function states what it does in its `requires`/`ensures`; the
  `law_*` proof functions state properties that span several calls.
- `app/` is the program around it: argument handling, file reading, the
  window and the egui debugger, audio output, and the floating-point audio
  synthesis.
- `tests/` exercises the library on concrete values.
