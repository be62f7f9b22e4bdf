# gba_rustmulator

A Game Boy Advance emulator whose core is verified with Verus.

- `src/` is the verified library:
  - `arm7tdmi/`: the ARM7TDMI processor — registers and banking (`cpu`),
    program status registers (`psr`), the barrel shifter and flag
    arithmetic (`alu`), the ARM and THUMB instruction sets (`arm`, `thumb`),
    and one processor step (`CPU::step`).
  - `system/`: the memory map (`SystemBus`), the I/O registers, and the
    machine's cycle loop: display timing, interrupts, breakpoints and the
    instruction trace (`tick`, `run_frame`, `debug_step`).
  - `ppu/`: the picture processing unit — its registers, palette, video
    and object memory, and the renderer of a whole frame.
  - `memory.rs`: a flat 4 GiB byte memory.
  - `debugging/`: the disassembler and the tile and object pictures shown
    by the debugger.
  - `bits.rs`: single bits of words and the bit-vector facts behind them.

  Each type has a mathematical view (`CpuView`, `BusView`, `PpuView`,
  `IoView`) and each operation states its effect on that view. The laws of
  the library (read after write, register banking, exception entry and
  return, how a run of cycles ends, ...) are public proof functions.

- `app/` is the desktop front end: the window, Dear ImGui debugger windows,
  the 60 Hz frame pacing and the keypad. It loads `data/bios.gba` and a
  cartridge, runs a frame per display refresh, and shows the picture the
  library renders.

- `tests/` exercises the library on concrete programs and values.
