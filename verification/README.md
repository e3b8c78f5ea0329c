# chip8

A CHIP-8 emulator whose interpreter core is written and proved with Verus.

- `src/instructions.rs`: the `Instruction` type and `decode`, proved against the opcode table
  `spec_decode`.
- `src/state.rs`: the mathematical model of the processor (`CpuState`), when an instruction
  can run (`runnable`) and what it does (`step`).
- `src/cpu.rs`: the processor (`Cpu`): fetching, loading programs and the font, and
  `execute`, proved to follow `step`.
- `src/frame.rs`: the frame loop (seven instructions per frame, waiting for keys).
- `src/screen.rs`, `src/delay_timer.rs`, `src/keypad.rs`, `src/font.rs`: the display
  buffer and its RGBA rendering, the 60 Hz timers, the keypad layout and the font sprites.
- `src/laws.rs`: properties that span several operations (sprites drawn twice vanish, a
  call and a return cancel out, stored registers load back, ...).
- `app/main.rs`: the window, rendering, keyboard and timer clock (winit and pixels).

Run with `--path <rom>`.
