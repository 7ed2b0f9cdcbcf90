# nes_emu

A Nintendo Entertainment System emulator whose core is verified with Verus.

The library (`src/`) holds the machine: the 6502 CPU with its undocumented
opcodes, the PPU rendering pipeline, the controller shift register, the CPU
bus with its mirrored ranges, OAM DMA, the CPU trace format and the mapping
of keys and gamepad buttons to controller buttons. Each component is a plain
value with a mathematical model; every public function states what it does
to that model, and `laws.rs`, `cpu_laws.rs` and `sprite_laws.rs` prove what holds across
operations (memory reads back what was written, mirrored ranges agree,
calls and interrupts return where they started, the ALU's inverse pairs).

`app/` is the program around it: the window, the event loop, ROM loading,
gamepad events and the frame rate counter.

Modules:

- `params` — frame geometry and the master palette
- `flags` — status, control, mask and controller bit sets
- `opcode` — the opcode table and its byte encoding
- `pad` — the controller
- `ppu`, `render` — PPU memory, registers and the per-dot pipeline
- `nes` — the machine and its CPU bus
- `cpu`, `alu`, `operations`, `addressings`, `dispatch` — the CPU
- `trace` — the CPU trace lines
- `control` — keyboard and gamepad mapping
- `fault` — accesses the hardware model does not map
