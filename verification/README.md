# gbx

A Game Boy (DMG) emulator core and its service layer, written in Verus: the
executable code carries `requires`/`ensures` contracts that Verus proves.

## Layout

- `src/` — the verified library.
  - CPU and memory: `bits`, `exec` (flags, scalar ALU), `exec_simd`
    (lane-parallel ALU over lane arrays), `cpu`, `bus`,
    `mmu`, `bus_simd` (lane-multiplexed bus), `timers`, `ppu_stub`,
    `render`, `instr` (instruction set), `gb_core` (the core loop),
    `state` (snapshots), `boot` (boot animation).
  - Kernel and services: `instance`, `kernel`, `service_abi`,
    `service_queue`, `services`, `hub`, `fabric`.
  - Wire form: `schema`, `codecs`.
  - Front-end state: `health`, `inspector_vm`, `world`, `report`
    (text reports and number parsing for the inspector).
  - `laws`: properties that relate several operations.
- `tests/` — runtime tests of the library.
- `app/` — the command-line inspector (argument parsing, file reading,
  printing, JSON output); not verified.
