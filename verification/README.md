# nes_cpu

A MOS 6502 processor core, as used in the NES, written in Verus.

- `src/flags.rs`: the status-flag masks and the `UpdateFlag` trait.
- `src/opcodes.rs`: addressing modes, mnemonics and the instruction table.
- `src/state.rs`: the abstract processor state (`CpuState`), memory, stack and
  operand addressing.
- `src/semantics.rs`: what every instruction does, one fetch-decode-execute
  step, and running until `BRK`.
- `src/cpu.rs`: the executable emulator `CPU`, proved to follow the semantics.
- `src/laws.rs`: properties of the semantics (stack, memory, flags, rotations,
  determinism of a run).

Running a program requires that it reaches `BRK` without faulting: an unknown
opcode, an access to address `0xFFFF`, or a program counter leaving the 16-bit
range are outside what the emulator accepts.
`CPU::try_step` executes one instruction from any state and reports such a
fault as `None`, leaving the processor unchanged.
