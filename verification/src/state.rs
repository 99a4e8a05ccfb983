use vstd::prelude::*;

use crate::flags::{CpuFlags, with_flag};
use crate::opcodes::AddressingMode;

verus! {

/// Number of addressable bytes: addresses `0x0000..=0xFFFE`.
pub const MEMORY_SIZE: usize = 0xFFFF;

/// First address of the stack page; the stack lives in `0x0100..=0x01FF`.
pub const STACK: u16 = 0x0100;

/// Stack pointer after power-up and reset.
pub const STACK_RESET: u8 = 0xfd;

/// Address of the little-endian word the program counter is reset from.
pub const RESET_VECTOR: u16 = 0xFFFC;

/// Address a program is loaded at.
pub const PROGRAM_START: u16 = 0x8000;

/// The abstract processor: registers, status flags and memory.
pub struct CpuState {
    pub register_a: u8,
    pub register_x: u8,
    pub register_y: u8,
    pub status: u8,
    pub program_counter: u16,
    pub stack_pointer: u8,
    pub memory: Seq<u8>,
}

/// `v` reduced to a byte.
pub open spec fn byte(v: int) -> u8 {
    (v % 256) as u8
}

/// `v` reduced to a 16-bit word.
pub open spec fn word16(v: int) -> u16 {
    (v % 65536) as u16
}

/// The little-endian word made of `lo` and `hi`.
pub open spec fn word(lo: u8, hi: u8) -> u16 {
    (hi * 256 + lo) as u16
}

/// The two's complement value of a byte.
pub open spec fn signed(v: u8) -> int {
    if v < 128 {
        v as int
    } else {
        v - 256
    }
}

/// `addr` names a byte of memory.
pub open spec fn in_memory(addr: int) -> bool {
    0 <= addr < MEMORY_SIZE
}

/// `pos` and `pos + 1` both name bytes of memory.
pub open spec fn in_memory_u16(pos: int) -> bool {
    0 <= pos && pos + 1 < MEMORY_SIZE
}

/// `status` with the zero flag telling whether `v` is zero and the negative
/// flag copying bit 7 of `v`.
pub open spec fn with_zero_negative(status: u8, v: u8) -> u8 {
    with_flag(with_flag(status, CpuFlags::ZERO, v == 0), CpuFlags::NEGATIVE, v >= 128)
}

impl CpuState {
    /// The state right after power-up: registers and memory cleared.
    pub open spec fn initial() -> CpuState {
        CpuState {
            register_a: 0,
            register_x: 0,
            register_y: 0,
            status: 0,
            program_counter: 0,
            stack_pointer: STACK_RESET,
            memory: Seq::new(MEMORY_SIZE as nat, |i: int| 0u8),
        }
    }

    /// Memory has its full size.
    pub open spec fn wf(self) -> bool {
        self.memory.len() == MEMORY_SIZE
    }

    pub open spec fn read(self, addr: int) -> u8 {
        self.memory[addr]
    }

    pub open spec fn read_u16(self, pos: int) -> u16 {
        word(self.read(pos), self.read(pos + 1))
    }

    pub open spec fn write(self, addr: int, data: u8) -> CpuState {
        CpuState { memory: self.memory.update(addr, data), ..self }
    }

    /// Writes `data` little-endian at `pos` and `pos + 1`.
    pub open spec fn write_u16(self, pos: int, data: u16) -> CpuState {
        self.write(pos, byte(data as int)).write(pos + 1, (data / 256) as u8)
    }

    pub open spec fn with_pc(self, pc: u16) -> CpuState {
        CpuState { program_counter: pc, ..self }
    }

    pub open spec fn with_status(self, status: u8) -> CpuState {
        CpuState { status, ..self }
    }

    /// Sets `flag` when `on`, clears it otherwise.
    pub open spec fn with_flag(self, flag: u8, on: bool) -> CpuState {
        self.with_status(with_flag(self.status, flag, on))
    }

    /// The carry flag as the number 0 or 1.
    pub open spec fn carry(self) -> int {
        if self.status & CpuFlags::CARRY != 0 {
            1
        } else {
            0
        }
    }

    /// Loads the accumulator and updates the zero and negative flags.
    pub open spec fn load_a(self, v: u8) -> CpuState {
        CpuState { register_a: v, status: with_zero_negative(self.status, v), ..self }
    }

    /// Loads register X and updates the zero and negative flags.
    pub open spec fn load_x(self, v: u8) -> CpuState {
        CpuState { register_x: v, status: with_zero_negative(self.status, v), ..self }
    }

    /// Loads register Y and updates the zero and negative flags.
    pub open spec fn load_y(self, v: u8) -> CpuState {
        CpuState { register_y: v, status: with_zero_negative(self.status, v), ..self }
    }

    /// Writes `v` to memory and updates the zero and negative flags from it.
    pub open spec fn store_result(self, addr: int, v: u8) -> CpuState {
        self.write(addr, v).with_status(with_zero_negative(self.status, v))
    }

    /// Pushes a byte: it is written at the stack pointer, which then moves down.
    pub open spec fn push(self, data: u8) -> CpuState {
        let written = self.write(STACK + self.stack_pointer, data);
        CpuState { stack_pointer: byte(self.stack_pointer - 1), ..written }
    }

    /// Pops a byte: the stack pointer moves up and the byte it then names is read.
    pub open spec fn pop(self) -> (CpuState, u8) {
        let sp = byte(self.stack_pointer + 1);
        (CpuState { stack_pointer: sp, ..self }, self.read(STACK + sp))
    }

    /// Pushes a word, high byte first.
    pub open spec fn push_u16(self, data: u16) -> CpuState {
        self.push((data / 256) as u8).push(byte(data as int))
    }

    /// Pops a word, low byte first.
    pub open spec fn pop_u16(self) -> (CpuState, u16) {
        let (s1, lo) = self.pop();
        let (s2, hi) = s1.pop();
        (s2, word(lo, hi))
    }

    /// The bytes the operand of `mode` is fetched from, which follow the
    /// opcode at the program counter, lie in memory.
    pub open spec fn operand_fetchable(self, mode: AddressingMode) -> bool {
        let pc = self.program_counter as int;
        match mode {
            AddressingMode::Immediate => true,
            AddressingMode::ZeroPage
            | AddressingMode::ZeroPage_X
            | AddressingMode::ZeroPage_Y
            | AddressingMode::Indirect_X
            | AddressingMode::Indirect_Y => in_memory(pc),
            AddressingMode::Absolute
            | AddressingMode::Absolute_X
            | AddressingMode::Absolute_Y => in_memory_u16(pc),
            AddressingMode::NoneAddressing => false,
        }
    }

    /// The effective address of the operand in `mode`, the program counter
    /// pointing at the byte after the opcode.
    pub open spec fn operand_address(self, mode: AddressingMode) -> u16 {
        let pc = self.program_counter as int;
        match mode {
            AddressingMode::Immediate => self.program_counter,
            AddressingMode::ZeroPage => self.read(pc) as u16,
            AddressingMode::ZeroPage_X => byte(self.read(pc) + self.register_x) as u16,
            AddressingMode::ZeroPage_Y => byte(self.read(pc) + self.register_y) as u16,
            AddressingMode::Absolute => self.read_u16(pc),
            AddressingMode::Absolute_X => word16(self.read_u16(pc) + self.register_x),
            AddressingMode::Absolute_Y => word16(self.read_u16(pc) + self.register_y),
            AddressingMode::Indirect_X => {
                let ptr = byte(self.read(pc) + self.register_x) as int;
                word(self.read(ptr), self.read(byte(ptr + 1) as int))
            },
            AddressingMode::Indirect_Y => {
                let ptr = self.read(pc) as int;
                word16(word(self.read(ptr), self.read(byte(ptr + 1) as int)) + self.register_y)
            },
            AddressingMode::NoneAddressing => 0,
        }
    }

    /// The operand can be fetched and its effective address lies in memory.
    pub open spec fn operand_ok(self, mode: AddressingMode) -> bool {
        self.operand_fetchable(mode) && in_memory(self.operand_address(mode) as int)
    }

    /// The byte at the effective address of the operand.
    pub open spec fn operand(self, mode: AddressingMode) -> u8 {
        self.read(self.operand_address(mode) as int)
    }
}

} // verus!
