use vstd::prelude::*;

use crate::flags::{CpuFlags, UpdateFlag};
use crate::opcodes::{AddressingMode, Mnemonic, OpCode, decode_opcode, lemma_opcode_table_well_formed};
use crate::semantics::{Step, asl_value, lsr_value, rol_value, ror_value, lemma_run_result, lemma_load_sets_reset_vector};
use crate::laws::lemma_subtract_is_add_complement;
use crate::state::{
    CpuState,
    byte,
    word,
    signed,
    in_memory,
    in_memory_u16,
    with_zero_negative,
    MEMORY_SIZE,
    PROGRAM_START,
    STACK,
    STACK_RESET,
};

verus! {

/// The emulated processor.
pub struct CPU {
    pub register_a: u8,
    pub register_x: u8,
    pub register_y: u8,
    /// Status flags, see `CpuFlags`.
    pub status: u8,
    pub program_counter: u16,
    pub stack_pointer: u8,
    memory: [u8; 0xFFFF],
}

impl View for CPU {
    type V = CpuState;

    closed spec fn view(&self) -> CpuState {
        CpuState {
            register_a: self.register_a,
            register_x: self.register_x,
            register_y: self.register_y,
            status: self.status,
            program_counter: self.program_counter,
            stack_pointer: self.stack_pointer,
            memory: self.memory@,
        }
    }
}

impl CPU {
    /// Memory always holds its full `MEMORY_SIZE` bytes.
    pub proof fn lemma_wf(&self)
        ensures
            self@.wf(),
    {
    }
}

impl UpdateFlag for CPU {
    open spec fn status_bits(&self) -> u8 {
        self@.status
    }

    fn set_flag(&mut self, flag: u8)
        ensures
            final(self)@ == old(self)@.with_status(old(self)@.status | flag),
    {
        self.status = self.status | flag;
    }

    fn clear_flag(&mut self, flag: u8)
        ensures
            final(self)@ == old(self)@.with_status(old(self)@.status & !flag),
    {
        self.status = self.status & !flag;
    }

    fn contain_flag(&self, flag: u8) -> (r: bool) {
        self.status & flag != 0
    }
}

impl CPU {
    /// A processor after power-up: registers and memory cleared, the stack
    /// pointer at its reset value.
    pub fn new() -> (cpu: Self)
        ensures
            cpu@ == CpuState::initial(),
    {
        let cpu = CPU {
            register_a: 0,
            register_x: 0,
            register_y: 0,
            program_counter: 0,
            stack_pointer: STACK_RESET,
            status: 0,
            memory: [0;0xFFFF],
        };
        assert(cpu@.memory =~= CpuState::initial().memory);
        cpu
    }

    /// Reads the byte at `addr`.
    pub fn mem_read(&self, addr: u16) -> (r: u8)
        requires
            in_memory(addr as int),
        ensures
            r == self@.read(addr as int),
    {
        self.memory[addr as usize]
    }

    /// Writes `data` at `addr`.
    pub fn mem_write(&mut self, addr: u16, data: u8)
        requires
            in_memory(addr as int),
        ensures
            final(self)@ == old(self)@.write(addr as int, data),
    {
        self.memory[addr as usize] = data;
        assert(self@.memory =~= old(self)@.write(addr as int, data).memory);
    }

    /// Reads the little-endian word at `pos`.
    pub fn mem_read_u16(&self, pos: u16) -> (r: u16)
        requires
            in_memory_u16(pos as int),
        ensures
            r == self@.read_u16(pos as int),
    {
        let lo = self.mem_read(pos) as u16;
        let hi = self.mem_read(pos + 1) as u16;
        proof {
            lemma_word_bits(lo, hi);
        }
        (hi << 8) | lo
    }

    /// Writes `data` little-endian at `pos`.
    pub fn mem_write_u16(&mut self, pos: u16, data: u16)
        requires
            in_memory_u16(pos as int),
        ensures
            final(self)@ == old(self)@.write_u16(pos as int, data),
    {
        let hi = (data >> 8) as u8;
        let lo = (data & 0xff) as u8;
        proof {
            lemma_split_word(data);
        }
        self.mem_write(pos, lo);
        self.mem_write(pos + 1, hi);
    }
}

impl CPU {
    /// The effective address of the operand in `mode`; the program counter
    /// points at the byte after the opcode.
    #[verifier::spinoff_prover]
    fn get_operand_address(&self, mode: &AddressingMode) -> (addr: u16)
        requires
            self@.operand_fetchable(*mode),
        ensures
            addr == self@.operand_address(*mode),
    {
        match mode {
            AddressingMode::Immediate => self.program_counter,
            AddressingMode::ZeroPage => self.mem_read(self.program_counter) as u16,
            AddressingMode::Absolute => self.mem_read_u16(self.program_counter),
            AddressingMode::ZeroPage_X => {
                let pos = self.mem_read(self.program_counter);
                let addr = pos.wrapping_add(self.register_x) as u16;
                addr
            },
            AddressingMode::ZeroPage_Y => {
                let pos = self.mem_read(self.program_counter);
                let addr = pos.wrapping_add(self.register_y) as u16;
                addr
            },
            AddressingMode::Absolute_X => {
                let base = self.mem_read_u16(self.program_counter);
                let addr = base.wrapping_add(self.register_x as u16);
                addr
            },
            AddressingMode::Absolute_Y => {
                let base = self.mem_read_u16(self.program_counter);
                let addr = base.wrapping_add(self.register_y as u16);
                addr
            },
            AddressingMode::Indirect_X => {
                let base = self.mem_read(self.program_counter);
                let pos: u8 = base.wrapping_add(self.register_x);
                self.read_zero_page_word(pos)
            },
            AddressingMode::Indirect_Y => {
                let base = self.mem_read(self.program_counter);
                let deref_base = self.read_zero_page_word(base);
                let deref = deref_base.wrapping_add(self.register_y as u16);
                deref
            },
            AddressingMode::NoneAddressing => {
                // excluded by the precondition: this mode names no operand
                proof {
                    assert(false);
                }
                0
            },
        }
    }

    /// The little-endian word at the zero-page address `pos`; its high byte
    /// comes from `pos + 1` within the zero page.
    fn read_zero_page_word(&self, pos: u8) -> (w: u16)
        ensures
            w == word(self@.read(pos as int), self@.read(byte(pos + 1) as int)),
    {
        let lo = self.mem_read(pos as u16);
        let hi = self.mem_read(pos.wrapping_add(1) as u16);
        proof {
            lemma_word_bits(lo as u16, hi as u16);
        }
        (hi as u16) << 8 | (lo as u16)
    }

    fn update_zero_flag(&mut self, result: u8)
        ensures
            final(self)@ == old(self)@.with_flag(CpuFlags::ZERO, result == 0),
    {
        if result == 0 {
            self.status |= 0b0000_0010;
        } else {
            assert(!0b0000_0010u8 == 0b1111_1101u8) by (bit_vector);
            self.status &= 0b1111_1101;
        }
    }

    fn update_negative_flag(&mut self, result: u8)
        ensures
            final(self)@ == old(self)@.with_flag(CpuFlags::NEGATIVE, result >= 128),
    {
        assert(result & 0b1000_0000 != 0 <==> result >= 128) by (bit_vector);
        if result & 0b1000_0000 != 0 {
            self.status |= 0b1000_0000;
        } else {
            assert(!0b1000_0000u8 == 0b0111_1111u8) by (bit_vector);
            self.status &= 0b0111_1111;
        }
    }

    fn update_zero_and_negative_flags(&mut self, result: u8)
        ensures
            final(self)@ == old(self)@.with_status(with_zero_negative(old(self)@.status, result)),
    {
        self.update_zero_flag(result);
        self.update_negative_flag(result)
    }

    fn set_register_a(&mut self, value: u8)
        ensures
            final(self)@ == old(self)@.load_a(value),
    {
        self.register_a = value;
        self.update_zero_and_negative_flags(self.register_a);
    }

    fn lda(&mut self, mode: &AddressingMode)
        requires
            old(self)@.operand_ok(*mode),
        ensures
            final(self)@ == old(self)@.load_a(old(self)@.operand(*mode)),
    {
        let addr = self.get_operand_address(mode);
        let value = self.mem_read(addr);
        self.set_register_a(value);
    }

    fn ldx(&mut self, mode: &AddressingMode)
        requires
            old(self)@.operand_ok(*mode),
        ensures
            final(self)@ == old(self)@.load_x(old(self)@.operand(*mode)),
    {
        let addr = self.get_operand_address(mode);
        let data = self.mem_read(addr);
        self.register_x = data;
        self.update_zero_and_negative_flags(self.register_x);
    }

    fn ldy(&mut self, mode: &AddressingMode)
        requires
            old(self)@.operand_ok(*mode),
        ensures
            final(self)@ == old(self)@.load_y(old(self)@.operand(*mode)),
    {
        let addr = self.get_operand_address(mode);
        let data = self.mem_read(addr);
        self.register_y = data;
        self.update_zero_and_negative_flags(self.register_y);
    }

    fn sta(&mut self, mode: &AddressingMode)
        requires
            old(self)@.operand_ok(*mode),
        ensures
            final(self)@ == old(self)@.write(
                old(self)@.operand_address(*mode) as int,
                old(self)@.register_a,
            ),
    {
        let addr = self.get_operand_address(mode);
        self.mem_write(addr, self.register_a);
    }

    fn and(&mut self, mode: &AddressingMode)
        requires
            old(self)@.operand_ok(*mode),
        ensures
            final(self)@ == old(self)@.load_a(old(self)@.operand(*mode) & old(self)@.register_a),
    {
        let addr = self.get_operand_address(mode);
        let data = self.mem_read(addr);
        self.set_register_a(data & self.register_a);
    }

    fn eor(&mut self, mode: &AddressingMode)
        requires
            old(self)@.operand_ok(*mode),
        ensures
            final(self)@ == old(self)@.load_a(old(self)@.operand(*mode) ^ old(self)@.register_a),
    {
        let addr = self.get_operand_address(mode);
        let data = self.mem_read(addr);
        self.set_register_a(data ^ self.register_a);
    }

    fn ora(&mut self, mode: &AddressingMode)
        requires
            old(self)@.operand_ok(*mode),
        ensures
            final(self)@ == old(self)@.load_a(old(self)@.operand(*mode) | old(self)@.register_a),
    {
        let addr = self.get_operand_address(mode);
        let data = self.mem_read(addr);
        self.set_register_a(data | self.register_a);
    }

    fn tax(&mut self)
        ensures
            final(self)@ == old(self)@.load_x(old(self)@.register_a),
    {
        self.register_x = self.register_a;
        self.update_zero_and_negative_flags(self.register_x);
    }

    fn inx(&mut self)
        ensures
            final(self)@ == old(self)@.load_x(byte(old(self)@.register_x + 1)),
    {
        self.register_x = self.register_x.wrapping_add(1);
        self.update_zero_and_negative_flags(self.register_x);
    }

    fn iny(&mut self)
        ensures
            final(self)@ == old(self)@.load_y(byte(old(self)@.register_y + 1)),
    {
        self.register_y = self.register_y.wrapping_add(1);
        self.update_zero_and_negative_flags(self.register_y);
    }

    fn dex(&mut self)
        ensures
            final(self)@ == old(self)@.load_x(byte(old(self)@.register_x - 1)),
    {
        self.register_x = self.register_x.wrapping_sub(1);
        self.update_zero_and_negative_flags(self.register_x);
    }

    fn dey(&mut self)
        ensures
            final(self)@ == old(self)@.load_y(byte(old(self)@.register_y - 1)),
    {
        self.register_y = self.register_y.wrapping_sub(1);
        self.update_zero_and_negative_flags(self.register_y);
    }
}

impl CPU {
    /// Adds `data` and the carry to the accumulator.
    fn add_to_register_a(&mut self, data: u8)
        ensures
            final(self)@ == old(self)@.add_with_carry(data),
    {
        proof {
            let status = self.status;
            assert((status | 0b1111_1110 == 0b1111_1111) == (status & 1 != 0)) by (bit_vector);
        }
        let sum = self.register_a as u16 + data as u16 + (if self.status | 0b1111_1110
            == 0b1111_1111 {
            1u8
        } else {
            0u8
        }) as u16;
        let carry_flag = sum > 0xff;
        if carry_flag {
            self.set_flag(CpuFlags::CARRY);
        } else {
            self.clear_flag(CpuFlags::CARRY);
        }
        assert(sum as u8 == sum % 256) by (bit_vector);
        let result = sum as u8;
        proof {
            lemma_overflow_bit(old(self).register_a, data, old(self)@.carry());
        }
        if (data ^ result) & (result ^ self.register_a) & 0b1000_0000 != 0 {
            self.set_flag(CpuFlags::OVERFLOW);
        } else {
            self.clear_flag(CpuFlags::OVERFLOW);
        }
        self.set_register_a(result);
    }

    /// Subtracts the operand and the borrow from the accumulator, by adding its
    /// one's complement.
    fn sbc(&mut self, mode: &AddressingMode)
        requires
            old(self)@.operand_ok(*mode),
        ensures
            final(self)@ == old(self)@.subtract_with_borrow(old(self)@.operand(*mode)),
    {
        let addr = self.get_operand_address(&mode);
        let data = self.mem_read(addr);
        proof {
            lemma_subtract_is_add_complement(self@, data);
        }
        self.add_to_register_a(!data);
    }

    fn adc(&mut self, mode: &AddressingMode)
        requires
            old(self)@.operand_ok(*mode),
        ensures
            final(self)@ == old(self)@.add_with_carry(old(self)@.operand(*mode)),
    {
        let addr = self.get_operand_address(mode);
        let value = self.mem_read(addr);
        self.add_to_register_a(value);
    }

    fn stack_pop(&mut self) -> (data: u8)
        ensures
            (final(self)@, data) == old(self)@.pop(),
    {
        self.stack_pointer = self.stack_pointer.wrapping_add(1);
        self.mem_read(STACK + self.stack_pointer as u16)
    }

    fn stack_push(&mut self, data: u8)
        ensures
            final(self)@ == old(self)@.push(data),
    {
        self.mem_write(STACK + self.stack_pointer as u16, data);
        self.stack_pointer = self.stack_pointer.wrapping_sub(1);
    }

    fn stack_pop_u16(&mut self) -> (data: u16)
        ensures
            (final(self)@, data) == old(self)@.pop_u16(),
    {
        let lo = self.stack_pop() as u16;
        let hi = self.stack_pop() as u16;
        proof {
            lemma_word_bits(lo, hi);
        }
        (hi << 8) | lo
    }

    fn stack_push_u16(&mut self, data: u16)
        ensures
            final(self)@ == old(self)@.push_u16(data),
    {
        let hi = (data >> 8) as u8;
        let lo = (data & 0x00ff) as u8;
        proof {
            lemma_split_word(data);
        }
        self.stack_push(hi);
        self.stack_push(lo);
    }

    fn asl_accumulator(&mut self)
        ensures
            final(self)@ == old(self)@.shift_accumulator(asl_value(old(self)@.register_a)),
    {
        let mut data = self.register_a;
        proof {
            lemma_shift_bits(data);
        }
        if data >> 7 == 1 {
            self.set_flag(CpuFlags::CARRY);
        } else {
            self.clear_flag(CpuFlags::CARRY);
        }
        data = data << 1;
        self.set_register_a(data)
    }

    /// Arithmetic shift left of the operand in memory.
    fn asl(&mut self, mode: &AddressingMode) -> (r: u8)
        requires
            old(self)@.operand_ok(*mode),
        ensures
            final(self)@ == old(self)@.shift_memory(
                old(self)@.operand_address(*mode) as int,
                asl_value(old(self)@.operand(*mode)),
            ),
            r == asl_value(old(self)@.operand(*mode)).1,
    {
        let addr = self.get_operand_address(mode);
        let mut data = self.mem_read(addr);
        proof {
            lemma_shift_bits(data);
        }
        if data >> 7 == 1 {
            self.set_flag(CpuFlags::CARRY);
        } else {
            self.clear_flag(CpuFlags::CARRY);
        }
        data = data << 1;
        self.mem_write(addr, data);
        self.update_zero_and_negative_flags(data);
        data
    }

    fn lsr_accumulator(&mut self)
        ensures
            final(self)@ == old(self)@.shift_accumulator(lsr_value(old(self)@.register_a)),
    {
        let mut data = self.register_a;
        proof {
            lemma_shift_bits(data);
        }
        if data & 1 == 1 {
            self.set_flag(CpuFlags::CARRY);
        } else {
            self.clear_flag(CpuFlags::CARRY);
        }
        data = data >> 1;
        self.set_register_a(data)
    }

    /// Logical shift right of the operand in memory.
    fn lsr(&mut self, mode: &AddressingMode) -> (r: u8)
        requires
            old(self)@.operand_ok(*mode),
        ensures
            final(self)@ == old(self)@.shift_memory(
                old(self)@.operand_address(*mode) as int,
                lsr_value(old(self)@.operand(*mode)),
            ),
            r == lsr_value(old(self)@.operand(*mode)).1,
    {
        let addr = self.get_operand_address(mode);
        let mut data = self.mem_read(addr);
        proof {
            lemma_shift_bits(data);
        }
        if data & 1 == 1 {
            self.set_flag(CpuFlags::CARRY);
        } else {
            self.clear_flag(CpuFlags::CARRY);
        }
        data = data >> 1;
        self.mem_write(addr, data);
        self.update_zero_and_negative_flags(data);
        data
    }

    fn rol_accumulator(&mut self)
        ensures
            final(self)@ == old(self)@.shift_accumulator(
                rol_value(old(self)@.register_a, old(self)@.carry()),
            ),
    {
        let mut data = self.register_a;
        proof {
            lemma_shift_bits(data);
            lemma_carry_bit(self.status);
        }
        let old_carry = self.status & 0b0000_0001 == 0b0000_0001;
        if data >> 7 == 1 {
            self.set_flag(CpuFlags::CARRY);
        } else {
            self.clear_flag(CpuFlags::CARRY);
        }
        data = data << 1;
        if old_carry {
            data = data | 1;
        }
        self.set_register_a(data);
    }

    /// Rotate left through the carry of the operand in memory.
    fn rol(&mut self, mode: &AddressingMode) -> (r: u8)
        requires
            old(self)@.operand_ok(*mode),
        ensures
            final(self)@ == old(self)@.shift_memory(
                old(self)@.operand_address(*mode) as int,
                rol_value(old(self)@.operand(*mode), old(self)@.carry()),
            ),
            r == rol_value(old(self)@.operand(*mode), old(self)@.carry()).1,
    {
        let addr = self.get_operand_address(mode);
        let mut data = self.mem_read(addr);
        proof {
            lemma_shift_bits(data);
            lemma_carry_bit(self.status);
        }
        let old_carry = self.status & 0b0000_0001 == 0b0000_0001;
        if data >> 7 == 1 {
            self.set_flag(CpuFlags::CARRY);
        } else {
            self.clear_flag(CpuFlags::CARRY);
        }
        data = data << 1;
        if old_carry {
            data = data | 1;
        }
        self.mem_write(addr, data);
        self.update_zero_and_negative_flags(data);
        data
    }

    fn ror_accumulator(&mut self)
        ensures
            final(self)@ == old(self)@.shift_accumulator(
                ror_value(old(self)@.register_a, old(self)@.carry()),
            ),
    {
        let mut data = self.register_a;
        proof {
            lemma_shift_bits(data);
            lemma_carry_bit(self.status);
        }
        let old_carry = self.status & 0b0000_0001 == 0b0000_0001;
        if data & 1 == 1 {
            self.set_flag(CpuFlags::CARRY);
        } else {
            self.clear_flag(CpuFlags::CARRY);
        }
        data = data >> 1;
        if old_carry {
            data = data | 0b1000_0000;
        }
        self.set_register_a(data);
    }

    /// Rotate right through the carry of the operand in memory.
    fn ror(&mut self, mode: &AddressingMode) -> (r: u8)
        requires
            old(self)@.operand_ok(*mode),
        ensures
            final(self)@ == old(self)@.shift_memory(
                old(self)@.operand_address(*mode) as int,
                ror_value(old(self)@.operand(*mode), old(self)@.carry()),
            ),
            r == ror_value(old(self)@.operand(*mode), old(self)@.carry()).1,
    {
        let addr = self.get_operand_address(mode);
        let mut data = self.mem_read(addr);
        proof {
            lemma_shift_bits(data);
            lemma_carry_bit(self.status);
        }
        let old_carry = self.status & 0b0000_0001 == 0b0000_0001;
        if data & 1 == 1 {
            self.set_flag(CpuFlags::CARRY);
        } else {
            self.clear_flag(CpuFlags::CARRY);
        }
        data = data >> 1;
        if old_carry {
            data = data | 0b1000_0000;
        }
        self.mem_write(addr, data);
        self.update_zero_and_negative_flags(data);
        data
    }

    fn inc(&mut self, mode: &AddressingMode) -> (r: u8)
        requires
            old(self)@.operand_ok(*mode),
        ensures
            final(self)@ == old(self)@.store_result(
                old(self)@.operand_address(*mode) as int,
                byte(old(self)@.operand(*mode) + 1),
            ),
            r == byte(old(self)@.operand(*mode) + 1),
    {
        let addr = self.get_operand_address(mode);
        let mut data = self.mem_read(addr);
        data = data.wrapping_add(1);
        self.mem_write(addr, data);
        self.update_zero_and_negative_flags(data);
        data
    }

    fn dec(&mut self, mode: &AddressingMode) -> (r: u8)
        requires
            old(self)@.operand_ok(*mode),
        ensures
            final(self)@ == old(self)@.store_result(
                old(self)@.operand_address(*mode) as int,
                byte(old(self)@.operand(*mode) - 1),
            ),
            r == byte(old(self)@.operand(*mode) - 1),
    {
        let addr = self.get_operand_address(mode);
        let mut data = self.mem_read(addr);
        data = data.wrapping_sub(1);
        self.mem_write(addr, data);
        self.update_zero_and_negative_flags(data);
        data
    }

    /// Pulls the accumulator from the stack.
    fn pla(&mut self)
        ensures
            final(self)@ == old(self)@.pop().0.load_a(old(self)@.pop().1),
    {
        let data = self.stack_pop();
        self.set_register_a(data);
    }

    /// Pulls the status from the stack.
    fn plp(&mut self)
        ensures
            final(self)@ == old(self)@.pull_status(),
    {
        self.status = self.stack_pop();
        proof {
            let v = self.status;
            assert((v & !16u8) | 16u8 == v | 16u8) by (bit_vector);
        }
        self.clear_flag(CpuFlags::BREAK);
        self.set_flag(CpuFlags::BREAK);
    }

    /// Pushes the status, break flag clear and bit 5 set.
    fn php(&mut self)
        ensures
            final(self)@ == old(self)@.push_status(),
    {
        let tmp = self.status;
        self.clear_flag(CpuFlags::BREAK);
        self.set_flag(CpuFlags::BREAK2);
        self.stack_push(self.status);
        self.status = tmp;
    }

    fn bit(&mut self, mode: &AddressingMode)
        requires
            old(self)@.operand_ok(*mode),
        ensures
            final(self)@ == old(self)@.bit_test(*mode),
    {
        let addr = self.get_operand_address(mode);
        let data = self.mem_read(addr);
        let and = self.register_a & data;
        if and == 0 {
            self.set_flag(CpuFlags::ZERO);
        } else {
            self.clear_flag(CpuFlags::ZERO);
        }
        if data & 0b1000_0000 > 0 {
            self.set_flag(CpuFlags::NEGATIVE);
        }
        if data & 0b0100_0000 > 0 {
            self.set_flag(CpuFlags::OVERFLOW);
        }
    }

    fn compare(&mut self, mode: &AddressingMode, compare_with: u8)
        requires
            old(self)@.operand_ok(*mode),
        ensures
            final(self)@ == old(self)@.compare(*mode, compare_with),
    {
        let addr = self.get_operand_address(mode);
        let data = self.mem_read(addr);
        if data <= compare_with {
            self.set_flag(CpuFlags::CARRY);
        } else {
            self.clear_flag(CpuFlags::CARRY);
        }
        self.update_zero_and_negative_flags(compare_with.wrapping_sub(data));
    }

    /// Takes the relative branch at the program counter when `condition` holds.
    fn branch(&mut self, condition: bool)
        requires
            condition ==> in_memory(old(self)@.program_counter as int),
        ensures
            final(self)@ == old(self)@.branch(condition),
    {
        if condition {
            let jump: i8 = self.mem_read(self.program_counter) as i8;
            proof {
                lemma_sign_extend(self@.read(self.program_counter as int));
            }
            let jump_addr = self.program_counter.wrapping_add(1).wrapping_add(jump as u16);
            self.program_counter = jump_addr;
        }
    }
}

impl CPU {
    /// Whether the branch `m` is taken: each branch tests the flag its name
    /// says.
    fn branch_taken(&self, m: Mnemonic) -> (taken: bool)
        ensures
            taken == self@.branch_taken(m),
    {
        match m {
            Mnemonic::Bne => !self.contain_flag(CpuFlags::ZERO),
            Mnemonic::Bvs => self.contain_flag(CpuFlags::OVERFLOW),
            Mnemonic::Bvc => !self.contain_flag(CpuFlags::OVERFLOW),
            Mnemonic::Bpl => !self.contain_flag(CpuFlags::NEGATIVE),
            Mnemonic::Bmi => self.contain_flag(CpuFlags::NEGATIVE),
            Mnemonic::Beq => self.contain_flag(CpuFlags::ZERO),
            Mnemonic::Bcs => self.contain_flag(CpuFlags::CARRY),
            Mnemonic::Bcc => !self.contain_flag(CpuFlags::CARRY),
            _ => false,
        }
    }

    /// Executes the decoded instruction `opcode`; the program counter points
    /// past the opcode byte.
    fn execute(&mut self, opcode: &OpCode)
        requires
            old(self)@.can_execute(*opcode),
        ensures
            final(self)@ == old(self)@.execute(*opcode),
    {
        match opcode.mnemonic {
            Mnemonic::Lda | Mnemonic::Ldx | Mnemonic::Ldy | Mnemonic::Sta | Mnemonic::Stx | Mnemonic::Sty | Mnemonic::Tax | Mnemonic::Tay | Mnemonic::Tsx | Mnemonic::Txa | Mnemonic::Txs | Mnemonic::Tya => self.execute_transfer(opcode),
            Mnemonic::Adc | Mnemonic::Sbc | Mnemonic::And | Mnemonic::Eor | Mnemonic::Ora | Mnemonic::Cmp | Mnemonic::Cpx | Mnemonic::Cpy | Mnemonic::Bit => self.execute_arithmetic(opcode),
            Mnemonic::Asl | Mnemonic::Lsr | Mnemonic::Rol | Mnemonic::Ror | Mnemonic::Inc | Mnemonic::Dec | Mnemonic::Inx | Mnemonic::Iny | Mnemonic::Dex | Mnemonic::Dey => self.execute_read_modify_write(opcode),
            Mnemonic::Pha | Mnemonic::Pla | Mnemonic::Php | Mnemonic::Plp | Mnemonic::Cld | Mnemonic::Cli | Mnemonic::Clv | Mnemonic::Clc | Mnemonic::Sec | Mnemonic::Sei | Mnemonic::Sed | Mnemonic::Brk | Mnemonic::Nop => self.execute_stack_and_flags(opcode),
            Mnemonic::Jmp | Mnemonic::JmpIndirect | Mnemonic::Jsr | Mnemonic::Rts | Mnemonic::Rti | Mnemonic::Bne | Mnemonic::Bvs | Mnemonic::Bvc | Mnemonic::Bpl | Mnemonic::Bmi | Mnemonic::Beq | Mnemonic::Bcs | Mnemonic::Bcc => self.execute_control(opcode),
        }
    }

    /// Loads, stores and register transfers.
    #[verifier::spinoff_prover]
    fn execute_transfer(&mut self, opcode: &OpCode)
        requires
            is_transfer(opcode.mnemonic),
            old(self)@.can_execute(*opcode),
        ensures
            final(self)@ == old(self)@.execute(*opcode),
    {
        let mode = &opcode.mode;
        match opcode.mnemonic {
            Mnemonic::Lda => self.lda(mode),
            Mnemonic::Tax => self.tax(),
            Mnemonic::Sta => self.sta(mode),
            Mnemonic::Stx => {
                let addr = self.get_operand_address(mode);
                self.mem_write(addr, self.register_x);
            },
            Mnemonic::Sty => {
                let addr = self.get_operand_address(mode);
                self.mem_write(addr, self.register_y);
            },
            Mnemonic::Ldx => self.ldx(mode),
            Mnemonic::Ldy => self.ldy(mode),
            Mnemonic::Tay => {
                self.register_y = self.register_a;
                self.update_zero_and_negative_flags(self.register_y);
            },
            Mnemonic::Tsx => {
                self.register_x = self.stack_pointer;
                self.update_zero_and_negative_flags(self.register_x);
            },
            Mnemonic::Txa => {
                self.register_a = self.register_x;
                self.update_zero_and_negative_flags(self.register_a);
            },
            Mnemonic::Txs => {
                self.stack_pointer = self.register_x;
            },
            Mnemonic::Tya => {
                self.register_a = self.register_y;
                self.update_zero_and_negative_flags(self.register_a);
            },

            _ => {
                proof {
                    assert(false);
                }
            },
        }
    }

    /// Arithmetic, logic, comparisons and `BIT`.
    #[verifier::spinoff_prover]
    fn execute_arithmetic(&mut self, opcode: &OpCode)
        requires
            is_arithmetic(opcode.mnemonic),
            old(self)@.can_execute(*opcode),
        ensures
            final(self)@ == old(self)@.execute(*opcode),
    {
        let mode = &opcode.mode;
        match opcode.mnemonic {
            Mnemonic::Adc => self.adc(mode),
            Mnemonic::Sbc => self.sbc(mode),
            Mnemonic::And => self.and(mode),
            Mnemonic::Eor => self.eor(mode),
            Mnemonic::Ora => self.ora(mode),
            Mnemonic::Cmp => {
                let a = self.register_a;
                self.compare(mode, a);
            },
            Mnemonic::Cpy => {
                let y = self.register_y;
                self.compare(mode, y);
            },
            Mnemonic::Cpx => {
                let x = self.register_x;
                self.compare(mode, x);
            },
            Mnemonic::Bit => self.bit(mode),
            _ => {
                proof {
                    assert(false);
                }
            },
        }
    }

    /// Shifts, rotations, increments and decrements.
    #[verifier::spinoff_prover]
    fn execute_read_modify_write(&mut self, opcode: &OpCode)
        requires
            is_read_modify_write(opcode.mnemonic),
            old(self)@.can_execute(*opcode),
        ensures
            final(self)@ == old(self)@.execute(*opcode),
    {
        let mode = &opcode.mode;
        match opcode.mnemonic {
            Mnemonic::Inx => self.inx(),
            Mnemonic::Lsr => {
                if opcode.mode == AddressingMode::NoneAddressing {
                    self.lsr_accumulator();
                } else {
                    self.lsr(mode);
                }
            },
            Mnemonic::Asl => {
                if opcode.mode == AddressingMode::NoneAddressing {
                    self.asl_accumulator();
                } else {
                    self.asl(mode);
                }
            },
            Mnemonic::Rol => {
                if opcode.mode == AddressingMode::NoneAddressing {
                    self.rol_accumulator();
                } else {
                    self.rol(mode);
                }
            },
            Mnemonic::Ror => {
                if opcode.mode == AddressingMode::NoneAddressing {
                    self.ror_accumulator();
                } else {
                    self.ror(mode);
                }
            },
            Mnemonic::Inc => {
                self.inc(mode);
            },
            Mnemonic::Iny => self.iny(),
            Mnemonic::Dec => {
                self.dec(mode);
            },
            Mnemonic::Dex => self.dex(),
            Mnemonic::Dey => self.dey(),
            _ => {
                proof {
                    assert(false);
                }
            },
        }
    }

    /// Stack pushes and pulls, flag instructions, `BRK` and `NOP`.
    #[verifier::spinoff_prover]
    fn execute_stack_and_flags(&mut self, opcode: &OpCode)
        requires
            is_stack_and_flags(opcode.mnemonic),
            old(self)@.can_execute(*opcode),
        ensures
            final(self)@ == old(self)@.execute(*opcode),
    {
        match opcode.mnemonic {
            Mnemonic::Brk | Mnemonic::Nop => {},
            Mnemonic::Cld => self.clear_flag(CpuFlags::DECIMAL_MODE),
            Mnemonic::Cli => self.clear_flag(CpuFlags::INTERRUPT_DISABLE),
            Mnemonic::Clv => self.clear_flag(CpuFlags::OVERFLOW),
            Mnemonic::Clc => self.clear_flag(CpuFlags::CARRY),
            Mnemonic::Sec => self.set_flag(CpuFlags::CARRY),
            Mnemonic::Sei => self.set_flag(CpuFlags::INTERRUPT_DISABLE),
            Mnemonic::Sed => self.set_flag(CpuFlags::DECIMAL_MODE),
            Mnemonic::Pha => {
                let a = self.register_a;
                self.stack_push(a);
            },
            Mnemonic::Pla => self.pla(),
            Mnemonic::Php => self.php(),
            Mnemonic::Plp => self.plp(),
            _ => {
                proof {
                    assert(false);
                }
            },
        }
    }

    /// Jumps, subroutine calls and returns, and branches.
    #[verifier::spinoff_prover]
    fn execute_control(&mut self, opcode: &OpCode)
        requires
            is_control(opcode.mnemonic),
            old(self)@.can_execute(*opcode),
        ensures
            final(self)@ == old(self)@.execute(*opcode),
    {
        match opcode.mnemonic {
            Mnemonic::Jmp => {
                let mem_address = self.mem_read_u16(self.program_counter);
                self.program_counter = mem_address;
            },
            Mnemonic::JmpIndirect => {
                let mem_address = self.mem_read_u16(self.program_counter);
                proof {
                    lemma_page_bits(mem_address);
                }
                // A pointer at the last byte of a page takes its high byte from
                // the start of that page, as the 6502 does.
                let indirect_ref = if mem_address & 0x00FF == 0x00FF {
                    let lo = self.mem_read(mem_address);
                    let hi = self.mem_read(mem_address & 0xFF00);
                    proof {
                        lemma_word_bits(lo as u16, hi as u16);
                    }
                    (hi as u16) << 8 | (lo as u16)
                } else {
                    self.mem_read_u16(mem_address)
                };
                self.program_counter = indirect_ref;
            },
            Mnemonic::Jsr => {
                let ret = self.program_counter + 2 - 1;
                self.stack_push_u16(ret);
                let target_address = self.mem_read_u16(self.program_counter);
                self.program_counter = target_address;
            },
            Mnemonic::Rts => {
                self.program_counter = self.stack_pop_u16() + 1;
            },
            Mnemonic::Rti => {
                self.status = self.stack_pop();
                self.clear_flag(CpuFlags::BREAK);
                self.set_flag(CpuFlags::BREAK2);
                self.program_counter = self.stack_pop_u16();
            },
            Mnemonic::Bne | Mnemonic::Bvs | Mnemonic::Bvc | Mnemonic::Bpl | Mnemonic::Bmi
            | Mnemonic::Beq | Mnemonic::Bcs | Mnemonic::Bcc => {
                let taken = self.branch_taken(opcode.mnemonic);
                self.branch(taken);
            },
            _ => {
                proof {
                    assert(false);
                }
            },
        }
    }

    /// Fetches, decodes and executes one instruction. Returns whether it was
    /// `BRK`, after which the emulator stops.
    pub fn step(&mut self) -> (halted: bool)
        requires
            !(old(self)@.step() is Fault),
        ensures
            old(self)@.step() matches Step::Halted(s) ==> halted && final(self)@ == s,
            old(self)@.step() matches Step::Running(s) ==> !halted && final(self)@ == s,
    {
        let code = self.mem_read(self.program_counter);
        self.program_counter += 1;
        let program_counter_state = self.program_counter;
        proof {
            lemma_opcode_table_well_formed(code);
        }
        let opcode = match decode_opcode(code) {
            Some(op) => op,
            None => {
                // excluded by the precondition: the opcode is not in the table
                proof {
                    assert(false);
                }
                return true;
            },
        };
        if opcode.mnemonic == Mnemonic::Brk {
            return true;
        }
        self.execute(&opcode);
        if program_counter_state == self.program_counter {
            self.program_counter += (opcode.len - 1) as u16;
        }
        false
    }

    /// Like `step`, but for every state: returns `None`, leaving the processor
    /// as it was, where the instruction at the program counter cannot be
    /// executed (an unknown opcode, an access outside memory, a program counter
    /// leaving the 16-bit range), and otherwise `Some` of whether it was `BRK`.
    pub fn try_step(&mut self) -> (r: Option<bool>)
        ensures
            r is None <==> old(self)@.step() is Fault,
            r is None ==> final(self)@ == old(self)@,
            old(self)@.step() matches Step::Halted(s) ==> r == Some(true) && final(self)@ == s,
            old(self)@.step() matches Step::Running(s) ==> r == Some(false) && final(self)@
                == s,
    {
        let pc = self.program_counter;
        if pc == 0xFFFF {
            return None;
        }
        let code = self.mem_read(pc);
        proof {
            lemma_opcode_table_well_formed(code);
        }
        let opcode = match decode_opcode(code) {
            Some(op) => op,
            None => {
                return None;
            },
        };
        if opcode.mnemonic == Mnemonic::Brk {
            return Some(self.step());
        }
        let fetched = pc + 1;
        self.program_counter = fetched;
        let ok = self.check_can_execute(&opcode);
        self.program_counter = pc;
        assert(self@ == old(self)@);
        if !ok {
            return None;
        }
        if (fetched as u32) + (opcode.len as u32) - 1 <= 0xFFFF {
            return Some(self.step());
        }
        // The operand bytes would run past the end of the address space unless
        // the instruction sets the program counter: try it on a copy.
        let mut trial = self.duplicate();
        trial.program_counter = fetched;
        trial.execute(&opcode);
        if trial.program_counter == fetched {
            return None;
        }
        *self = trial;
        Some(false)
    }

    /// A copy of the processor.
    fn duplicate(&self) -> (copy: CPU)
        ensures
            copy@ == self@,
    {
        CPU {
            register_a: self.register_a,
            register_x: self.register_x,
            register_y: self.register_y,
            status: self.status,
            program_counter: self.program_counter,
            stack_pointer: self.stack_pointer,
            memory: self.memory,
        }
    }

    /// Whether the operand in `mode` can be fetched and names a byte of memory.
    fn check_operand(&self, mode: &AddressingMode) -> (ok: bool)
        ensures
            ok == self@.operand_ok(*mode),
    {
        let pc = self.program_counter;
        let fetchable = match mode {
            AddressingMode::Immediate => true,
            AddressingMode::ZeroPage
            | AddressingMode::ZeroPage_X
            | AddressingMode::ZeroPage_Y
            | AddressingMode::Indirect_X
            | AddressingMode::Indirect_Y => pc < 0xFFFF,
            AddressingMode::Absolute
            | AddressingMode::Absolute_X
            | AddressingMode::Absolute_Y => pc < 0xFFFE,
            AddressingMode::NoneAddressing => false,
        };
        if !fetchable {
            return false;
        }
        let addr = self.get_operand_address(mode);
        addr < 0xFFFF
    }

    /// Whether `opcode` can be executed, the program counter pointing past the
    /// opcode byte.
    fn check_can_execute(&self, opcode: &OpCode) -> (ok: bool)
        ensures
            ok == self@.can_execute(*opcode),
    {
        let pc = self.program_counter;
        match opcode.mnemonic {
            Mnemonic::Lda | Mnemonic::Ldx | Mnemonic::Ldy | Mnemonic::Sta | Mnemonic::Stx
            | Mnemonic::Sty | Mnemonic::Adc | Mnemonic::Sbc | Mnemonic::And | Mnemonic::Eor
            | Mnemonic::Ora | Mnemonic::Cmp | Mnemonic::Cpx | Mnemonic::Cpy | Mnemonic::Bit
            | Mnemonic::Inc | Mnemonic::Dec => self.check_operand(&opcode.mode),
            Mnemonic::Asl | Mnemonic::Lsr | Mnemonic::Rol | Mnemonic::Ror => opcode.mode
                == AddressingMode::NoneAddressing || self.check_operand(&opcode.mode),
            Mnemonic::Jmp | Mnemonic::Jsr => pc < 0xFFFE,
            Mnemonic::JmpIndirect => {
                if pc >= 0xFFFE {
                    return false;
                }
                let ptr = self.mem_read_u16(pc);
                proof {
                    lemma_page_bits(ptr);
                }
                if ptr & 0x00FF == 0x00FF {
                    ptr < 0xFFFF
                } else {
                    ptr < 0xFFFE
                }
            },
            Mnemonic::Rts => {
                let sp_lo = self.stack_pointer.wrapping_add(1);
                let lo = self.mem_read(STACK + sp_lo as u16) as u16;
                let sp_hi = sp_lo.wrapping_add(1);
                let hi = self.mem_read(STACK + sp_hi as u16) as u16;
                proof {
                    lemma_word_bits(lo, hi);
                }
                ((hi << 8) | lo) < 0xFFFF
            },
            Mnemonic::Bne | Mnemonic::Bvs | Mnemonic::Bvc | Mnemonic::Bpl | Mnemonic::Bmi
            | Mnemonic::Beq | Mnemonic::Bcs | Mnemonic::Bcc => !self.branch_taken(opcode.mnemonic)
                || pc < 0xFFFF,
            _ => true,
        }
    }

    /// Runs the loaded program from the program counter until `BRK`.
    pub fn run(&mut self)
        requires
            old(self)@.halts(),
        ensures
            final(self)@ == old(self)@.run_result(),
    {
        let ghost start = self@;
        let ghost mut fuel: nat = choose|fuel: nat| (#[trigger] start.run_fuel(fuel)) is Some;
        let ghost result = start.run_fuel(fuel)->Some_0;
        proof {
            lemma_run_result(start, fuel);
        }
        loop
            invariant
                self@.run_fuel(fuel) == Some(result),
                result == start.run_result(),
                start == old(self)@,
            decreases fuel,
        {
            let halted = self.step();
            if halted {
                return;
            }
            proof {
                fuel = (fuel - 1) as nat;
            }
        }
    }

    /// Clears the registers, resets the stack pointer and reads the program
    /// counter from the reset vector; memory is untouched.
    pub fn reset(&mut self)
        ensures
            final(self)@ == old(self)@.reset(),
    {
        self.register_a = 0;
        self.register_x = 0;
        self.register_y = 0;
        self.stack_pointer = STACK_RESET;
        self.status = 0;
        self.program_counter = self.mem_read_u16(0xFFFC);
    }

    /// Copies `program` to `0x8000` and points the reset vector at it.
    pub fn load(&mut self, program: Vec<u8>)
        requires
            program.len() <= 0x7FFF,
        ensures
            final(self)@ == old(self)@.load(program@),
    {
        let mut i: usize = 0;
        while i < program.len()
            invariant
                i <= program.len() <= 0x7FFF,
                self@.memory.len() == MEMORY_SIZE,
                self@ == (CpuState { memory: self@.memory, ..old(self)@ }),
                forall|j: int|
                    0 <= j < MEMORY_SIZE ==> #[trigger] self@.memory[j] == if PROGRAM_START <= j
                        < PROGRAM_START + i {
                        program@[j - PROGRAM_START]
                    } else {
                        old(self)@.memory[j]
                    },
            decreases program.len() - i,
        {
            self.mem_write((0x8000 + i) as u16, program[i]);
            i += 1;
        }
        let ghost copied = self@;
        assert(copied == (CpuState {
            memory: Seq::new(
                MEMORY_SIZE as nat,
                |j: int|
                    if PROGRAM_START <= j < PROGRAM_START + program.len() {
                        program@[j - PROGRAM_START]
                    } else {
                        old(self)@.memory[j]
                    },
            ),
            ..old(self)@
        })) by {
            assert(copied.memory =~= Seq::new(
                MEMORY_SIZE as nat,
                |j: int|
                    if PROGRAM_START <= j < PROGRAM_START + program.len() {
                        program@[j - PROGRAM_START]
                    } else {
                        old(self)@.memory[j]
                    },
            ));
        }
        self.mem_write_u16(0xFFFC, 0x8000);
    }

    /// Loads `program`, starts it at `0x8000` and runs it until `BRK`.
    pub fn load_and_run(&mut self, program: Vec<u8>)
        requires
            program.len() <= 0x7FFF,
            old(self)@.boot(program@).halts(),
        ensures
            final(self)@ == old(self)@.boot(program@).run_result(),
    {
        let ghost code = program@;
        self.load(program);
        proof {
            lemma_load_sets_reset_vector(old(self)@, code);
        }
        self.program_counter = self.mem_read_u16(0xFFFC);
        self.run();
    }
}

spec fn is_transfer(m: Mnemonic) -> bool {
    ||| m == Mnemonic::Lda
    ||| m == Mnemonic::Ldx
    ||| m == Mnemonic::Ldy
    ||| m == Mnemonic::Sta
    ||| m == Mnemonic::Stx
    ||| m == Mnemonic::Sty
    ||| m == Mnemonic::Tax
    ||| m == Mnemonic::Tay
    ||| m == Mnemonic::Tsx
    ||| m == Mnemonic::Txa
    ||| m == Mnemonic::Txs
    ||| m == Mnemonic::Tya
}

spec fn is_arithmetic(m: Mnemonic) -> bool {
    ||| m == Mnemonic::Adc
    ||| m == Mnemonic::Sbc
    ||| m == Mnemonic::And
    ||| m == Mnemonic::Eor
    ||| m == Mnemonic::Ora
    ||| m == Mnemonic::Cmp
    ||| m == Mnemonic::Cpx
    ||| m == Mnemonic::Cpy
    ||| m == Mnemonic::Bit
}

spec fn is_read_modify_write(m: Mnemonic) -> bool {
    ||| m == Mnemonic::Asl
    ||| m == Mnemonic::Lsr
    ||| m == Mnemonic::Rol
    ||| m == Mnemonic::Ror
    ||| m == Mnemonic::Inc
    ||| m == Mnemonic::Dec
    ||| m == Mnemonic::Inx
    ||| m == Mnemonic::Iny
    ||| m == Mnemonic::Dex
    ||| m == Mnemonic::Dey
}

spec fn is_stack_and_flags(m: Mnemonic) -> bool {
    ||| m == Mnemonic::Pha
    ||| m == Mnemonic::Pla
    ||| m == Mnemonic::Php
    ||| m == Mnemonic::Plp
    ||| m == Mnemonic::Cld
    ||| m == Mnemonic::Cli
    ||| m == Mnemonic::Clv
    ||| m == Mnemonic::Clc
    ||| m == Mnemonic::Sec
    ||| m == Mnemonic::Sei
    ||| m == Mnemonic::Sed
    ||| m == Mnemonic::Brk
    ||| m == Mnemonic::Nop
}

spec fn is_control(m: Mnemonic) -> bool {
    ||| m == Mnemonic::Jmp
    ||| m == Mnemonic::JmpIndirect
    ||| m == Mnemonic::Jsr
    ||| m == Mnemonic::Rts
    ||| m == Mnemonic::Rti
    ||| m == Mnemonic::Bne
    ||| m == Mnemonic::Bvs
    ||| m == Mnemonic::Bvc
    ||| m == Mnemonic::Bpl
    ||| m == Mnemonic::Bmi
    ||| m == Mnemonic::Beq
    ||| m == Mnemonic::Bcs
    ||| m == Mnemonic::Bcc
}

/// The low byte of a word as masks test it.
proof fn lemma_page_bits(m: u16)
    ensures
        (m & 0x00FF == 0x00FF) == (m % 256 == 255),
        m % 256 == 255 ==> m & 0xFF00 == m - 255,
{
    assert((m & 0x00FF == 0x00FF) == (m % 256 == 255)) by (bit_vector);
    assert(m % 256 == 255 ==> m & 0xFF00 == m - 255) by (bit_vector);
}

/// The overflow test on the sign bits of the operands and the result tells
/// whether the signed sum leaves the byte range.
proof fn lemma_overflow_bit(a: u8, v: u8, c: int)
    requires
        c == 0 || c == 1,
    ensures
        ({
            let r = byte(a + v + c);
            let s = signed(a) + signed(v) + c;
            ((v ^ r) & (r ^ a) & 0b1000_0000 != 0) == (s < -128 || s > 127)
        }),
{
    let r = byte(a + v + c);
    assert(((v ^ r) & (r ^ a) & 0b1000_0000 != 0) == ((v >= 128) != (r >= 128) && (r >= 128) != (
    a >= 128))) by (bit_vector);
}

/// The carry test on the low bit of the status.
proof fn lemma_carry_bit(status: u8)
    ensures
        (status & 0b0000_0001 == 0b0000_0001) == (status & CpuFlags::CARRY != 0),
{
    assert((status & 1 == 1) == (status & 1 != 0)) by (bit_vector);
}

/// Shifts and masks of a byte, as arithmetic.
proof fn lemma_shift_bits(v: u8)
    ensures
        (v >> 7 == 1) == (v >= 128),
        v << 1 == byte(2 * v),
        (v << 1) | 1 == byte(2 * v + 1),
        (v & 1 == 1) == (v % 2 == 1),
        v >> 1 == v / 2,
        (v >> 1) | 0b1000_0000 == v / 2 + 128,
{
    assert((v >> 7 == 1) == (v >= 128)) by (bit_vector);
    assert(v << 1 == (2 * v) % 256) by (bit_vector);
    assert((v << 1) | 1 == (2 * v + 1) % 256) by (bit_vector);
    assert((v & 1 == 1) == (v % 2 == 1)) by (bit_vector);
    assert(v >> 1 == v / 2) by (bit_vector);
    assert((v >> 1) | 0b1000_0000 == v / 2 + 128) by (bit_vector);
}

/// A byte taken as a signed offset and widened to a word.
proof fn lemma_sign_extend(j: u8)
    ensures
        (j as i8) as u16 == if j < 128 {
            j as int
        } else {
            j + 0xFF00
        },
{
    assert((j as i8) as u16 == if j < 128 {
        j as u16
    } else {
        (j as u16 + 0xFF00u16) as u16
    }) by (bit_vector);
}

/// Or-ing a shifted high byte onto a low byte builds their word.
proof fn lemma_word_bits(lo: u16, hi: u16)
    requires
        lo < 256,
        hi < 256,
    ensures
        (hi << 8) | lo == word(lo as u8, hi as u8),
{
    assert((hi << 8) | lo == hi * 256 + lo) by (bit_vector)
        requires
            lo < 256,
            hi < 256,
    ;
}

/// The bytes of a word, as shifts and masks compute them.
proof fn lemma_split_word(data: u16)
    ensures
        (data >> 8) as u8 == data / 256,
        (data & 0xff) as u8 == byte(data as int),
{
    assert((data >> 8) as u8 == data / 256) by (bit_vector);
    assert((data & 0xff) as u8 == data % 256) by (bit_vector);
}

} // verus!
