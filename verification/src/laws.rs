use vstd::prelude::*;

use crate::flags::{CpuFlags, has_flag, is_flag_bit, lemma_set_flag, lemma_clear_flag};
use crate::opcodes::{AddressingMode, Mnemonic, OpCode, opcode_table};
use crate::semantics::{Step, rol_value, ror_value, lemma_run_result};
use crate::state::{
    CpuState,
    byte,
    signed,
    in_memory,
    in_memory_u16,
    with_zero_negative,
    PROGRAM_START,
    RESET_VECTOR,
    STACK,
};

verus! {

/// After an update from a value, the zero flag tells whether the value is zero,
/// the negative flag copies its bit 7, and every other flag keeps its value.
pub proof fn lemma_zero_negative_flags(status: u8, v: u8, other: u8)
    requires
        is_flag_bit(other),
    ensures
        has_flag(with_zero_negative(status, v), CpuFlags::ZERO) == (v == 0),
        has_flag(with_zero_negative(status, v), CpuFlags::NEGATIVE) == (v >= 128),
        other != CpuFlags::ZERO && other != CpuFlags::NEGATIVE ==> has_flag(
            with_zero_negative(status, v),
            other,
        ) == has_flag(status, other),
{
    let z = if v == 0 {
        status | CpuFlags::ZERO
    } else {
        status & !CpuFlags::ZERO
    };
    if v == 0 {
        lemma_set_flag(status, CpuFlags::ZERO, other);
        lemma_set_flag(status, CpuFlags::ZERO, CpuFlags::NEGATIVE);
    } else {
        lemma_clear_flag(status, CpuFlags::ZERO, other);
        lemma_clear_flag(status, CpuFlags::ZERO, CpuFlags::NEGATIVE);
    }
    if v >= 128 {
        lemma_set_flag(z, CpuFlags::NEGATIVE, other);
        lemma_set_flag(z, CpuFlags::NEGATIVE, CpuFlags::ZERO);
    } else {
        lemma_clear_flag(z, CpuFlags::NEGATIVE, other);
        lemma_clear_flag(z, CpuFlags::NEGATIVE, CpuFlags::ZERO);
    }
}

/// A read gives back what the last write to that address wrote; writes leave
/// every other address as it was.
pub proof fn lemma_read_after_write(s: CpuState, addr: int, data: u8, other: int)
    requires
        s.wf(),
        in_memory(addr),
        in_memory(other),
    ensures
        s.write(addr, data).read(addr) == data,
        other != addr ==> s.write(addr, data).read(other) == s.read(other),
        s.write(addr, data).wf(),
{
}

/// A word read gives back the word written at the same address.
pub proof fn lemma_read_u16_after_write_u16(s: CpuState, pos: int, data: u16)
    requires
        s.wf(),
        in_memory_u16(pos),
    ensures
        s.write_u16(pos, data).read_u16(pos) == data,
        s.write_u16(pos, data).wf(),
{
}

/// Popping right after a push gives back the pushed byte and the stack pointer
/// from before the push; the byte stays written in the stack page.
pub proof fn lemma_pop_after_push(s: CpuState, data: u8)
    requires
        s.wf(),
    ensures
        s.push(data).pop().1 == data,
        s.push(data).pop().0 == s.write(STACK + s.stack_pointer, data),
{
}

/// Popping a word right after pushing it gives it back, and the stack pointer
/// returns to its value before the push.
pub proof fn lemma_pop_u16_after_push_u16(s: CpuState, data: u16)
    requires
        s.wf(),
    ensures
        s.push_u16(data).pop_u16().1 == data,
        s.push_u16(data).pop_u16().0.stack_pointer == s.stack_pointer,
        s.push_u16(data).pop_u16().0.wf(),
{
}

/// Rotating left and then right through the carry gives back the byte and the
/// carry; so does rotating right and then left.
pub proof fn lemma_rotations_invert(v: u8, c: int)
    requires
        c == 0 || c == 1,
    ensures
        ({
            let (out, r) = rol_value(v, c);
            ror_value(r, if out { 1 } else { 0 }) == (c == 1, v)
        }),
        ({
            let (out, r) = ror_value(v, c);
            rol_value(r, if out { 1 } else { 0 }) == (c == 1, v)
        }),
{
}

/// `ADC` computes the sum modulo 256 and carries out its ninth bit.
pub proof fn lemma_add_with_carry_sum(s: CpuState, v: u8)
    ensures
        s.add_with_carry(v).register_a + 256 * s.add_with_carry(v).carry() == s.register_a + v
            + s.carry(),
{
    let sum = s.register_a + v + s.carry();
    let signed_sum = signed(s.register_a) + signed(v) + s.carry();
    let carry_out = sum > 255;
    let overflow = signed_sum < -128 || signed_sum > 127;
    let s1 = s.with_flag(CpuFlags::CARRY, carry_out);
    if carry_out {
        lemma_set_flag(s.status, CpuFlags::CARRY, CpuFlags::CARRY);
    } else {
        lemma_clear_flag(s.status, CpuFlags::CARRY, CpuFlags::CARRY);
    }
    let s2 = s1.with_flag(CpuFlags::OVERFLOW, overflow);
    if overflow {
        lemma_set_flag(s1.status, CpuFlags::OVERFLOW, CpuFlags::CARRY);
    } else {
        lemma_clear_flag(s1.status, CpuFlags::OVERFLOW, CpuFlags::CARRY);
    }
    lemma_zero_negative_flags(s2.status, byte(sum), CpuFlags::CARRY);
}

/// `SBC` is `ADC` of the one's complement of the operand.
pub proof fn lemma_subtract_is_add_complement(s: CpuState, v: u8)
    ensures
        s.add_with_carry(!v) == s.subtract_with_borrow(v),
{
    assert(!v == 255 - v) by (bit_vector);
}

/// After a comparison, the carry tells whether the register is at least the
/// operand and the zero flag whether they are equal.
pub proof fn lemma_compare_flags(s: CpuState, mode: AddressingMode, reg: u8)
    ensures
        has_flag(s.compare(mode, reg).status, CpuFlags::CARRY) == (reg >= s.operand(mode)),
        has_flag(s.compare(mode, reg).status, CpuFlags::ZERO) == (reg == s.operand(mode)),
{
    let v = s.operand(mode);
    let s1 = s.with_flag(CpuFlags::CARRY, v <= reg);
    if v <= reg {
        lemma_set_flag(s.status, CpuFlags::CARRY, CpuFlags::CARRY);
    } else {
        lemma_clear_flag(s.status, CpuFlags::CARRY, CpuFlags::CARRY);
    }
    lemma_zero_negative_flags(s1.status, byte(reg - v), CpuFlags::CARRY);
}

/// Execution is deterministic and goes through every step: a running step
/// neither changes whether execution halts nor where it halts.
pub proof fn lemma_step_preserves_run_result(s: CpuState, t: CpuState)
    requires
        s.step() == Step::Running(t),
    ensures
        s.halts() == t.halts(),
        s.halts() ==> s.run_result() == t.run_result(),
{
    if s.halts() {
        let n = choose|fuel: nat| (#[trigger] s.run_fuel(fuel)) is Some;
        assert(t.run_fuel((n - 1) as nat) is Some);
        lemma_run_result(s, n);
        lemma_run_result(t, (n - 1) as nat);
    }
    if t.halts() {
        let n = choose|fuel: nat| (#[trigger] t.run_fuel(fuel)) is Some;
        assert(s.run_fuel(n + 1) == t.run_fuel(n));
        lemma_run_result(s, n + 1);
    }
}

/// `BRK` stops execution at once: the state it halts in is the state after
/// fetching it.
pub proof fn lemma_break_halts(s: CpuState)
    requires
        in_memory(s.program_counter as int),
        s.read(s.program_counter as int) == 0x00,
    ensures
        s.halts(),
        s.run_result() == s.with_pc((s.program_counter + 1) as u16),
{
    assert(s.run_fuel(1) is Some);
    lemma_run_result(s, 1);
}

/// `load` puts the program at `PROGRAM_START`, points the reset vector at it
/// and leaves the registers and every other byte as they were.
pub proof fn lemma_load(s: CpuState, program: Seq<u8>, addr: int)
    requires
        s.wf(),
        program.len() <= 0x7FFF,
        in_memory(addr),
    ensures
        s.load(program).wf(),
        s.load(program).read_u16(RESET_VECTOR as int) == PROGRAM_START,
        addr != RESET_VECTOR && addr != RESET_VECTOR + 1 ==> s.load(program).read(addr) == if PROGRAM_START
            <= addr < PROGRAM_START + program.len() {
            program[addr - PROGRAM_START]
        } else {
            s.read(addr)
        },
        s.load(program).register_a == s.register_a,
        s.load(program).register_x == s.register_x,
        s.load(program).register_y == s.register_y,
        s.load(program).status == s.status,
        s.load(program).stack_pointer == s.stack_pointer,
        s.load(program).program_counter == s.program_counter,
{
}

/// The table entry of `code`.
pub open spec fn op(code: u8) -> OpCode {
    opcode_table(code)->Some_0
}

/// `PHA` then `PLA` gives back the accumulator and the stack pointer.
pub proof fn lemma_push_pull_accumulator(s: CpuState)
    requires
        s.wf(),
    ensures
        s.execute(op(0x48)).execute(op(0x68)).register_a == s.register_a,
        s.execute(op(0x48)).execute(op(0x68)).stack_pointer == s.stack_pointer,
{
}

/// `PHP` then `PLP` gives back the status with both break bits set, and the
/// stack pointer.
pub proof fn lemma_push_pull_status(s: CpuState)
    requires
        s.wf(),
    ensures
        s.execute(op(0x08)).execute(op(0x28)).status == s.status | CpuFlags::BREAK
            | CpuFlags::BREAK2,
        s.execute(op(0x08)).execute(op(0x28)).stack_pointer == s.stack_pointer,
{
    let st = s.status;
    assert(((st & !16u8) | 32u8) | 16u8 == (st | 16u8) | 32u8) by (bit_vector);
}

/// `INX` then `DEX` gives back register X; so do `INY` then `DEY`.
pub proof fn lemma_increment_decrement(s: CpuState)
    ensures
        s.execute(op(0xe8)).execute(op(0xca)).register_x == s.register_x,
        s.execute(op(0xc8)).execute(op(0x88)).register_y == s.register_y,
{
}

/// Every step keeps memory at its full size.
pub proof fn lemma_step_keeps_memory_size(s: CpuState)
    requires
        s.wf(),
    ensures
        s.step() matches Step::Running(t) ==> t.wf(),
        s.step() matches Step::Halted(t) ==> t.wf(),
{
}

/// A whole run keeps memory at its full size.
pub proof fn lemma_run_keeps_memory_size(s: CpuState)
    requires
        s.wf(),
        s.halts(),
    ensures
        s.run_result().wf(),
{
    let n = choose|fuel: nat| (#[trigger] s.run_fuel(fuel)) is Some;
    lemma_run_result(s, n);
    lemma_run_fuel_keeps_memory_size(s, n);
}

proof fn lemma_run_fuel_keeps_memory_size(s: CpuState, fuel: nat)
    requires
        s.wf(),
        s.run_fuel(fuel) is Some,
    ensures
        s.run_fuel(fuel)->Some_0.wf(),
    decreases fuel,
{
    lemma_step_keeps_memory_size(s);
    if let Step::Running(t) = s.step() {
        lemma_run_fuel_keeps_memory_size(t, (fuel - 1) as nat);
    }
}

/// The byte a push writes and the byte a pop reads lie in the stack page
/// `0x0100..=0x01FF`.
pub proof fn lemma_stack_in_page(s: CpuState)
    ensures
        0x0100 <= STACK + s.stack_pointer <= 0x01FF,
        0x0100 <= STACK + s.pop().0.stack_pointer <= 0x01FF,
{
}

/// The instructions that may set the program counter themselves.
pub open spec fn transfers_control(m: Mnemonic) -> bool {
    ||| m == Mnemonic::Jmp
    ||| m == Mnemonic::JmpIndirect
    ||| m == Mnemonic::Jsr
    ||| m == Mnemonic::Rts
    ||| m == Mnemonic::Rti
    ||| m == Mnemonic::Bne
    ||| m == Mnemonic::Bvs
    ||| m == Mnemonic::Bvc
    ||| m == Mnemonic::Bpl
    ||| m == Mnemonic::Bmi
    ||| m == Mnemonic::Beq
    ||| m == Mnemonic::Bcs
    ||| m == Mnemonic::Bcc
}

/// Every other instruction moves the program counter to the byte after it:
/// a step advances it by the length the table gives.
pub proof fn lemma_step_advances_program_counter(s: CpuState)
    requires
        s.step() is Running,
        !transfers_control(op(s.read(s.program_counter as int)).mnemonic),
    ensures
        (s.step()->Running_0).program_counter == s.program_counter + op(
            s.read(s.program_counter as int),
        ).len,
{
}

/// The carry a shift or rotation leaves is its carry out, on the accumulator
/// and in memory.
proof fn lemma_shift_carry(s: CpuState, addr: int, shifted: (bool, u8))
    ensures
        s.shift_accumulator(shifted).carry() == if shifted.0 { 1int } else { 0int },
        s.shift_memory(addr, shifted).carry() == if shifted.0 { 1int } else { 0int },
{
    if shifted.0 {
        lemma_set_flag(s.status, CpuFlags::CARRY, CpuFlags::CARRY);
    } else {
        lemma_clear_flag(s.status, CpuFlags::CARRY, CpuFlags::CARRY);
    }
    let t = s.with_flag(CpuFlags::CARRY, shifted.0);
    lemma_zero_negative_flags(t.status, shifted.1, CpuFlags::CARRY);
}

/// `ROL A` then `ROR A` gives back the accumulator and the carry; so does
/// `ROR A` then `ROL A`. The zero and negative flags then describe the
/// accumulator.
pub proof fn lemma_rotate_accumulator_invert(s: CpuState)
    ensures
        ({
            let t = s.shift_accumulator(s.shifted(Mnemonic::Rol, s.register_a));
            let u = t.shift_accumulator(t.shifted(Mnemonic::Ror, t.register_a));
            &&& u.register_a == s.register_a
            &&& u.carry() == s.carry()
            &&& has_flag(u.status, CpuFlags::ZERO) == (s.register_a == 0)
            &&& has_flag(u.status, CpuFlags::NEGATIVE) == (s.register_a >= 128)
        }),
        ({
            let t = s.shift_accumulator(s.shifted(Mnemonic::Ror, s.register_a));
            let u = t.shift_accumulator(t.shifted(Mnemonic::Rol, t.register_a));
            &&& u.register_a == s.register_a
            &&& u.carry() == s.carry()
        }),
{
    let c = s.carry();
    assert(c == 0 || c == 1);
    lemma_rotations_invert(s.register_a, c);
    let t = s.shift_accumulator(s.shifted(Mnemonic::Rol, s.register_a));
    lemma_shift_carry(s, 0, s.shifted(Mnemonic::Rol, s.register_a));
    let u = t.shift_accumulator(t.shifted(Mnemonic::Ror, t.register_a));
    lemma_shift_carry(t, 0, t.shifted(Mnemonic::Ror, t.register_a));
    let w = t.with_flag(CpuFlags::CARRY, t.shifted(Mnemonic::Ror, t.register_a).0);
    lemma_zero_negative_flags(w.status, u.register_a, CpuFlags::CARRY);
    let t2 = s.shift_accumulator(s.shifted(Mnemonic::Ror, s.register_a));
    lemma_shift_carry(s, 0, s.shifted(Mnemonic::Ror, s.register_a));
    lemma_shift_carry(t2, 0, t2.shifted(Mnemonic::Rol, t2.register_a));
}

/// `ROL` then `ROR` on the same byte of memory gives back memory and the
/// carry; so does `ROR` then `ROL`.
pub proof fn lemma_rotate_memory_invert(s: CpuState, addr: int)
    requires
        s.wf(),
        in_memory(addr),
    ensures
        ({
            let t = s.shift_memory(addr, s.shifted(Mnemonic::Rol, s.read(addr)));
            let u = t.shift_memory(addr, t.shifted(Mnemonic::Ror, t.read(addr)));
            &&& u.memory == s.memory
            &&& u.carry() == s.carry()
        }),
        ({
            let t = s.shift_memory(addr, s.shifted(Mnemonic::Ror, s.read(addr)));
            let u = t.shift_memory(addr, t.shifted(Mnemonic::Rol, t.read(addr)));
            &&& u.memory == s.memory
            &&& u.carry() == s.carry()
        }),
{
    let c = s.carry();
    assert(c == 0 || c == 1);
    lemma_rotations_invert(s.read(addr), c);
    let t = s.shift_memory(addr, s.shifted(Mnemonic::Rol, s.read(addr)));
    lemma_shift_carry(s, addr, s.shifted(Mnemonic::Rol, s.read(addr)));
    let u = t.shift_memory(addr, t.shifted(Mnemonic::Ror, t.read(addr)));
    lemma_shift_carry(t, addr, t.shifted(Mnemonic::Ror, t.read(addr)));
    assert(u.memory =~= s.memory);
    let t2 = s.shift_memory(addr, s.shifted(Mnemonic::Ror, s.read(addr)));
    lemma_shift_carry(s, addr, s.shifted(Mnemonic::Ror, s.read(addr)));
    let u2 = t2.shift_memory(addr, t2.shifted(Mnemonic::Rol, t2.read(addr)));
    lemma_shift_carry(t2, addr, t2.shifted(Mnemonic::Rol, t2.read(addr)));
    assert(u2.memory =~= s.memory);
}

/// `INC` then `DEC` on the same byte of memory gives back memory, wrapping
/// between `0xFF` and `0x00`; the flags then describe the byte.
pub proof fn lemma_increment_decrement_memory(s: CpuState, addr: int)
    requires
        s.wf(),
        in_memory(addr),
    ensures
        ({
            let t = s.store_result(addr, byte(s.read(addr) + 1));
            let u = t.store_result(addr, byte(t.read(addr) - 1));
            &&& u.memory == s.memory
            &&& has_flag(u.status, CpuFlags::ZERO) == (s.read(addr) == 0)
            &&& has_flag(u.status, CpuFlags::NEGATIVE) == (s.read(addr) >= 128)
        }),
{
    let t = s.store_result(addr, byte(s.read(addr) + 1));
    let u = t.store_result(addr, byte(t.read(addr) - 1));
    assert(u.memory =~= s.memory);
    lemma_zero_negative_flags(t.status, byte(t.read(addr) - 1), CpuFlags::CARRY);
}

/// `INX` then `DEX` gives back register X, wrapping between `0xFF` and `0x00`,
/// with the zero and negative flags describing it and the other registers
/// and memory untouched.
pub proof fn lemma_increment_decrement_x(s: CpuState)
    ensures
        ({
            let u = s.execute(op(0xe8)).execute(op(0xca));
            &&& u.register_x == s.register_x
            &&& has_flag(u.status, CpuFlags::ZERO) == (s.register_x == 0)
            &&& has_flag(u.status, CpuFlags::NEGATIVE) == (s.register_x >= 128)
            &&& u.register_a == s.register_a
            &&& u.register_y == s.register_y
            &&& u.memory == s.memory
        }),
{
    let t = s.execute(op(0xe8));
    lemma_zero_negative_flags(t.status, byte(t.register_x - 1), CpuFlags::CARRY);
}

/// `EOR` with the same operand twice gives back the accumulator and leaves
/// memory untouched.
pub proof fn lemma_exclusive_or_twice(s: CpuState, mode: AddressingMode)
    ensures
        ({
            let t = s.load_a(s.operand(mode) ^ s.register_a);
            let u = t.load_a(t.operand(mode) ^ t.register_a);
            &&& u.register_a == s.register_a
            &&& u.memory == s.memory
        }),
{
    let v = s.operand(mode);
    let a = s.register_a;
    assert(v ^ (v ^ a) == a) by (bit_vector);
}

/// `load_and_run` starts where `load` leaves the processor, with the program
/// counter at `PROGRAM_START` and no register reset.
pub proof fn lemma_boot_is_load_then_start(s: CpuState, program: Seq<u8>)
    ensures
        s.boot(program) == s.load(program).with_pc(PROGRAM_START),
        s.boot(program).register_a == s.register_a,
        s.boot(program).register_x == s.register_x,
        s.boot(program).register_y == s.register_y,
        s.boot(program).status == s.status,
        s.boot(program).stack_pointer == s.stack_pointer,
{
}

/// `reset` clears A, X, Y and the status, puts the stack pointer at `0xFD`,
/// and loads the program counter with the little-endian word at `0xFFFC`;
/// memory is untouched.
pub proof fn lemma_reset(s: CpuState)
    ensures
        s.reset().register_a == 0,
        s.reset().register_x == 0,
        s.reset().register_y == 0,
        s.reset().status == 0,
        s.reset().stack_pointer == 0xFD,
        s.reset().program_counter == s.memory[0xFFFC] + 256 * s.memory[0xFFFD],
        s.reset().memory == s.memory,
{
}

} // verus!
