use vstd::prelude::*;

use crate::flags::{CpuFlags, with_flag};
use crate::opcodes::{AddressingMode, Mnemonic};
use crate::semantics::Step;
use crate::state::{CpuState, byte, signed, in_memory, with_zero_negative};

verus! {

// What each instruction does, stated byte by byte for the instruction at the
// program counter: the operand bytes follow the opcode, flags are named by
// their bits (C 0x01, Z 0x02, I 0x04, D 0x08, B 0x10, V 0x40, N 0x80), and
// arithmetic is on integers.

/// The address the operand bytes after the opcode at the program counter name
/// in `mode`: zero-page indexing wraps within the zero page, 16-bit addresses
/// are little-endian and wrap at 65536.
pub open spec fn effective_address(s: CpuState, mode: AddressingMode) -> int {
    let p = s.program_counter as int;
    let b1 = s.memory[p + 1] as int;
    let b2 = s.memory[p + 2] as int;
    match mode {
        AddressingMode::Immediate => p + 1,
        AddressingMode::ZeroPage => b1,
        AddressingMode::ZeroPage_X => (b1 + s.register_x) % 256,
        AddressingMode::ZeroPage_Y => (b1 + s.register_y) % 256,
        AddressingMode::Absolute => b1 + 256 * b2,
        AddressingMode::Absolute_X => (b1 + 256 * b2 + s.register_x) % 65536,
        AddressingMode::Absolute_Y => (b1 + 256 * b2 + s.register_y) % 65536,
        AddressingMode::Indirect_X => {
            let z = (b1 + s.register_x) % 256;
            s.memory[z] + 256 * s.memory[(z + 1) % 256]
        },
        AddressingMode::Indirect_Y => (s.memory[b1] + 256 * s.memory[(b1 + 1) % 256]
            + s.register_y) % 65536,
        AddressingMode::NoneAddressing => 0,
    }
}

/// The zero flag tells whether `v` is zero and the negative flag whether it is
/// at least 128.
pub open spec fn zero_negative(status: u8, v: int) -> bool {
    &&& (status & 0x02 != 0) == (v == 0)
    &&& (status & 0x80 != 0) == (v >= 128)
}

/// The bits of `mask` are the same in both status bytes.
pub open spec fn kept(old: u8, new: u8, mask: u8) -> bool {
    new & mask == old & mask
}

/// Where the program counter ends after an instruction of `len` bytes at `p`
/// that sets it to `target`: a target equal to `p + 1`, where the fetch left
/// it, is then moved past the operand bytes.
pub open spec fn landing(p: int, len: int, target: int) -> int {
    if target == p + 1 {
        p + len
    } else {
        target
    }
}

/// A byte as a signed branch offset.
pub open spec fn offset(b: u8) -> int {
    if b < 128 {
        b as int
    } else {
        b - 256
    }
}

proof fn lemma_with_flag_bits(st: u8, flag: u8, on: bool)
    ensures
        with_flag(st, flag, on) & !flag == st & !flag,
        on ==> with_flag(st, flag, on) & flag == flag,
        !on ==> with_flag(st, flag, on) & flag == 0,
{
    if on {
        assert((st | flag) & !flag == st & !flag) by (bit_vector);
        assert((st | flag) & flag == flag) by (bit_vector);
    } else {
        assert((st & !flag) & !flag == st & !flag) by (bit_vector);
        assert((st & !flag) & flag == 0) by (bit_vector);
    }
}

broadcast proof fn lemma_zero_negative_bits(st: u8, v: u8)
    ensures
        #![trigger with_zero_negative(st, v)]
        zero_negative(with_zero_negative(st, v), v as int),
        kept(st, with_zero_negative(st, v), 0x7D),
{
    let z = with_flag(st, CpuFlags::ZERO, v == 0);
    let r = with_zero_negative(st, v);
    lemma_with_flag_bits(st, 2, v == 0);
    lemma_with_flag_bits(z, 128, v >= 128);
    let zb = z & 2;
    let nb = r & 128;
    assert(r & 0x7D == st & 0x7D && r & 2 == z & 2) by (bit_vector)
        requires
            z & !2u8 == st & !2u8,
            r & !128u8 == z & !128u8,
    ;
}

broadcast proof fn lemma_carry_zero_negative_bits(st: u8, c: bool, v: u8)
    ensures
        #![trigger with_zero_negative(with_flag(st, CpuFlags::CARRY, c), v)]
        (with_zero_negative(with_flag(st, CpuFlags::CARRY, c), v) & 0x01 != 0) == c,
        zero_negative(with_zero_negative(with_flag(st, CpuFlags::CARRY, c), v), v as int),
        kept(st, with_zero_negative(with_flag(st, CpuFlags::CARRY, c), v), 0x7C),
{
    let i = with_flag(st, CpuFlags::CARRY, c);
    let r = with_zero_negative(i, v);
    lemma_with_flag_bits(st, 1, c);
    lemma_zero_negative_bits(i, v);
    assert(r & 0x7C == st & 0x7C && r & 1 == i & 1) by (bit_vector)
        requires
            i & !1u8 == st & !1u8,
            r & 0x7D == i & 0x7D,
    ;
}

broadcast proof fn lemma_arithmetic_bits(st: u8, c: bool, o: bool, v: u8)
    ensures
        #![trigger with_zero_negative(with_flag(with_flag(st, CpuFlags::CARRY, c), CpuFlags::OVERFLOW, o), v)]
        (with_zero_negative(
            with_flag(with_flag(st, CpuFlags::CARRY, c), CpuFlags::OVERFLOW, o),
            v,
        ) & 0x01 != 0) == c,
        (with_zero_negative(
            with_flag(with_flag(st, CpuFlags::CARRY, c), CpuFlags::OVERFLOW, o),
            v,
        ) & 0x40 != 0) == o,
        zero_negative(
            with_zero_negative(
                with_flag(with_flag(st, CpuFlags::CARRY, c), CpuFlags::OVERFLOW, o),
                v,
            ),
            v as int,
        ),
        kept(
            st,
            with_zero_negative(
                with_flag(with_flag(st, CpuFlags::CARRY, c), CpuFlags::OVERFLOW, o),
                v,
            ),
            0x3C,
        ),
{
    let i = with_flag(st, CpuFlags::CARRY, c);
    let j = with_flag(i, CpuFlags::OVERFLOW, o);
    let r = with_zero_negative(j, v);
    lemma_with_flag_bits(st, 1, c);
    lemma_with_flag_bits(i, 64, o);
    lemma_zero_negative_bits(j, v);
    assert(r & 0x3C == st & 0x3C && r & 1 == i & 1 && r & 64 == j & 64) by (bit_vector)
        requires
            i & !1u8 == st & !1u8,
            j & !64u8 == i & !64u8,
            r & 0x7D == j & 0x7D,
    ;
}

/// The operand address the semantics compute after the fetch is the explicit
/// effective address.
proof fn lemma_operand_is_effective(s: CpuState, mode: AddressingMode)
    requires
        s.wf(),
        in_memory(s.program_counter as int),
    ensures
        ({
            let f = s.with_pc((s.program_counter + 1) as u16);
            f.operand_fetchable(mode) ==> f.operand_address(mode) as int == effective_address(s, mode)
                && f.operand(mode) == s.memory[effective_address(s, mode)]
        }),
{
}

proof fn lemma_add_with_carry_value(f: CpuState, v: u8)
    ensures
        ({
            let t = f.add_with_carry(v);
            let a = f.register_a;
            let c: int = if f.status & 0x01 != 0 { 1 } else { 0 };
            &&& t.register_a == (a + v + c) % 256
            &&& (t.status & 0x01 != 0) == (a + v + c > 255)
            &&& (t.status & 0x40 != 0) == ((a < 128) == (v < 128) && (t.register_a < 128) != (a < 128))
            &&& zero_negative(t.status, t.register_a as int)
            &&& kept(f.status, t.status, 0x3C)
            &&& t.register_x == f.register_x
            &&& t.register_y == f.register_y
            &&& t.stack_pointer == f.stack_pointer
            &&& t.memory == f.memory
            &&& t.program_counter == f.program_counter
        }),
{
    let a = f.register_a;
    let c = f.carry();
    let sum = a + v + c;
    let ss = signed(a) + signed(v) + c;
    lemma_arithmetic_bits(f.status, sum > 255, ss < -128 || ss > 127, byte(sum));
}

proof fn lemma_subtract_with_borrow_value(f: CpuState, v: u8)
    ensures
        ({
            let t = f.subtract_with_borrow(v);
            let a = f.register_a;
            let c: int = if f.status & 0x01 != 0 { 1 } else { 0 };
            &&& t.register_a == (a - v - (1 - c) + 256) % 256
            &&& (t.status & 0x01 != 0) == (a - v - (1 - c) >= 0)
            &&& (t.status & 0x40 != 0) == ((a < 128) != (v < 128) && (t.register_a < 128) != (a < 128))
            &&& zero_negative(t.status, t.register_a as int)
            &&& kept(f.status, t.status, 0x3C)
            &&& t.register_x == f.register_x
            &&& t.register_y == f.register_y
            &&& t.stack_pointer == f.stack_pointer
            &&& t.memory == f.memory
            &&& t.program_counter == f.program_counter
        }),
{
    let a = f.register_a;
    let c = f.carry();
    let d = a - v - (1 - c);
    let sd = signed(a) - signed(v) - (1 - c);
    lemma_arithmetic_bits(f.status, d >= 0, sd < -128 || sd > 127, byte(d));
}

proof fn lemma_compare_value(f: CpuState, mode: AddressingMode, reg: u8)
    ensures
        ({
            let t = f.compare(mode, reg);
            let v = f.operand(mode);
            &&& (t.status & 0x01 != 0) == (reg >= v)
            &&& (t.status & 0x02 != 0) == (reg == v)
            &&& (t.status & 0x80 != 0) == ((reg - v + 256) % 256 >= 128)
            &&& kept(f.status, t.status, 0x7C)
            &&& t.register_a == f.register_a
            &&& t.register_x == f.register_x
            &&& t.register_y == f.register_y
            &&& t.stack_pointer == f.stack_pointer
            &&& t.memory == f.memory
            &&& t.program_counter == f.program_counter
        }),
{
    let v = f.operand(mode);
    lemma_carry_zero_negative_bits(f.status, v <= reg, byte(reg - v));
}

proof fn lemma_shift_value(f: CpuState, m: Mnemonic, mode: AddressingMode)
    requires
        f.wf(),
        m == Mnemonic::Asl || m == Mnemonic::Lsr || m == Mnemonic::Rol || m == Mnemonic::Ror,
        mode == AddressingMode::NoneAddressing || in_memory(f.operand_address(mode) as int),
    ensures
        ({
            let t = f.shift(m, mode);
            let c: int = if f.status & 0x01 != 0 { 1 } else { 0 };
            let c2: int = if t.status & 0x01 != 0 { 1 } else { 0 };
            let addr = f.operand_address(mode) as int;
            let old_v: int = if mode == AddressingMode::NoneAddressing { f.register_a as int } else { f.memory[addr] as int };
            let new_v: int = if mode == AddressingMode::NoneAddressing { t.register_a as int } else { t.memory[addr] as int };
            &&& m == Mnemonic::Asl ==> new_v + 256 * c2 == 2 * old_v
            &&& m == Mnemonic::Lsr ==> 2 * new_v + c2 == old_v
            &&& m == Mnemonic::Rol ==> new_v + 256 * c2 == 2 * old_v + c
            &&& m == Mnemonic::Ror ==> 2 * new_v + c2 == old_v + 256 * c
            &&& zero_negative(t.status, new_v)
            &&& kept(f.status, t.status, 0x7C)
            &&& mode == AddressingMode::NoneAddressing ==> t.memory == f.memory
            &&& mode != AddressingMode::NoneAddressing ==> t.memory == f.memory.update(addr, t.memory[addr])
                && t.register_a == f.register_a
            &&& t.register_x == f.register_x
            &&& t.register_y == f.register_y
            &&& t.stack_pointer == f.stack_pointer
            &&& t.program_counter == f.program_counter
        }),
{
    let addr = f.operand_address(mode) as int;
    let old_v = if mode == AddressingMode::NoneAddressing { f.register_a } else { f.read(addr) };
    let sh = f.shifted(m, old_v);
    lemma_carry_zero_negative_bits(f.status, sh.0, sh.1);
    if mode != AddressingMode::NoneAddressing {
        assert(f.shift(m, mode).memory =~= f.memory.update(addr, sh.1));
    }
}

proof fn lemma_step_memory_value(f: CpuState, mode: AddressingMode, increment: bool)
    requires
        f.wf(),
        in_memory(f.operand_address(mode) as int),
    ensures
        ({
            let addr = f.operand_address(mode) as int;
            let m = f.memory[addr];
            let t = f.store_result(addr, if increment { byte(m + 1) } else { byte(m - 1) });
            &&& t.memory == f.memory.update(addr, ((m + if increment { 1int } else { 255int }) % 256) as u8)
            &&& zero_negative(t.status, t.memory[addr] as int)
            &&& kept(f.status, t.status, 0x7D)
        }),
{
    let addr = f.operand_address(mode) as int;
    let m = f.memory[addr];
    let r = if increment { byte(m + 1) } else { byte(m - 1) };
    lemma_zero_negative_bits(f.status, r);
    assert(f.store_result(addr, r).memory =~= f.memory.update(addr, ((m + if increment { 1int } else { 255int }) % 256) as u8));
}

proof fn lemma_bit_test_value(f: CpuState, mode: AddressingMode)
    ensures
        ({
            let t = f.bit_test(mode);
            let v = f.operand(mode);
            &&& (t.status & 0x02 != 0) == (f.register_a & v == 0)
            &&& (t.status & 0x80 != 0) == (v >= 128 || f.status & 0x80 != 0)
            &&& (t.status & 0x40 != 0) == (v & 0x40 != 0 || f.status & 0x40 != 0)
            &&& kept(f.status, t.status, 0x3D)
            &&& t.register_a == f.register_a
            &&& t.register_x == f.register_x
            &&& t.register_y == f.register_y
            &&& t.stack_pointer == f.stack_pointer
            &&& t.memory == f.memory
            &&& t.program_counter == f.program_counter
        }),
{
    let v = f.operand(mode);
    let st = f.status;
    let z = with_flag(st, CpuFlags::ZERO, f.register_a & v == 0);
    lemma_with_flag_bits(st, 2, f.register_a & v == 0);
    let n = if v & 0x80 != 0 { with_flag(z, CpuFlags::NEGATIVE, true) } else { z };
    lemma_with_flag_bits(z, 128, true);
    let o = if v & 0x40 != 0 { with_flag(n, CpuFlags::OVERFLOW, true) } else { n };
    lemma_with_flag_bits(n, 64, true);
    assert((v & 0x80 != 0) == (v >= 128)) by (bit_vector);
    assert(o & 0x3D == st & 0x3D && (o & 2 != 0) == (z & 2 != 0) && (o & 0x80 != 0) == (
    v & 0x80 != 0 || st & 0x80 != 0) && (o & 0x40 != 0) == (v & 0x40 != 0 || st & 0x40 != 0))
        by (bit_vector)
        requires
            z & !2u8 == st & !2u8,
            n == if v & 0x80 != 0 { z | 128 } else { z },
            o == if v & 0x40 != 0 { n | 64 } else { n },
    ;
}

/// `LDA`: the accumulator receives the byte at the effective address.
/// Stated for the instruction at the program counter, by its opcode byte.
#[verifier::rlimit(100)]
#[verifier::spinoff_prover]
pub proof fn lemma_step_lda(s: CpuState)
    requires
        s.wf(),
        in_memory(s.program_counter as int),
    ensures
        s.read(s.program_counter as int) == 0xa1 && (s.program_counter + 2 <= 0xFFFF && effective_address(s, AddressingMode::Indirect_X) < 0xFFFF) ==> s.step() is Running,
        s.read(s.program_counter as int) == 0xa1 ==> (s.step() matches Step::Running(t) ==> ({
                    let p = s.program_counter as int;
                    let v = s.memory[effective_address(s, AddressingMode::Indirect_X)];
                    &&& t.register_a == v
                    &&& zero_negative(t.status, v as int)
                    &&& kept(s.status, t.status, 0x7D)
                    &&& t.register_x == s.register_x
                    &&& t.register_y == s.register_y
                    &&& t.stack_pointer == s.stack_pointer
                    &&& t.memory == s.memory
                    &&& t.program_counter == p + 2
                })),
        s.read(s.program_counter as int) == 0xa5 && (s.program_counter + 2 <= 0xFFFF && effective_address(s, AddressingMode::ZeroPage) < 0xFFFF) ==> s.step() is Running,
        s.read(s.program_counter as int) == 0xa5 ==> (s.step() matches Step::Running(t) ==> ({
                    let p = s.program_counter as int;
                    let v = s.memory[effective_address(s, AddressingMode::ZeroPage)];
                    &&& t.register_a == v
                    &&& zero_negative(t.status, v as int)
                    &&& kept(s.status, t.status, 0x7D)
                    &&& t.register_x == s.register_x
                    &&& t.register_y == s.register_y
                    &&& t.stack_pointer == s.stack_pointer
                    &&& t.memory == s.memory
                    &&& t.program_counter == p + 2
                })),
        s.read(s.program_counter as int) == 0xa9 && (s.program_counter + 2 <= 0xFFFF && effective_address(s, AddressingMode::Immediate) < 0xFFFF) ==> s.step() is Running,
        s.read(s.program_counter as int) == 0xa9 ==> (s.step() matches Step::Running(t) ==> ({
                    let p = s.program_counter as int;
                    let v = s.memory[effective_address(s, AddressingMode::Immediate)];
                    &&& t.register_a == v
                    &&& zero_negative(t.status, v as int)
                    &&& kept(s.status, t.status, 0x7D)
                    &&& t.register_x == s.register_x
                    &&& t.register_y == s.register_y
                    &&& t.stack_pointer == s.stack_pointer
                    &&& t.memory == s.memory
                    &&& t.program_counter == p + 2
                })),
        s.read(s.program_counter as int) == 0xad && (s.program_counter + 3 <= 0xFFFF && effective_address(s, AddressingMode::Absolute) < 0xFFFF) ==> s.step() is Running,
        s.read(s.program_counter as int) == 0xad ==> (s.step() matches Step::Running(t) ==> ({
                    let p = s.program_counter as int;
                    let v = s.memory[effective_address(s, AddressingMode::Absolute)];
                    &&& t.register_a == v
                    &&& zero_negative(t.status, v as int)
                    &&& kept(s.status, t.status, 0x7D)
                    &&& t.register_x == s.register_x
                    &&& t.register_y == s.register_y
                    &&& t.stack_pointer == s.stack_pointer
                    &&& t.memory == s.memory
                    &&& t.program_counter == p + 3
                })),
        s.read(s.program_counter as int) == 0xb1 && (s.program_counter + 2 <= 0xFFFF && effective_address(s, AddressingMode::Indirect_Y) < 0xFFFF) ==> s.step() is Running,
        s.read(s.program_counter as int) == 0xb1 ==> (s.step() matches Step::Running(t) ==> ({
                    let p = s.program_counter as int;
                    let v = s.memory[effective_address(s, AddressingMode::Indirect_Y)];
                    &&& t.register_a == v
                    &&& zero_negative(t.status, v as int)
                    &&& kept(s.status, t.status, 0x7D)
                    &&& t.register_x == s.register_x
                    &&& t.register_y == s.register_y
                    &&& t.stack_pointer == s.stack_pointer
                    &&& t.memory == s.memory
                    &&& t.program_counter == p + 2
                })),
        s.read(s.program_counter as int) == 0xb5 && (s.program_counter + 2 <= 0xFFFF && effective_address(s, AddressingMode::ZeroPage_X) < 0xFFFF) ==> s.step() is Running,
        s.read(s.program_counter as int) == 0xb5 ==> (s.step() matches Step::Running(t) ==> ({
                    let p = s.program_counter as int;
                    let v = s.memory[effective_address(s, AddressingMode::ZeroPage_X)];
                    &&& t.register_a == v
                    &&& zero_negative(t.status, v as int)
                    &&& kept(s.status, t.status, 0x7D)
                    &&& t.register_x == s.register_x
                    &&& t.register_y == s.register_y
                    &&& t.stack_pointer == s.stack_pointer
                    &&& t.memory == s.memory
                    &&& t.program_counter == p + 2
                })),
        s.read(s.program_counter as int) == 0xb9 && (s.program_counter + 3 <= 0xFFFF && effective_address(s, AddressingMode::Absolute_Y) < 0xFFFF) ==> s.step() is Running,
        s.read(s.program_counter as int) == 0xb9 ==> (s.step() matches Step::Running(t) ==> ({
                    let p = s.program_counter as int;
                    let v = s.memory[effective_address(s, AddressingMode::Absolute_Y)];
                    &&& t.register_a == v
                    &&& zero_negative(t.status, v as int)
                    &&& kept(s.status, t.status, 0x7D)
                    &&& t.register_x == s.register_x
                    &&& t.register_y == s.register_y
                    &&& t.stack_pointer == s.stack_pointer
                    &&& t.memory == s.memory
                    &&& t.program_counter == p + 3
                })),
        s.read(s.program_counter as int) == 0xbd && (s.program_counter + 3 <= 0xFFFF && effective_address(s, AddressingMode::Absolute_X) < 0xFFFF) ==> s.step() is Running,
        s.read(s.program_counter as int) == 0xbd ==> (s.step() matches Step::Running(t) ==> ({
                    let p = s.program_counter as int;
                    let v = s.memory[effective_address(s, AddressingMode::Absolute_X)];
                    &&& t.register_a == v
                    &&& zero_negative(t.status, v as int)
                    &&& kept(s.status, t.status, 0x7D)
                    &&& t.register_x == s.register_x
                    &&& t.register_y == s.register_y
                    &&& t.stack_pointer == s.stack_pointer
                    &&& t.memory == s.memory
                    &&& t.program_counter == p + 3
                })),
{
    broadcast use lemma_zero_negative_bits, lemma_carry_zero_negative_bits, lemma_arithmetic_bits;

    lemma_operand_is_effective(s, AddressingMode::Indirect_X);
    lemma_operand_is_effective(s, AddressingMode::ZeroPage);
    lemma_operand_is_effective(s, AddressingMode::Immediate);
    lemma_operand_is_effective(s, AddressingMode::Absolute);
    lemma_operand_is_effective(s, AddressingMode::Indirect_Y);
    lemma_operand_is_effective(s, AddressingMode::ZeroPage_X);
    lemma_operand_is_effective(s, AddressingMode::Absolute_Y);
    lemma_operand_is_effective(s, AddressingMode::Absolute_X);
}

/// `LDX`: register X receives the byte at the effective address.
/// Stated for the instruction at the program counter, by its opcode byte.
#[verifier::rlimit(100)]
#[verifier::spinoff_prover]
pub proof fn lemma_step_ldx(s: CpuState)
    requires
        s.wf(),
        in_memory(s.program_counter as int),
    ensures
        s.read(s.program_counter as int) == 0xa2 && (s.program_counter + 2 <= 0xFFFF && effective_address(s, AddressingMode::Immediate) < 0xFFFF) ==> s.step() is Running,
        s.read(s.program_counter as int) == 0xa2 ==> (s.step() matches Step::Running(t) ==> ({
                    let p = s.program_counter as int;
                    let v = s.memory[effective_address(s, AddressingMode::Immediate)];
                    &&& t.register_x == v
                    &&& zero_negative(t.status, v as int)
                    &&& kept(s.status, t.status, 0x7D)
                    &&& t.register_a == s.register_a
                    &&& t.register_y == s.register_y
                    &&& t.stack_pointer == s.stack_pointer
                    &&& t.memory == s.memory
                    &&& t.program_counter == p + 2
                })),
        s.read(s.program_counter as int) == 0xa6 && (s.program_counter + 2 <= 0xFFFF && effective_address(s, AddressingMode::ZeroPage) < 0xFFFF) ==> s.step() is Running,
        s.read(s.program_counter as int) == 0xa6 ==> (s.step() matches Step::Running(t) ==> ({
                    let p = s.program_counter as int;
                    let v = s.memory[effective_address(s, AddressingMode::ZeroPage)];
                    &&& t.register_x == v
                    &&& zero_negative(t.status, v as int)
                    &&& kept(s.status, t.status, 0x7D)
                    &&& t.register_a == s.register_a
                    &&& t.register_y == s.register_y
                    &&& t.stack_pointer == s.stack_pointer
                    &&& t.memory == s.memory
                    &&& t.program_counter == p + 2
                })),
        s.read(s.program_counter as int) == 0xae && (s.program_counter + 3 <= 0xFFFF && effective_address(s, AddressingMode::Absolute) < 0xFFFF) ==> s.step() is Running,
        s.read(s.program_counter as int) == 0xae ==> (s.step() matches Step::Running(t) ==> ({
                    let p = s.program_counter as int;
                    let v = s.memory[effective_address(s, AddressingMode::Absolute)];
                    &&& t.register_x == v
                    &&& zero_negative(t.status, v as int)
                    &&& kept(s.status, t.status, 0x7D)
                    &&& t.register_a == s.register_a
                    &&& t.register_y == s.register_y
                    &&& t.stack_pointer == s.stack_pointer
                    &&& t.memory == s.memory
                    &&& t.program_counter == p + 3
                })),
        s.read(s.program_counter as int) == 0xb6 && (s.program_counter + 2 <= 0xFFFF && effective_address(s, AddressingMode::ZeroPage_Y) < 0xFFFF) ==> s.step() is Running,
        s.read(s.program_counter as int) == 0xb6 ==> (s.step() matches Step::Running(t) ==> ({
                    let p = s.program_counter as int;
                    let v = s.memory[effective_address(s, AddressingMode::ZeroPage_Y)];
                    &&& t.register_x == v
                    &&& zero_negative(t.status, v as int)
                    &&& kept(s.status, t.status, 0x7D)
                    &&& t.register_a == s.register_a
                    &&& t.register_y == s.register_y
                    &&& t.stack_pointer == s.stack_pointer
                    &&& t.memory == s.memory
                    &&& t.program_counter == p + 2
                })),
        s.read(s.program_counter as int) == 0xbe && (s.program_counter + 3 <= 0xFFFF && effective_address(s, AddressingMode::Absolute_Y) < 0xFFFF) ==> s.step() is Running,
        s.read(s.program_counter as int) == 0xbe ==> (s.step() matches Step::Running(t) ==> ({
                    let p = s.program_counter as int;
                    let v = s.memory[effective_address(s, AddressingMode::Absolute_Y)];
                    &&& t.register_x == v
                    &&& zero_negative(t.status, v as int)
                    &&& kept(s.status, t.status, 0x7D)
                    &&& t.register_a == s.register_a
                    &&& t.register_y == s.register_y
                    &&& t.stack_pointer == s.stack_pointer
                    &&& t.memory == s.memory
                    &&& t.program_counter == p + 3
                })),
{
    broadcast use lemma_zero_negative_bits, lemma_carry_zero_negative_bits, lemma_arithmetic_bits;

    lemma_operand_is_effective(s, AddressingMode::Immediate);
    lemma_operand_is_effective(s, AddressingMode::ZeroPage);
    lemma_operand_is_effective(s, AddressingMode::Absolute);
    lemma_operand_is_effective(s, AddressingMode::ZeroPage_Y);
    lemma_operand_is_effective(s, AddressingMode::Absolute_Y);
}

/// `LDY`: register Y receives the byte at the effective address.
/// Stated for the instruction at the program counter, by its opcode byte.
#[verifier::rlimit(100)]
#[verifier::spinoff_prover]
pub proof fn lemma_step_ldy(s: CpuState)
    requires
        s.wf(),
        in_memory(s.program_counter as int),
    ensures
        s.read(s.program_counter as int) == 0xa0 && (s.program_counter + 2 <= 0xFFFF && effective_address(s, AddressingMode::Immediate) < 0xFFFF) ==> s.step() is Running,
        s.read(s.program_counter as int) == 0xa0 ==> (s.step() matches Step::Running(t) ==> ({
                    let p = s.program_counter as int;
                    let v = s.memory[effective_address(s, AddressingMode::Immediate)];
                    &&& t.register_y == v
                    &&& zero_negative(t.status, v as int)
                    &&& kept(s.status, t.status, 0x7D)
                    &&& t.register_a == s.register_a
                    &&& t.register_x == s.register_x
                    &&& t.stack_pointer == s.stack_pointer
                    &&& t.memory == s.memory
                    &&& t.program_counter == p + 2
                })),
        s.read(s.program_counter as int) == 0xa4 && (s.program_counter + 2 <= 0xFFFF && effective_address(s, AddressingMode::ZeroPage) < 0xFFFF) ==> s.step() is Running,
        s.read(s.program_counter as int) == 0xa4 ==> (s.step() matches Step::Running(t) ==> ({
                    let p = s.program_counter as int;
                    let v = s.memory[effective_address(s, AddressingMode::ZeroPage)];
                    &&& t.register_y == v
                    &&& zero_negative(t.status, v as int)
                    &&& kept(s.status, t.status, 0x7D)
                    &&& t.register_a == s.register_a
                    &&& t.register_x == s.register_x
                    &&& t.stack_pointer == s.stack_pointer
                    &&& t.memory == s.memory
                    &&& t.program_counter == p + 2
                })),
        s.read(s.program_counter as int) == 0xac && (s.program_counter + 3 <= 0xFFFF && effective_address(s, AddressingMode::Absolute) < 0xFFFF) ==> s.step() is Running,
        s.read(s.program_counter as int) == 0xac ==> (s.step() matches Step::Running(t) ==> ({
                    let p = s.program_counter as int;
                    let v = s.memory[effective_address(s, AddressingMode::Absolute)];
                    &&& t.register_y == v
                    &&& zero_negative(t.status, v as int)
                    &&& kept(s.status, t.status, 0x7D)
                    &&& t.register_a == s.register_a
                    &&& t.register_x == s.register_x
                    &&& t.stack_pointer == s.stack_pointer
                    &&& t.memory == s.memory
                    &&& t.program_counter == p + 3
                })),
        s.read(s.program_counter as int) == 0xb4 && (s.program_counter + 2 <= 0xFFFF && effective_address(s, AddressingMode::ZeroPage_X) < 0xFFFF) ==> s.step() is Running,
        s.read(s.program_counter as int) == 0xb4 ==> (s.step() matches Step::Running(t) ==> ({
                    let p = s.program_counter as int;
                    let v = s.memory[effective_address(s, AddressingMode::ZeroPage_X)];
                    &&& t.register_y == v
                    &&& zero_negative(t.status, v as int)
                    &&& kept(s.status, t.status, 0x7D)
                    &&& t.register_a == s.register_a
                    &&& t.register_x == s.register_x
                    &&& t.stack_pointer == s.stack_pointer
                    &&& t.memory == s.memory
                    &&& t.program_counter == p + 2
                })),
        s.read(s.program_counter as int) == 0xbc && (s.program_counter + 3 <= 0xFFFF && effective_address(s, AddressingMode::Absolute_X) < 0xFFFF) ==> s.step() is Running,
        s.read(s.program_counter as int) == 0xbc ==> (s.step() matches Step::Running(t) ==> ({
                    let p = s.program_counter as int;
                    let v = s.memory[effective_address(s, AddressingMode::Absolute_X)];
                    &&& t.register_y == v
                    &&& zero_negative(t.status, v as int)
                    &&& kept(s.status, t.status, 0x7D)
                    &&& t.register_a == s.register_a
                    &&& t.register_x == s.register_x
                    &&& t.stack_pointer == s.stack_pointer
                    &&& t.memory == s.memory
                    &&& t.program_counter == p + 3
                })),
{
    broadcast use lemma_zero_negative_bits, lemma_carry_zero_negative_bits, lemma_arithmetic_bits;

    lemma_operand_is_effective(s, AddressingMode::Immediate);
    lemma_operand_is_effective(s, AddressingMode::ZeroPage);
    lemma_operand_is_effective(s, AddressingMode::Absolute);
    lemma_operand_is_effective(s, AddressingMode::ZeroPage_X);
    lemma_operand_is_effective(s, AddressingMode::Absolute_X);
}

/// `STA`: the byte at the effective address receives the accumulator; nothing else changes.
/// Stated for the instruction at the program counter, by its opcode byte.
#[verifier::rlimit(100)]
#[verifier::spinoff_prover]
pub proof fn lemma_step_sta(s: CpuState)
    requires
        s.wf(),
        in_memory(s.program_counter as int),
    ensures
        s.read(s.program_counter as int) == 0x81 && (s.program_counter + 2 <= 0xFFFF && effective_address(s, AddressingMode::Indirect_X) < 0xFFFF) ==> s.step() is Running,
        s.read(s.program_counter as int) == 0x81 ==> (s.step() matches Step::Running(t) ==> ({
                    let p = s.program_counter as int;
                    &&& t.memory == s.memory.update(effective_address(s, AddressingMode::Indirect_X), s.register_a)
                    &&& t.register_a == s.register_a
                    &&& t.register_x == s.register_x
                    &&& t.register_y == s.register_y
                    &&& t.status == s.status
                    &&& t.stack_pointer == s.stack_pointer
                    &&& t.program_counter == p + 2
                })),
        s.read(s.program_counter as int) == 0x85 && (s.program_counter + 2 <= 0xFFFF && effective_address(s, AddressingMode::ZeroPage) < 0xFFFF) ==> s.step() is Running,
        s.read(s.program_counter as int) == 0x85 ==> (s.step() matches Step::Running(t) ==> ({
                    let p = s.program_counter as int;
                    &&& t.memory == s.memory.update(effective_address(s, AddressingMode::ZeroPage), s.register_a)
                    &&& t.register_a == s.register_a
                    &&& t.register_x == s.register_x
                    &&& t.register_y == s.register_y
                    &&& t.status == s.status
                    &&& t.stack_pointer == s.stack_pointer
                    &&& t.program_counter == p + 2
                })),
        s.read(s.program_counter as int) == 0x8d && (s.program_counter + 3 <= 0xFFFF && effective_address(s, AddressingMode::Absolute) < 0xFFFF) ==> s.step() is Running,
        s.read(s.program_counter as int) == 0x8d ==> (s.step() matches Step::Running(t) ==> ({
                    let p = s.program_counter as int;
                    &&& t.memory == s.memory.update(effective_address(s, AddressingMode::Absolute), s.register_a)
                    &&& t.register_a == s.register_a
                    &&& t.register_x == s.register_x
                    &&& t.register_y == s.register_y
                    &&& t.status == s.status
                    &&& t.stack_pointer == s.stack_pointer
                    &&& t.program_counter == p + 3
                })),
        s.read(s.program_counter as int) == 0x91 && (s.program_counter + 2 <= 0xFFFF && effective_address(s, AddressingMode::Indirect_Y) < 0xFFFF) ==> s.step() is Running,
        s.read(s.program_counter as int) == 0x91 ==> (s.step() matches Step::Running(t) ==> ({
                    let p = s.program_counter as int;
                    &&& t.memory == s.memory.update(effective_address(s, AddressingMode::Indirect_Y), s.register_a)
                    &&& t.register_a == s.register_a
                    &&& t.register_x == s.register_x
                    &&& t.register_y == s.register_y
                    &&& t.status == s.status
                    &&& t.stack_pointer == s.stack_pointer
                    &&& t.program_counter == p + 2
                })),
        s.read(s.program_counter as int) == 0x95 && (s.program_counter + 2 <= 0xFFFF && effective_address(s, AddressingMode::ZeroPage_X) < 0xFFFF) ==> s.step() is Running,
        s.read(s.program_counter as int) == 0x95 ==> (s.step() matches Step::Running(t) ==> ({
                    let p = s.program_counter as int;
                    &&& t.memory == s.memory.update(effective_address(s, AddressingMode::ZeroPage_X), s.register_a)
                    &&& t.register_a == s.register_a
                    &&& t.register_x == s.register_x
                    &&& t.register_y == s.register_y
                    &&& t.status == s.status
                    &&& t.stack_pointer == s.stack_pointer
                    &&& t.program_counter == p + 2
                })),
        s.read(s.program_counter as int) == 0x99 && (s.program_counter + 3 <= 0xFFFF && effective_address(s, AddressingMode::Absolute_Y) < 0xFFFF) ==> s.step() is Running,
        s.read(s.program_counter as int) == 0x99 ==> (s.step() matches Step::Running(t) ==> ({
                    let p = s.program_counter as int;
                    &&& t.memory == s.memory.update(effective_address(s, AddressingMode::Absolute_Y), s.register_a)
                    &&& t.register_a == s.register_a
                    &&& t.register_x == s.register_x
                    &&& t.register_y == s.register_y
                    &&& t.status == s.status
                    &&& t.stack_pointer == s.stack_pointer
                    &&& t.program_counter == p + 3
                })),
        s.read(s.program_counter as int) == 0x9d && (s.program_counter + 3 <= 0xFFFF && effective_address(s, AddressingMode::Absolute_X) < 0xFFFF) ==> s.step() is Running,
        s.read(s.program_counter as int) == 0x9d ==> (s.step() matches Step::Running(t) ==> ({
                    let p = s.program_counter as int;
                    &&& t.memory == s.memory.update(effective_address(s, AddressingMode::Absolute_X), s.register_a)
                    &&& t.register_a == s.register_a
                    &&& t.register_x == s.register_x
                    &&& t.register_y == s.register_y
                    &&& t.status == s.status
                    &&& t.stack_pointer == s.stack_pointer
                    &&& t.program_counter == p + 3
                })),
{
    broadcast use lemma_zero_negative_bits, lemma_carry_zero_negative_bits, lemma_arithmetic_bits;

    lemma_operand_is_effective(s, AddressingMode::Indirect_X);
    lemma_operand_is_effective(s, AddressingMode::ZeroPage);
    lemma_operand_is_effective(s, AddressingMode::Absolute);
    lemma_operand_is_effective(s, AddressingMode::Indirect_Y);
    lemma_operand_is_effective(s, AddressingMode::ZeroPage_X);
    lemma_operand_is_effective(s, AddressingMode::Absolute_Y);
    lemma_operand_is_effective(s, AddressingMode::Absolute_X);
}

/// `STX`: the byte at the effective address receives register X; nothing else changes.
/// Stated for the instruction at the program counter, by its opcode byte.
#[verifier::rlimit(100)]
#[verifier::spinoff_prover]
pub proof fn lemma_step_stx(s: CpuState)
    requires
        s.wf(),
        in_memory(s.program_counter as int),
    ensures
        s.read(s.program_counter as int) == 0x86 && (s.program_counter + 2 <= 0xFFFF && effective_address(s, AddressingMode::ZeroPage) < 0xFFFF) ==> s.step() is Running,
        s.read(s.program_counter as int) == 0x86 ==> (s.step() matches Step::Running(t) ==> ({
                    let p = s.program_counter as int;
                    &&& t.memory == s.memory.update(effective_address(s, AddressingMode::ZeroPage), s.register_x)
                    &&& t.register_a == s.register_a
                    &&& t.register_x == s.register_x
                    &&& t.register_y == s.register_y
                    &&& t.status == s.status
                    &&& t.stack_pointer == s.stack_pointer
                    &&& t.program_counter == p + 2
                })),
        s.read(s.program_counter as int) == 0x8e && (s.program_counter + 3 <= 0xFFFF && effective_address(s, AddressingMode::Absolute) < 0xFFFF) ==> s.step() is Running,
        s.read(s.program_counter as int) == 0x8e ==> (s.step() matches Step::Running(t) ==> ({
                    let p = s.program_counter as int;
                    &&& t.memory == s.memory.update(effective_address(s, AddressingMode::Absolute), s.register_x)
                    &&& t.register_a == s.register_a
                    &&& t.register_x == s.register_x
                    &&& t.register_y == s.register_y
                    &&& t.status == s.status
                    &&& t.stack_pointer == s.stack_pointer
                    &&& t.program_counter == p + 3
                })),
        s.read(s.program_counter as int) == 0x96 && (s.program_counter + 2 <= 0xFFFF && effective_address(s, AddressingMode::ZeroPage_Y) < 0xFFFF) ==> s.step() is Running,
        s.read(s.program_counter as int) == 0x96 ==> (s.step() matches Step::Running(t) ==> ({
                    let p = s.program_counter as int;
                    &&& t.memory == s.memory.update(effective_address(s, AddressingMode::ZeroPage_Y), s.register_x)
                    &&& t.register_a == s.register_a
                    &&& t.register_x == s.register_x
                    &&& t.register_y == s.register_y
                    &&& t.status == s.status
                    &&& t.stack_pointer == s.stack_pointer
                    &&& t.program_counter == p + 2
                })),
{
    broadcast use lemma_zero_negative_bits, lemma_carry_zero_negative_bits, lemma_arithmetic_bits;

    lemma_operand_is_effective(s, AddressingMode::ZeroPage);
    lemma_operand_is_effective(s, AddressingMode::Absolute);
    lemma_operand_is_effective(s, AddressingMode::ZeroPage_Y);
}

/// `STY`: the byte at the effective address receives register Y; nothing else changes.
/// Stated for the instruction at the program counter, by its opcode byte.
#[verifier::rlimit(100)]
#[verifier::spinoff_prover]
pub proof fn lemma_step_sty(s: CpuState)
    requires
        s.wf(),
        in_memory(s.program_counter as int),
    ensures
        s.read(s.program_counter as int) == 0x84 && (s.program_counter + 2 <= 0xFFFF && effective_address(s, AddressingMode::ZeroPage) < 0xFFFF) ==> s.step() is Running,
        s.read(s.program_counter as int) == 0x84 ==> (s.step() matches Step::Running(t) ==> ({
                    let p = s.program_counter as int;
                    &&& t.memory == s.memory.update(effective_address(s, AddressingMode::ZeroPage), s.register_y)
                    &&& t.register_a == s.register_a
                    &&& t.register_x == s.register_x
                    &&& t.register_y == s.register_y
                    &&& t.status == s.status
                    &&& t.stack_pointer == s.stack_pointer
                    &&& t.program_counter == p + 2
                })),
        s.read(s.program_counter as int) == 0x8c && (s.program_counter + 3 <= 0xFFFF && effective_address(s, AddressingMode::Absolute) < 0xFFFF) ==> s.step() is Running,
        s.read(s.program_counter as int) == 0x8c ==> (s.step() matches Step::Running(t) ==> ({
                    let p = s.program_counter as int;
                    &&& t.memory == s.memory.update(effective_address(s, AddressingMode::Absolute), s.register_y)
                    &&& t.register_a == s.register_a
                    &&& t.register_x == s.register_x
                    &&& t.register_y == s.register_y
                    &&& t.status == s.status
                    &&& t.stack_pointer == s.stack_pointer
                    &&& t.program_counter == p + 3
                })),
        s.read(s.program_counter as int) == 0x94 && (s.program_counter + 2 <= 0xFFFF && effective_address(s, AddressingMode::ZeroPage_X) < 0xFFFF) ==> s.step() is Running,
        s.read(s.program_counter as int) == 0x94 ==> (s.step() matches Step::Running(t) ==> ({
                    let p = s.program_counter as int;
                    &&& t.memory == s.memory.update(effective_address(s, AddressingMode::ZeroPage_X), s.register_y)
                    &&& t.register_a == s.register_a
                    &&& t.register_x == s.register_x
                    &&& t.register_y == s.register_y
                    &&& t.status == s.status
                    &&& t.stack_pointer == s.stack_pointer
                    &&& t.program_counter == p + 2
                })),
{
    broadcast use lemma_zero_negative_bits, lemma_carry_zero_negative_bits, lemma_arithmetic_bits;

    lemma_operand_is_effective(s, AddressingMode::ZeroPage);
    lemma_operand_is_effective(s, AddressingMode::Absolute);
    lemma_operand_is_effective(s, AddressingMode::ZeroPage_X);
}

/// `AND`: the accumulator becomes its bitwise and with the operand.
/// Stated for the instruction at the program counter, by its opcode byte.
#[verifier::rlimit(100)]
#[verifier::spinoff_prover]
pub proof fn lemma_step_and(s: CpuState)
    requires
        s.wf(),
        in_memory(s.program_counter as int),
    ensures
        s.read(s.program_counter as int) == 0x21 && (s.program_counter + 2 <= 0xFFFF && effective_address(s, AddressingMode::Indirect_X) < 0xFFFF) ==> s.step() is Running,
        s.read(s.program_counter as int) == 0x21 ==> (s.step() matches Step::Running(t) ==> ({
                    let p = s.program_counter as int;
                    let v = s.memory[effective_address(s, AddressingMode::Indirect_X)];
                    &&& t.register_a == (v & s.register_a)
                    &&& zero_negative(t.status, t.register_a as int)
                    &&& kept(s.status, t.status, 0x7D)
                    &&& t.register_x == s.register_x
                    &&& t.register_y == s.register_y
                    &&& t.stack_pointer == s.stack_pointer
                    &&& t.memory == s.memory
                    &&& t.program_counter == p + 2
                })),
        s.read(s.program_counter as int) == 0x25 && (s.program_counter + 2 <= 0xFFFF && effective_address(s, AddressingMode::ZeroPage) < 0xFFFF) ==> s.step() is Running,
        s.read(s.program_counter as int) == 0x25 ==> (s.step() matches Step::Running(t) ==> ({
                    let p = s.program_counter as int;
                    let v = s.memory[effective_address(s, AddressingMode::ZeroPage)];
                    &&& t.register_a == (v & s.register_a)
                    &&& zero_negative(t.status, t.register_a as int)
                    &&& kept(s.status, t.status, 0x7D)
                    &&& t.register_x == s.register_x
                    &&& t.register_y == s.register_y
                    &&& t.stack_pointer == s.stack_pointer
                    &&& t.memory == s.memory
                    &&& t.program_counter == p + 2
                })),
        s.read(s.program_counter as int) == 0x29 && (s.program_counter + 2 <= 0xFFFF && effective_address(s, AddressingMode::Immediate) < 0xFFFF) ==> s.step() is Running,
        s.read(s.program_counter as int) == 0x29 ==> (s.step() matches Step::Running(t) ==> ({
                    let p = s.program_counter as int;
                    let v = s.memory[effective_address(s, AddressingMode::Immediate)];
                    &&& t.register_a == (v & s.register_a)
                    &&& zero_negative(t.status, t.register_a as int)
                    &&& kept(s.status, t.status, 0x7D)
                    &&& t.register_x == s.register_x
                    &&& t.register_y == s.register_y
                    &&& t.stack_pointer == s.stack_pointer
                    &&& t.memory == s.memory
                    &&& t.program_counter == p + 2
                })),
        s.read(s.program_counter as int) == 0x2d && (s.program_counter + 3 <= 0xFFFF && effective_address(s, AddressingMode::Absolute) < 0xFFFF) ==> s.step() is Running,
        s.read(s.program_counter as int) == 0x2d ==> (s.step() matches Step::Running(t) ==> ({
                    let p = s.program_counter as int;
                    let v = s.memory[effective_address(s, AddressingMode::Absolute)];
                    &&& t.register_a == (v & s.register_a)
                    &&& zero_negative(t.status, t.register_a as int)
                    &&& kept(s.status, t.status, 0x7D)
                    &&& t.register_x == s.register_x
                    &&& t.register_y == s.register_y
                    &&& t.stack_pointer == s.stack_pointer
                    &&& t.memory == s.memory
                    &&& t.program_counter == p + 3
                })),
        s.read(s.program_counter as int) == 0x31 && (s.program_counter + 2 <= 0xFFFF && effective_address(s, AddressingMode::Indirect_Y) < 0xFFFF) ==> s.step() is Running,
        s.read(s.program_counter as int) == 0x31 ==> (s.step() matches Step::Running(t) ==> ({
                    let p = s.program_counter as int;
                    let v = s.memory[effective_address(s, AddressingMode::Indirect_Y)];
                    &&& t.register_a == (v & s.register_a)
                    &&& zero_negative(t.status, t.register_a as int)
                    &&& kept(s.status, t.status, 0x7D)
                    &&& t.register_x == s.register_x
                    &&& t.register_y == s.register_y
                    &&& t.stack_pointer == s.stack_pointer
                    &&& t.memory == s.memory
                    &&& t.program_counter == p + 2
                })),
        s.read(s.program_counter as int) == 0x35 && (s.program_counter + 2 <= 0xFFFF && effective_address(s, AddressingMode::ZeroPage_X) < 0xFFFF) ==> s.step() is Running,
        s.read(s.program_counter as int) == 0x35 ==> (s.step() matches Step::Running(t) ==> ({
                    let p = s.program_counter as int;
                    let v = s.memory[effective_address(s, AddressingMode::ZeroPage_X)];
                    &&& t.register_a == (v & s.register_a)
                    &&& zero_negative(t.status, t.register_a as int)
                    &&& kept(s.status, t.status, 0x7D)
                    &&& t.register_x == s.register_x
                    &&& t.register_y == s.register_y
                    &&& t.stack_pointer == s.stack_pointer
                    &&& t.memory == s.memory
                    &&& t.program_counter == p + 2
                })),
        s.read(s.program_counter as int) == 0x39 && (s.program_counter + 3 <= 0xFFFF && effective_address(s, AddressingMode::Absolute_Y) < 0xFFFF) ==> s.step() is Running,
        s.read(s.program_counter as int) == 0x39 ==> (s.step() matches Step::Running(t) ==> ({
                    let p = s.program_counter as int;
                    let v = s.memory[effective_address(s, AddressingMode::Absolute_Y)];
                    &&& t.register_a == (v & s.register_a)
                    &&& zero_negative(t.status, t.register_a as int)
                    &&& kept(s.status, t.status, 0x7D)
                    &&& t.register_x == s.register_x
                    &&& t.register_y == s.register_y
                    &&& t.stack_pointer == s.stack_pointer
                    &&& t.memory == s.memory
                    &&& t.program_counter == p + 3
                })),
        s.read(s.program_counter as int) == 0x3d && (s.program_counter + 3 <= 0xFFFF && effective_address(s, AddressingMode::Absolute_X) < 0xFFFF) ==> s.step() is Running,
        s.read(s.program_counter as int) == 0x3d ==> (s.step() matches Step::Running(t) ==> ({
                    let p = s.program_counter as int;
                    let v = s.memory[effective_address(s, AddressingMode::Absolute_X)];
                    &&& t.register_a == (v & s.register_a)
                    &&& zero_negative(t.status, t.register_a as int)
                    &&& kept(s.status, t.status, 0x7D)
                    &&& t.register_x == s.register_x
                    &&& t.register_y == s.register_y
                    &&& t.stack_pointer == s.stack_pointer
                    &&& t.memory == s.memory
                    &&& t.program_counter == p + 3
                })),
{
    broadcast use lemma_zero_negative_bits, lemma_carry_zero_negative_bits, lemma_arithmetic_bits;

    lemma_operand_is_effective(s, AddressingMode::Indirect_X);
    lemma_operand_is_effective(s, AddressingMode::ZeroPage);
    lemma_operand_is_effective(s, AddressingMode::Immediate);
    lemma_operand_is_effective(s, AddressingMode::Absolute);
    lemma_operand_is_effective(s, AddressingMode::Indirect_Y);
    lemma_operand_is_effective(s, AddressingMode::ZeroPage_X);
    lemma_operand_is_effective(s, AddressingMode::Absolute_Y);
    lemma_operand_is_effective(s, AddressingMode::Absolute_X);
}

/// `EOR`: the accumulator becomes its bitwise exclusive or with the operand.
/// Stated for the instruction at the program counter, by its opcode byte.
#[verifier::rlimit(100)]
#[verifier::spinoff_prover]
pub proof fn lemma_step_eor(s: CpuState)
    requires
        s.wf(),
        in_memory(s.program_counter as int),
    ensures
        s.read(s.program_counter as int) == 0x41 && (s.program_counter + 2 <= 0xFFFF && effective_address(s, AddressingMode::Indirect_X) < 0xFFFF) ==> s.step() is Running,
        s.read(s.program_counter as int) == 0x41 ==> (s.step() matches Step::Running(t) ==> ({
                    let p = s.program_counter as int;
                    let v = s.memory[effective_address(s, AddressingMode::Indirect_X)];
                    &&& t.register_a == (v ^ s.register_a)
                    &&& zero_negative(t.status, t.register_a as int)
                    &&& kept(s.status, t.status, 0x7D)
                    &&& t.register_x == s.register_x
                    &&& t.register_y == s.register_y
                    &&& t.stack_pointer == s.stack_pointer
                    &&& t.memory == s.memory
                    &&& t.program_counter == p + 2
                })),
        s.read(s.program_counter as int) == 0x45 && (s.program_counter + 2 <= 0xFFFF && effective_address(s, AddressingMode::ZeroPage) < 0xFFFF) ==> s.step() is Running,
        s.read(s.program_counter as int) == 0x45 ==> (s.step() matches Step::Running(t) ==> ({
                    let p = s.program_counter as int;
                    let v = s.memory[effective_address(s, AddressingMode::ZeroPage)];
                    &&& t.register_a == (v ^ s.register_a)
                    &&& zero_negative(t.status, t.register_a as int)
                    &&& kept(s.status, t.status, 0x7D)
                    &&& t.register_x == s.register_x
                    &&& t.register_y == s.register_y
                    &&& t.stack_pointer == s.stack_pointer
                    &&& t.memory == s.memory
                    &&& t.program_counter == p + 2
                })),
        s.read(s.program_counter as int) == 0x49 && (s.program_counter + 2 <= 0xFFFF && effective_address(s, AddressingMode::Immediate) < 0xFFFF) ==> s.step() is Running,
        s.read(s.program_counter as int) == 0x49 ==> (s.step() matches Step::Running(t) ==> ({
                    let p = s.program_counter as int;
                    let v = s.memory[effective_address(s, AddressingMode::Immediate)];
                    &&& t.register_a == (v ^ s.register_a)
                    &&& zero_negative(t.status, t.register_a as int)
                    &&& kept(s.status, t.status, 0x7D)
                    &&& t.register_x == s.register_x
                    &&& t.register_y == s.register_y
                    &&& t.stack_pointer == s.stack_pointer
                    &&& t.memory == s.memory
                    &&& t.program_counter == p + 2
                })),
        s.read(s.program_counter as int) == 0x4d && (s.program_counter + 3 <= 0xFFFF && effective_address(s, AddressingMode::Absolute) < 0xFFFF) ==> s.step() is Running,
        s.read(s.program_counter as int) == 0x4d ==> (s.step() matches Step::Running(t) ==> ({
                    let p = s.program_counter as int;
                    let v = s.memory[effective_address(s, AddressingMode::Absolute)];
                    &&& t.register_a == (v ^ s.register_a)
                    &&& zero_negative(t.status, t.register_a as int)
                    &&& kept(s.status, t.status, 0x7D)
                    &&& t.register_x == s.register_x
                    &&& t.register_y == s.register_y
                    &&& t.stack_pointer == s.stack_pointer
                    &&& t.memory == s.memory
                    &&& t.program_counter == p + 3
                })),
        s.read(s.program_counter as int) == 0x51 && (s.program_counter + 2 <= 0xFFFF && effective_address(s, AddressingMode::Indirect_Y) < 0xFFFF) ==> s.step() is Running,
        s.read(s.program_counter as int) == 0x51 ==> (s.step() matches Step::Running(t) ==> ({
                    let p = s.program_counter as int;
                    let v = s.memory[effective_address(s, AddressingMode::Indirect_Y)];
                    &&& t.register_a == (v ^ s.register_a)
                    &&& zero_negative(t.status, t.register_a as int)
                    &&& kept(s.status, t.status, 0x7D)
                    &&& t.register_x == s.register_x
                    &&& t.register_y == s.register_y
                    &&& t.stack_pointer == s.stack_pointer
                    &&& t.memory == s.memory
                    &&& t.program_counter == p + 2
                })),
        s.read(s.program_counter as int) == 0x55 && (s.program_counter + 2 <= 0xFFFF && effective_address(s, AddressingMode::ZeroPage_X) < 0xFFFF) ==> s.step() is Running,
        s.read(s.program_counter as int) == 0x55 ==> (s.step() matches Step::Running(t) ==> ({
                    let p = s.program_counter as int;
                    let v = s.memory[effective_address(s, AddressingMode::ZeroPage_X)];
                    &&& t.register_a == (v ^ s.register_a)
                    &&& zero_negative(t.status, t.register_a as int)
                    &&& kept(s.status, t.status, 0x7D)
                    &&& t.register_x == s.register_x
                    &&& t.register_y == s.register_y
                    &&& t.stack_pointer == s.stack_pointer
                    &&& t.memory == s.memory
                    &&& t.program_counter == p + 2
                })),
        s.read(s.program_counter as int) == 0x59 && (s.program_counter + 3 <= 0xFFFF && effective_address(s, AddressingMode::Absolute_Y) < 0xFFFF) ==> s.step() is Running,
        s.read(s.program_counter as int) == 0x59 ==> (s.step() matches Step::Running(t) ==> ({
                    let p = s.program_counter as int;
                    let v = s.memory[effective_address(s, AddressingMode::Absolute_Y)];
                    &&& t.register_a == (v ^ s.register_a)
                    &&& zero_negative(t.status, t.register_a as int)
                    &&& kept(s.status, t.status, 0x7D)
                    &&& t.register_x == s.register_x
                    &&& t.register_y == s.register_y
                    &&& t.stack_pointer == s.stack_pointer
                    &&& t.memory == s.memory
                    &&& t.program_counter == p + 3
                })),
        s.read(s.program_counter as int) == 0x5d && (s.program_counter + 3 <= 0xFFFF && effective_address(s, AddressingMode::Absolute_X) < 0xFFFF) ==> s.step() is Running,
        s.read(s.program_counter as int) == 0x5d ==> (s.step() matches Step::Running(t) ==> ({
                    let p = s.program_counter as int;
                    let v = s.memory[effective_address(s, AddressingMode::Absolute_X)];
                    &&& t.register_a == (v ^ s.register_a)
                    &&& zero_negative(t.status, t.register_a as int)
                    &&& kept(s.status, t.status, 0x7D)
                    &&& t.register_x == s.register_x
                    &&& t.register_y == s.register_y
                    &&& t.stack_pointer == s.stack_pointer
                    &&& t.memory == s.memory
                    &&& t.program_counter == p + 3
                })),
{
    broadcast use lemma_zero_negative_bits, lemma_carry_zero_negative_bits, lemma_arithmetic_bits;

    lemma_operand_is_effective(s, AddressingMode::Indirect_X);
    lemma_operand_is_effective(s, AddressingMode::ZeroPage);
    lemma_operand_is_effective(s, AddressingMode::Immediate);
    lemma_operand_is_effective(s, AddressingMode::Absolute);
    lemma_operand_is_effective(s, AddressingMode::Indirect_Y);
    lemma_operand_is_effective(s, AddressingMode::ZeroPage_X);
    lemma_operand_is_effective(s, AddressingMode::Absolute_Y);
    lemma_operand_is_effective(s, AddressingMode::Absolute_X);
}

/// `ORA`: the accumulator becomes its bitwise or with the operand.
/// Stated for the instruction at the program counter, by its opcode byte.
#[verifier::rlimit(100)]
#[verifier::spinoff_prover]
pub proof fn lemma_step_ora(s: CpuState)
    requires
        s.wf(),
        in_memory(s.program_counter as int),
    ensures
        s.read(s.program_counter as int) == 0x01 && (s.program_counter + 2 <= 0xFFFF && effective_address(s, AddressingMode::Indirect_X) < 0xFFFF) ==> s.step() is Running,
        s.read(s.program_counter as int) == 0x01 ==> (s.step() matches Step::Running(t) ==> ({
                    let p = s.program_counter as int;
                    let v = s.memory[effective_address(s, AddressingMode::Indirect_X)];
                    &&& t.register_a == (v | s.register_a)
                    &&& zero_negative(t.status, t.register_a as int)
                    &&& kept(s.status, t.status, 0x7D)
                    &&& t.register_x == s.register_x
                    &&& t.register_y == s.register_y
                    &&& t.stack_pointer == s.stack_pointer
                    &&& t.memory == s.memory
                    &&& t.program_counter == p + 2
                })),
        s.read(s.program_counter as int) == 0x05 && (s.program_counter + 2 <= 0xFFFF && effective_address(s, AddressingMode::ZeroPage) < 0xFFFF) ==> s.step() is Running,
        s.read(s.program_counter as int) == 0x05 ==> (s.step() matches Step::Running(t) ==> ({
                    let p = s.program_counter as int;
                    let v = s.memory[effective_address(s, AddressingMode::ZeroPage)];
                    &&& t.register_a == (v | s.register_a)
                    &&& zero_negative(t.status, t.register_a as int)
                    &&& kept(s.status, t.status, 0x7D)
                    &&& t.register_x == s.register_x
                    &&& t.register_y == s.register_y
                    &&& t.stack_pointer == s.stack_pointer
                    &&& t.memory == s.memory
                    &&& t.program_counter == p + 2
                })),
        s.read(s.program_counter as int) == 0x09 && (s.program_counter + 2 <= 0xFFFF && effective_address(s, AddressingMode::Immediate) < 0xFFFF) ==> s.step() is Running,
        s.read(s.program_counter as int) == 0x09 ==> (s.step() matches Step::Running(t) ==> ({
                    let p = s.program_counter as int;
                    let v = s.memory[effective_address(s, AddressingMode::Immediate)];
                    &&& t.register_a == (v | s.register_a)
                    &&& zero_negative(t.status, t.register_a as int)
                    &&& kept(s.status, t.status, 0x7D)
                    &&& t.register_x == s.register_x
                    &&& t.register_y == s.register_y
                    &&& t.stack_pointer == s.stack_pointer
                    &&& t.memory == s.memory
                    &&& t.program_counter == p + 2
                })),
        s.read(s.program_counter as int) == 0x0d && (s.program_counter + 3 <= 0xFFFF && effective_address(s, AddressingMode::Absolute) < 0xFFFF) ==> s.step() is Running,
        s.read(s.program_counter as int) == 0x0d ==> (s.step() matches Step::Running(t) ==> ({
                    let p = s.program_counter as int;
                    let v = s.memory[effective_address(s, AddressingMode::Absolute)];
                    &&& t.register_a == (v | s.register_a)
                    &&& zero_negative(t.status, t.register_a as int)
                    &&& kept(s.status, t.status, 0x7D)
                    &&& t.register_x == s.register_x
                    &&& t.register_y == s.register_y
                    &&& t.stack_pointer == s.stack_pointer
                    &&& t.memory == s.memory
                    &&& t.program_counter == p + 3
                })),
        s.read(s.program_counter as int) == 0x11 && (s.program_counter + 2 <= 0xFFFF && effective_address(s, AddressingMode::Indirect_Y) < 0xFFFF) ==> s.step() is Running,
        s.read(s.program_counter as int) == 0x11 ==> (s.step() matches Step::Running(t) ==> ({
                    let p = s.program_counter as int;
                    let v = s.memory[effective_address(s, AddressingMode::Indirect_Y)];
                    &&& t.register_a == (v | s.register_a)
                    &&& zero_negative(t.status, t.register_a as int)
                    &&& kept(s.status, t.status, 0x7D)
                    &&& t.register_x == s.register_x
                    &&& t.register_y == s.register_y
                    &&& t.stack_pointer == s.stack_pointer
                    &&& t.memory == s.memory
                    &&& t.program_counter == p + 2
                })),
        s.read(s.program_counter as int) == 0x15 && (s.program_counter + 2 <= 0xFFFF && effective_address(s, AddressingMode::ZeroPage_X) < 0xFFFF) ==> s.step() is Running,
        s.read(s.program_counter as int) == 0x15 ==> (s.step() matches Step::Running(t) ==> ({
                    let p = s.program_counter as int;
                    let v = s.memory[effective_address(s, AddressingMode::ZeroPage_X)];
                    &&& t.register_a == (v | s.register_a)
                    &&& zero_negative(t.status, t.register_a as int)
                    &&& kept(s.status, t.status, 0x7D)
                    &&& t.register_x == s.register_x
                    &&& t.register_y == s.register_y
                    &&& t.stack_pointer == s.stack_pointer
                    &&& t.memory == s.memory
                    &&& t.program_counter == p + 2
                })),
        s.read(s.program_counter as int) == 0x19 && (s.program_counter + 3 <= 0xFFFF && effective_address(s, AddressingMode::Absolute_Y) < 0xFFFF) ==> s.step() is Running,
        s.read(s.program_counter as int) == 0x19 ==> (s.step() matches Step::Running(t) ==> ({
                    let p = s.program_counter as int;
                    let v = s.memory[effective_address(s, AddressingMode::Absolute_Y)];
                    &&& t.register_a == (v | s.register_a)
                    &&& zero_negative(t.status, t.register_a as int)
                    &&& kept(s.status, t.status, 0x7D)
                    &&& t.register_x == s.register_x
                    &&& t.register_y == s.register_y
                    &&& t.stack_pointer == s.stack_pointer
                    &&& t.memory == s.memory
                    &&& t.program_counter == p + 3
                })),
        s.read(s.program_counter as int) == 0x1d && (s.program_counter + 3 <= 0xFFFF && effective_address(s, AddressingMode::Absolute_X) < 0xFFFF) ==> s.step() is Running,
        s.read(s.program_counter as int) == 0x1d ==> (s.step() matches Step::Running(t) ==> ({
                    let p = s.program_counter as int;
                    let v = s.memory[effective_address(s, AddressingMode::Absolute_X)];
                    &&& t.register_a == (v | s.register_a)
                    &&& zero_negative(t.status, t.register_a as int)
                    &&& kept(s.status, t.status, 0x7D)
                    &&& t.register_x == s.register_x
                    &&& t.register_y == s.register_y
                    &&& t.stack_pointer == s.stack_pointer
                    &&& t.memory == s.memory
                    &&& t.program_counter == p + 3
                })),
{
    broadcast use lemma_zero_negative_bits, lemma_carry_zero_negative_bits, lemma_arithmetic_bits;

    lemma_operand_is_effective(s, AddressingMode::Indirect_X);
    lemma_operand_is_effective(s, AddressingMode::ZeroPage);
    lemma_operand_is_effective(s, AddressingMode::Immediate);
    lemma_operand_is_effective(s, AddressingMode::Absolute);
    lemma_operand_is_effective(s, AddressingMode::Indirect_Y);
    lemma_operand_is_effective(s, AddressingMode::ZeroPage_X);
    lemma_operand_is_effective(s, AddressingMode::Absolute_Y);
    lemma_operand_is_effective(s, AddressingMode::Absolute_X);
}

/// `ADC`: the accumulator becomes `A + M + C` modulo 256; the carry is set exactly when that sum exceeds 255, the overflow exactly when both inputs have the same sign and the result the other sign.
/// Stated for the instruction at the program counter, by its opcode byte.
#[verifier::rlimit(100)]
#[verifier::spinoff_prover]
pub proof fn lemma_step_adc(s: CpuState)
    requires
        s.wf(),
        in_memory(s.program_counter as int),
    ensures
        s.read(s.program_counter as int) == 0x61 && (s.program_counter + 2 <= 0xFFFF && effective_address(s, AddressingMode::Indirect_X) < 0xFFFF) ==> s.step() is Running,
        s.read(s.program_counter as int) == 0x61 ==> (s.step() matches Step::Running(t) ==> ({
                    let p = s.program_counter as int;
                    let v = s.memory[effective_address(s, AddressingMode::Indirect_X)];
                    let a = s.register_a;
                    let c: int = if s.status & 0x01 != 0 { 1 } else { 0 };
                    &&& t.register_a == (a + v + c) % 256
                    &&& (t.status & 0x01 != 0) == (a + v + c > 255)
                    &&& (t.status & 0x40 != 0) == ((a < 128) == (v < 128) && (t.register_a < 128) != (a < 128))
                    &&& zero_negative(t.status, t.register_a as int)
                    &&& kept(s.status, t.status, 0x3C)
                    &&& t.register_x == s.register_x
                    &&& t.register_y == s.register_y
                    &&& t.stack_pointer == s.stack_pointer
                    &&& t.memory == s.memory
                    &&& t.program_counter == p + 2
                })),
        s.read(s.program_counter as int) == 0x65 && (s.program_counter + 2 <= 0xFFFF && effective_address(s, AddressingMode::ZeroPage) < 0xFFFF) ==> s.step() is Running,
        s.read(s.program_counter as int) == 0x65 ==> (s.step() matches Step::Running(t) ==> ({
                    let p = s.program_counter as int;
                    let v = s.memory[effective_address(s, AddressingMode::ZeroPage)];
                    let a = s.register_a;
                    let c: int = if s.status & 0x01 != 0 { 1 } else { 0 };
                    &&& t.register_a == (a + v + c) % 256
                    &&& (t.status & 0x01 != 0) == (a + v + c > 255)
                    &&& (t.status & 0x40 != 0) == ((a < 128) == (v < 128) && (t.register_a < 128) != (a < 128))
                    &&& zero_negative(t.status, t.register_a as int)
                    &&& kept(s.status, t.status, 0x3C)
                    &&& t.register_x == s.register_x
                    &&& t.register_y == s.register_y
                    &&& t.stack_pointer == s.stack_pointer
                    &&& t.memory == s.memory
                    &&& t.program_counter == p + 2
                })),
        s.read(s.program_counter as int) == 0x69 && (s.program_counter + 2 <= 0xFFFF && effective_address(s, AddressingMode::Immediate) < 0xFFFF) ==> s.step() is Running,
        s.read(s.program_counter as int) == 0x69 ==> (s.step() matches Step::Running(t) ==> ({
                    let p = s.program_counter as int;
                    let v = s.memory[effective_address(s, AddressingMode::Immediate)];
                    let a = s.register_a;
                    let c: int = if s.status & 0x01 != 0 { 1 } else { 0 };
                    &&& t.register_a == (a + v + c) % 256
                    &&& (t.status & 0x01 != 0) == (a + v + c > 255)
                    &&& (t.status & 0x40 != 0) == ((a < 128) == (v < 128) && (t.register_a < 128) != (a < 128))
                    &&& zero_negative(t.status, t.register_a as int)
                    &&& kept(s.status, t.status, 0x3C)
                    &&& t.register_x == s.register_x
                    &&& t.register_y == s.register_y
                    &&& t.stack_pointer == s.stack_pointer
                    &&& t.memory == s.memory
                    &&& t.program_counter == p + 2
                })),
        s.read(s.program_counter as int) == 0x6d && (s.program_counter + 3 <= 0xFFFF && effective_address(s, AddressingMode::Absolute) < 0xFFFF) ==> s.step() is Running,
        s.read(s.program_counter as int) == 0x6d ==> (s.step() matches Step::Running(t) ==> ({
                    let p = s.program_counter as int;
                    let v = s.memory[effective_address(s, AddressingMode::Absolute)];
                    let a = s.register_a;
                    let c: int = if s.status & 0x01 != 0 { 1 } else { 0 };
                    &&& t.register_a == (a + v + c) % 256
                    &&& (t.status & 0x01 != 0) == (a + v + c > 255)
                    &&& (t.status & 0x40 != 0) == ((a < 128) == (v < 128) && (t.register_a < 128) != (a < 128))
                    &&& zero_negative(t.status, t.register_a as int)
                    &&& kept(s.status, t.status, 0x3C)
                    &&& t.register_x == s.register_x
                    &&& t.register_y == s.register_y
                    &&& t.stack_pointer == s.stack_pointer
                    &&& t.memory == s.memory
                    &&& t.program_counter == p + 3
                })),
        s.read(s.program_counter as int) == 0x71 && (s.program_counter + 2 <= 0xFFFF && effective_address(s, AddressingMode::Indirect_Y) < 0xFFFF) ==> s.step() is Running,
        s.read(s.program_counter as int) == 0x71 ==> (s.step() matches Step::Running(t) ==> ({
                    let p = s.program_counter as int;
                    let v = s.memory[effective_address(s, AddressingMode::Indirect_Y)];
                    let a = s.register_a;
                    let c: int = if s.status & 0x01 != 0 { 1 } else { 0 };
                    &&& t.register_a == (a + v + c) % 256
                    &&& (t.status & 0x01 != 0) == (a + v + c > 255)
                    &&& (t.status & 0x40 != 0) == ((a < 128) == (v < 128) && (t.register_a < 128) != (a < 128))
                    &&& zero_negative(t.status, t.register_a as int)
                    &&& kept(s.status, t.status, 0x3C)
                    &&& t.register_x == s.register_x
                    &&& t.register_y == s.register_y
                    &&& t.stack_pointer == s.stack_pointer
                    &&& t.memory == s.memory
                    &&& t.program_counter == p + 2
                })),
        s.read(s.program_counter as int) == 0x75 && (s.program_counter + 2 <= 0xFFFF && effective_address(s, AddressingMode::ZeroPage_X) < 0xFFFF) ==> s.step() is Running,
        s.read(s.program_counter as int) == 0x75 ==> (s.step() matches Step::Running(t) ==> ({
                    let p = s.program_counter as int;
                    let v = s.memory[effective_address(s, AddressingMode::ZeroPage_X)];
                    let a = s.register_a;
                    let c: int = if s.status & 0x01 != 0 { 1 } else { 0 };
                    &&& t.register_a == (a + v + c) % 256
                    &&& (t.status & 0x01 != 0) == (a + v + c > 255)
                    &&& (t.status & 0x40 != 0) == ((a < 128) == (v < 128) && (t.register_a < 128) != (a < 128))
                    &&& zero_negative(t.status, t.register_a as int)
                    &&& kept(s.status, t.status, 0x3C)
                    &&& t.register_x == s.register_x
                    &&& t.register_y == s.register_y
                    &&& t.stack_pointer == s.stack_pointer
                    &&& t.memory == s.memory
                    &&& t.program_counter == p + 2
                })),
        s.read(s.program_counter as int) == 0x79 && (s.program_counter + 3 <= 0xFFFF && effective_address(s, AddressingMode::Absolute_Y) < 0xFFFF) ==> s.step() is Running,
        s.read(s.program_counter as int) == 0x79 ==> (s.step() matches Step::Running(t) ==> ({
                    let p = s.program_counter as int;
                    let v = s.memory[effective_address(s, AddressingMode::Absolute_Y)];
                    let a = s.register_a;
                    let c: int = if s.status & 0x01 != 0 { 1 } else { 0 };
                    &&& t.register_a == (a + v + c) % 256
                    &&& (t.status & 0x01 != 0) == (a + v + c > 255)
                    &&& (t.status & 0x40 != 0) == ((a < 128) == (v < 128) && (t.register_a < 128) != (a < 128))
                    &&& zero_negative(t.status, t.register_a as int)
                    &&& kept(s.status, t.status, 0x3C)
                    &&& t.register_x == s.register_x
                    &&& t.register_y == s.register_y
                    &&& t.stack_pointer == s.stack_pointer
                    &&& t.memory == s.memory
                    &&& t.program_counter == p + 3
                })),
        s.read(s.program_counter as int) == 0x7d && (s.program_counter + 3 <= 0xFFFF && effective_address(s, AddressingMode::Absolute_X) < 0xFFFF) ==> s.step() is Running,
        s.read(s.program_counter as int) == 0x7d ==> (s.step() matches Step::Running(t) ==> ({
                    let p = s.program_counter as int;
                    let v = s.memory[effective_address(s, AddressingMode::Absolute_X)];
                    let a = s.register_a;
                    let c: int = if s.status & 0x01 != 0 { 1 } else { 0 };
                    &&& t.register_a == (a + v + c) % 256
                    &&& (t.status & 0x01 != 0) == (a + v + c > 255)
                    &&& (t.status & 0x40 != 0) == ((a < 128) == (v < 128) && (t.register_a < 128) != (a < 128))
                    &&& zero_negative(t.status, t.register_a as int)
                    &&& kept(s.status, t.status, 0x3C)
                    &&& t.register_x == s.register_x
                    &&& t.register_y == s.register_y
                    &&& t.stack_pointer == s.stack_pointer
                    &&& t.memory == s.memory
                    &&& t.program_counter == p + 3
                })),
{
    broadcast use lemma_zero_negative_bits, lemma_carry_zero_negative_bits, lemma_arithmetic_bits;

    let f = s.with_pc((s.program_counter + 1) as u16);
    lemma_operand_is_effective(s, AddressingMode::Indirect_X);
    lemma_operand_is_effective(s, AddressingMode::ZeroPage);
    lemma_operand_is_effective(s, AddressingMode::Immediate);
    lemma_operand_is_effective(s, AddressingMode::Absolute);
    lemma_operand_is_effective(s, AddressingMode::Indirect_Y);
    lemma_operand_is_effective(s, AddressingMode::ZeroPage_X);
    lemma_operand_is_effective(s, AddressingMode::Absolute_Y);
    lemma_operand_is_effective(s, AddressingMode::Absolute_X);
    lemma_add_with_carry_value(f, f.operand(AddressingMode::Indirect_X));
    lemma_add_with_carry_value(f, f.operand(AddressingMode::ZeroPage));
    lemma_add_with_carry_value(f, f.operand(AddressingMode::Immediate));
    lemma_add_with_carry_value(f, f.operand(AddressingMode::Absolute));
    lemma_add_with_carry_value(f, f.operand(AddressingMode::Indirect_Y));
    lemma_add_with_carry_value(f, f.operand(AddressingMode::ZeroPage_X));
    lemma_add_with_carry_value(f, f.operand(AddressingMode::Absolute_Y));
    lemma_add_with_carry_value(f, f.operand(AddressingMode::Absolute_X));
}

/// `SBC`: the accumulator becomes `A - M - (1 - C)` modulo 256; the carry is set exactly when that difference is not negative, the overflow exactly when the inputs differ in sign and the result differs in sign from `A`.
/// Stated for the instruction at the program counter, by its opcode byte.
#[verifier::rlimit(100)]
#[verifier::spinoff_prover]
pub proof fn lemma_step_sbc(s: CpuState)
    requires
        s.wf(),
        in_memory(s.program_counter as int),
    ensures
        s.read(s.program_counter as int) == 0xe1 && (s.program_counter + 2 <= 0xFFFF && effective_address(s, AddressingMode::Indirect_X) < 0xFFFF) ==> s.step() is Running,
        s.read(s.program_counter as int) == 0xe1 ==> (s.step() matches Step::Running(t) ==> ({
                    let p = s.program_counter as int;
                    let v = s.memory[effective_address(s, AddressingMode::Indirect_X)];
                    let a = s.register_a;
                    let c: int = if s.status & 0x01 != 0 { 1 } else { 0 };
                    &&& t.register_a == (a - v - (1 - c) + 256) % 256
                    &&& (t.status & 0x01 != 0) == (a - v - (1 - c) >= 0)
                    &&& (t.status & 0x40 != 0) == ((a < 128) != (v < 128) && (t.register_a < 128) != (a < 128))
                    &&& zero_negative(t.status, t.register_a as int)
                    &&& kept(s.status, t.status, 0x3C)
                    &&& t.register_x == s.register_x
                    &&& t.register_y == s.register_y
                    &&& t.stack_pointer == s.stack_pointer
                    &&& t.memory == s.memory
                    &&& t.program_counter == p + 2
                })),
        s.read(s.program_counter as int) == 0xe5 && (s.program_counter + 2 <= 0xFFFF && effective_address(s, AddressingMode::ZeroPage) < 0xFFFF) ==> s.step() is Running,
        s.read(s.program_counter as int) == 0xe5 ==> (s.step() matches Step::Running(t) ==> ({
                    let p = s.program_counter as int;
                    let v = s.memory[effective_address(s, AddressingMode::ZeroPage)];
                    let a = s.register_a;
                    let c: int = if s.status & 0x01 != 0 { 1 } else { 0 };
                    &&& t.register_a == (a - v - (1 - c) + 256) % 256
                    &&& (t.status & 0x01 != 0) == (a - v - (1 - c) >= 0)
                    &&& (t.status & 0x40 != 0) == ((a < 128) != (v < 128) && (t.register_a < 128) != (a < 128))
                    &&& zero_negative(t.status, t.register_a as int)
                    &&& kept(s.status, t.status, 0x3C)
                    &&& t.register_x == s.register_x
                    &&& t.register_y == s.register_y
                    &&& t.stack_pointer == s.stack_pointer
                    &&& t.memory == s.memory
                    &&& t.program_counter == p + 2
                })),
        s.read(s.program_counter as int) == 0xe9 && (s.program_counter + 2 <= 0xFFFF && effective_address(s, AddressingMode::Immediate) < 0xFFFF) ==> s.step() is Running,
        s.read(s.program_counter as int) == 0xe9 ==> (s.step() matches Step::Running(t) ==> ({
                    let p = s.program_counter as int;
                    let v = s.memory[effective_address(s, AddressingMode::Immediate)];
                    let a = s.register_a;
                    let c: int = if s.status & 0x01 != 0 { 1 } else { 0 };
                    &&& t.register_a == (a - v - (1 - c) + 256) % 256
                    &&& (t.status & 0x01 != 0) == (a - v - (1 - c) >= 0)
                    &&& (t.status & 0x40 != 0) == ((a < 128) != (v < 128) && (t.register_a < 128) != (a < 128))
                    &&& zero_negative(t.status, t.register_a as int)
                    &&& kept(s.status, t.status, 0x3C)
                    &&& t.register_x == s.register_x
                    &&& t.register_y == s.register_y
                    &&& t.stack_pointer == s.stack_pointer
                    &&& t.memory == s.memory
                    &&& t.program_counter == p + 2
                })),
        s.read(s.program_counter as int) == 0xed && (s.program_counter + 3 <= 0xFFFF && effective_address(s, AddressingMode::Absolute) < 0xFFFF) ==> s.step() is Running,
        s.read(s.program_counter as int) == 0xed ==> (s.step() matches Step::Running(t) ==> ({
                    let p = s.program_counter as int;
                    let v = s.memory[effective_address(s, AddressingMode::Absolute)];
                    let a = s.register_a;
                    let c: int = if s.status & 0x01 != 0 { 1 } else { 0 };
                    &&& t.register_a == (a - v - (1 - c) + 256) % 256
                    &&& (t.status & 0x01 != 0) == (a - v - (1 - c) >= 0)
                    &&& (t.status & 0x40 != 0) == ((a < 128) != (v < 128) && (t.register_a < 128) != (a < 128))
                    &&& zero_negative(t.status, t.register_a as int)
                    &&& kept(s.status, t.status, 0x3C)
                    &&& t.register_x == s.register_x
                    &&& t.register_y == s.register_y
                    &&& t.stack_pointer == s.stack_pointer
                    &&& t.memory == s.memory
                    &&& t.program_counter == p + 3
                })),
        s.read(s.program_counter as int) == 0xf1 && (s.program_counter + 2 <= 0xFFFF && effective_address(s, AddressingMode::Indirect_Y) < 0xFFFF) ==> s.step() is Running,
        s.read(s.program_counter as int) == 0xf1 ==> (s.step() matches Step::Running(t) ==> ({
                    let p = s.program_counter as int;
                    let v = s.memory[effective_address(s, AddressingMode::Indirect_Y)];
                    let a = s.register_a;
                    let c: int = if s.status & 0x01 != 0 { 1 } else { 0 };
                    &&& t.register_a == (a - v - (1 - c) + 256) % 256
                    &&& (t.status & 0x01 != 0) == (a - v - (1 - c) >= 0)
                    &&& (t.status & 0x40 != 0) == ((a < 128) != (v < 128) && (t.register_a < 128) != (a < 128))
                    &&& zero_negative(t.status, t.register_a as int)
                    &&& kept(s.status, t.status, 0x3C)
                    &&& t.register_x == s.register_x
                    &&& t.register_y == s.register_y
                    &&& t.stack_pointer == s.stack_pointer
                    &&& t.memory == s.memory
                    &&& t.program_counter == p + 2
                })),
        s.read(s.program_counter as int) == 0xf5 && (s.program_counter + 2 <= 0xFFFF && effective_address(s, AddressingMode::ZeroPage_X) < 0xFFFF) ==> s.step() is Running,
        s.read(s.program_counter as int) == 0xf5 ==> (s.step() matches Step::Running(t) ==> ({
                    let p = s.program_counter as int;
                    let v = s.memory[effective_address(s, AddressingMode::ZeroPage_X)];
                    let a = s.register_a;
                    let c: int = if s.status & 0x01 != 0 { 1 } else { 0 };
                    &&& t.register_a == (a - v - (1 - c) + 256) % 256
                    &&& (t.status & 0x01 != 0) == (a - v - (1 - c) >= 0)
                    &&& (t.status & 0x40 != 0) == ((a < 128) != (v < 128) && (t.register_a < 128) != (a < 128))
                    &&& zero_negative(t.status, t.register_a as int)
                    &&& kept(s.status, t.status, 0x3C)
                    &&& t.register_x == s.register_x
                    &&& t.register_y == s.register_y
                    &&& t.stack_pointer == s.stack_pointer
                    &&& t.memory == s.memory
                    &&& t.program_counter == p + 2
                })),
        s.read(s.program_counter as int) == 0xf9 && (s.program_counter + 3 <= 0xFFFF && effective_address(s, AddressingMode::Absolute_Y) < 0xFFFF) ==> s.step() is Running,
        s.read(s.program_counter as int) == 0xf9 ==> (s.step() matches Step::Running(t) ==> ({
                    let p = s.program_counter as int;
                    let v = s.memory[effective_address(s, AddressingMode::Absolute_Y)];
                    let a = s.register_a;
                    let c: int = if s.status & 0x01 != 0 { 1 } else { 0 };
                    &&& t.register_a == (a - v - (1 - c) + 256) % 256
                    &&& (t.status & 0x01 != 0) == (a - v - (1 - c) >= 0)
                    &&& (t.status & 0x40 != 0) == ((a < 128) != (v < 128) && (t.register_a < 128) != (a < 128))
                    &&& zero_negative(t.status, t.register_a as int)
                    &&& kept(s.status, t.status, 0x3C)
                    &&& t.register_x == s.register_x
                    &&& t.register_y == s.register_y
                    &&& t.stack_pointer == s.stack_pointer
                    &&& t.memory == s.memory
                    &&& t.program_counter == p + 3
                })),
        s.read(s.program_counter as int) == 0xfd && (s.program_counter + 3 <= 0xFFFF && effective_address(s, AddressingMode::Absolute_X) < 0xFFFF) ==> s.step() is Running,
        s.read(s.program_counter as int) == 0xfd ==> (s.step() matches Step::Running(t) ==> ({
                    let p = s.program_counter as int;
                    let v = s.memory[effective_address(s, AddressingMode::Absolute_X)];
                    let a = s.register_a;
                    let c: int = if s.status & 0x01 != 0 { 1 } else { 0 };
                    &&& t.register_a == (a - v - (1 - c) + 256) % 256
                    &&& (t.status & 0x01 != 0) == (a - v - (1 - c) >= 0)
                    &&& (t.status & 0x40 != 0) == ((a < 128) != (v < 128) && (t.register_a < 128) != (a < 128))
                    &&& zero_negative(t.status, t.register_a as int)
                    &&& kept(s.status, t.status, 0x3C)
                    &&& t.register_x == s.register_x
                    &&& t.register_y == s.register_y
                    &&& t.stack_pointer == s.stack_pointer
                    &&& t.memory == s.memory
                    &&& t.program_counter == p + 3
                })),
{
    broadcast use lemma_zero_negative_bits, lemma_carry_zero_negative_bits, lemma_arithmetic_bits;

    let f = s.with_pc((s.program_counter + 1) as u16);
    lemma_operand_is_effective(s, AddressingMode::Indirect_X);
    lemma_operand_is_effective(s, AddressingMode::ZeroPage);
    lemma_operand_is_effective(s, AddressingMode::Immediate);
    lemma_operand_is_effective(s, AddressingMode::Absolute);
    lemma_operand_is_effective(s, AddressingMode::Indirect_Y);
    lemma_operand_is_effective(s, AddressingMode::ZeroPage_X);
    lemma_operand_is_effective(s, AddressingMode::Absolute_Y);
    lemma_operand_is_effective(s, AddressingMode::Absolute_X);
    lemma_subtract_with_borrow_value(f, f.operand(AddressingMode::Indirect_X));
    lemma_subtract_with_borrow_value(f, f.operand(AddressingMode::ZeroPage));
    lemma_subtract_with_borrow_value(f, f.operand(AddressingMode::Immediate));
    lemma_subtract_with_borrow_value(f, f.operand(AddressingMode::Absolute));
    lemma_subtract_with_borrow_value(f, f.operand(AddressingMode::Indirect_Y));
    lemma_subtract_with_borrow_value(f, f.operand(AddressingMode::ZeroPage_X));
    lemma_subtract_with_borrow_value(f, f.operand(AddressingMode::Absolute_Y));
    lemma_subtract_with_borrow_value(f, f.operand(AddressingMode::Absolute_X));
}

/// `CMP`: the carry tells `A >= M`, zero `A == M`, negative bit 7 of `A - M`; registers and memory are untouched.
/// Stated for the instruction at the program counter, by its opcode byte.
#[verifier::rlimit(100)]
#[verifier::spinoff_prover]
pub proof fn lemma_step_compare_accumulator(s: CpuState)
    requires
        s.wf(),
        in_memory(s.program_counter as int),
    ensures
        s.read(s.program_counter as int) == 0xc1 && (s.program_counter + 2 <= 0xFFFF && effective_address(s, AddressingMode::Indirect_X) < 0xFFFF) ==> s.step() is Running,
        s.read(s.program_counter as int) == 0xc1 ==> (s.step() matches Step::Running(t) ==> ({
                    let p = s.program_counter as int;
                    let v = s.memory[effective_address(s, AddressingMode::Indirect_X)];
                    let reg = s.register_a;
                    &&& (t.status & 0x01 != 0) == (reg >= v)
                    &&& (t.status & 0x02 != 0) == (reg == v)
                    &&& (t.status & 0x80 != 0) == ((reg - v + 256) % 256 >= 128)
                    &&& kept(s.status, t.status, 0x7C)
                    &&& t.register_a == s.register_a
                    &&& t.register_x == s.register_x
                    &&& t.register_y == s.register_y
                    &&& t.stack_pointer == s.stack_pointer
                    &&& t.memory == s.memory
                    &&& t.program_counter == p + 2
                })),
        s.read(s.program_counter as int) == 0xc5 && (s.program_counter + 2 <= 0xFFFF && effective_address(s, AddressingMode::ZeroPage) < 0xFFFF) ==> s.step() is Running,
        s.read(s.program_counter as int) == 0xc5 ==> (s.step() matches Step::Running(t) ==> ({
                    let p = s.program_counter as int;
                    let v = s.memory[effective_address(s, AddressingMode::ZeroPage)];
                    let reg = s.register_a;
                    &&& (t.status & 0x01 != 0) == (reg >= v)
                    &&& (t.status & 0x02 != 0) == (reg == v)
                    &&& (t.status & 0x80 != 0) == ((reg - v + 256) % 256 >= 128)
                    &&& kept(s.status, t.status, 0x7C)
                    &&& t.register_a == s.register_a
                    &&& t.register_x == s.register_x
                    &&& t.register_y == s.register_y
                    &&& t.stack_pointer == s.stack_pointer
                    &&& t.memory == s.memory
                    &&& t.program_counter == p + 2
                })),
        s.read(s.program_counter as int) == 0xc9 && (s.program_counter + 2 <= 0xFFFF && effective_address(s, AddressingMode::Immediate) < 0xFFFF) ==> s.step() is Running,
        s.read(s.program_counter as int) == 0xc9 ==> (s.step() matches Step::Running(t) ==> ({
                    let p = s.program_counter as int;
                    let v = s.memory[effective_address(s, AddressingMode::Immediate)];
                    let reg = s.register_a;
                    &&& (t.status & 0x01 != 0) == (reg >= v)
                    &&& (t.status & 0x02 != 0) == (reg == v)
                    &&& (t.status & 0x80 != 0) == ((reg - v + 256) % 256 >= 128)
                    &&& kept(s.status, t.status, 0x7C)
                    &&& t.register_a == s.register_a
                    &&& t.register_x == s.register_x
                    &&& t.register_y == s.register_y
                    &&& t.stack_pointer == s.stack_pointer
                    &&& t.memory == s.memory
                    &&& t.program_counter == p + 2
                })),
        s.read(s.program_counter as int) == 0xcd && (s.program_counter + 3 <= 0xFFFF && effective_address(s, AddressingMode::Absolute) < 0xFFFF) ==> s.step() is Running,
        s.read(s.program_counter as int) == 0xcd ==> (s.step() matches Step::Running(t) ==> ({
                    let p = s.program_counter as int;
                    let v = s.memory[effective_address(s, AddressingMode::Absolute)];
                    let reg = s.register_a;
                    &&& (t.status & 0x01 != 0) == (reg >= v)
                    &&& (t.status & 0x02 != 0) == (reg == v)
                    &&& (t.status & 0x80 != 0) == ((reg - v + 256) % 256 >= 128)
                    &&& kept(s.status, t.status, 0x7C)
                    &&& t.register_a == s.register_a
                    &&& t.register_x == s.register_x
                    &&& t.register_y == s.register_y
                    &&& t.stack_pointer == s.stack_pointer
                    &&& t.memory == s.memory
                    &&& t.program_counter == p + 3
                })),
        s.read(s.program_counter as int) == 0xd1 && (s.program_counter + 2 <= 0xFFFF && effective_address(s, AddressingMode::Indirect_Y) < 0xFFFF) ==> s.step() is Running,
        s.read(s.program_counter as int) == 0xd1 ==> (s.step() matches Step::Running(t) ==> ({
                    let p = s.program_counter as int;
                    let v = s.memory[effective_address(s, AddressingMode::Indirect_Y)];
                    let reg = s.register_a;
                    &&& (t.status & 0x01 != 0) == (reg >= v)
                    &&& (t.status & 0x02 != 0) == (reg == v)
                    &&& (t.status & 0x80 != 0) == ((reg - v + 256) % 256 >= 128)
                    &&& kept(s.status, t.status, 0x7C)
                    &&& t.register_a == s.register_a
                    &&& t.register_x == s.register_x
                    &&& t.register_y == s.register_y
                    &&& t.stack_pointer == s.stack_pointer
                    &&& t.memory == s.memory
                    &&& t.program_counter == p + 2
                })),
        s.read(s.program_counter as int) == 0xd5 && (s.program_counter + 2 <= 0xFFFF && effective_address(s, AddressingMode::ZeroPage_X) < 0xFFFF) ==> s.step() is Running,
        s.read(s.program_counter as int) == 0xd5 ==> (s.step() matches Step::Running(t) ==> ({
                    let p = s.program_counter as int;
                    let v = s.memory[effective_address(s, AddressingMode::ZeroPage_X)];
                    let reg = s.register_a;
                    &&& (t.status & 0x01 != 0) == (reg >= v)
                    &&& (t.status & 0x02 != 0) == (reg == v)
                    &&& (t.status & 0x80 != 0) == ((reg - v + 256) % 256 >= 128)
                    &&& kept(s.status, t.status, 0x7C)
                    &&& t.register_a == s.register_a
                    &&& t.register_x == s.register_x
                    &&& t.register_y == s.register_y
                    &&& t.stack_pointer == s.stack_pointer
                    &&& t.memory == s.memory
                    &&& t.program_counter == p + 2
                })),
        s.read(s.program_counter as int) == 0xd9 && (s.program_counter + 3 <= 0xFFFF && effective_address(s, AddressingMode::Absolute_Y) < 0xFFFF) ==> s.step() is Running,
        s.read(s.program_counter as int) == 0xd9 ==> (s.step() matches Step::Running(t) ==> ({
                    let p = s.program_counter as int;
                    let v = s.memory[effective_address(s, AddressingMode::Absolute_Y)];
                    let reg = s.register_a;
                    &&& (t.status & 0x01 != 0) == (reg >= v)
                    &&& (t.status & 0x02 != 0) == (reg == v)
                    &&& (t.status & 0x80 != 0) == ((reg - v + 256) % 256 >= 128)
                    &&& kept(s.status, t.status, 0x7C)
                    &&& t.register_a == s.register_a
                    &&& t.register_x == s.register_x
                    &&& t.register_y == s.register_y
                    &&& t.stack_pointer == s.stack_pointer
                    &&& t.memory == s.memory
                    &&& t.program_counter == p + 3
                })),
        s.read(s.program_counter as int) == 0xdd && (s.program_counter + 3 <= 0xFFFF && effective_address(s, AddressingMode::Absolute_X) < 0xFFFF) ==> s.step() is Running,
        s.read(s.program_counter as int) == 0xdd ==> (s.step() matches Step::Running(t) ==> ({
                    let p = s.program_counter as int;
                    let v = s.memory[effective_address(s, AddressingMode::Absolute_X)];
                    let reg = s.register_a;
                    &&& (t.status & 0x01 != 0) == (reg >= v)
                    &&& (t.status & 0x02 != 0) == (reg == v)
                    &&& (t.status & 0x80 != 0) == ((reg - v + 256) % 256 >= 128)
                    &&& kept(s.status, t.status, 0x7C)
                    &&& t.register_a == s.register_a
                    &&& t.register_x == s.register_x
                    &&& t.register_y == s.register_y
                    &&& t.stack_pointer == s.stack_pointer
                    &&& t.memory == s.memory
                    &&& t.program_counter == p + 3
                })),
{
    broadcast use lemma_zero_negative_bits, lemma_carry_zero_negative_bits, lemma_arithmetic_bits;

    let f = s.with_pc((s.program_counter + 1) as u16);
    lemma_operand_is_effective(s, AddressingMode::Indirect_X);
    lemma_operand_is_effective(s, AddressingMode::ZeroPage);
    lemma_operand_is_effective(s, AddressingMode::Immediate);
    lemma_operand_is_effective(s, AddressingMode::Absolute);
    lemma_operand_is_effective(s, AddressingMode::Indirect_Y);
    lemma_operand_is_effective(s, AddressingMode::ZeroPage_X);
    lemma_operand_is_effective(s, AddressingMode::Absolute_Y);
    lemma_operand_is_effective(s, AddressingMode::Absolute_X);
    lemma_compare_value(f, AddressingMode::Indirect_X, f.register_a);
    lemma_compare_value(f, AddressingMode::ZeroPage, f.register_a);
    lemma_compare_value(f, AddressingMode::Immediate, f.register_a);
    lemma_compare_value(f, AddressingMode::Absolute, f.register_a);
    lemma_compare_value(f, AddressingMode::Indirect_Y, f.register_a);
    lemma_compare_value(f, AddressingMode::ZeroPage_X, f.register_a);
    lemma_compare_value(f, AddressingMode::Absolute_Y, f.register_a);
    lemma_compare_value(f, AddressingMode::Absolute_X, f.register_a);
}

/// `CPX`: the carry tells `X >= M`, zero `X == M`, negative bit 7 of `X - M`; registers and memory are untouched.
/// Stated for the instruction at the program counter, by its opcode byte.
#[verifier::rlimit(100)]
#[verifier::spinoff_prover]
pub proof fn lemma_step_cpx(s: CpuState)
    requires
        s.wf(),
        in_memory(s.program_counter as int),
    ensures
        s.read(s.program_counter as int) == 0xe0 && (s.program_counter + 2 <= 0xFFFF && effective_address(s, AddressingMode::Immediate) < 0xFFFF) ==> s.step() is Running,
        s.read(s.program_counter as int) == 0xe0 ==> (s.step() matches Step::Running(t) ==> ({
                    let p = s.program_counter as int;
                    let v = s.memory[effective_address(s, AddressingMode::Immediate)];
                    let reg = s.register_x;
                    &&& (t.status & 0x01 != 0) == (reg >= v)
                    &&& (t.status & 0x02 != 0) == (reg == v)
                    &&& (t.status & 0x80 != 0) == ((reg - v + 256) % 256 >= 128)
                    &&& kept(s.status, t.status, 0x7C)
                    &&& t.register_a == s.register_a
                    &&& t.register_x == s.register_x
                    &&& t.register_y == s.register_y
                    &&& t.stack_pointer == s.stack_pointer
                    &&& t.memory == s.memory
                    &&& t.program_counter == p + 2
                })),
        s.read(s.program_counter as int) == 0xe4 && (s.program_counter + 2 <= 0xFFFF && effective_address(s, AddressingMode::ZeroPage) < 0xFFFF) ==> s.step() is Running,
        s.read(s.program_counter as int) == 0xe4 ==> (s.step() matches Step::Running(t) ==> ({
                    let p = s.program_counter as int;
                    let v = s.memory[effective_address(s, AddressingMode::ZeroPage)];
                    let reg = s.register_x;
                    &&& (t.status & 0x01 != 0) == (reg >= v)
                    &&& (t.status & 0x02 != 0) == (reg == v)
                    &&& (t.status & 0x80 != 0) == ((reg - v + 256) % 256 >= 128)
                    &&& kept(s.status, t.status, 0x7C)
                    &&& t.register_a == s.register_a
                    &&& t.register_x == s.register_x
                    &&& t.register_y == s.register_y
                    &&& t.stack_pointer == s.stack_pointer
                    &&& t.memory == s.memory
                    &&& t.program_counter == p + 2
                })),
        s.read(s.program_counter as int) == 0xec && (s.program_counter + 3 <= 0xFFFF && effective_address(s, AddressingMode::Absolute) < 0xFFFF) ==> s.step() is Running,
        s.read(s.program_counter as int) == 0xec ==> (s.step() matches Step::Running(t) ==> ({
                    let p = s.program_counter as int;
                    let v = s.memory[effective_address(s, AddressingMode::Absolute)];
                    let reg = s.register_x;
                    &&& (t.status & 0x01 != 0) == (reg >= v)
                    &&& (t.status & 0x02 != 0) == (reg == v)
                    &&& (t.status & 0x80 != 0) == ((reg - v + 256) % 256 >= 128)
                    &&& kept(s.status, t.status, 0x7C)
                    &&& t.register_a == s.register_a
                    &&& t.register_x == s.register_x
                    &&& t.register_y == s.register_y
                    &&& t.stack_pointer == s.stack_pointer
                    &&& t.memory == s.memory
                    &&& t.program_counter == p + 3
                })),
{
    broadcast use lemma_zero_negative_bits, lemma_carry_zero_negative_bits, lemma_arithmetic_bits;

    let f = s.with_pc((s.program_counter + 1) as u16);
    lemma_operand_is_effective(s, AddressingMode::Immediate);
    lemma_operand_is_effective(s, AddressingMode::ZeroPage);
    lemma_operand_is_effective(s, AddressingMode::Absolute);
    lemma_compare_value(f, AddressingMode::Immediate, f.register_x);
    lemma_compare_value(f, AddressingMode::ZeroPage, f.register_x);
    lemma_compare_value(f, AddressingMode::Absolute, f.register_x);
}

/// `CPY`: the carry tells `Y >= M`, zero `Y == M`, negative bit 7 of `Y - M`; registers and memory are untouched.
/// Stated for the instruction at the program counter, by its opcode byte.
#[verifier::rlimit(100)]
#[verifier::spinoff_prover]
pub proof fn lemma_step_cpy(s: CpuState)
    requires
        s.wf(),
        in_memory(s.program_counter as int),
    ensures
        s.read(s.program_counter as int) == 0xc0 && (s.program_counter + 2 <= 0xFFFF && effective_address(s, AddressingMode::Immediate) < 0xFFFF) ==> s.step() is Running,
        s.read(s.program_counter as int) == 0xc0 ==> (s.step() matches Step::Running(t) ==> ({
                    let p = s.program_counter as int;
                    let v = s.memory[effective_address(s, AddressingMode::Immediate)];
                    let reg = s.register_y;
                    &&& (t.status & 0x01 != 0) == (reg >= v)
                    &&& (t.status & 0x02 != 0) == (reg == v)
                    &&& (t.status & 0x80 != 0) == ((reg - v + 256) % 256 >= 128)
                    &&& kept(s.status, t.status, 0x7C)
                    &&& t.register_a == s.register_a
                    &&& t.register_x == s.register_x
                    &&& t.register_y == s.register_y
                    &&& t.stack_pointer == s.stack_pointer
                    &&& t.memory == s.memory
                    &&& t.program_counter == p + 2
                })),
        s.read(s.program_counter as int) == 0xc4 && (s.program_counter + 2 <= 0xFFFF && effective_address(s, AddressingMode::ZeroPage) < 0xFFFF) ==> s.step() is Running,
        s.read(s.program_counter as int) == 0xc4 ==> (s.step() matches Step::Running(t) ==> ({
                    let p = s.program_counter as int;
                    let v = s.memory[effective_address(s, AddressingMode::ZeroPage)];
                    let reg = s.register_y;
                    &&& (t.status & 0x01 != 0) == (reg >= v)
                    &&& (t.status & 0x02 != 0) == (reg == v)
                    &&& (t.status & 0x80 != 0) == ((reg - v + 256) % 256 >= 128)
                    &&& kept(s.status, t.status, 0x7C)
                    &&& t.register_a == s.register_a
                    &&& t.register_x == s.register_x
                    &&& t.register_y == s.register_y
                    &&& t.stack_pointer == s.stack_pointer
                    &&& t.memory == s.memory
                    &&& t.program_counter == p + 2
                })),
        s.read(s.program_counter as int) == 0xcc && (s.program_counter + 3 <= 0xFFFF && effective_address(s, AddressingMode::Absolute) < 0xFFFF) ==> s.step() is Running,
        s.read(s.program_counter as int) == 0xcc ==> (s.step() matches Step::Running(t) ==> ({
                    let p = s.program_counter as int;
                    let v = s.memory[effective_address(s, AddressingMode::Absolute)];
                    let reg = s.register_y;
                    &&& (t.status & 0x01 != 0) == (reg >= v)
                    &&& (t.status & 0x02 != 0) == (reg == v)
                    &&& (t.status & 0x80 != 0) == ((reg - v + 256) % 256 >= 128)
                    &&& kept(s.status, t.status, 0x7C)
                    &&& t.register_a == s.register_a
                    &&& t.register_x == s.register_x
                    &&& t.register_y == s.register_y
                    &&& t.stack_pointer == s.stack_pointer
                    &&& t.memory == s.memory
                    &&& t.program_counter == p + 3
                })),
{
    broadcast use lemma_zero_negative_bits, lemma_carry_zero_negative_bits, lemma_arithmetic_bits;

    let f = s.with_pc((s.program_counter + 1) as u16);
    lemma_operand_is_effective(s, AddressingMode::Immediate);
    lemma_operand_is_effective(s, AddressingMode::ZeroPage);
    lemma_operand_is_effective(s, AddressingMode::Absolute);
    lemma_compare_value(f, AddressingMode::Immediate, f.register_y);
    lemma_compare_value(f, AddressingMode::ZeroPage, f.register_y);
    lemma_compare_value(f, AddressingMode::Absolute, f.register_y);
}

/// `BIT`: zero tells whether `A & M` is zero; bits 7 and 6 of `M` set the negative and overflow flags.
/// Stated for the instruction at the program counter, by its opcode byte.
#[verifier::rlimit(100)]
#[verifier::spinoff_prover]
pub proof fn lemma_step_bit(s: CpuState)
    requires
        s.wf(),
        in_memory(s.program_counter as int),
    ensures
        s.read(s.program_counter as int) == 0x24 && (s.program_counter + 2 <= 0xFFFF && effective_address(s, AddressingMode::ZeroPage) < 0xFFFF) ==> s.step() is Running,
        s.read(s.program_counter as int) == 0x24 ==> (s.step() matches Step::Running(t) ==> ({
                    let p = s.program_counter as int;
                    let v = s.memory[effective_address(s, AddressingMode::ZeroPage)];
                    &&& (t.status & 0x02 != 0) == (s.register_a & v == 0)
                    &&& (t.status & 0x80 != 0) == (v >= 128 || s.status & 0x80 != 0)
                    &&& (t.status & 0x40 != 0) == (v & 0x40 != 0 || s.status & 0x40 != 0)
                    &&& kept(s.status, t.status, 0x3D)
                    &&& t.register_a == s.register_a
                    &&& t.register_x == s.register_x
                    &&& t.register_y == s.register_y
                    &&& t.stack_pointer == s.stack_pointer
                    &&& t.memory == s.memory
                    &&& t.program_counter == p + 2
                })),
        s.read(s.program_counter as int) == 0x2c && (s.program_counter + 3 <= 0xFFFF && effective_address(s, AddressingMode::Absolute) < 0xFFFF) ==> s.step() is Running,
        s.read(s.program_counter as int) == 0x2c ==> (s.step() matches Step::Running(t) ==> ({
                    let p = s.program_counter as int;
                    let v = s.memory[effective_address(s, AddressingMode::Absolute)];
                    &&& (t.status & 0x02 != 0) == (s.register_a & v == 0)
                    &&& (t.status & 0x80 != 0) == (v >= 128 || s.status & 0x80 != 0)
                    &&& (t.status & 0x40 != 0) == (v & 0x40 != 0 || s.status & 0x40 != 0)
                    &&& kept(s.status, t.status, 0x3D)
                    &&& t.register_a == s.register_a
                    &&& t.register_x == s.register_x
                    &&& t.register_y == s.register_y
                    &&& t.stack_pointer == s.stack_pointer
                    &&& t.memory == s.memory
                    &&& t.program_counter == p + 3
                })),
{
    broadcast use lemma_zero_negative_bits, lemma_carry_zero_negative_bits, lemma_arithmetic_bits;

    let f = s.with_pc((s.program_counter + 1) as u16);
    lemma_operand_is_effective(s, AddressingMode::ZeroPage);
    lemma_operand_is_effective(s, AddressingMode::Absolute);
    lemma_bit_test_value(f, AddressingMode::ZeroPage);
    lemma_bit_test_value(f, AddressingMode::Absolute);
}

/// `ASL`: the byte doubles, its bit 7 going to the carry (`new + 256 C' == 2 old`).
/// Stated for the instruction at the program counter, by its opcode byte.
#[verifier::rlimit(100)]
#[verifier::spinoff_prover]
pub proof fn lemma_step_asl(s: CpuState)
    requires
        s.wf(),
        in_memory(s.program_counter as int),
    ensures
        s.read(s.program_counter as int) == 0x06 && (s.program_counter + 2 <= 0xFFFF && effective_address(s, AddressingMode::ZeroPage) < 0xFFFF) ==> s.step() is Running,
        s.read(s.program_counter as int) == 0x06 ==> (s.step() matches Step::Running(t) ==> ({
                    let p = s.program_counter as int;
                    let c: int = if s.status & 0x01 != 0 { 1 } else { 0 };
                    let c2: int = if t.status & 0x01 != 0 { 1 } else { 0 };
                    let addr = effective_address(s, AddressingMode::ZeroPage);
                    &&& t.memory[addr] + 256 * c2 == 2 * s.memory[addr]
                    &&& zero_negative(t.status, t.memory[addr] as int)
                    &&& kept(s.status, t.status, 0x7C)
                    &&& t.memory == s.memory.update(addr, t.memory[addr])
                    &&& t.register_a == s.register_a
                    &&& t.register_x == s.register_x
                    &&& t.register_y == s.register_y
                    &&& t.stack_pointer == s.stack_pointer
                    &&& t.program_counter == p + 2
                })),
        s.read(s.program_counter as int) == 0x0a ==> s.step() is Running,
        s.read(s.program_counter as int) == 0x0a ==> (s.step() matches Step::Running(t) ==> ({
                    let p = s.program_counter as int;
                    let c: int = if s.status & 0x01 != 0 { 1 } else { 0 };
                    let c2: int = if t.status & 0x01 != 0 { 1 } else { 0 };
                    &&& t.register_a + 256 * c2 == 2 * s.register_a
                    &&& zero_negative(t.status, t.register_a as int)
                    &&& kept(s.status, t.status, 0x7C)
                    &&& t.register_x == s.register_x
                    &&& t.register_y == s.register_y
                    &&& t.stack_pointer == s.stack_pointer
                    &&& t.memory == s.memory
                    &&& t.program_counter == p + 1
                })),
        s.read(s.program_counter as int) == 0x0e && (s.program_counter + 3 <= 0xFFFF && effective_address(s, AddressingMode::Absolute) < 0xFFFF) ==> s.step() is Running,
        s.read(s.program_counter as int) == 0x0e ==> (s.step() matches Step::Running(t) ==> ({
                    let p = s.program_counter as int;
                    let c: int = if s.status & 0x01 != 0 { 1 } else { 0 };
                    let c2: int = if t.status & 0x01 != 0 { 1 } else { 0 };
                    let addr = effective_address(s, AddressingMode::Absolute);
                    &&& t.memory[addr] + 256 * c2 == 2 * s.memory[addr]
                    &&& zero_negative(t.status, t.memory[addr] as int)
                    &&& kept(s.status, t.status, 0x7C)
                    &&& t.memory == s.memory.update(addr, t.memory[addr])
                    &&& t.register_a == s.register_a
                    &&& t.register_x == s.register_x
                    &&& t.register_y == s.register_y
                    &&& t.stack_pointer == s.stack_pointer
                    &&& t.program_counter == p + 3
                })),
        s.read(s.program_counter as int) == 0x16 && (s.program_counter + 2 <= 0xFFFF && effective_address(s, AddressingMode::ZeroPage_X) < 0xFFFF) ==> s.step() is Running,
        s.read(s.program_counter as int) == 0x16 ==> (s.step() matches Step::Running(t) ==> ({
                    let p = s.program_counter as int;
                    let c: int = if s.status & 0x01 != 0 { 1 } else { 0 };
                    let c2: int = if t.status & 0x01 != 0 { 1 } else { 0 };
                    let addr = effective_address(s, AddressingMode::ZeroPage_X);
                    &&& t.memory[addr] + 256 * c2 == 2 * s.memory[addr]
                    &&& zero_negative(t.status, t.memory[addr] as int)
                    &&& kept(s.status, t.status, 0x7C)
                    &&& t.memory == s.memory.update(addr, t.memory[addr])
                    &&& t.register_a == s.register_a
                    &&& t.register_x == s.register_x
                    &&& t.register_y == s.register_y
                    &&& t.stack_pointer == s.stack_pointer
                    &&& t.program_counter == p + 2
                })),
        s.read(s.program_counter as int) == 0x1e && (s.program_counter + 3 <= 0xFFFF && effective_address(s, AddressingMode::Absolute_X) < 0xFFFF) ==> s.step() is Running,
        s.read(s.program_counter as int) == 0x1e ==> (s.step() matches Step::Running(t) ==> ({
                    let p = s.program_counter as int;
                    let c: int = if s.status & 0x01 != 0 { 1 } else { 0 };
                    let c2: int = if t.status & 0x01 != 0 { 1 } else { 0 };
                    let addr = effective_address(s, AddressingMode::Absolute_X);
                    &&& t.memory[addr] + 256 * c2 == 2 * s.memory[addr]
                    &&& zero_negative(t.status, t.memory[addr] as int)
                    &&& kept(s.status, t.status, 0x7C)
                    &&& t.memory == s.memory.update(addr, t.memory[addr])
                    &&& t.register_a == s.register_a
                    &&& t.register_x == s.register_x
                    &&& t.register_y == s.register_y
                    &&& t.stack_pointer == s.stack_pointer
                    &&& t.program_counter == p + 3
                })),
{
    broadcast use lemma_zero_negative_bits, lemma_carry_zero_negative_bits, lemma_arithmetic_bits;

    let f = s.with_pc((s.program_counter + 1) as u16);
    lemma_operand_is_effective(s, AddressingMode::ZeroPage);
    lemma_operand_is_effective(s, AddressingMode::Absolute);
    lemma_operand_is_effective(s, AddressingMode::ZeroPage_X);
    lemma_operand_is_effective(s, AddressingMode::Absolute_X);
    lemma_shift_value(f, Mnemonic::Asl, AddressingMode::NoneAddressing);
    if f.operand_ok(AddressingMode::ZeroPage) {
        lemma_shift_value(f, Mnemonic::Asl, AddressingMode::ZeroPage);
    }
    if f.operand_ok(AddressingMode::Absolute) {
        lemma_shift_value(f, Mnemonic::Asl, AddressingMode::Absolute);
    }
    if f.operand_ok(AddressingMode::ZeroPage_X) {
        lemma_shift_value(f, Mnemonic::Asl, AddressingMode::ZeroPage_X);
    }
    if f.operand_ok(AddressingMode::Absolute_X) {
        lemma_shift_value(f, Mnemonic::Asl, AddressingMode::Absolute_X);
    }
}

/// `LSR`: the byte halves, its bit 0 going to the carry (`2 new + C' == old`).
/// Stated for the instruction at the program counter, by its opcode byte.
#[verifier::rlimit(100)]
#[verifier::spinoff_prover]
pub proof fn lemma_step_lsr(s: CpuState)
    requires
        s.wf(),
        in_memory(s.program_counter as int),
    ensures
        s.read(s.program_counter as int) == 0x46 && (s.program_counter + 2 <= 0xFFFF && effective_address(s, AddressingMode::ZeroPage) < 0xFFFF) ==> s.step() is Running,
        s.read(s.program_counter as int) == 0x46 ==> (s.step() matches Step::Running(t) ==> ({
                    let p = s.program_counter as int;
                    let c: int = if s.status & 0x01 != 0 { 1 } else { 0 };
                    let c2: int = if t.status & 0x01 != 0 { 1 } else { 0 };
                    let addr = effective_address(s, AddressingMode::ZeroPage);
                    &&& 2 * t.memory[addr] + c2 == s.memory[addr]
                    &&& zero_negative(t.status, t.memory[addr] as int)
                    &&& kept(s.status, t.status, 0x7C)
                    &&& t.memory == s.memory.update(addr, t.memory[addr])
                    &&& t.register_a == s.register_a
                    &&& t.register_x == s.register_x
                    &&& t.register_y == s.register_y
                    &&& t.stack_pointer == s.stack_pointer
                    &&& t.program_counter == p + 2
                })),
        s.read(s.program_counter as int) == 0x4a ==> s.step() is Running,
        s.read(s.program_counter as int) == 0x4a ==> (s.step() matches Step::Running(t) ==> ({
                    let p = s.program_counter as int;
                    let c: int = if s.status & 0x01 != 0 { 1 } else { 0 };
                    let c2: int = if t.status & 0x01 != 0 { 1 } else { 0 };
                    &&& 2 * t.register_a + c2 == s.register_a
                    &&& zero_negative(t.status, t.register_a as int)
                    &&& kept(s.status, t.status, 0x7C)
                    &&& t.register_x == s.register_x
                    &&& t.register_y == s.register_y
                    &&& t.stack_pointer == s.stack_pointer
                    &&& t.memory == s.memory
                    &&& t.program_counter == p + 1
                })),
        s.read(s.program_counter as int) == 0x4e && (s.program_counter + 3 <= 0xFFFF && effective_address(s, AddressingMode::Absolute) < 0xFFFF) ==> s.step() is Running,
        s.read(s.program_counter as int) == 0x4e ==> (s.step() matches Step::Running(t) ==> ({
                    let p = s.program_counter as int;
                    let c: int = if s.status & 0x01 != 0 { 1 } else { 0 };
                    let c2: int = if t.status & 0x01 != 0 { 1 } else { 0 };
                    let addr = effective_address(s, AddressingMode::Absolute);
                    &&& 2 * t.memory[addr] + c2 == s.memory[addr]
                    &&& zero_negative(t.status, t.memory[addr] as int)
                    &&& kept(s.status, t.status, 0x7C)
                    &&& t.memory == s.memory.update(addr, t.memory[addr])
                    &&& t.register_a == s.register_a
                    &&& t.register_x == s.register_x
                    &&& t.register_y == s.register_y
                    &&& t.stack_pointer == s.stack_pointer
                    &&& t.program_counter == p + 3
                })),
        s.read(s.program_counter as int) == 0x56 && (s.program_counter + 2 <= 0xFFFF && effective_address(s, AddressingMode::ZeroPage_X) < 0xFFFF) ==> s.step() is Running,
        s.read(s.program_counter as int) == 0x56 ==> (s.step() matches Step::Running(t) ==> ({
                    let p = s.program_counter as int;
                    let c: int = if s.status & 0x01 != 0 { 1 } else { 0 };
                    let c2: int = if t.status & 0x01 != 0 { 1 } else { 0 };
                    let addr = effective_address(s, AddressingMode::ZeroPage_X);
                    &&& 2 * t.memory[addr] + c2 == s.memory[addr]
                    &&& zero_negative(t.status, t.memory[addr] as int)
                    &&& kept(s.status, t.status, 0x7C)
                    &&& t.memory == s.memory.update(addr, t.memory[addr])
                    &&& t.register_a == s.register_a
                    &&& t.register_x == s.register_x
                    &&& t.register_y == s.register_y
                    &&& t.stack_pointer == s.stack_pointer
                    &&& t.program_counter == p + 2
                })),
        s.read(s.program_counter as int) == 0x5e && (s.program_counter + 3 <= 0xFFFF && effective_address(s, AddressingMode::Absolute_X) < 0xFFFF) ==> s.step() is Running,
        s.read(s.program_counter as int) == 0x5e ==> (s.step() matches Step::Running(t) ==> ({
                    let p = s.program_counter as int;
                    let c: int = if s.status & 0x01 != 0 { 1 } else { 0 };
                    let c2: int = if t.status & 0x01 != 0 { 1 } else { 0 };
                    let addr = effective_address(s, AddressingMode::Absolute_X);
                    &&& 2 * t.memory[addr] + c2 == s.memory[addr]
                    &&& zero_negative(t.status, t.memory[addr] as int)
                    &&& kept(s.status, t.status, 0x7C)
                    &&& t.memory == s.memory.update(addr, t.memory[addr])
                    &&& t.register_a == s.register_a
                    &&& t.register_x == s.register_x
                    &&& t.register_y == s.register_y
                    &&& t.stack_pointer == s.stack_pointer
                    &&& t.program_counter == p + 3
                })),
{
    broadcast use lemma_zero_negative_bits, lemma_carry_zero_negative_bits, lemma_arithmetic_bits;

    let f = s.with_pc((s.program_counter + 1) as u16);
    lemma_operand_is_effective(s, AddressingMode::ZeroPage);
    lemma_operand_is_effective(s, AddressingMode::Absolute);
    lemma_operand_is_effective(s, AddressingMode::ZeroPage_X);
    lemma_operand_is_effective(s, AddressingMode::Absolute_X);
    lemma_shift_value(f, Mnemonic::Lsr, AddressingMode::NoneAddressing);
    if f.operand_ok(AddressingMode::ZeroPage) {
        lemma_shift_value(f, Mnemonic::Lsr, AddressingMode::ZeroPage);
    }
    if f.operand_ok(AddressingMode::Absolute) {
        lemma_shift_value(f, Mnemonic::Lsr, AddressingMode::Absolute);
    }
    if f.operand_ok(AddressingMode::ZeroPage_X) {
        lemma_shift_value(f, Mnemonic::Lsr, AddressingMode::ZeroPage_X);
    }
    if f.operand_ok(AddressingMode::Absolute_X) {
        lemma_shift_value(f, Mnemonic::Lsr, AddressingMode::Absolute_X);
    }
}

/// `ROL`: the byte doubles and takes the old carry in bit 0; bit 7 goes to the carry (`new + 256 C' == 2 old + C`).
/// Stated for the instruction at the program counter, by its opcode byte.
#[verifier::rlimit(100)]
#[verifier::spinoff_prover]
pub proof fn lemma_step_rol(s: CpuState)
    requires
        s.wf(),
        in_memory(s.program_counter as int),
    ensures
        s.read(s.program_counter as int) == 0x26 && (s.program_counter + 2 <= 0xFFFF && effective_address(s, AddressingMode::ZeroPage) < 0xFFFF) ==> s.step() is Running,
        s.read(s.program_counter as int) == 0x26 ==> (s.step() matches Step::Running(t) ==> ({
                    let p = s.program_counter as int;
                    let c: int = if s.status & 0x01 != 0 { 1 } else { 0 };
                    let c2: int = if t.status & 0x01 != 0 { 1 } else { 0 };
                    let addr = effective_address(s, AddressingMode::ZeroPage);
                    &&& t.memory[addr] + 256 * c2 == 2 * s.memory[addr] + c
                    &&& zero_negative(t.status, t.memory[addr] as int)
                    &&& kept(s.status, t.status, 0x7C)
                    &&& t.memory == s.memory.update(addr, t.memory[addr])
                    &&& t.register_a == s.register_a
                    &&& t.register_x == s.register_x
                    &&& t.register_y == s.register_y
                    &&& t.stack_pointer == s.stack_pointer
                    &&& t.program_counter == p + 2
                })),
        s.read(s.program_counter as int) == 0x2a ==> s.step() is Running,
        s.read(s.program_counter as int) == 0x2a ==> (s.step() matches Step::Running(t) ==> ({
                    let p = s.program_counter as int;
                    let c: int = if s.status & 0x01 != 0 { 1 } else { 0 };
                    let c2: int = if t.status & 0x01 != 0 { 1 } else { 0 };
                    &&& t.register_a + 256 * c2 == 2 * s.register_a + c
                    &&& zero_negative(t.status, t.register_a as int)
                    &&& kept(s.status, t.status, 0x7C)
                    &&& t.register_x == s.register_x
                    &&& t.register_y == s.register_y
                    &&& t.stack_pointer == s.stack_pointer
                    &&& t.memory == s.memory
                    &&& t.program_counter == p + 1
                })),
        s.read(s.program_counter as int) == 0x2e && (s.program_counter + 3 <= 0xFFFF && effective_address(s, AddressingMode::Absolute) < 0xFFFF) ==> s.step() is Running,
        s.read(s.program_counter as int) == 0x2e ==> (s.step() matches Step::Running(t) ==> ({
                    let p = s.program_counter as int;
                    let c: int = if s.status & 0x01 != 0 { 1 } else { 0 };
                    let c2: int = if t.status & 0x01 != 0 { 1 } else { 0 };
                    let addr = effective_address(s, AddressingMode::Absolute);
                    &&& t.memory[addr] + 256 * c2 == 2 * s.memory[addr] + c
                    &&& zero_negative(t.status, t.memory[addr] as int)
                    &&& kept(s.status, t.status, 0x7C)
                    &&& t.memory == s.memory.update(addr, t.memory[addr])
                    &&& t.register_a == s.register_a
                    &&& t.register_x == s.register_x
                    &&& t.register_y == s.register_y
                    &&& t.stack_pointer == s.stack_pointer
                    &&& t.program_counter == p + 3
                })),
        s.read(s.program_counter as int) == 0x36 && (s.program_counter + 2 <= 0xFFFF && effective_address(s, AddressingMode::ZeroPage_X) < 0xFFFF) ==> s.step() is Running,
        s.read(s.program_counter as int) == 0x36 ==> (s.step() matches Step::Running(t) ==> ({
                    let p = s.program_counter as int;
                    let c: int = if s.status & 0x01 != 0 { 1 } else { 0 };
                    let c2: int = if t.status & 0x01 != 0 { 1 } else { 0 };
                    let addr = effective_address(s, AddressingMode::ZeroPage_X);
                    &&& t.memory[addr] + 256 * c2 == 2 * s.memory[addr] + c
                    &&& zero_negative(t.status, t.memory[addr] as int)
                    &&& kept(s.status, t.status, 0x7C)
                    &&& t.memory == s.memory.update(addr, t.memory[addr])
                    &&& t.register_a == s.register_a
                    &&& t.register_x == s.register_x
                    &&& t.register_y == s.register_y
                    &&& t.stack_pointer == s.stack_pointer
                    &&& t.program_counter == p + 2
                })),
        s.read(s.program_counter as int) == 0x3e && (s.program_counter + 3 <= 0xFFFF && effective_address(s, AddressingMode::Absolute_X) < 0xFFFF) ==> s.step() is Running,
        s.read(s.program_counter as int) == 0x3e ==> (s.step() matches Step::Running(t) ==> ({
                    let p = s.program_counter as int;
                    let c: int = if s.status & 0x01 != 0 { 1 } else { 0 };
                    let c2: int = if t.status & 0x01 != 0 { 1 } else { 0 };
                    let addr = effective_address(s, AddressingMode::Absolute_X);
                    &&& t.memory[addr] + 256 * c2 == 2 * s.memory[addr] + c
                    &&& zero_negative(t.status, t.memory[addr] as int)
                    &&& kept(s.status, t.status, 0x7C)
                    &&& t.memory == s.memory.update(addr, t.memory[addr])
                    &&& t.register_a == s.register_a
                    &&& t.register_x == s.register_x
                    &&& t.register_y == s.register_y
                    &&& t.stack_pointer == s.stack_pointer
                    &&& t.program_counter == p + 3
                })),
{
    broadcast use lemma_zero_negative_bits, lemma_carry_zero_negative_bits, lemma_arithmetic_bits;

    let f = s.with_pc((s.program_counter + 1) as u16);
    lemma_operand_is_effective(s, AddressingMode::ZeroPage);
    lemma_operand_is_effective(s, AddressingMode::Absolute);
    lemma_operand_is_effective(s, AddressingMode::ZeroPage_X);
    lemma_operand_is_effective(s, AddressingMode::Absolute_X);
    lemma_shift_value(f, Mnemonic::Rol, AddressingMode::NoneAddressing);
    if f.operand_ok(AddressingMode::ZeroPage) {
        lemma_shift_value(f, Mnemonic::Rol, AddressingMode::ZeroPage);
    }
    if f.operand_ok(AddressingMode::Absolute) {
        lemma_shift_value(f, Mnemonic::Rol, AddressingMode::Absolute);
    }
    if f.operand_ok(AddressingMode::ZeroPage_X) {
        lemma_shift_value(f, Mnemonic::Rol, AddressingMode::ZeroPage_X);
    }
    if f.operand_ok(AddressingMode::Absolute_X) {
        lemma_shift_value(f, Mnemonic::Rol, AddressingMode::Absolute_X);
    }
}

/// `ROR`: the byte halves and takes the old carry in bit 7; bit 0 goes to the carry (`2 new + C' == old + 256 C`).
/// Stated for the instruction at the program counter, by its opcode byte.
#[verifier::rlimit(100)]
#[verifier::spinoff_prover]
pub proof fn lemma_step_ror(s: CpuState)
    requires
        s.wf(),
        in_memory(s.program_counter as int),
    ensures
        s.read(s.program_counter as int) == 0x66 && (s.program_counter + 2 <= 0xFFFF && effective_address(s, AddressingMode::ZeroPage) < 0xFFFF) ==> s.step() is Running,
        s.read(s.program_counter as int) == 0x66 ==> (s.step() matches Step::Running(t) ==> ({
                    let p = s.program_counter as int;
                    let c: int = if s.status & 0x01 != 0 { 1 } else { 0 };
                    let c2: int = if t.status & 0x01 != 0 { 1 } else { 0 };
                    let addr = effective_address(s, AddressingMode::ZeroPage);
                    &&& 2 * t.memory[addr] + c2 == s.memory[addr] + 256 * c
                    &&& zero_negative(t.status, t.memory[addr] as int)
                    &&& kept(s.status, t.status, 0x7C)
                    &&& t.memory == s.memory.update(addr, t.memory[addr])
                    &&& t.register_a == s.register_a
                    &&& t.register_x == s.register_x
                    &&& t.register_y == s.register_y
                    &&& t.stack_pointer == s.stack_pointer
                    &&& t.program_counter == p + 2
                })),
        s.read(s.program_counter as int) == 0x6a ==> s.step() is Running,
        s.read(s.program_counter as int) == 0x6a ==> (s.step() matches Step::Running(t) ==> ({
                    let p = s.program_counter as int;
                    let c: int = if s.status & 0x01 != 0 { 1 } else { 0 };
                    let c2: int = if t.status & 0x01 != 0 { 1 } else { 0 };
                    &&& 2 * t.register_a + c2 == s.register_a + 256 * c
                    &&& zero_negative(t.status, t.register_a as int)
                    &&& kept(s.status, t.status, 0x7C)
                    &&& t.register_x == s.register_x
                    &&& t.register_y == s.register_y
                    &&& t.stack_pointer == s.stack_pointer
                    &&& t.memory == s.memory
                    &&& t.program_counter == p + 1
                })),
        s.read(s.program_counter as int) == 0x6e && (s.program_counter + 3 <= 0xFFFF && effective_address(s, AddressingMode::Absolute) < 0xFFFF) ==> s.step() is Running,
        s.read(s.program_counter as int) == 0x6e ==> (s.step() matches Step::Running(t) ==> ({
                    let p = s.program_counter as int;
                    let c: int = if s.status & 0x01 != 0 { 1 } else { 0 };
                    let c2: int = if t.status & 0x01 != 0 { 1 } else { 0 };
                    let addr = effective_address(s, AddressingMode::Absolute);
                    &&& 2 * t.memory[addr] + c2 == s.memory[addr] + 256 * c
                    &&& zero_negative(t.status, t.memory[addr] as int)
                    &&& kept(s.status, t.status, 0x7C)
                    &&& t.memory == s.memory.update(addr, t.memory[addr])
                    &&& t.register_a == s.register_a
                    &&& t.register_x == s.register_x
                    &&& t.register_y == s.register_y
                    &&& t.stack_pointer == s.stack_pointer
                    &&& t.program_counter == p + 3
                })),
        s.read(s.program_counter as int) == 0x76 && (s.program_counter + 2 <= 0xFFFF && effective_address(s, AddressingMode::ZeroPage_X) < 0xFFFF) ==> s.step() is Running,
        s.read(s.program_counter as int) == 0x76 ==> (s.step() matches Step::Running(t) ==> ({
                    let p = s.program_counter as int;
                    let c: int = if s.status & 0x01 != 0 { 1 } else { 0 };
                    let c2: int = if t.status & 0x01 != 0 { 1 } else { 0 };
                    let addr = effective_address(s, AddressingMode::ZeroPage_X);
                    &&& 2 * t.memory[addr] + c2 == s.memory[addr] + 256 * c
                    &&& zero_negative(t.status, t.memory[addr] as int)
                    &&& kept(s.status, t.status, 0x7C)
                    &&& t.memory == s.memory.update(addr, t.memory[addr])
                    &&& t.register_a == s.register_a
                    &&& t.register_x == s.register_x
                    &&& t.register_y == s.register_y
                    &&& t.stack_pointer == s.stack_pointer
                    &&& t.program_counter == p + 2
                })),
        s.read(s.program_counter as int) == 0x7e && (s.program_counter + 3 <= 0xFFFF && effective_address(s, AddressingMode::Absolute_X) < 0xFFFF) ==> s.step() is Running,
        s.read(s.program_counter as int) == 0x7e ==> (s.step() matches Step::Running(t) ==> ({
                    let p = s.program_counter as int;
                    let c: int = if s.status & 0x01 != 0 { 1 } else { 0 };
                    let c2: int = if t.status & 0x01 != 0 { 1 } else { 0 };
                    let addr = effective_address(s, AddressingMode::Absolute_X);
                    &&& 2 * t.memory[addr] + c2 == s.memory[addr] + 256 * c
                    &&& zero_negative(t.status, t.memory[addr] as int)
                    &&& kept(s.status, t.status, 0x7C)
                    &&& t.memory == s.memory.update(addr, t.memory[addr])
                    &&& t.register_a == s.register_a
                    &&& t.register_x == s.register_x
                    &&& t.register_y == s.register_y
                    &&& t.stack_pointer == s.stack_pointer
                    &&& t.program_counter == p + 3
                })),
{
    broadcast use lemma_zero_negative_bits, lemma_carry_zero_negative_bits, lemma_arithmetic_bits;

    let f = s.with_pc((s.program_counter + 1) as u16);
    lemma_operand_is_effective(s, AddressingMode::ZeroPage);
    lemma_operand_is_effective(s, AddressingMode::Absolute);
    lemma_operand_is_effective(s, AddressingMode::ZeroPage_X);
    lemma_operand_is_effective(s, AddressingMode::Absolute_X);
    lemma_shift_value(f, Mnemonic::Ror, AddressingMode::NoneAddressing);
    if f.operand_ok(AddressingMode::ZeroPage) {
        lemma_shift_value(f, Mnemonic::Ror, AddressingMode::ZeroPage);
    }
    if f.operand_ok(AddressingMode::Absolute) {
        lemma_shift_value(f, Mnemonic::Ror, AddressingMode::Absolute);
    }
    if f.operand_ok(AddressingMode::ZeroPage_X) {
        lemma_shift_value(f, Mnemonic::Ror, AddressingMode::ZeroPage_X);
    }
    if f.operand_ok(AddressingMode::Absolute_X) {
        lemma_shift_value(f, Mnemonic::Ror, AddressingMode::Absolute_X);
    }
}

/// `INC`: the byte at the effective address increases by one modulo 256.
/// Stated for the instruction at the program counter, by its opcode byte.
#[verifier::rlimit(100)]
#[verifier::spinoff_prover]
pub proof fn lemma_step_inc(s: CpuState)
    requires
        s.wf(),
        in_memory(s.program_counter as int),
    ensures
        s.read(s.program_counter as int) == 0xe6 && (s.program_counter + 2 <= 0xFFFF && effective_address(s, AddressingMode::ZeroPage) < 0xFFFF) ==> s.step() is Running,
        s.read(s.program_counter as int) == 0xe6 ==> (s.step() matches Step::Running(t) ==> ({
                    let p = s.program_counter as int;
                    let addr = effective_address(s, AddressingMode::ZeroPage);
                    &&& t.memory == s.memory.update(addr, ((s.memory[addr] + 1) % 256) as u8)
                    &&& zero_negative(t.status, t.memory[addr] as int)
                    &&& kept(s.status, t.status, 0x7D)
                    &&& t.register_a == s.register_a
                    &&& t.register_x == s.register_x
                    &&& t.register_y == s.register_y
                    &&& t.stack_pointer == s.stack_pointer
                    &&& t.program_counter == p + 2
                })),
        s.read(s.program_counter as int) == 0xee && (s.program_counter + 3 <= 0xFFFF && effective_address(s, AddressingMode::Absolute) < 0xFFFF) ==> s.step() is Running,
        s.read(s.program_counter as int) == 0xee ==> (s.step() matches Step::Running(t) ==> ({
                    let p = s.program_counter as int;
                    let addr = effective_address(s, AddressingMode::Absolute);
                    &&& t.memory == s.memory.update(addr, ((s.memory[addr] + 1) % 256) as u8)
                    &&& zero_negative(t.status, t.memory[addr] as int)
                    &&& kept(s.status, t.status, 0x7D)
                    &&& t.register_a == s.register_a
                    &&& t.register_x == s.register_x
                    &&& t.register_y == s.register_y
                    &&& t.stack_pointer == s.stack_pointer
                    &&& t.program_counter == p + 3
                })),
        s.read(s.program_counter as int) == 0xf6 && (s.program_counter + 2 <= 0xFFFF && effective_address(s, AddressingMode::ZeroPage_X) < 0xFFFF) ==> s.step() is Running,
        s.read(s.program_counter as int) == 0xf6 ==> (s.step() matches Step::Running(t) ==> ({
                    let p = s.program_counter as int;
                    let addr = effective_address(s, AddressingMode::ZeroPage_X);
                    &&& t.memory == s.memory.update(addr, ((s.memory[addr] + 1) % 256) as u8)
                    &&& zero_negative(t.status, t.memory[addr] as int)
                    &&& kept(s.status, t.status, 0x7D)
                    &&& t.register_a == s.register_a
                    &&& t.register_x == s.register_x
                    &&& t.register_y == s.register_y
                    &&& t.stack_pointer == s.stack_pointer
                    &&& t.program_counter == p + 2
                })),
        s.read(s.program_counter as int) == 0xfe && (s.program_counter + 3 <= 0xFFFF && effective_address(s, AddressingMode::Absolute_X) < 0xFFFF) ==> s.step() is Running,
        s.read(s.program_counter as int) == 0xfe ==> (s.step() matches Step::Running(t) ==> ({
                    let p = s.program_counter as int;
                    let addr = effective_address(s, AddressingMode::Absolute_X);
                    &&& t.memory == s.memory.update(addr, ((s.memory[addr] + 1) % 256) as u8)
                    &&& zero_negative(t.status, t.memory[addr] as int)
                    &&& kept(s.status, t.status, 0x7D)
                    &&& t.register_a == s.register_a
                    &&& t.register_x == s.register_x
                    &&& t.register_y == s.register_y
                    &&& t.stack_pointer == s.stack_pointer
                    &&& t.program_counter == p + 3
                })),
{
    broadcast use lemma_zero_negative_bits, lemma_carry_zero_negative_bits, lemma_arithmetic_bits;

    let f = s.with_pc((s.program_counter + 1) as u16);
    lemma_operand_is_effective(s, AddressingMode::ZeroPage);
    lemma_operand_is_effective(s, AddressingMode::Absolute);
    lemma_operand_is_effective(s, AddressingMode::ZeroPage_X);
    lemma_operand_is_effective(s, AddressingMode::Absolute_X);
    if f.operand_ok(AddressingMode::ZeroPage) {
        lemma_step_memory_value(f, AddressingMode::ZeroPage, true);
    }
    if f.operand_ok(AddressingMode::Absolute) {
        lemma_step_memory_value(f, AddressingMode::Absolute, true);
    }
    if f.operand_ok(AddressingMode::ZeroPage_X) {
        lemma_step_memory_value(f, AddressingMode::ZeroPage_X, true);
    }
    if f.operand_ok(AddressingMode::Absolute_X) {
        lemma_step_memory_value(f, AddressingMode::Absolute_X, true);
    }
}

/// `DEC`: the byte at the effective address decreases by one modulo 256.
/// Stated for the instruction at the program counter, by its opcode byte.
#[verifier::rlimit(100)]
#[verifier::spinoff_prover]
pub proof fn lemma_step_dec(s: CpuState)
    requires
        s.wf(),
        in_memory(s.program_counter as int),
    ensures
        s.read(s.program_counter as int) == 0xc6 && (s.program_counter + 2 <= 0xFFFF && effective_address(s, AddressingMode::ZeroPage) < 0xFFFF) ==> s.step() is Running,
        s.read(s.program_counter as int) == 0xc6 ==> (s.step() matches Step::Running(t) ==> ({
                    let p = s.program_counter as int;
                    let addr = effective_address(s, AddressingMode::ZeroPage);
                    &&& t.memory == s.memory.update(addr, ((s.memory[addr] + 255) % 256) as u8)
                    &&& zero_negative(t.status, t.memory[addr] as int)
                    &&& kept(s.status, t.status, 0x7D)
                    &&& t.register_a == s.register_a
                    &&& t.register_x == s.register_x
                    &&& t.register_y == s.register_y
                    &&& t.stack_pointer == s.stack_pointer
                    &&& t.program_counter == p + 2
                })),
        s.read(s.program_counter as int) == 0xce && (s.program_counter + 3 <= 0xFFFF && effective_address(s, AddressingMode::Absolute) < 0xFFFF) ==> s.step() is Running,
        s.read(s.program_counter as int) == 0xce ==> (s.step() matches Step::Running(t) ==> ({
                    let p = s.program_counter as int;
                    let addr = effective_address(s, AddressingMode::Absolute);
                    &&& t.memory == s.memory.update(addr, ((s.memory[addr] + 255) % 256) as u8)
                    &&& zero_negative(t.status, t.memory[addr] as int)
                    &&& kept(s.status, t.status, 0x7D)
                    &&& t.register_a == s.register_a
                    &&& t.register_x == s.register_x
                    &&& t.register_y == s.register_y
                    &&& t.stack_pointer == s.stack_pointer
                    &&& t.program_counter == p + 3
                })),
        s.read(s.program_counter as int) == 0xd6 && (s.program_counter + 2 <= 0xFFFF && effective_address(s, AddressingMode::ZeroPage_X) < 0xFFFF) ==> s.step() is Running,
        s.read(s.program_counter as int) == 0xd6 ==> (s.step() matches Step::Running(t) ==> ({
                    let p = s.program_counter as int;
                    let addr = effective_address(s, AddressingMode::ZeroPage_X);
                    &&& t.memory == s.memory.update(addr, ((s.memory[addr] + 255) % 256) as u8)
                    &&& zero_negative(t.status, t.memory[addr] as int)
                    &&& kept(s.status, t.status, 0x7D)
                    &&& t.register_a == s.register_a
                    &&& t.register_x == s.register_x
                    &&& t.register_y == s.register_y
                    &&& t.stack_pointer == s.stack_pointer
                    &&& t.program_counter == p + 2
                })),
        s.read(s.program_counter as int) == 0xde && (s.program_counter + 3 <= 0xFFFF && effective_address(s, AddressingMode::Absolute_X) < 0xFFFF) ==> s.step() is Running,
        s.read(s.program_counter as int) == 0xde ==> (s.step() matches Step::Running(t) ==> ({
                    let p = s.program_counter as int;
                    let addr = effective_address(s, AddressingMode::Absolute_X);
                    &&& t.memory == s.memory.update(addr, ((s.memory[addr] + 255) % 256) as u8)
                    &&& zero_negative(t.status, t.memory[addr] as int)
                    &&& kept(s.status, t.status, 0x7D)
                    &&& t.register_a == s.register_a
                    &&& t.register_x == s.register_x
                    &&& t.register_y == s.register_y
                    &&& t.stack_pointer == s.stack_pointer
                    &&& t.program_counter == p + 3
                })),
{
    broadcast use lemma_zero_negative_bits, lemma_carry_zero_negative_bits, lemma_arithmetic_bits;

    let f = s.with_pc((s.program_counter + 1) as u16);
    lemma_operand_is_effective(s, AddressingMode::ZeroPage);
    lemma_operand_is_effective(s, AddressingMode::Absolute);
    lemma_operand_is_effective(s, AddressingMode::ZeroPage_X);
    lemma_operand_is_effective(s, AddressingMode::Absolute_X);
    if f.operand_ok(AddressingMode::ZeroPage) {
        lemma_step_memory_value(f, AddressingMode::ZeroPage, false);
    }
    if f.operand_ok(AddressingMode::Absolute) {
        lemma_step_memory_value(f, AddressingMode::Absolute, false);
    }
    if f.operand_ok(AddressingMode::ZeroPage_X) {
        lemma_step_memory_value(f, AddressingMode::ZeroPage_X, false);
    }
    if f.operand_ok(AddressingMode::Absolute_X) {
        lemma_step_memory_value(f, AddressingMode::Absolute_X, false);
    }
}

/// `INX`: register X increases by one modulo 256.
/// Stated for the instruction at the program counter, by its opcode byte.
#[verifier::rlimit(100)]
#[verifier::spinoff_prover]
pub proof fn lemma_step_inx(s: CpuState)
    requires
        s.wf(),
        in_memory(s.program_counter as int),
    ensures
        s.read(s.program_counter as int) == 0xe8 ==> s.step() is Running,
        s.read(s.program_counter as int) == 0xe8 ==> (s.step() matches Step::Running(t) ==> ({
                    let p = s.program_counter as int;
                    &&& t.register_x == (s.register_x + 1) % 256
                    &&& zero_negative(t.status, t.register_x as int)
                    &&& kept(s.status, t.status, 0x7D)
                    &&& t.register_a == s.register_a
                    &&& t.register_y == s.register_y
                    &&& t.stack_pointer == s.stack_pointer
                    &&& t.memory == s.memory
                    &&& t.program_counter == p + 1
                })),
{
    broadcast use lemma_zero_negative_bits, lemma_carry_zero_negative_bits, lemma_arithmetic_bits;
}

/// `INY`: register Y increases by one modulo 256.
/// Stated for the instruction at the program counter, by its opcode byte.
#[verifier::rlimit(100)]
#[verifier::spinoff_prover]
pub proof fn lemma_step_iny(s: CpuState)
    requires
        s.wf(),
        in_memory(s.program_counter as int),
    ensures
        s.read(s.program_counter as int) == 0xc8 ==> s.step() is Running,
        s.read(s.program_counter as int) == 0xc8 ==> (s.step() matches Step::Running(t) ==> ({
                    let p = s.program_counter as int;
                    &&& t.register_y == (s.register_y + 1) % 256
                    &&& zero_negative(t.status, t.register_y as int)
                    &&& kept(s.status, t.status, 0x7D)
                    &&& t.register_a == s.register_a
                    &&& t.register_x == s.register_x
                    &&& t.stack_pointer == s.stack_pointer
                    &&& t.memory == s.memory
                    &&& t.program_counter == p + 1
                })),
{
    broadcast use lemma_zero_negative_bits, lemma_carry_zero_negative_bits, lemma_arithmetic_bits;
}

/// `DEX`: register X decreases by one modulo 256.
/// Stated for the instruction at the program counter, by its opcode byte.
#[verifier::rlimit(100)]
#[verifier::spinoff_prover]
pub proof fn lemma_step_dex(s: CpuState)
    requires
        s.wf(),
        in_memory(s.program_counter as int),
    ensures
        s.read(s.program_counter as int) == 0xca ==> s.step() is Running,
        s.read(s.program_counter as int) == 0xca ==> (s.step() matches Step::Running(t) ==> ({
                    let p = s.program_counter as int;
                    &&& t.register_x == (s.register_x + 255) % 256
                    &&& zero_negative(t.status, t.register_x as int)
                    &&& kept(s.status, t.status, 0x7D)
                    &&& t.register_a == s.register_a
                    &&& t.register_y == s.register_y
                    &&& t.stack_pointer == s.stack_pointer
                    &&& t.memory == s.memory
                    &&& t.program_counter == p + 1
                })),
{
    broadcast use lemma_zero_negative_bits, lemma_carry_zero_negative_bits, lemma_arithmetic_bits;
}

/// `DEY`: register Y decreases by one modulo 256.
/// Stated for the instruction at the program counter, by its opcode byte.
#[verifier::rlimit(100)]
#[verifier::spinoff_prover]
pub proof fn lemma_step_dey(s: CpuState)
    requires
        s.wf(),
        in_memory(s.program_counter as int),
    ensures
        s.read(s.program_counter as int) == 0x88 ==> s.step() is Running,
        s.read(s.program_counter as int) == 0x88 ==> (s.step() matches Step::Running(t) ==> ({
                    let p = s.program_counter as int;
                    &&& t.register_y == (s.register_y + 255) % 256
                    &&& zero_negative(t.status, t.register_y as int)
                    &&& kept(s.status, t.status, 0x7D)
                    &&& t.register_a == s.register_a
                    &&& t.register_x == s.register_x
                    &&& t.stack_pointer == s.stack_pointer
                    &&& t.memory == s.memory
                    &&& t.program_counter == p + 1
                })),
{
    broadcast use lemma_zero_negative_bits, lemma_carry_zero_negative_bits, lemma_arithmetic_bits;
}

/// `TAX`: X receives A.
/// Stated for the instruction at the program counter, by its opcode byte.
#[verifier::rlimit(100)]
#[verifier::spinoff_prover]
pub proof fn lemma_step_tax(s: CpuState)
    requires
        s.wf(),
        in_memory(s.program_counter as int),
    ensures
        s.read(s.program_counter as int) == 0xaa ==> s.step() is Running,
        s.read(s.program_counter as int) == 0xaa ==> (s.step() matches Step::Running(t) ==> ({
                    let p = s.program_counter as int;
                    &&& t.register_x == s.register_a
                    &&& zero_negative(t.status, t.register_x as int)
                    &&& kept(s.status, t.status, 0x7D)
                    &&& t.register_a == s.register_a
                    &&& t.register_y == s.register_y
                    &&& t.stack_pointer == s.stack_pointer
                    &&& t.memory == s.memory
                    &&& t.program_counter == p + 1
                })),
{
    broadcast use lemma_zero_negative_bits, lemma_carry_zero_negative_bits, lemma_arithmetic_bits;
}

/// `TAY`: Y receives A.
/// Stated for the instruction at the program counter, by its opcode byte.
#[verifier::rlimit(100)]
#[verifier::spinoff_prover]
pub proof fn lemma_step_tay(s: CpuState)
    requires
        s.wf(),
        in_memory(s.program_counter as int),
    ensures
        s.read(s.program_counter as int) == 0xa8 ==> s.step() is Running,
        s.read(s.program_counter as int) == 0xa8 ==> (s.step() matches Step::Running(t) ==> ({
                    let p = s.program_counter as int;
                    &&& t.register_y == s.register_a
                    &&& zero_negative(t.status, t.register_y as int)
                    &&& kept(s.status, t.status, 0x7D)
                    &&& t.register_a == s.register_a
                    &&& t.register_x == s.register_x
                    &&& t.stack_pointer == s.stack_pointer
                    &&& t.memory == s.memory
                    &&& t.program_counter == p + 1
                })),
{
    broadcast use lemma_zero_negative_bits, lemma_carry_zero_negative_bits, lemma_arithmetic_bits;
}

/// `TSX`: X receives the stack pointer.
/// Stated for the instruction at the program counter, by its opcode byte.
#[verifier::rlimit(100)]
#[verifier::spinoff_prover]
pub proof fn lemma_step_tsx(s: CpuState)
    requires
        s.wf(),
        in_memory(s.program_counter as int),
    ensures
        s.read(s.program_counter as int) == 0xba ==> s.step() is Running,
        s.read(s.program_counter as int) == 0xba ==> (s.step() matches Step::Running(t) ==> ({
                    let p = s.program_counter as int;
                    &&& t.register_x == s.stack_pointer
                    &&& zero_negative(t.status, t.register_x as int)
                    &&& kept(s.status, t.status, 0x7D)
                    &&& t.register_a == s.register_a
                    &&& t.register_y == s.register_y
                    &&& t.stack_pointer == s.stack_pointer
                    &&& t.memory == s.memory
                    &&& t.program_counter == p + 1
                })),
{
    broadcast use lemma_zero_negative_bits, lemma_carry_zero_negative_bits, lemma_arithmetic_bits;
}

/// `TXA`: A receives X.
/// Stated for the instruction at the program counter, by its opcode byte.
#[verifier::rlimit(100)]
#[verifier::spinoff_prover]
pub proof fn lemma_step_txa(s: CpuState)
    requires
        s.wf(),
        in_memory(s.program_counter as int),
    ensures
        s.read(s.program_counter as int) == 0x8a ==> s.step() is Running,
        s.read(s.program_counter as int) == 0x8a ==> (s.step() matches Step::Running(t) ==> ({
                    let p = s.program_counter as int;
                    &&& t.register_a == s.register_x
                    &&& zero_negative(t.status, t.register_a as int)
                    &&& kept(s.status, t.status, 0x7D)
                    &&& t.register_x == s.register_x
                    &&& t.register_y == s.register_y
                    &&& t.stack_pointer == s.stack_pointer
                    &&& t.memory == s.memory
                    &&& t.program_counter == p + 1
                })),
{
    broadcast use lemma_zero_negative_bits, lemma_carry_zero_negative_bits, lemma_arithmetic_bits;
}

/// `TYA`: A receives Y.
/// Stated for the instruction at the program counter, by its opcode byte.
#[verifier::rlimit(100)]
#[verifier::spinoff_prover]
pub proof fn lemma_step_tya(s: CpuState)
    requires
        s.wf(),
        in_memory(s.program_counter as int),
    ensures
        s.read(s.program_counter as int) == 0x98 ==> s.step() is Running,
        s.read(s.program_counter as int) == 0x98 ==> (s.step() matches Step::Running(t) ==> ({
                    let p = s.program_counter as int;
                    &&& t.register_a == s.register_y
                    &&& zero_negative(t.status, t.register_a as int)
                    &&& kept(s.status, t.status, 0x7D)
                    &&& t.register_x == s.register_x
                    &&& t.register_y == s.register_y
                    &&& t.stack_pointer == s.stack_pointer
                    &&& t.memory == s.memory
                    &&& t.program_counter == p + 1
                })),
{
    broadcast use lemma_zero_negative_bits, lemma_carry_zero_negative_bits, lemma_arithmetic_bits;
}

/// `TXS`: the stack pointer receives X; no flag changes.
/// Stated for the instruction at the program counter, by its opcode byte.
#[verifier::rlimit(100)]
#[verifier::spinoff_prover]
pub proof fn lemma_step_txs(s: CpuState)
    requires
        s.wf(),
        in_memory(s.program_counter as int),
    ensures
        s.read(s.program_counter as int) == 0x9a ==> s.step() is Running,
        s.read(s.program_counter as int) == 0x9a ==> (s.step() matches Step::Running(t) ==> ({
                    let p = s.program_counter as int;
                    &&& t.stack_pointer == s.register_x
                    &&& t.register_a == s.register_a
                    &&& t.register_x == s.register_x
                    &&& t.register_y == s.register_y
                    &&& t.status == s.status
                    &&& t.memory == s.memory
                    &&& t.program_counter == p + 1
                })),
{
    broadcast use lemma_zero_negative_bits, lemma_carry_zero_negative_bits, lemma_arithmetic_bits;
}

/// `CLC`: clears the carry.
/// Stated for the instruction at the program counter, by its opcode byte.
#[verifier::rlimit(100)]
#[verifier::spinoff_prover]
pub proof fn lemma_step_clc(s: CpuState)
    requires
        s.wf(),
        in_memory(s.program_counter as int),
    ensures
        s.read(s.program_counter as int) == 0x18 ==> s.step() is Running,
        s.read(s.program_counter as int) == 0x18 ==> (s.step() matches Step::Running(t) ==> ({
                    let p = s.program_counter as int;
                    &&& t.status == s.status & 0xFE
                    &&& t.register_a == s.register_a
                    &&& t.register_x == s.register_x
                    &&& t.register_y == s.register_y
                    &&& t.stack_pointer == s.stack_pointer
                    &&& t.memory == s.memory
                    &&& t.program_counter == p + 1
                })),
{
    broadcast use lemma_zero_negative_bits, lemma_carry_zero_negative_bits, lemma_arithmetic_bits;
    assert(!1u8 == 0xFEu8 && !4u8 == 0xFBu8 && !8u8 == 0xF7u8 && !64u8 == 0xBFu8) by (bit_vector);
}

/// `CLD`: clears decimal mode.
/// Stated for the instruction at the program counter, by its opcode byte.
#[verifier::rlimit(100)]
#[verifier::spinoff_prover]
pub proof fn lemma_step_cld(s: CpuState)
    requires
        s.wf(),
        in_memory(s.program_counter as int),
    ensures
        s.read(s.program_counter as int) == 0xd8 ==> s.step() is Running,
        s.read(s.program_counter as int) == 0xd8 ==> (s.step() matches Step::Running(t) ==> ({
                    let p = s.program_counter as int;
                    &&& t.status == s.status & 0xF7
                    &&& t.register_a == s.register_a
                    &&& t.register_x == s.register_x
                    &&& t.register_y == s.register_y
                    &&& t.stack_pointer == s.stack_pointer
                    &&& t.memory == s.memory
                    &&& t.program_counter == p + 1
                })),
{
    broadcast use lemma_zero_negative_bits, lemma_carry_zero_negative_bits, lemma_arithmetic_bits;
    assert(!1u8 == 0xFEu8 && !4u8 == 0xFBu8 && !8u8 == 0xF7u8 && !64u8 == 0xBFu8) by (bit_vector);
}

/// `CLI`: clears interrupt disable.
/// Stated for the instruction at the program counter, by its opcode byte.
#[verifier::rlimit(100)]
#[verifier::spinoff_prover]
pub proof fn lemma_step_cli(s: CpuState)
    requires
        s.wf(),
        in_memory(s.program_counter as int),
    ensures
        s.read(s.program_counter as int) == 0x58 ==> s.step() is Running,
        s.read(s.program_counter as int) == 0x58 ==> (s.step() matches Step::Running(t) ==> ({
                    let p = s.program_counter as int;
                    &&& t.status == s.status & 0xFB
                    &&& t.register_a == s.register_a
                    &&& t.register_x == s.register_x
                    &&& t.register_y == s.register_y
                    &&& t.stack_pointer == s.stack_pointer
                    &&& t.memory == s.memory
                    &&& t.program_counter == p + 1
                })),
{
    broadcast use lemma_zero_negative_bits, lemma_carry_zero_negative_bits, lemma_arithmetic_bits;
    assert(!1u8 == 0xFEu8 && !4u8 == 0xFBu8 && !8u8 == 0xF7u8 && !64u8 == 0xBFu8) by (bit_vector);
}

/// `CLV`: clears the overflow.
/// Stated for the instruction at the program counter, by its opcode byte.
#[verifier::rlimit(100)]
#[verifier::spinoff_prover]
pub proof fn lemma_step_clv(s: CpuState)
    requires
        s.wf(),
        in_memory(s.program_counter as int),
    ensures
        s.read(s.program_counter as int) == 0xb8 ==> s.step() is Running,
        s.read(s.program_counter as int) == 0xb8 ==> (s.step() matches Step::Running(t) ==> ({
                    let p = s.program_counter as int;
                    &&& t.status == s.status & 0xBF
                    &&& t.register_a == s.register_a
                    &&& t.register_x == s.register_x
                    &&& t.register_y == s.register_y
                    &&& t.stack_pointer == s.stack_pointer
                    &&& t.memory == s.memory
                    &&& t.program_counter == p + 1
                })),
{
    broadcast use lemma_zero_negative_bits, lemma_carry_zero_negative_bits, lemma_arithmetic_bits;
    assert(!1u8 == 0xFEu8 && !4u8 == 0xFBu8 && !8u8 == 0xF7u8 && !64u8 == 0xBFu8) by (bit_vector);
}

/// `SEC`: sets the carry.
/// Stated for the instruction at the program counter, by its opcode byte.
#[verifier::rlimit(100)]
#[verifier::spinoff_prover]
pub proof fn lemma_step_sec(s: CpuState)
    requires
        s.wf(),
        in_memory(s.program_counter as int),
    ensures
        s.read(s.program_counter as int) == 0x38 ==> s.step() is Running,
        s.read(s.program_counter as int) == 0x38 ==> (s.step() matches Step::Running(t) ==> ({
                    let p = s.program_counter as int;
                    &&& t.status == s.status | 0x01
                    &&& t.register_a == s.register_a
                    &&& t.register_x == s.register_x
                    &&& t.register_y == s.register_y
                    &&& t.stack_pointer == s.stack_pointer
                    &&& t.memory == s.memory
                    &&& t.program_counter == p + 1
                })),
{
    broadcast use lemma_zero_negative_bits, lemma_carry_zero_negative_bits, lemma_arithmetic_bits;
}

/// `SED`: sets decimal mode.
/// Stated for the instruction at the program counter, by its opcode byte.
#[verifier::rlimit(100)]
#[verifier::spinoff_prover]
pub proof fn lemma_step_sed(s: CpuState)
    requires
        s.wf(),
        in_memory(s.program_counter as int),
    ensures
        s.read(s.program_counter as int) == 0xf8 ==> s.step() is Running,
        s.read(s.program_counter as int) == 0xf8 ==> (s.step() matches Step::Running(t) ==> ({
                    let p = s.program_counter as int;
                    &&& t.status == s.status | 0x08
                    &&& t.register_a == s.register_a
                    &&& t.register_x == s.register_x
                    &&& t.register_y == s.register_y
                    &&& t.stack_pointer == s.stack_pointer
                    &&& t.memory == s.memory
                    &&& t.program_counter == p + 1
                })),
{
    broadcast use lemma_zero_negative_bits, lemma_carry_zero_negative_bits, lemma_arithmetic_bits;
}

/// `SEI`: sets interrupt disable.
/// Stated for the instruction at the program counter, by its opcode byte.
#[verifier::rlimit(100)]
#[verifier::spinoff_prover]
pub proof fn lemma_step_sei(s: CpuState)
    requires
        s.wf(),
        in_memory(s.program_counter as int),
    ensures
        s.read(s.program_counter as int) == 0x78 ==> s.step() is Running,
        s.read(s.program_counter as int) == 0x78 ==> (s.step() matches Step::Running(t) ==> ({
                    let p = s.program_counter as int;
                    &&& t.status == s.status | 0x04
                    &&& t.register_a == s.register_a
                    &&& t.register_x == s.register_x
                    &&& t.register_y == s.register_y
                    &&& t.stack_pointer == s.stack_pointer
                    &&& t.memory == s.memory
                    &&& t.program_counter == p + 1
                })),
{
    broadcast use lemma_zero_negative_bits, lemma_carry_zero_negative_bits, lemma_arithmetic_bits;
}

/// `NOP`: changes nothing but the program counter.
/// Stated for the instruction at the program counter, by its opcode byte.
#[verifier::rlimit(100)]
#[verifier::spinoff_prover]
pub proof fn lemma_step_nop(s: CpuState)
    requires
        s.wf(),
        in_memory(s.program_counter as int),
    ensures
        s.read(s.program_counter as int) == 0xea ==> s.step() is Running,
        s.read(s.program_counter as int) == 0xea ==> (s.step() matches Step::Running(t) ==> ({
                    let p = s.program_counter as int;
                    &&& t.register_a == s.register_a
                    &&& t.register_x == s.register_x
                    &&& t.register_y == s.register_y
                    &&& t.status == s.status
                    &&& t.stack_pointer == s.stack_pointer
                    &&& t.memory == s.memory
                    &&& t.program_counter == p + 1
                })),
{
    broadcast use lemma_zero_negative_bits, lemma_carry_zero_negative_bits, lemma_arithmetic_bits;
}

/// `PHA`: writes A at `0x0100 + SP` and moves `SP` down.
/// Stated for the instruction at the program counter, by its opcode byte.
#[verifier::rlimit(100)]
#[verifier::spinoff_prover]
pub proof fn lemma_step_pha(s: CpuState)
    requires
        s.wf(),
        in_memory(s.program_counter as int),
    ensures
        s.read(s.program_counter as int) == 0x48 ==> s.step() is Running,
        s.read(s.program_counter as int) == 0x48 ==> (s.step() matches Step::Running(t) ==> ({
                    let p = s.program_counter as int;
                    &&& t.memory == s.memory.update(0x100 + s.stack_pointer, s.register_a)
                    &&& t.stack_pointer == (s.stack_pointer + 255) % 256
                    &&& t.register_a == s.register_a
                    &&& t.register_x == s.register_x
                    &&& t.register_y == s.register_y
                    &&& t.status == s.status
                    &&& t.program_counter == p + 1
                })),
{
    broadcast use lemma_zero_negative_bits, lemma_carry_zero_negative_bits, lemma_arithmetic_bits;
}

/// `PHP`: writes the status, break bit clear and bit 5 set, at `0x0100 + SP` and moves `SP` down.
/// Stated for the instruction at the program counter, by its opcode byte.
#[verifier::rlimit(100)]
#[verifier::spinoff_prover]
pub proof fn lemma_step_php(s: CpuState)
    requires
        s.wf(),
        in_memory(s.program_counter as int),
    ensures
        s.read(s.program_counter as int) == 0x08 ==> s.step() is Running,
        s.read(s.program_counter as int) == 0x08 ==> (s.step() matches Step::Running(t) ==> ({
                    let p = s.program_counter as int;
                    &&& t.memory == s.memory.update(0x100 + s.stack_pointer, (s.status & 0xEF) | 0x20)
                    &&& t.stack_pointer == (s.stack_pointer + 255) % 256
                    &&& t.register_a == s.register_a
                    &&& t.register_x == s.register_x
                    &&& t.register_y == s.register_y
                    &&& t.status == s.status
                    &&& t.program_counter == p + 1
                })),
{
    broadcast use lemma_zero_negative_bits, lemma_carry_zero_negative_bits, lemma_arithmetic_bits;
    assert(!16u8 == 0xEFu8) by (bit_vector);
}

/// `PLA`: moves `SP` up and reads A at `0x0100 + SP`.
/// Stated for the instruction at the program counter, by its opcode byte.
#[verifier::rlimit(100)]
#[verifier::spinoff_prover]
pub proof fn lemma_step_pla(s: CpuState)
    requires
        s.wf(),
        in_memory(s.program_counter as int),
    ensures
        s.read(s.program_counter as int) == 0x68 ==> s.step() is Running,
        s.read(s.program_counter as int) == 0x68 ==> (s.step() matches Step::Running(t) ==> ({
                    let p = s.program_counter as int;
                    let sp1 = (s.stack_pointer + 1) % 256;
                    &&& t.register_a == s.memory[0x100 + sp1]
                    &&& t.stack_pointer == sp1
                    &&& zero_negative(t.status, t.register_a as int)
                    &&& kept(s.status, t.status, 0x7D)
                    &&& t.register_x == s.register_x
                    &&& t.register_y == s.register_y
                    &&& t.memory == s.memory
                    &&& t.program_counter == p + 1
                })),
{
    broadcast use lemma_zero_negative_bits, lemma_carry_zero_negative_bits, lemma_arithmetic_bits;
}

/// `PLP`: moves `SP` up and reads the status at `0x0100 + SP`, break bit set.
/// Stated for the instruction at the program counter, by its opcode byte.
#[verifier::rlimit(100)]
#[verifier::spinoff_prover]
pub proof fn lemma_step_plp(s: CpuState)
    requires
        s.wf(),
        in_memory(s.program_counter as int),
    ensures
        s.read(s.program_counter as int) == 0x28 ==> s.step() is Running,
        s.read(s.program_counter as int) == 0x28 ==> (s.step() matches Step::Running(t) ==> ({
                    let p = s.program_counter as int;
                    let sp1 = (s.stack_pointer + 1) % 256;
                    &&& t.status == s.memory[0x100 + sp1] | 0x10
                    &&& t.stack_pointer == sp1
                    &&& t.register_a == s.register_a
                    &&& t.register_x == s.register_x
                    &&& t.register_y == s.register_y
                    &&& t.memory == s.memory
                    &&& t.program_counter == p + 1
                })),
{
    broadcast use lemma_zero_negative_bits, lemma_carry_zero_negative_bits, lemma_arithmetic_bits;
}

/// `JMP`: the program counter receives the absolute address.
/// Stated for the instruction at the program counter, by its opcode byte.
#[verifier::rlimit(100)]
#[verifier::spinoff_prover]
pub proof fn lemma_step_jmp(s: CpuState)
    requires
        s.wf(),
        in_memory(s.program_counter as int),
    ensures
        s.read(s.program_counter as int) == 0x4c && (s.program_counter + 3 <= 0xFFFF) ==> s.step() is Running,
        s.read(s.program_counter as int) == 0x4c ==> (s.step() matches Step::Running(t) ==> ({
                    let p = s.program_counter as int;
                    &&& t.program_counter == landing(p, 3, s.memory[p + 1] + 256 * s.memory[p + 2])
                    &&& t.register_a == s.register_a
                    &&& t.register_x == s.register_x
                    &&& t.register_y == s.register_y
                    &&& t.status == s.status
                    &&& t.stack_pointer == s.stack_pointer
                    &&& t.memory == s.memory
                })),
{
    broadcast use lemma_zero_negative_bits, lemma_carry_zero_negative_bits, lemma_arithmetic_bits;
}

/// `JMP` indirect: the program counter receives the word at the pointer; a pointer at the end of a page takes its high byte from the start of that page.
/// Stated for the instruction at the program counter, by its opcode byte.
#[verifier::rlimit(100)]
#[verifier::spinoff_prover]
pub proof fn lemma_step_jmp_indirect(s: CpuState)
    requires
        s.wf(),
        in_memory(s.program_counter as int),
    ensures
        s.read(s.program_counter as int) == 0x6c && (s.program_counter + 3 <= 0xFFFF && if s.memory[s.program_counter + 1] == 0xFF { (s.memory[s.program_counter + 1] + 256 * s.memory[s.program_counter + 2]) < 0xFFFF } else { (s.memory[s.program_counter + 1] + 256 * s.memory[s.program_counter + 2]) + 1 < 0xFFFF }) ==> s.step() is Running,
        s.read(s.program_counter as int) == 0x6c ==> (s.step() matches Step::Running(t) ==> ({
                    let p = s.program_counter as int;
                    let ptr = s.memory[p + 1] + 256 * s.memory[p + 2];
                    &&& t.program_counter == landing(p, 3, s.memory[ptr] + 256 * s.memory[if s.memory[p + 1] == 0xFF { ptr - 255 } else { ptr + 1 }])
                    &&& t.register_a == s.register_a
                    &&& t.register_x == s.register_x
                    &&& t.register_y == s.register_y
                    &&& t.status == s.status
                    &&& t.stack_pointer == s.stack_pointer
                    &&& t.memory == s.memory
                })),
{
    broadcast use lemma_zero_negative_bits, lemma_carry_zero_negative_bits, lemma_arithmetic_bits;
}

/// `JSR`: pushes the address of the instruction's last byte, high byte first, then jumps.
/// Stated for the instruction at the program counter, by its opcode byte.
#[verifier::rlimit(100)]
#[verifier::spinoff_prover]
pub proof fn lemma_step_jsr(s: CpuState)
    requires
        s.wf(),
        in_memory(s.program_counter as int),
    ensures
        s.read(s.program_counter as int) == 0x20 && (s.program_counter + 3 <= 0xFFFF) ==> s.step() is Running,
        s.read(s.program_counter as int) == 0x20 ==> (s.step() matches Step::Running(t) ==> ({
                    let p = s.program_counter as int;
                    let sp = s.stack_pointer as int;
                    &&& t.memory == s.memory.update(0x100 + sp, ((p + 2) / 256) as u8).update(0x100 + (sp + 255) % 256, ((p + 2) % 256) as u8)
                    &&& t.stack_pointer == (sp + 254) % 256
                    &&& t.program_counter == landing(p, 3, t.memory[p + 1] + 256 * t.memory[p + 2])
                    &&& t.register_a == s.register_a
                    &&& t.register_x == s.register_x
                    &&& t.register_y == s.register_y
                    &&& t.status == s.status
                })),
{
    broadcast use lemma_zero_negative_bits, lemma_carry_zero_negative_bits, lemma_arithmetic_bits;
}

/// `RTS`: pulls a word, low byte first, and continues one past it.
/// Stated for the instruction at the program counter, by its opcode byte.
#[verifier::rlimit(100)]
#[verifier::spinoff_prover]
pub proof fn lemma_step_rts(s: CpuState)
    requires
        s.wf(),
        in_memory(s.program_counter as int),
    ensures
        s.read(s.program_counter as int) == 0x60 && (s.memory[0x100 + (s.stack_pointer + 1) % 256] + 256 * s.memory[0x100 + (s.stack_pointer + 2) % 256] < 0xFFFF) ==> s.step() is Running,
        s.read(s.program_counter as int) == 0x60 ==> (s.step() matches Step::Running(t) ==> ({
                    let p = s.program_counter as int;
                    let sp1 = (s.stack_pointer + 1) % 256;
                    let sp2 = (s.stack_pointer + 2) % 256;
                    &&& t.program_counter == landing(p, 1, s.memory[0x100 + sp1] + 256 * s.memory[0x100 + sp2] + 1)
                    &&& t.stack_pointer == sp2
                    &&& t.register_a == s.register_a
                    &&& t.register_x == s.register_x
                    &&& t.register_y == s.register_y
                    &&& t.status == s.status
                    &&& t.memory == s.memory
                })),
{
    broadcast use lemma_zero_negative_bits, lemma_carry_zero_negative_bits, lemma_arithmetic_bits;
}

/// `RTI`: pulls the status (break bit clear, bit 5 set), then the program counter.
/// Stated for the instruction at the program counter, by its opcode byte.
#[verifier::rlimit(100)]
#[verifier::spinoff_prover]
pub proof fn lemma_step_rti(s: CpuState)
    requires
        s.wf(),
        in_memory(s.program_counter as int),
    ensures
        s.read(s.program_counter as int) == 0x40 ==> s.step() is Running,
        s.read(s.program_counter as int) == 0x40 ==> (s.step() matches Step::Running(t) ==> ({
                    let p = s.program_counter as int;
                    let sp1 = (s.stack_pointer + 1) % 256;
                    let sp2 = (s.stack_pointer + 2) % 256;
                    let sp3 = (s.stack_pointer + 3) % 256;
                    &&& t.status == (s.memory[0x100 + sp1] & 0xEF) | 0x20
                    &&& t.program_counter == landing(p, 1, s.memory[0x100 + sp2] + 256 * s.memory[0x100 + sp3])
                    &&& t.stack_pointer == sp3
                    &&& t.register_a == s.register_a
                    &&& t.register_x == s.register_x
                    &&& t.register_y == s.register_y
                    &&& t.memory == s.memory
                })),
{
    broadcast use lemma_zero_negative_bits, lemma_carry_zero_negative_bits, lemma_arithmetic_bits;
    assert(!16u8 == 0xEFu8) by (bit_vector);
}

/// `BNE`: taken exactly when the zero flag is clear.
/// Stated for the instruction at the program counter, by its opcode byte.
#[verifier::rlimit(100)]
#[verifier::spinoff_prover]
pub proof fn lemma_step_bne(s: CpuState)
    requires
        s.wf(),
        in_memory(s.program_counter as int),
    ensures
        s.read(s.program_counter as int) == 0xd0 && (s.program_counter + 2 <= 0xFFFF) ==> s.step() is Running,
        s.read(s.program_counter as int) == 0xd0 ==> (s.step() matches Step::Running(t) ==> ({
                    let p = s.program_counter as int;
                    &&& t.program_counter == landing(p, 2, if s.status & 0x02 == 0 { (p + 2 + offset(s.memory[p + 1])) % 65536 } else { p + 1 })
                    &&& t.register_a == s.register_a
                    &&& t.register_x == s.register_x
                    &&& t.register_y == s.register_y
                    &&& t.status == s.status
                    &&& t.stack_pointer == s.stack_pointer
                    &&& t.memory == s.memory
                })),
{
    broadcast use lemma_zero_negative_bits, lemma_carry_zero_negative_bits, lemma_arithmetic_bits;
}

/// `BEQ`: taken exactly when the zero flag is set.
/// Stated for the instruction at the program counter, by its opcode byte.
#[verifier::rlimit(100)]
#[verifier::spinoff_prover]
pub proof fn lemma_step_beq(s: CpuState)
    requires
        s.wf(),
        in_memory(s.program_counter as int),
    ensures
        s.read(s.program_counter as int) == 0xf0 && (s.program_counter + 2 <= 0xFFFF) ==> s.step() is Running,
        s.read(s.program_counter as int) == 0xf0 ==> (s.step() matches Step::Running(t) ==> ({
                    let p = s.program_counter as int;
                    &&& t.program_counter == landing(p, 2, if s.status & 0x02 != 0 { (p + 2 + offset(s.memory[p + 1])) % 65536 } else { p + 1 })
                    &&& t.register_a == s.register_a
                    &&& t.register_x == s.register_x
                    &&& t.register_y == s.register_y
                    &&& t.status == s.status
                    &&& t.stack_pointer == s.stack_pointer
                    &&& t.memory == s.memory
                })),
{
    broadcast use lemma_zero_negative_bits, lemma_carry_zero_negative_bits, lemma_arithmetic_bits;
}

/// `BVS`: taken exactly when the overflow flag is set.
/// Stated for the instruction at the program counter, by its opcode byte.
#[verifier::rlimit(100)]
#[verifier::spinoff_prover]
pub proof fn lemma_step_bvs(s: CpuState)
    requires
        s.wf(),
        in_memory(s.program_counter as int),
    ensures
        s.read(s.program_counter as int) == 0x70 && (s.program_counter + 2 <= 0xFFFF) ==> s.step() is Running,
        s.read(s.program_counter as int) == 0x70 ==> (s.step() matches Step::Running(t) ==> ({
                    let p = s.program_counter as int;
                    &&& t.program_counter == landing(p, 2, if s.status & 0x40 != 0 { (p + 2 + offset(s.memory[p + 1])) % 65536 } else { p + 1 })
                    &&& t.register_a == s.register_a
                    &&& t.register_x == s.register_x
                    &&& t.register_y == s.register_y
                    &&& t.status == s.status
                    &&& t.stack_pointer == s.stack_pointer
                    &&& t.memory == s.memory
                })),
{
    broadcast use lemma_zero_negative_bits, lemma_carry_zero_negative_bits, lemma_arithmetic_bits;
}

/// `BVC`: taken exactly when the overflow flag is clear.
/// Stated for the instruction at the program counter, by its opcode byte.
#[verifier::rlimit(100)]
#[verifier::spinoff_prover]
pub proof fn lemma_step_bvc(s: CpuState)
    requires
        s.wf(),
        in_memory(s.program_counter as int),
    ensures
        s.read(s.program_counter as int) == 0x50 && (s.program_counter + 2 <= 0xFFFF) ==> s.step() is Running,
        s.read(s.program_counter as int) == 0x50 ==> (s.step() matches Step::Running(t) ==> ({
                    let p = s.program_counter as int;
                    &&& t.program_counter == landing(p, 2, if s.status & 0x40 == 0 { (p + 2 + offset(s.memory[p + 1])) % 65536 } else { p + 1 })
                    &&& t.register_a == s.register_a
                    &&& t.register_x == s.register_x
                    &&& t.register_y == s.register_y
                    &&& t.status == s.status
                    &&& t.stack_pointer == s.stack_pointer
                    &&& t.memory == s.memory
                })),
{
    broadcast use lemma_zero_negative_bits, lemma_carry_zero_negative_bits, lemma_arithmetic_bits;
}

/// `BPL`: taken exactly when the negative flag is clear.
/// Stated for the instruction at the program counter, by its opcode byte.
#[verifier::rlimit(100)]
#[verifier::spinoff_prover]
pub proof fn lemma_step_bpl(s: CpuState)
    requires
        s.wf(),
        in_memory(s.program_counter as int),
    ensures
        s.read(s.program_counter as int) == 0x10 && (s.program_counter + 2 <= 0xFFFF) ==> s.step() is Running,
        s.read(s.program_counter as int) == 0x10 ==> (s.step() matches Step::Running(t) ==> ({
                    let p = s.program_counter as int;
                    &&& t.program_counter == landing(p, 2, if s.status & 0x80 == 0 { (p + 2 + offset(s.memory[p + 1])) % 65536 } else { p + 1 })
                    &&& t.register_a == s.register_a
                    &&& t.register_x == s.register_x
                    &&& t.register_y == s.register_y
                    &&& t.status == s.status
                    &&& t.stack_pointer == s.stack_pointer
                    &&& t.memory == s.memory
                })),
{
    broadcast use lemma_zero_negative_bits, lemma_carry_zero_negative_bits, lemma_arithmetic_bits;
}

/// `BMI`: taken exactly when the negative flag is set.
/// Stated for the instruction at the program counter, by its opcode byte.
#[verifier::rlimit(100)]
#[verifier::spinoff_prover]
pub proof fn lemma_step_bmi(s: CpuState)
    requires
        s.wf(),
        in_memory(s.program_counter as int),
    ensures
        s.read(s.program_counter as int) == 0x30 && (s.program_counter + 2 <= 0xFFFF) ==> s.step() is Running,
        s.read(s.program_counter as int) == 0x30 ==> (s.step() matches Step::Running(t) ==> ({
                    let p = s.program_counter as int;
                    &&& t.program_counter == landing(p, 2, if s.status & 0x80 != 0 { (p + 2 + offset(s.memory[p + 1])) % 65536 } else { p + 1 })
                    &&& t.register_a == s.register_a
                    &&& t.register_x == s.register_x
                    &&& t.register_y == s.register_y
                    &&& t.status == s.status
                    &&& t.stack_pointer == s.stack_pointer
                    &&& t.memory == s.memory
                })),
{
    broadcast use lemma_zero_negative_bits, lemma_carry_zero_negative_bits, lemma_arithmetic_bits;
}

/// `BCS`: taken exactly when the carry is set.
/// Stated for the instruction at the program counter, by its opcode byte.
#[verifier::rlimit(100)]
#[verifier::spinoff_prover]
pub proof fn lemma_step_bcs(s: CpuState)
    requires
        s.wf(),
        in_memory(s.program_counter as int),
    ensures
        s.read(s.program_counter as int) == 0xb0 && (s.program_counter + 2 <= 0xFFFF) ==> s.step() is Running,
        s.read(s.program_counter as int) == 0xb0 ==> (s.step() matches Step::Running(t) ==> ({
                    let p = s.program_counter as int;
                    &&& t.program_counter == landing(p, 2, if s.status & 0x01 != 0 { (p + 2 + offset(s.memory[p + 1])) % 65536 } else { p + 1 })
                    &&& t.register_a == s.register_a
                    &&& t.register_x == s.register_x
                    &&& t.register_y == s.register_y
                    &&& t.status == s.status
                    &&& t.stack_pointer == s.stack_pointer
                    &&& t.memory == s.memory
                })),
{
    broadcast use lemma_zero_negative_bits, lemma_carry_zero_negative_bits, lemma_arithmetic_bits;
}

/// `BCC`: taken exactly when the carry is clear.
/// Stated for the instruction at the program counter, by its opcode byte.
#[verifier::rlimit(100)]
#[verifier::spinoff_prover]
pub proof fn lemma_step_bcc(s: CpuState)
    requires
        s.wf(),
        in_memory(s.program_counter as int),
    ensures
        s.read(s.program_counter as int) == 0x90 && (s.program_counter + 2 <= 0xFFFF) ==> s.step() is Running,
        s.read(s.program_counter as int) == 0x90 ==> (s.step() matches Step::Running(t) ==> ({
                    let p = s.program_counter as int;
                    &&& t.program_counter == landing(p, 2, if s.status & 0x01 == 0 { (p + 2 + offset(s.memory[p + 1])) % 65536 } else { p + 1 })
                    &&& t.register_a == s.register_a
                    &&& t.register_x == s.register_x
                    &&& t.register_y == s.register_y
                    &&& t.status == s.status
                    &&& t.stack_pointer == s.stack_pointer
                    &&& t.memory == s.memory
                })),
{
    broadcast use lemma_zero_negative_bits, lemma_carry_zero_negative_bits, lemma_arithmetic_bits;
}

} // verus!
