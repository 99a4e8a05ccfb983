use vstd::prelude::*;

use crate::flags::{CpuFlags, has_flag};
use crate::opcodes::{AddressingMode, Mnemonic, OpCode, opcode_table};
use crate::state::{
    CpuState,
    byte,
    word,
    word16,
    signed,
    in_memory,
    in_memory_u16,
    with_zero_negative,
    MEMORY_SIZE,
    RESET_VECTOR,
    PROGRAM_START,
    STACK_RESET,
};

verus! {

/// Arithmetic shift left: the carry out and the shifted byte.
pub open spec fn asl_value(v: u8) -> (bool, u8) {
    (v >= 128, byte(2 * v))
}

/// Logical shift right: the carry out and the shifted byte.
pub open spec fn lsr_value(v: u8) -> (bool, u8) {
    (v % 2 == 1, v / 2)
}

/// Rotate left through the carry `c` (0 or 1).
pub open spec fn rol_value(v: u8, c: int) -> (bool, u8) {
    (v >= 128, byte(2 * v + c))
}

/// Rotate right through the carry `c` (0 or 1).
pub open spec fn ror_value(v: u8, c: int) -> (bool, u8) {
    (v % 2 == 1, (v / 2 + 128 * c) as u8)
}

/// What one instruction does.
pub enum Step {
    /// `BRK` was fetched: the emulator stops in this state.
    Halted(CpuState),
    /// An instruction was executed; execution goes on from this state.
    Running(CpuState),
    /// The instruction cannot be executed: an unknown opcode, an access
    /// outside memory, or a program counter that leaves the 16-bit range.
    Fault,
}

impl CpuState {
    /// `ADC`: adds `v` and the carry to the accumulator. The carry tells whether
    /// the unsigned sum left the byte range, the overflow whether the signed sum
    /// left `-128..=127`.
    pub open spec fn add_with_carry(self, v: u8) -> CpuState {
        let sum = self.register_a + v + self.carry();
        let signed_sum = signed(self.register_a) + signed(v) + self.carry();
        self.with_flag(CpuFlags::CARRY, sum > 255).with_flag(
            CpuFlags::OVERFLOW,
            signed_sum < -128 || signed_sum > 127,
        ).load_a(byte(sum))
    }

    /// `SBC`: subtracts `v` and the borrow (the clear carry) from the
    /// accumulator. The carry tells that no borrow out occurred, the overflow
    /// whether the signed difference left `-128..=127`.
    pub open spec fn subtract_with_borrow(self, v: u8) -> CpuState {
        let diff = self.register_a - v - (1 - self.carry());
        let signed_diff = signed(self.register_a) - signed(v) - (1 - self.carry());
        self.with_flag(CpuFlags::CARRY, diff >= 0).with_flag(
            CpuFlags::OVERFLOW,
            signed_diff < -128 || signed_diff > 127,
        ).load_a(byte(diff))
    }

    /// A shift or rotation of the accumulator.
    pub open spec fn shift_accumulator(self, shifted: (bool, u8)) -> CpuState {
        self.with_flag(CpuFlags::CARRY, shifted.0).load_a(shifted.1)
    }

    /// A shift or rotation of the byte at `addr`.
    pub open spec fn shift_memory(self, addr: int, shifted: (bool, u8)) -> CpuState {
        self.with_flag(CpuFlags::CARRY, shifted.0).store_result(addr, shifted.1)
    }

    /// The carry out and result of shift or rotation `m` applied to `v`.
    pub open spec fn shifted(self, m: Mnemonic, v: u8) -> (bool, u8) {
        match m {
            Mnemonic::Asl => asl_value(v),
            Mnemonic::Lsr => lsr_value(v),
            Mnemonic::Rol => rol_value(v, self.carry()),
            _ => ror_value(v, self.carry()),
        }
    }

    /// A shift or rotation: of the accumulator in `NoneAddressing`, of the
    /// operand in memory otherwise.
    pub open spec fn shift(self, m: Mnemonic, mode: AddressingMode) -> CpuState {
        if mode == AddressingMode::NoneAddressing {
            self.shift_accumulator(self.shifted(m, self.register_a))
        } else {
            let addr = self.operand_address(mode) as int;
            self.shift_memory(addr, self.shifted(m, self.read(addr)))
        }
    }

    /// `BIT`: the zero flag tells whether the accumulator and the operand share
    /// no bit; bits 7 and 6 of the operand set the negative and overflow flags
    /// (when they are clear, those flags keep their value).
    pub open spec fn bit_test(self, mode: AddressingMode) -> CpuState {
        let v = self.operand(mode);
        let s = self.with_flag(CpuFlags::ZERO, self.register_a & v == 0);
        let s = if v & 0b1000_0000 != 0 {
            s.with_flag(CpuFlags::NEGATIVE, true)
        } else {
            s
        };
        if v & 0b0100_0000 != 0 {
            s.with_flag(CpuFlags::OVERFLOW, true)
        } else {
            s
        }
    }

    /// `CMP`, `CPX`, `CPY`: the carry tells whether `reg >= operand`; zero and
    /// negative come from `reg - operand` reduced to a byte.
    pub open spec fn compare(self, mode: AddressingMode, reg: u8) -> CpuState {
        let v = self.operand(mode);
        let s = self.with_flag(CpuFlags::CARRY, v <= reg);
        s.with_status(with_zero_negative(s.status, byte(reg - v)))
    }

    /// Whether the branch `m` is taken.
    pub open spec fn branch_taken(self, m: Mnemonic) -> bool {
        match m {
            Mnemonic::Bne => !has_flag(self.status, CpuFlags::ZERO),
            Mnemonic::Bvs => has_flag(self.status, CpuFlags::OVERFLOW),
            Mnemonic::Bvc => !has_flag(self.status, CpuFlags::OVERFLOW),
            Mnemonic::Bpl => !has_flag(self.status, CpuFlags::NEGATIVE),
            Mnemonic::Bmi => has_flag(self.status, CpuFlags::NEGATIVE),
            Mnemonic::Beq => has_flag(self.status, CpuFlags::ZERO),
            Mnemonic::Bcs => has_flag(self.status, CpuFlags::CARRY),
            Mnemonic::Bcc => !has_flag(self.status, CpuFlags::CARRY),
            _ => false,
        }
    }

    /// A relative branch: when `taken`, the signed offset at the program counter
    /// is added to the address of the next instruction.
    pub open spec fn branch(self, taken: bool) -> CpuState {
        if taken {
            let pc = self.program_counter as int;
            self.with_pc(word16(pc + 1 + signed(self.read(pc))))
        } else {
            self
        }
    }

    /// Target of `JMP` through the pointer at the program counter. A pointer at
    /// the last byte of a page takes its high byte from the start of that page.
    pub open spec fn indirect_target(self) -> u16 {
        let ptr = self.read_u16(self.program_counter as int) as int;
        if ptr % 256 == 255 {
            word(self.read(ptr), self.read(ptr - 255))
        } else {
            self.read_u16(ptr)
        }
    }

    /// `PHP`: pushes the status with the break bit clear and bit 5 set.
    pub open spec fn push_status(self) -> CpuState {
        self.push((self.status & !CpuFlags::BREAK) | CpuFlags::BREAK2)
    }

    /// `PLP`: pulls the status and sets the break bit.
    pub open spec fn pull_status(self) -> CpuState {
        let (s, v) = self.pop();
        s.with_status(v | CpuFlags::BREAK)
    }

    /// `RTI`: pulls the status (break bit clear, bit 5 set), then the
    /// program counter.
    pub open spec fn return_from_interrupt(self) -> CpuState {
        let (s1, v) = self.pop();
        let s2 = s1.with_status((v & !CpuFlags::BREAK) | CpuFlags::BREAK2);
        let (s3, pc) = s2.pop_u16();
        s3.with_pc(pc)
    }

    /// Whether `op` can be executed from this state, the program counter
    /// pointing past the opcode byte.
    pub open spec fn can_execute(self, op: OpCode) -> bool {
        let pc = self.program_counter as int;
        match op.mnemonic {
            Mnemonic::Lda | Mnemonic::Ldx | Mnemonic::Ldy | Mnemonic::Sta | Mnemonic::Stx
            | Mnemonic::Sty | Mnemonic::Adc | Mnemonic::Sbc | Mnemonic::And | Mnemonic::Eor
            | Mnemonic::Ora | Mnemonic::Cmp | Mnemonic::Cpx | Mnemonic::Cpy | Mnemonic::Bit
            | Mnemonic::Inc | Mnemonic::Dec => self.operand_ok(op.mode),
            Mnemonic::Asl | Mnemonic::Lsr | Mnemonic::Rol | Mnemonic::Ror => op.mode
                == AddressingMode::NoneAddressing || self.operand_ok(op.mode),
            Mnemonic::Jmp | Mnemonic::Jsr => in_memory_u16(pc),
            Mnemonic::JmpIndirect => in_memory_u16(pc) && {
                let ptr = self.read_u16(pc) as int;
                if ptr % 256 == 255 {
                    in_memory(ptr)
                } else {
                    in_memory_u16(ptr)
                }
            },
            Mnemonic::Rts => self.pop_u16().1 < 0xFFFF,
            Mnemonic::Bne | Mnemonic::Bvs | Mnemonic::Bvc | Mnemonic::Bpl | Mnemonic::Bmi
            | Mnemonic::Beq | Mnemonic::Bcs | Mnemonic::Bcc => self.branch_taken(op.mnemonic)
                ==> in_memory(pc),
            _ => true,
        }
    }

    /// The effect of `op`, the program counter pointing past the opcode byte.
    pub open spec fn execute(self, op: OpCode) -> CpuState {
        let pc = self.program_counter as int;
        let mode = op.mode;
        match op.mnemonic {
            Mnemonic::Brk | Mnemonic::Nop => self,
            Mnemonic::Lda => self.load_a(self.operand(mode)),
            Mnemonic::Ldx => self.load_x(self.operand(mode)),
            Mnemonic::Ldy => self.load_y(self.operand(mode)),
            Mnemonic::Sta => self.write(self.operand_address(mode) as int, self.register_a),
            Mnemonic::Stx => self.write(self.operand_address(mode) as int, self.register_x),
            Mnemonic::Sty => self.write(self.operand_address(mode) as int, self.register_y),
            Mnemonic::And => self.load_a(self.operand(mode) & self.register_a),
            Mnemonic::Eor => self.load_a(self.operand(mode) ^ self.register_a),
            Mnemonic::Ora => self.load_a(self.operand(mode) | self.register_a),
            Mnemonic::Adc => self.add_with_carry(self.operand(mode)),
            Mnemonic::Sbc => self.subtract_with_borrow(self.operand(mode)),
            Mnemonic::Asl | Mnemonic::Lsr | Mnemonic::Rol | Mnemonic::Ror => self.shift(
                op.mnemonic,
                mode,
            ),
            Mnemonic::Inc => {
                let addr = self.operand_address(mode) as int;
                self.store_result(addr, byte(self.read(addr) + 1))
            },
            Mnemonic::Dec => {
                let addr = self.operand_address(mode) as int;
                self.store_result(addr, byte(self.read(addr) - 1))
            },
            Mnemonic::Inx => self.load_x(byte(self.register_x + 1)),
            Mnemonic::Iny => self.load_y(byte(self.register_y + 1)),
            Mnemonic::Dex => self.load_x(byte(self.register_x - 1)),
            Mnemonic::Dey => self.load_y(byte(self.register_y - 1)),
            Mnemonic::Cmp => self.compare(mode, self.register_a),
            Mnemonic::Cpx => self.compare(mode, self.register_x),
            Mnemonic::Cpy => self.compare(mode, self.register_y),
            Mnemonic::Jmp => self.with_pc(self.read_u16(pc)),
            Mnemonic::JmpIndirect => self.with_pc(self.indirect_target()),
            Mnemonic::Jsr => {
                let pushed = self.push_u16((pc + 1) as u16);
                pushed.with_pc(pushed.read_u16(pc))
            },
            Mnemonic::Rts => {
                let (s, ret) = self.pop_u16();
                s.with_pc((ret + 1) as u16)
            },
            Mnemonic::Rti => self.return_from_interrupt(),
            Mnemonic::Bne | Mnemonic::Bvs | Mnemonic::Bvc | Mnemonic::Bpl | Mnemonic::Bmi
            | Mnemonic::Beq | Mnemonic::Bcs | Mnemonic::Bcc => self.branch(
                self.branch_taken(op.mnemonic),
            ),
            Mnemonic::Bit => self.bit_test(mode),
            Mnemonic::Cld => self.with_flag(CpuFlags::DECIMAL_MODE, false),
            Mnemonic::Cli => self.with_flag(CpuFlags::INTERRUPT_DISABLE, false),
            Mnemonic::Clv => self.with_flag(CpuFlags::OVERFLOW, false),
            Mnemonic::Clc => self.with_flag(CpuFlags::CARRY, false),
            Mnemonic::Sec => self.with_flag(CpuFlags::CARRY, true),
            Mnemonic::Sei => self.with_flag(CpuFlags::INTERRUPT_DISABLE, true),
            Mnemonic::Sed => self.with_flag(CpuFlags::DECIMAL_MODE, true),
            Mnemonic::Tax => self.load_x(self.register_a),
            Mnemonic::Tay => self.load_y(self.register_a),
            Mnemonic::Tsx => self.load_x(self.stack_pointer),
            Mnemonic::Txa => self.load_a(self.register_x),
            Mnemonic::Tya => self.load_a(self.register_y),
            Mnemonic::Txs => CpuState { stack_pointer: self.register_x, ..self },
            Mnemonic::Pha => self.push(self.register_a),
            Mnemonic::Pla => {
                let (s, v) = self.pop();
                s.load_a(v)
            },
            Mnemonic::Php => self.push_status(),
            Mnemonic::Plp => self.pull_status(),
        }
    }

    /// One fetch-decode-execute step. After an instruction that leaves the
    /// program counter where the fetch put it, the program counter skips the
    /// instruction's operand bytes.
    pub open spec fn step(self) -> Step {
        let pc = self.program_counter as int;
        if !in_memory(pc) {
            Step::Fault
        } else {
            let fetched = self.with_pc((pc + 1) as u16);
            match opcode_table(self.read(pc)) {
                None => Step::Fault,
                Some(op) => if op.mnemonic == Mnemonic::Brk {
                    Step::Halted(fetched)
                } else if !fetched.can_execute(op) {
                    Step::Fault
                } else {
                    let done = fetched.execute(op);
                    let next = fetched.program_counter + op.len - 1;
                    if done.program_counter != fetched.program_counter {
                        Step::Running(done)
                    } else if next > 0xFFFF {
                        Step::Fault
                    } else {
                        Step::Running(done.with_pc(next as u16))
                    }
                },
            }
        }
    }

    /// The state in which execution halts within `fuel` steps, if it does.
    pub open spec fn run_fuel(self, fuel: nat) -> Option<CpuState>
        decreases fuel,
    {
        if fuel == 0 {
            None
        } else {
            match self.step() {
                Step::Halted(s) => Some(s),
                Step::Running(s) => s.run_fuel((fuel - 1) as nat),
                Step::Fault => None,
            }
        }
    }

    /// Execution reaches `BRK` after finitely many steps, none of them faulting.
    pub open spec fn halts(self) -> bool {
        exists|fuel: nat| (#[trigger] self.run_fuel(fuel)) is Some
    }

    /// The state in which execution halts.
    pub open spec fn run_result(self) -> CpuState {
        self.run_fuel(choose|fuel: nat| (#[trigger] self.run_fuel(fuel)) is Some)->Some_0
    }

    /// `reset`: registers cleared, stack pointer reset, program counter read from
    /// the reset vector; memory is untouched.
    pub open spec fn reset(self) -> CpuState {
        CpuState {
            register_a: 0,
            register_x: 0,
            register_y: 0,
            status: 0,
            program_counter: self.read_u16(RESET_VECTOR as int),
            stack_pointer: STACK_RESET,
            memory: self.memory,
        }
    }

    /// `load`: the program is copied to `PROGRAM_START` and the reset vector is
    /// pointed at it; registers are untouched.
    pub open spec fn load(self, program: Seq<u8>) -> CpuState {
        let copied = Seq::new(
            MEMORY_SIZE as nat,
            |i: int|
                if PROGRAM_START <= i < PROGRAM_START + program.len() {
                    program[i - PROGRAM_START]
                } else {
                    self.memory[i]
                },
        );
        CpuState { memory: copied, ..self }.write_u16(RESET_VECTOR as int, PROGRAM_START)
    }

    /// The state `load_and_run` starts running from.
    pub open spec fn boot(self, program: Seq<u8>) -> CpuState {
        self.load(program).with_pc(PROGRAM_START)
    }
}

/// Halting within `n` steps fixes the halting state: any larger fuel gives it too.
pub proof fn lemma_run_fuel_monotone(s: CpuState, n: nat, m: nat)
    requires
        s.run_fuel(n) is Some,
        n <= m,
    ensures
        s.run_fuel(m) == s.run_fuel(n),
    decreases n,
{
    if let Step::Running(t) = s.step() {
        lemma_run_fuel_monotone(t, (n - 1) as nat, (m - 1) as nat);
    }
}

/// Execution is deterministic: the state reached at `BRK` within any fuel is
/// the run result.
pub proof fn lemma_run_result(s: CpuState, n: nat)
    requires
        s.run_fuel(n) is Some,
    ensures
        s.halts(),
        s.run_result() == s.run_fuel(n)->Some_0,
{
    let k = choose|fuel: nat| (#[trigger] s.run_fuel(fuel)) is Some;
    if k <= n {
        lemma_run_fuel_monotone(s, k, n);
    } else {
        lemma_run_fuel_monotone(s, n, k);
    }
}

/// After `load`, the reset vector holds `PROGRAM_START`.
pub proof fn lemma_load_sets_reset_vector(s: CpuState, program: Seq<u8>)
    ensures
        s.load(program).read_u16(RESET_VECTOR as int) == PROGRAM_START,
        s.load(program).memory.len() == MEMORY_SIZE,
{
}

} // verus!
