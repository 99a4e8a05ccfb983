use vstd::prelude::*;

verus! {

/// How an instruction finds its operand.
#[allow(non_camel_case_types)]
#[derive(Debug, Clone, Copy, PartialEq, Eq, Structural)]
pub enum AddressingMode {
    Immediate,
    ZeroPage,
    ZeroPage_X,
    ZeroPage_Y,
    Absolute,
    Absolute_X,
    Absolute_Y,
    Indirect_X,
    Indirect_Y,
    NoneAddressing,
}

/// The operation an opcode performs.
///
/// The shifts and rotations with `AddressingMode::NoneAddressing` work on the
/// accumulator; `JmpIndirect` is `JMP` through a pointer.
#[derive(Debug, Clone, Copy, PartialEq, Eq, Structural)]
pub enum Mnemonic {
    Brk,
    Nop,
    Adc,
    Sbc,
    And,
    Eor,
    Ora,
    Asl,
    Lsr,
    Rol,
    Ror,
    Inc,
    Inx,
    Iny,
    Dec,
    Dex,
    Dey,
    Cmp,
    Cpy,
    Cpx,
    Jmp,
    JmpIndirect,
    Jsr,
    Rts,
    Rti,
    Bne,
    Bvs,
    Bvc,
    Bmi,
    Beq,
    Bcs,
    Bcc,
    Bpl,
    Bit,
    Lda,
    Ldx,
    Ldy,
    Sta,
    Stx,
    Sty,
    Cld,
    Cli,
    Clv,
    Clc,
    Sec,
    Sei,
    Sed,
    Tax,
    Tay,
    Tsx,
    Txa,
    Txs,
    Tya,
    Pha,
    Pla,
    Php,
    Plp,
}

/// One entry of the instruction table.
#[derive(Debug, Clone, Copy, PartialEq, Eq, Structural)]
pub struct OpCode {
    pub code: u8,
    pub mnemonic: Mnemonic,
    /// Length of the instruction in bytes, the opcode byte included.
    pub len: u8,
    pub mode: AddressingMode,
}

/// Number of operand bytes that follow an opcode in `mode`.
pub open spec fn operand_bytes(mode: AddressingMode) -> nat {
    match mode {
        AddressingMode::Immediate | AddressingMode::ZeroPage | AddressingMode::ZeroPage_X
        | AddressingMode::ZeroPage_Y | AddressingMode::Indirect_X | AddressingMode::Indirect_Y => 1,
        AddressingMode::Absolute | AddressingMode::Absolute_X | AddressingMode::Absolute_Y => 2,
        AddressingMode::NoneAddressing => 0,
    }
}

/// The instruction table: the supported official 6502 opcodes.
pub open spec fn opcode_table(code: u8) -> Option<OpCode> {
    match code {
        0x00 => Some(OpCode { code: 0x00, mnemonic: Mnemonic::Brk, len: 1, mode: AddressingMode::NoneAddressing }),
        0x01 => Some(OpCode { code: 0x01, mnemonic: Mnemonic::Ora, len: 2, mode: AddressingMode::Indirect_X }),
        0x05 => Some(OpCode { code: 0x05, mnemonic: Mnemonic::Ora, len: 2, mode: AddressingMode::ZeroPage }),
        0x06 => Some(OpCode { code: 0x06, mnemonic: Mnemonic::Asl, len: 2, mode: AddressingMode::ZeroPage }),
        0x08 => Some(OpCode { code: 0x08, mnemonic: Mnemonic::Php, len: 1, mode: AddressingMode::NoneAddressing }),
        0x09 => Some(OpCode { code: 0x09, mnemonic: Mnemonic::Ora, len: 2, mode: AddressingMode::Immediate }),
        0x0a => Some(OpCode { code: 0x0a, mnemonic: Mnemonic::Asl, len: 1, mode: AddressingMode::NoneAddressing }),
        0x0d => Some(OpCode { code: 0x0d, mnemonic: Mnemonic::Ora, len: 3, mode: AddressingMode::Absolute }),
        0x0e => Some(OpCode { code: 0x0e, mnemonic: Mnemonic::Asl, len: 3, mode: AddressingMode::Absolute }),
        0x10 => Some(OpCode { code: 0x10, mnemonic: Mnemonic::Bpl, len: 2, mode: AddressingMode::NoneAddressing }),
        0x11 => Some(OpCode { code: 0x11, mnemonic: Mnemonic::Ora, len: 2, mode: AddressingMode::Indirect_Y }),
        0x15 => Some(OpCode { code: 0x15, mnemonic: Mnemonic::Ora, len: 2, mode: AddressingMode::ZeroPage_X }),
        0x16 => Some(OpCode { code: 0x16, mnemonic: Mnemonic::Asl, len: 2, mode: AddressingMode::ZeroPage_X }),
        0x18 => Some(OpCode { code: 0x18, mnemonic: Mnemonic::Clc, len: 1, mode: AddressingMode::NoneAddressing }),
        0x19 => Some(OpCode { code: 0x19, mnemonic: Mnemonic::Ora, len: 3, mode: AddressingMode::Absolute_Y }),
        0x1d => Some(OpCode { code: 0x1d, mnemonic: Mnemonic::Ora, len: 3, mode: AddressingMode::Absolute_X }),
        0x1e => Some(OpCode { code: 0x1e, mnemonic: Mnemonic::Asl, len: 3, mode: AddressingMode::Absolute_X }),
        0x20 => Some(OpCode { code: 0x20, mnemonic: Mnemonic::Jsr, len: 3, mode: AddressingMode::NoneAddressing }),
        0x21 => Some(OpCode { code: 0x21, mnemonic: Mnemonic::And, len: 2, mode: AddressingMode::Indirect_X }),
        0x24 => Some(OpCode { code: 0x24, mnemonic: Mnemonic::Bit, len: 2, mode: AddressingMode::ZeroPage }),
        0x25 => Some(OpCode { code: 0x25, mnemonic: Mnemonic::And, len: 2, mode: AddressingMode::ZeroPage }),
        0x26 => Some(OpCode { code: 0x26, mnemonic: Mnemonic::Rol, len: 2, mode: AddressingMode::ZeroPage }),
        0x28 => Some(OpCode { code: 0x28, mnemonic: Mnemonic::Plp, len: 1, mode: AddressingMode::NoneAddressing }),
        0x29 => Some(OpCode { code: 0x29, mnemonic: Mnemonic::And, len: 2, mode: AddressingMode::Immediate }),
        0x2a => Some(OpCode { code: 0x2a, mnemonic: Mnemonic::Rol, len: 1, mode: AddressingMode::NoneAddressing }),
        0x2c => Some(OpCode { code: 0x2c, mnemonic: Mnemonic::Bit, len: 3, mode: AddressingMode::Absolute }),
        0x2d => Some(OpCode { code: 0x2d, mnemonic: Mnemonic::And, len: 3, mode: AddressingMode::Absolute }),
        0x2e => Some(OpCode { code: 0x2e, mnemonic: Mnemonic::Rol, len: 3, mode: AddressingMode::Absolute }),
        0x30 => Some(OpCode { code: 0x30, mnemonic: Mnemonic::Bmi, len: 2, mode: AddressingMode::NoneAddressing }),
        0x31 => Some(OpCode { code: 0x31, mnemonic: Mnemonic::And, len: 2, mode: AddressingMode::Indirect_Y }),
        0x35 => Some(OpCode { code: 0x35, mnemonic: Mnemonic::And, len: 2, mode: AddressingMode::ZeroPage_X }),
        0x36 => Some(OpCode { code: 0x36, mnemonic: Mnemonic::Rol, len: 2, mode: AddressingMode::ZeroPage_X }),
        0x38 => Some(OpCode { code: 0x38, mnemonic: Mnemonic::Sec, len: 1, mode: AddressingMode::NoneAddressing }),
        0x39 => Some(OpCode { code: 0x39, mnemonic: Mnemonic::And, len: 3, mode: AddressingMode::Absolute_Y }),
        0x3d => Some(OpCode { code: 0x3d, mnemonic: Mnemonic::And, len: 3, mode: AddressingMode::Absolute_X }),
        0x3e => Some(OpCode { code: 0x3e, mnemonic: Mnemonic::Rol, len: 3, mode: AddressingMode::Absolute_X }),
        0x40 => Some(OpCode { code: 0x40, mnemonic: Mnemonic::Rti, len: 1, mode: AddressingMode::NoneAddressing }),
        0x41 => Some(OpCode { code: 0x41, mnemonic: Mnemonic::Eor, len: 2, mode: AddressingMode::Indirect_X }),
        0x45 => Some(OpCode { code: 0x45, mnemonic: Mnemonic::Eor, len: 2, mode: AddressingMode::ZeroPage }),
        0x46 => Some(OpCode { code: 0x46, mnemonic: Mnemonic::Lsr, len: 2, mode: AddressingMode::ZeroPage }),
        0x48 => Some(OpCode { code: 0x48, mnemonic: Mnemonic::Pha, len: 1, mode: AddressingMode::NoneAddressing }),
        0x49 => Some(OpCode { code: 0x49, mnemonic: Mnemonic::Eor, len: 2, mode: AddressingMode::Immediate }),
        0x4a => Some(OpCode { code: 0x4a, mnemonic: Mnemonic::Lsr, len: 1, mode: AddressingMode::NoneAddressing }),
        0x4c => Some(OpCode { code: 0x4c, mnemonic: Mnemonic::Jmp, len: 3, mode: AddressingMode::NoneAddressing }),
        0x4d => Some(OpCode { code: 0x4d, mnemonic: Mnemonic::Eor, len: 3, mode: AddressingMode::Absolute }),
        0x4e => Some(OpCode { code: 0x4e, mnemonic: Mnemonic::Lsr, len: 3, mode: AddressingMode::Absolute }),
        0x50 => Some(OpCode { code: 0x50, mnemonic: Mnemonic::Bvc, len: 2, mode: AddressingMode::NoneAddressing }),
        0x51 => Some(OpCode { code: 0x51, mnemonic: Mnemonic::Eor, len: 2, mode: AddressingMode::Indirect_Y }),
        0x55 => Some(OpCode { code: 0x55, mnemonic: Mnemonic::Eor, len: 2, mode: AddressingMode::ZeroPage_X }),
        0x56 => Some(OpCode { code: 0x56, mnemonic: Mnemonic::Lsr, len: 2, mode: AddressingMode::ZeroPage_X }),
        0x58 => Some(OpCode { code: 0x58, mnemonic: Mnemonic::Cli, len: 1, mode: AddressingMode::NoneAddressing }),
        0x59 => Some(OpCode { code: 0x59, mnemonic: Mnemonic::Eor, len: 3, mode: AddressingMode::Absolute_Y }),
        0x5d => Some(OpCode { code: 0x5d, mnemonic: Mnemonic::Eor, len: 3, mode: AddressingMode::Absolute_X }),
        0x5e => Some(OpCode { code: 0x5e, mnemonic: Mnemonic::Lsr, len: 3, mode: AddressingMode::Absolute_X }),
        0x60 => Some(OpCode { code: 0x60, mnemonic: Mnemonic::Rts, len: 1, mode: AddressingMode::NoneAddressing }),
        0x61 => Some(OpCode { code: 0x61, mnemonic: Mnemonic::Adc, len: 2, mode: AddressingMode::Indirect_X }),
        0x65 => Some(OpCode { code: 0x65, mnemonic: Mnemonic::Adc, len: 2, mode: AddressingMode::ZeroPage }),
        0x66 => Some(OpCode { code: 0x66, mnemonic: Mnemonic::Ror, len: 2, mode: AddressingMode::ZeroPage }),
        0x68 => Some(OpCode { code: 0x68, mnemonic: Mnemonic::Pla, len: 1, mode: AddressingMode::NoneAddressing }),
        0x69 => Some(OpCode { code: 0x69, mnemonic: Mnemonic::Adc, len: 2, mode: AddressingMode::Immediate }),
        0x6a => Some(OpCode { code: 0x6a, mnemonic: Mnemonic::Ror, len: 1, mode: AddressingMode::NoneAddressing }),
        0x6c => Some(OpCode { code: 0x6c, mnemonic: Mnemonic::JmpIndirect, len: 3, mode: AddressingMode::NoneAddressing }),
        0x6d => Some(OpCode { code: 0x6d, mnemonic: Mnemonic::Adc, len: 3, mode: AddressingMode::Absolute }),
        0x6e => Some(OpCode { code: 0x6e, mnemonic: Mnemonic::Ror, len: 3, mode: AddressingMode::Absolute }),
        0x70 => Some(OpCode { code: 0x70, mnemonic: Mnemonic::Bvs, len: 2, mode: AddressingMode::NoneAddressing }),
        0x71 => Some(OpCode { code: 0x71, mnemonic: Mnemonic::Adc, len: 2, mode: AddressingMode::Indirect_Y }),
        0x75 => Some(OpCode { code: 0x75, mnemonic: Mnemonic::Adc, len: 2, mode: AddressingMode::ZeroPage_X }),
        0x76 => Some(OpCode { code: 0x76, mnemonic: Mnemonic::Ror, len: 2, mode: AddressingMode::ZeroPage_X }),
        0x78 => Some(OpCode { code: 0x78, mnemonic: Mnemonic::Sei, len: 1, mode: AddressingMode::NoneAddressing }),
        0x79 => Some(OpCode { code: 0x79, mnemonic: Mnemonic::Adc, len: 3, mode: AddressingMode::Absolute_Y }),
        0x7d => Some(OpCode { code: 0x7d, mnemonic: Mnemonic::Adc, len: 3, mode: AddressingMode::Absolute_X }),
        0x7e => Some(OpCode { code: 0x7e, mnemonic: Mnemonic::Ror, len: 3, mode: AddressingMode::Absolute_X }),
        0x81 => Some(OpCode { code: 0x81, mnemonic: Mnemonic::Sta, len: 2, mode: AddressingMode::Indirect_X }),
        0x84 => Some(OpCode { code: 0x84, mnemonic: Mnemonic::Sty, len: 2, mode: AddressingMode::ZeroPage }),
        0x85 => Some(OpCode { code: 0x85, mnemonic: Mnemonic::Sta, len: 2, mode: AddressingMode::ZeroPage }),
        0x86 => Some(OpCode { code: 0x86, mnemonic: Mnemonic::Stx, len: 2, mode: AddressingMode::ZeroPage }),
        0x88 => Some(OpCode { code: 0x88, mnemonic: Mnemonic::Dey, len: 1, mode: AddressingMode::NoneAddressing }),
        0x8a => Some(OpCode { code: 0x8a, mnemonic: Mnemonic::Txa, len: 1, mode: AddressingMode::NoneAddressing }),
        0x8c => Some(OpCode { code: 0x8c, mnemonic: Mnemonic::Sty, len: 3, mode: AddressingMode::Absolute }),
        0x8d => Some(OpCode { code: 0x8d, mnemonic: Mnemonic::Sta, len: 3, mode: AddressingMode::Absolute }),
        0x8e => Some(OpCode { code: 0x8e, mnemonic: Mnemonic::Stx, len: 3, mode: AddressingMode::Absolute }),
        0x90 => Some(OpCode { code: 0x90, mnemonic: Mnemonic::Bcc, len: 2, mode: AddressingMode::NoneAddressing }),
        0x91 => Some(OpCode { code: 0x91, mnemonic: Mnemonic::Sta, len: 2, mode: AddressingMode::Indirect_Y }),
        0x94 => Some(OpCode { code: 0x94, mnemonic: Mnemonic::Sty, len: 2, mode: AddressingMode::ZeroPage_X }),
        0x95 => Some(OpCode { code: 0x95, mnemonic: Mnemonic::Sta, len: 2, mode: AddressingMode::ZeroPage_X }),
        0x96 => Some(OpCode { code: 0x96, mnemonic: Mnemonic::Stx, len: 2, mode: AddressingMode::ZeroPage_Y }),
        0x98 => Some(OpCode { code: 0x98, mnemonic: Mnemonic::Tya, len: 1, mode: AddressingMode::NoneAddressing }),
        0x99 => Some(OpCode { code: 0x99, mnemonic: Mnemonic::Sta, len: 3, mode: AddressingMode::Absolute_Y }),
        0x9a => Some(OpCode { code: 0x9a, mnemonic: Mnemonic::Txs, len: 1, mode: AddressingMode::NoneAddressing }),
        0x9d => Some(OpCode { code: 0x9d, mnemonic: Mnemonic::Sta, len: 3, mode: AddressingMode::Absolute_X }),
        0xa0 => Some(OpCode { code: 0xa0, mnemonic: Mnemonic::Ldy, len: 2, mode: AddressingMode::Immediate }),
        0xa1 => Some(OpCode { code: 0xa1, mnemonic: Mnemonic::Lda, len: 2, mode: AddressingMode::Indirect_X }),
        0xa2 => Some(OpCode { code: 0xa2, mnemonic: Mnemonic::Ldx, len: 2, mode: AddressingMode::Immediate }),
        0xa4 => Some(OpCode { code: 0xa4, mnemonic: Mnemonic::Ldy, len: 2, mode: AddressingMode::ZeroPage }),
        0xa5 => Some(OpCode { code: 0xa5, mnemonic: Mnemonic::Lda, len: 2, mode: AddressingMode::ZeroPage }),
        0xa6 => Some(OpCode { code: 0xa6, mnemonic: Mnemonic::Ldx, len: 2, mode: AddressingMode::ZeroPage }),
        0xa8 => Some(OpCode { code: 0xa8, mnemonic: Mnemonic::Tay, len: 1, mode: AddressingMode::NoneAddressing }),
        0xa9 => Some(OpCode { code: 0xa9, mnemonic: Mnemonic::Lda, len: 2, mode: AddressingMode::Immediate }),
        0xaa => Some(OpCode { code: 0xaa, mnemonic: Mnemonic::Tax, len: 1, mode: AddressingMode::NoneAddressing }),
        0xac => Some(OpCode { code: 0xac, mnemonic: Mnemonic::Ldy, len: 3, mode: AddressingMode::Absolute }),
        0xad => Some(OpCode { code: 0xad, mnemonic: Mnemonic::Lda, len: 3, mode: AddressingMode::Absolute }),
        0xae => Some(OpCode { code: 0xae, mnemonic: Mnemonic::Ldx, len: 3, mode: AddressingMode::Absolute }),
        0xb0 => Some(OpCode { code: 0xb0, mnemonic: Mnemonic::Bcs, len: 2, mode: AddressingMode::NoneAddressing }),
        0xb1 => Some(OpCode { code: 0xb1, mnemonic: Mnemonic::Lda, len: 2, mode: AddressingMode::Indirect_Y }),
        0xb4 => Some(OpCode { code: 0xb4, mnemonic: Mnemonic::Ldy, len: 2, mode: AddressingMode::ZeroPage_X }),
        0xb5 => Some(OpCode { code: 0xb5, mnemonic: Mnemonic::Lda, len: 2, mode: AddressingMode::ZeroPage_X }),
        0xb6 => Some(OpCode { code: 0xb6, mnemonic: Mnemonic::Ldx, len: 2, mode: AddressingMode::ZeroPage_Y }),
        0xb8 => Some(OpCode { code: 0xb8, mnemonic: Mnemonic::Clv, len: 1, mode: AddressingMode::NoneAddressing }),
        0xb9 => Some(OpCode { code: 0xb9, mnemonic: Mnemonic::Lda, len: 3, mode: AddressingMode::Absolute_Y }),
        0xba => Some(OpCode { code: 0xba, mnemonic: Mnemonic::Tsx, len: 1, mode: AddressingMode::NoneAddressing }),
        0xbc => Some(OpCode { code: 0xbc, mnemonic: Mnemonic::Ldy, len: 3, mode: AddressingMode::Absolute_X }),
        0xbd => Some(OpCode { code: 0xbd, mnemonic: Mnemonic::Lda, len: 3, mode: AddressingMode::Absolute_X }),
        0xbe => Some(OpCode { code: 0xbe, mnemonic: Mnemonic::Ldx, len: 3, mode: AddressingMode::Absolute_Y }),
        0xc0 => Some(OpCode { code: 0xc0, mnemonic: Mnemonic::Cpy, len: 2, mode: AddressingMode::Immediate }),
        0xc1 => Some(OpCode { code: 0xc1, mnemonic: Mnemonic::Cmp, len: 2, mode: AddressingMode::Indirect_X }),
        0xc4 => Some(OpCode { code: 0xc4, mnemonic: Mnemonic::Cpy, len: 2, mode: AddressingMode::ZeroPage }),
        0xc5 => Some(OpCode { code: 0xc5, mnemonic: Mnemonic::Cmp, len: 2, mode: AddressingMode::ZeroPage }),
        0xc6 => Some(OpCode { code: 0xc6, mnemonic: Mnemonic::Dec, len: 2, mode: AddressingMode::ZeroPage }),
        0xc8 => Some(OpCode { code: 0xc8, mnemonic: Mnemonic::Iny, len: 1, mode: AddressingMode::NoneAddressing }),
        0xc9 => Some(OpCode { code: 0xc9, mnemonic: Mnemonic::Cmp, len: 2, mode: AddressingMode::Immediate }),
        0xca => Some(OpCode { code: 0xca, mnemonic: Mnemonic::Dex, len: 1, mode: AddressingMode::NoneAddressing }),
        0xcc => Some(OpCode { code: 0xcc, mnemonic: Mnemonic::Cpy, len: 3, mode: AddressingMode::Absolute }),
        0xcd => Some(OpCode { code: 0xcd, mnemonic: Mnemonic::Cmp, len: 3, mode: AddressingMode::Absolute }),
        0xce => Some(OpCode { code: 0xce, mnemonic: Mnemonic::Dec, len: 3, mode: AddressingMode::Absolute }),
        0xd0 => Some(OpCode { code: 0xd0, mnemonic: Mnemonic::Bne, len: 2, mode: AddressingMode::NoneAddressing }),
        0xd1 => Some(OpCode { code: 0xd1, mnemonic: Mnemonic::Cmp, len: 2, mode: AddressingMode::Indirect_Y }),
        0xd5 => Some(OpCode { code: 0xd5, mnemonic: Mnemonic::Cmp, len: 2, mode: AddressingMode::ZeroPage_X }),
        0xd6 => Some(OpCode { code: 0xd6, mnemonic: Mnemonic::Dec, len: 2, mode: AddressingMode::ZeroPage_X }),
        0xd8 => Some(OpCode { code: 0xd8, mnemonic: Mnemonic::Cld, len: 1, mode: AddressingMode::NoneAddressing }),
        0xd9 => Some(OpCode { code: 0xd9, mnemonic: Mnemonic::Cmp, len: 3, mode: AddressingMode::Absolute_Y }),
        0xdd => Some(OpCode { code: 0xdd, mnemonic: Mnemonic::Cmp, len: 3, mode: AddressingMode::Absolute_X }),
        0xde => Some(OpCode { code: 0xde, mnemonic: Mnemonic::Dec, len: 3, mode: AddressingMode::Absolute_X }),
        0xe0 => Some(OpCode { code: 0xe0, mnemonic: Mnemonic::Cpx, len: 2, mode: AddressingMode::Immediate }),
        0xe1 => Some(OpCode { code: 0xe1, mnemonic: Mnemonic::Sbc, len: 2, mode: AddressingMode::Indirect_X }),
        0xe4 => Some(OpCode { code: 0xe4, mnemonic: Mnemonic::Cpx, len: 2, mode: AddressingMode::ZeroPage }),
        0xe5 => Some(OpCode { code: 0xe5, mnemonic: Mnemonic::Sbc, len: 2, mode: AddressingMode::ZeroPage }),
        0xe6 => Some(OpCode { code: 0xe6, mnemonic: Mnemonic::Inc, len: 2, mode: AddressingMode::ZeroPage }),
        0xe8 => Some(OpCode { code: 0xe8, mnemonic: Mnemonic::Inx, len: 1, mode: AddressingMode::NoneAddressing }),
        0xe9 => Some(OpCode { code: 0xe9, mnemonic: Mnemonic::Sbc, len: 2, mode: AddressingMode::Immediate }),
        0xea => Some(OpCode { code: 0xea, mnemonic: Mnemonic::Nop, len: 1, mode: AddressingMode::NoneAddressing }),
        0xec => Some(OpCode { code: 0xec, mnemonic: Mnemonic::Cpx, len: 3, mode: AddressingMode::Absolute }),
        0xed => Some(OpCode { code: 0xed, mnemonic: Mnemonic::Sbc, len: 3, mode: AddressingMode::Absolute }),
        0xee => Some(OpCode { code: 0xee, mnemonic: Mnemonic::Inc, len: 3, mode: AddressingMode::Absolute }),
        0xf0 => Some(OpCode { code: 0xf0, mnemonic: Mnemonic::Beq, len: 2, mode: AddressingMode::NoneAddressing }),
        0xf1 => Some(OpCode { code: 0xf1, mnemonic: Mnemonic::Sbc, len: 2, mode: AddressingMode::Indirect_Y }),
        0xf5 => Some(OpCode { code: 0xf5, mnemonic: Mnemonic::Sbc, len: 2, mode: AddressingMode::ZeroPage_X }),
        0xf6 => Some(OpCode { code: 0xf6, mnemonic: Mnemonic::Inc, len: 2, mode: AddressingMode::ZeroPage_X }),
        0xf8 => Some(OpCode { code: 0xf8, mnemonic: Mnemonic::Sed, len: 1, mode: AddressingMode::NoneAddressing }),
        0xf9 => Some(OpCode { code: 0xf9, mnemonic: Mnemonic::Sbc, len: 3, mode: AddressingMode::Absolute_Y }),
        0xfd => Some(OpCode { code: 0xfd, mnemonic: Mnemonic::Sbc, len: 3, mode: AddressingMode::Absolute_X }),
        0xfe => Some(OpCode { code: 0xfe, mnemonic: Mnemonic::Inc, len: 3, mode: AddressingMode::Absolute_X }),
        _ => None,
    }
}

/// Looks up `code` in the instruction table.
pub fn decode_opcode(code: u8) -> (r: Option<OpCode>)
    ensures
        r == opcode_table(code),
{
    match code {
        0x00 => Some(OpCode { code: 0x00, mnemonic: Mnemonic::Brk, len: 1, mode: AddressingMode::NoneAddressing }),
        0x01 => Some(OpCode { code: 0x01, mnemonic: Mnemonic::Ora, len: 2, mode: AddressingMode::Indirect_X }),
        0x05 => Some(OpCode { code: 0x05, mnemonic: Mnemonic::Ora, len: 2, mode: AddressingMode::ZeroPage }),
        0x06 => Some(OpCode { code: 0x06, mnemonic: Mnemonic::Asl, len: 2, mode: AddressingMode::ZeroPage }),
        0x08 => Some(OpCode { code: 0x08, mnemonic: Mnemonic::Php, len: 1, mode: AddressingMode::NoneAddressing }),
        0x09 => Some(OpCode { code: 0x09, mnemonic: Mnemonic::Ora, len: 2, mode: AddressingMode::Immediate }),
        0x0a => Some(OpCode { code: 0x0a, mnemonic: Mnemonic::Asl, len: 1, mode: AddressingMode::NoneAddressing }),
        0x0d => Some(OpCode { code: 0x0d, mnemonic: Mnemonic::Ora, len: 3, mode: AddressingMode::Absolute }),
        0x0e => Some(OpCode { code: 0x0e, mnemonic: Mnemonic::Asl, len: 3, mode: AddressingMode::Absolute }),
        0x10 => Some(OpCode { code: 0x10, mnemonic: Mnemonic::Bpl, len: 2, mode: AddressingMode::NoneAddressing }),
        0x11 => Some(OpCode { code: 0x11, mnemonic: Mnemonic::Ora, len: 2, mode: AddressingMode::Indirect_Y }),
        0x15 => Some(OpCode { code: 0x15, mnemonic: Mnemonic::Ora, len: 2, mode: AddressingMode::ZeroPage_X }),
        0x16 => Some(OpCode { code: 0x16, mnemonic: Mnemonic::Asl, len: 2, mode: AddressingMode::ZeroPage_X }),
        0x18 => Some(OpCode { code: 0x18, mnemonic: Mnemonic::Clc, len: 1, mode: AddressingMode::NoneAddressing }),
        0x19 => Some(OpCode { code: 0x19, mnemonic: Mnemonic::Ora, len: 3, mode: AddressingMode::Absolute_Y }),
        0x1d => Some(OpCode { code: 0x1d, mnemonic: Mnemonic::Ora, len: 3, mode: AddressingMode::Absolute_X }),
        0x1e => Some(OpCode { code: 0x1e, mnemonic: Mnemonic::Asl, len: 3, mode: AddressingMode::Absolute_X }),
        0x20 => Some(OpCode { code: 0x20, mnemonic: Mnemonic::Jsr, len: 3, mode: AddressingMode::NoneAddressing }),
        0x21 => Some(OpCode { code: 0x21, mnemonic: Mnemonic::And, len: 2, mode: AddressingMode::Indirect_X }),
        0x24 => Some(OpCode { code: 0x24, mnemonic: Mnemonic::Bit, len: 2, mode: AddressingMode::ZeroPage }),
        0x25 => Some(OpCode { code: 0x25, mnemonic: Mnemonic::And, len: 2, mode: AddressingMode::ZeroPage }),
        0x26 => Some(OpCode { code: 0x26, mnemonic: Mnemonic::Rol, len: 2, mode: AddressingMode::ZeroPage }),
        0x28 => Some(OpCode { code: 0x28, mnemonic: Mnemonic::Plp, len: 1, mode: AddressingMode::NoneAddressing }),
        0x29 => Some(OpCode { code: 0x29, mnemonic: Mnemonic::And, len: 2, mode: AddressingMode::Immediate }),
        0x2a => Some(OpCode { code: 0x2a, mnemonic: Mnemonic::Rol, len: 1, mode: AddressingMode::NoneAddressing }),
        0x2c => Some(OpCode { code: 0x2c, mnemonic: Mnemonic::Bit, len: 3, mode: AddressingMode::Absolute }),
        0x2d => Some(OpCode { code: 0x2d, mnemonic: Mnemonic::And, len: 3, mode: AddressingMode::Absolute }),
        0x2e => Some(OpCode { code: 0x2e, mnemonic: Mnemonic::Rol, len: 3, mode: AddressingMode::Absolute }),
        0x30 => Some(OpCode { code: 0x30, mnemonic: Mnemonic::Bmi, len: 2, mode: AddressingMode::NoneAddressing }),
        0x31 => Some(OpCode { code: 0x31, mnemonic: Mnemonic::And, len: 2, mode: AddressingMode::Indirect_Y }),
        0x35 => Some(OpCode { code: 0x35, mnemonic: Mnemonic::And, len: 2, mode: AddressingMode::ZeroPage_X }),
        0x36 => Some(OpCode { code: 0x36, mnemonic: Mnemonic::Rol, len: 2, mode: AddressingMode::ZeroPage_X }),
        0x38 => Some(OpCode { code: 0x38, mnemonic: Mnemonic::Sec, len: 1, mode: AddressingMode::NoneAddressing }),
        0x39 => Some(OpCode { code: 0x39, mnemonic: Mnemonic::And, len: 3, mode: AddressingMode::Absolute_Y }),
        0x3d => Some(OpCode { code: 0x3d, mnemonic: Mnemonic::And, len: 3, mode: AddressingMode::Absolute_X }),
        0x3e => Some(OpCode { code: 0x3e, mnemonic: Mnemonic::Rol, len: 3, mode: AddressingMode::Absolute_X }),
        0x40 => Some(OpCode { code: 0x40, mnemonic: Mnemonic::Rti, len: 1, mode: AddressingMode::NoneAddressing }),
        0x41 => Some(OpCode { code: 0x41, mnemonic: Mnemonic::Eor, len: 2, mode: AddressingMode::Indirect_X }),
        0x45 => Some(OpCode { code: 0x45, mnemonic: Mnemonic::Eor, len: 2, mode: AddressingMode::ZeroPage }),
        0x46 => Some(OpCode { code: 0x46, mnemonic: Mnemonic::Lsr, len: 2, mode: AddressingMode::ZeroPage }),
        0x48 => Some(OpCode { code: 0x48, mnemonic: Mnemonic::Pha, len: 1, mode: AddressingMode::NoneAddressing }),
        0x49 => Some(OpCode { code: 0x49, mnemonic: Mnemonic::Eor, len: 2, mode: AddressingMode::Immediate }),
        0x4a => Some(OpCode { code: 0x4a, mnemonic: Mnemonic::Lsr, len: 1, mode: AddressingMode::NoneAddressing }),
        0x4c => Some(OpCode { code: 0x4c, mnemonic: Mnemonic::Jmp, len: 3, mode: AddressingMode::NoneAddressing }),
        0x4d => Some(OpCode { code: 0x4d, mnemonic: Mnemonic::Eor, len: 3, mode: AddressingMode::Absolute }),
        0x4e => Some(OpCode { code: 0x4e, mnemonic: Mnemonic::Lsr, len: 3, mode: AddressingMode::Absolute }),
        0x50 => Some(OpCode { code: 0x50, mnemonic: Mnemonic::Bvc, len: 2, mode: AddressingMode::NoneAddressing }),
        0x51 => Some(OpCode { code: 0x51, mnemonic: Mnemonic::Eor, len: 2, mode: AddressingMode::Indirect_Y }),
        0x55 => Some(OpCode { code: 0x55, mnemonic: Mnemonic::Eor, len: 2, mode: AddressingMode::ZeroPage_X }),
        0x56 => Some(OpCode { code: 0x56, mnemonic: Mnemonic::Lsr, len: 2, mode: AddressingMode::ZeroPage_X }),
        0x58 => Some(OpCode { code: 0x58, mnemonic: Mnemonic::Cli, len: 1, mode: AddressingMode::NoneAddressing }),
        0x59 => Some(OpCode { code: 0x59, mnemonic: Mnemonic::Eor, len: 3, mode: AddressingMode::Absolute_Y }),
        0x5d => Some(OpCode { code: 0x5d, mnemonic: Mnemonic::Eor, len: 3, mode: AddressingMode::Absolute_X }),
        0x5e => Some(OpCode { code: 0x5e, mnemonic: Mnemonic::Lsr, len: 3, mode: AddressingMode::Absolute_X }),
        0x60 => Some(OpCode { code: 0x60, mnemonic: Mnemonic::Rts, len: 1, mode: AddressingMode::NoneAddressing }),
        0x61 => Some(OpCode { code: 0x61, mnemonic: Mnemonic::Adc, len: 2, mode: AddressingMode::Indirect_X }),
        0x65 => Some(OpCode { code: 0x65, mnemonic: Mnemonic::Adc, len: 2, mode: AddressingMode::ZeroPage }),
        0x66 => Some(OpCode { code: 0x66, mnemonic: Mnemonic::Ror, len: 2, mode: AddressingMode::ZeroPage }),
        0x68 => Some(OpCode { code: 0x68, mnemonic: Mnemonic::Pla, len: 1, mode: AddressingMode::NoneAddressing }),
        0x69 => Some(OpCode { code: 0x69, mnemonic: Mnemonic::Adc, len: 2, mode: AddressingMode::Immediate }),
        0x6a => Some(OpCode { code: 0x6a, mnemonic: Mnemonic::Ror, len: 1, mode: AddressingMode::NoneAddressing }),
        0x6c => Some(OpCode { code: 0x6c, mnemonic: Mnemonic::JmpIndirect, len: 3, mode: AddressingMode::NoneAddressing }),
        0x6d => Some(OpCode { code: 0x6d, mnemonic: Mnemonic::Adc, len: 3, mode: AddressingMode::Absolute }),
        0x6e => Some(OpCode { code: 0x6e, mnemonic: Mnemonic::Ror, len: 3, mode: AddressingMode::Absolute }),
        0x70 => Some(OpCode { code: 0x70, mnemonic: Mnemonic::Bvs, len: 2, mode: AddressingMode::NoneAddressing }),
        0x71 => Some(OpCode { code: 0x71, mnemonic: Mnemonic::Adc, len: 2, mode: AddressingMode::Indirect_Y }),
        0x75 => Some(OpCode { code: 0x75, mnemonic: Mnemonic::Adc, len: 2, mode: AddressingMode::ZeroPage_X }),
        0x76 => Some(OpCode { code: 0x76, mnemonic: Mnemonic::Ror, len: 2, mode: AddressingMode::ZeroPage_X }),
        0x78 => Some(OpCode { code: 0x78, mnemonic: Mnemonic::Sei, len: 1, mode: AddressingMode::NoneAddressing }),
        0x79 => Some(OpCode { code: 0x79, mnemonic: Mnemonic::Adc, len: 3, mode: AddressingMode::Absolute_Y }),
        0x7d => Some(OpCode { code: 0x7d, mnemonic: Mnemonic::Adc, len: 3, mode: AddressingMode::Absolute_X }),
        0x7e => Some(OpCode { code: 0x7e, mnemonic: Mnemonic::Ror, len: 3, mode: AddressingMode::Absolute_X }),
        0x81 => Some(OpCode { code: 0x81, mnemonic: Mnemonic::Sta, len: 2, mode: AddressingMode::Indirect_X }),
        0x84 => Some(OpCode { code: 0x84, mnemonic: Mnemonic::Sty, len: 2, mode: AddressingMode::ZeroPage }),
        0x85 => Some(OpCode { code: 0x85, mnemonic: Mnemonic::Sta, len: 2, mode: AddressingMode::ZeroPage }),
        0x86 => Some(OpCode { code: 0x86, mnemonic: Mnemonic::Stx, len: 2, mode: AddressingMode::ZeroPage }),
        0x88 => Some(OpCode { code: 0x88, mnemonic: Mnemonic::Dey, len: 1, mode: AddressingMode::NoneAddressing }),
        0x8a => Some(OpCode { code: 0x8a, mnemonic: Mnemonic::Txa, len: 1, mode: AddressingMode::NoneAddressing }),
        0x8c => Some(OpCode { code: 0x8c, mnemonic: Mnemonic::Sty, len: 3, mode: AddressingMode::Absolute }),
        0x8d => Some(OpCode { code: 0x8d, mnemonic: Mnemonic::Sta, len: 3, mode: AddressingMode::Absolute }),
        0x8e => Some(OpCode { code: 0x8e, mnemonic: Mnemonic::Stx, len: 3, mode: AddressingMode::Absolute }),
        0x90 => Some(OpCode { code: 0x90, mnemonic: Mnemonic::Bcc, len: 2, mode: AddressingMode::NoneAddressing }),
        0x91 => Some(OpCode { code: 0x91, mnemonic: Mnemonic::Sta, len: 2, mode: AddressingMode::Indirect_Y }),
        0x94 => Some(OpCode { code: 0x94, mnemonic: Mnemonic::Sty, len: 2, mode: AddressingMode::ZeroPage_X }),
        0x95 => Some(OpCode { code: 0x95, mnemonic: Mnemonic::Sta, len: 2, mode: AddressingMode::ZeroPage_X }),
        0x96 => Some(OpCode { code: 0x96, mnemonic: Mnemonic::Stx, len: 2, mode: AddressingMode::ZeroPage_Y }),
        0x98 => Some(OpCode { code: 0x98, mnemonic: Mnemonic::Tya, len: 1, mode: AddressingMode::NoneAddressing }),
        0x99 => Some(OpCode { code: 0x99, mnemonic: Mnemonic::Sta, len: 3, mode: AddressingMode::Absolute_Y }),
        0x9a => Some(OpCode { code: 0x9a, mnemonic: Mnemonic::Txs, len: 1, mode: AddressingMode::NoneAddressing }),
        0x9d => Some(OpCode { code: 0x9d, mnemonic: Mnemonic::Sta, len: 3, mode: AddressingMode::Absolute_X }),
        0xa0 => Some(OpCode { code: 0xa0, mnemonic: Mnemonic::Ldy, len: 2, mode: AddressingMode::Immediate }),
        0xa1 => Some(OpCode { code: 0xa1, mnemonic: Mnemonic::Lda, len: 2, mode: AddressingMode::Indirect_X }),
        0xa2 => Some(OpCode { code: 0xa2, mnemonic: Mnemonic::Ldx, len: 2, mode: AddressingMode::Immediate }),
        0xa4 => Some(OpCode { code: 0xa4, mnemonic: Mnemonic::Ldy, len: 2, mode: AddressingMode::ZeroPage }),
        0xa5 => Some(OpCode { code: 0xa5, mnemonic: Mnemonic::Lda, len: 2, mode: AddressingMode::ZeroPage }),
        0xa6 => Some(OpCode { code: 0xa6, mnemonic: Mnemonic::Ldx, len: 2, mode: AddressingMode::ZeroPage }),
        0xa8 => Some(OpCode { code: 0xa8, mnemonic: Mnemonic::Tay, len: 1, mode: AddressingMode::NoneAddressing }),
        0xa9 => Some(OpCode { code: 0xa9, mnemonic: Mnemonic::Lda, len: 2, mode: AddressingMode::Immediate }),
        0xaa => Some(OpCode { code: 0xaa, mnemonic: Mnemonic::Tax, len: 1, mode: AddressingMode::NoneAddressing }),
        0xac => Some(OpCode { code: 0xac, mnemonic: Mnemonic::Ldy, len: 3, mode: AddressingMode::Absolute }),
        0xad => Some(OpCode { code: 0xad, mnemonic: Mnemonic::Lda, len: 3, mode: AddressingMode::Absolute }),
        0xae => Some(OpCode { code: 0xae, mnemonic: Mnemonic::Ldx, len: 3, mode: AddressingMode::Absolute }),
        0xb0 => Some(OpCode { code: 0xb0, mnemonic: Mnemonic::Bcs, len: 2, mode: AddressingMode::NoneAddressing }),
        0xb1 => Some(OpCode { code: 0xb1, mnemonic: Mnemonic::Lda, len: 2, mode: AddressingMode::Indirect_Y }),
        0xb4 => Some(OpCode { code: 0xb4, mnemonic: Mnemonic::Ldy, len: 2, mode: AddressingMode::ZeroPage_X }),
        0xb5 => Some(OpCode { code: 0xb5, mnemonic: Mnemonic::Lda, len: 2, mode: AddressingMode::ZeroPage_X }),
        0xb6 => Some(OpCode { code: 0xb6, mnemonic: Mnemonic::Ldx, len: 2, mode: AddressingMode::ZeroPage_Y }),
        0xb8 => Some(OpCode { code: 0xb8, mnemonic: Mnemonic::Clv, len: 1, mode: AddressingMode::NoneAddressing }),
        0xb9 => Some(OpCode { code: 0xb9, mnemonic: Mnemonic::Lda, len: 3, mode: AddressingMode::Absolute_Y }),
        0xba => Some(OpCode { code: 0xba, mnemonic: Mnemonic::Tsx, len: 1, mode: AddressingMode::NoneAddressing }),
        0xbc => Some(OpCode { code: 0xbc, mnemonic: Mnemonic::Ldy, len: 3, mode: AddressingMode::Absolute_X }),
        0xbd => Some(OpCode { code: 0xbd, mnemonic: Mnemonic::Lda, len: 3, mode: AddressingMode::Absolute_X }),
        0xbe => Some(OpCode { code: 0xbe, mnemonic: Mnemonic::Ldx, len: 3, mode: AddressingMode::Absolute_Y }),
        0xc0 => Some(OpCode { code: 0xc0, mnemonic: Mnemonic::Cpy, len: 2, mode: AddressingMode::Immediate }),
        0xc1 => Some(OpCode { code: 0xc1, mnemonic: Mnemonic::Cmp, len: 2, mode: AddressingMode::Indirect_X }),
        0xc4 => Some(OpCode { code: 0xc4, mnemonic: Mnemonic::Cpy, len: 2, mode: AddressingMode::ZeroPage }),
        0xc5 => Some(OpCode { code: 0xc5, mnemonic: Mnemonic::Cmp, len: 2, mode: AddressingMode::ZeroPage }),
        0xc6 => Some(OpCode { code: 0xc6, mnemonic: Mnemonic::Dec, len: 2, mode: AddressingMode::ZeroPage }),
        0xc8 => Some(OpCode { code: 0xc8, mnemonic: Mnemonic::Iny, len: 1, mode: AddressingMode::NoneAddressing }),
        0xc9 => Some(OpCode { code: 0xc9, mnemonic: Mnemonic::Cmp, len: 2, mode: AddressingMode::Immediate }),
        0xca => Some(OpCode { code: 0xca, mnemonic: Mnemonic::Dex, len: 1, mode: AddressingMode::NoneAddressing }),
        0xcc => Some(OpCode { code: 0xcc, mnemonic: Mnemonic::Cpy, len: 3, mode: AddressingMode::Absolute }),
        0xcd => Some(OpCode { code: 0xcd, mnemonic: Mnemonic::Cmp, len: 3, mode: AddressingMode::Absolute }),
        0xce => Some(OpCode { code: 0xce, mnemonic: Mnemonic::Dec, len: 3, mode: AddressingMode::Absolute }),
        0xd0 => Some(OpCode { code: 0xd0, mnemonic: Mnemonic::Bne, len: 2, mode: AddressingMode::NoneAddressing }),
        0xd1 => Some(OpCode { code: 0xd1, mnemonic: Mnemonic::Cmp, len: 2, mode: AddressingMode::Indirect_Y }),
        0xd5 => Some(OpCode { code: 0xd5, mnemonic: Mnemonic::Cmp, len: 2, mode: AddressingMode::ZeroPage_X }),
        0xd6 => Some(OpCode { code: 0xd6, mnemonic: Mnemonic::Dec, len: 2, mode: AddressingMode::ZeroPage_X }),
        0xd8 => Some(OpCode { code: 0xd8, mnemonic: Mnemonic::Cld, len: 1, mode: AddressingMode::NoneAddressing }),
        0xd9 => Some(OpCode { code: 0xd9, mnemonic: Mnemonic::Cmp, len: 3, mode: AddressingMode::Absolute_Y }),
        0xdd => Some(OpCode { code: 0xdd, mnemonic: Mnemonic::Cmp, len: 3, mode: AddressingMode::Absolute_X }),
        0xde => Some(OpCode { code: 0xde, mnemonic: Mnemonic::Dec, len: 3, mode: AddressingMode::Absolute_X }),
        0xe0 => Some(OpCode { code: 0xe0, mnemonic: Mnemonic::Cpx, len: 2, mode: AddressingMode::Immediate }),
        0xe1 => Some(OpCode { code: 0xe1, mnemonic: Mnemonic::Sbc, len: 2, mode: AddressingMode::Indirect_X }),
        0xe4 => Some(OpCode { code: 0xe4, mnemonic: Mnemonic::Cpx, len: 2, mode: AddressingMode::ZeroPage }),
        0xe5 => Some(OpCode { code: 0xe5, mnemonic: Mnemonic::Sbc, len: 2, mode: AddressingMode::ZeroPage }),
        0xe6 => Some(OpCode { code: 0xe6, mnemonic: Mnemonic::Inc, len: 2, mode: AddressingMode::ZeroPage }),
        0xe8 => Some(OpCode { code: 0xe8, mnemonic: Mnemonic::Inx, len: 1, mode: AddressingMode::NoneAddressing }),
        0xe9 => Some(OpCode { code: 0xe9, mnemonic: Mnemonic::Sbc, len: 2, mode: AddressingMode::Immediate }),
        0xea => Some(OpCode { code: 0xea, mnemonic: Mnemonic::Nop, len: 1, mode: AddressingMode::NoneAddressing }),
        0xec => Some(OpCode { code: 0xec, mnemonic: Mnemonic::Cpx, len: 3, mode: AddressingMode::Absolute }),
        0xed => Some(OpCode { code: 0xed, mnemonic: Mnemonic::Sbc, len: 3, mode: AddressingMode::Absolute }),
        0xee => Some(OpCode { code: 0xee, mnemonic: Mnemonic::Inc, len: 3, mode: AddressingMode::Absolute }),
        0xf0 => Some(OpCode { code: 0xf0, mnemonic: Mnemonic::Beq, len: 2, mode: AddressingMode::NoneAddressing }),
        0xf1 => Some(OpCode { code: 0xf1, mnemonic: Mnemonic::Sbc, len: 2, mode: AddressingMode::Indirect_Y }),
        0xf5 => Some(OpCode { code: 0xf5, mnemonic: Mnemonic::Sbc, len: 2, mode: AddressingMode::ZeroPage_X }),
        0xf6 => Some(OpCode { code: 0xf6, mnemonic: Mnemonic::Inc, len: 2, mode: AddressingMode::ZeroPage_X }),
        0xf8 => Some(OpCode { code: 0xf8, mnemonic: Mnemonic::Sed, len: 1, mode: AddressingMode::NoneAddressing }),
        0xf9 => Some(OpCode { code: 0xf9, mnemonic: Mnemonic::Sbc, len: 3, mode: AddressingMode::Absolute_Y }),
        0xfd => Some(OpCode { code: 0xfd, mnemonic: Mnemonic::Sbc, len: 3, mode: AddressingMode::Absolute_X }),
        0xfe => Some(OpCode { code: 0xfe, mnemonic: Mnemonic::Inc, len: 3, mode: AddressingMode::Absolute_X }),
        _ => None,
    }
}

/// Every table entry describes its own code, and its length is the opcode byte
/// plus the operand bytes of its addressing mode; implied-mode instructions
/// that take an operand (branches, jumps, `JSR`) are the only other lengths.
pub proof fn lemma_opcode_table_well_formed(code: u8)
    ensures
        opcode_table(code) matches Some(op) ==> {
            &&& op.code == code
            &&& 1 <= op.len <= 3
            &&& op.mode != AddressingMode::NoneAddressing ==> op.len == 1 + operand_bytes(op.mode)
            &&& op.mode == AddressingMode::NoneAddressing && op.len == 2 ==> {
                ||| op.mnemonic == Mnemonic::Bne
                ||| op.mnemonic == Mnemonic::Bvs
                ||| op.mnemonic == Mnemonic::Bvc
                ||| op.mnemonic == Mnemonic::Bmi
                ||| op.mnemonic == Mnemonic::Beq
                ||| op.mnemonic == Mnemonic::Bcs
                ||| op.mnemonic == Mnemonic::Bcc
                ||| op.mnemonic == Mnemonic::Bpl
            }
            &&& op.mode == AddressingMode::NoneAddressing && op.len == 3 ==> {
                ||| op.mnemonic == Mnemonic::Jmp
                ||| op.mnemonic == Mnemonic::JmpIndirect
                ||| op.mnemonic == Mnemonic::Jsr
            }
        },
{
}

} // verus!
