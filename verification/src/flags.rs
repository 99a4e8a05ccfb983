use vstd::prelude::*;

verus! {

/// Bit masks of the processor status register.
///
/// ```text
///  7 6 5 4 3 2 1 0
///  N V _ B D I Z C
///  | |   | | | | +--- Carry
///  | |   | | | +----- Zero
///  | |   | | +------- Interrupt disable
///  | |   | +--------- Decimal mode (not used on the NES)
///  | |   +----------- Break command
///  | +--------------- Overflow
///  +----------------- Negative
/// ```
#[derive(Debug)]
pub struct CpuFlags;

impl CpuFlags {
    pub const CARRY: u8 = 0b0000_0001;
    pub const ZERO: u8 = 0b0000_0010;
    pub const INTERRUPT_DISABLE: u8 = 0b0000_0100;
    pub const DECIMAL_MODE: u8 = 0b0000_1000;
    pub const BREAK: u8 = 0b0001_0000;
    pub const BREAK2: u8 = 0b0010_0000;
    pub const OVERFLOW: u8 = 0b0100_0000;
    pub const NEGATIVE: u8 = 0b1000_0000;
}

/// `status` with the bits of `flag` set when `on` holds and cleared otherwise.
pub open spec fn with_flag(status: u8, flag: u8, on: bool) -> u8 {
    if on {
        status | flag
    } else {
        status & !flag
    }
}

/// Whether any bit of `flag` is set in `status`.
pub open spec fn has_flag(status: u8, flag: u8) -> bool {
    status & flag != 0
}

/// `flag` is one of the eight single-bit masks of the status register.
pub open spec fn is_flag_bit(flag: u8) -> bool {
    ||| flag == 1
    ||| flag == 2
    ||| flag == 4
    ||| flag == 8
    ||| flag == 16
    ||| flag == 32
    ||| flag == 64
    ||| flag == 128
}

/// Setting, clearing and testing the bits of a status register.
pub trait UpdateFlag {
    /// The status register the flags live in.
    spec fn status_bits(&self) -> u8;

    /// Sets every bit of `flag`.
    fn set_flag(&mut self, flag: u8)
        ensures
            final(self).status_bits() == old(self).status_bits() | flag,
    ;

    /// Clears every bit of `flag`.
    fn clear_flag(&mut self, flag: u8)
        ensures
            final(self).status_bits() == old(self).status_bits() & !flag,
    ;

    /// Whether any bit of `flag` is set.
    fn contain_flag(&self, flag: u8) -> (r: bool)
        ensures
            r == has_flag(self.status_bits(), flag),
    ;
}

/// Setting a flag bit makes it present and leaves every other flag bit as it was.
pub proof fn lemma_set_flag(status: u8, flag: u8, other: u8)
    requires
        is_flag_bit(flag),
        is_flag_bit(other),
    ensures
        has_flag(status | flag, flag),
        other != flag ==> has_flag(status | flag, other) == has_flag(status, other),
{
    assert(has_flag(status | flag, flag)) by (bit_vector)
        requires
            flag == 1 || flag == 2 || flag == 4 || flag == 8 || flag == 16 || flag == 32 || flag
                == 64 || flag == 128,
    ;
    assert(other != flag ==> ((status | flag) & other != 0) == (status & other != 0)) by (bit_vector)
        requires
            flag == 1 || flag == 2 || flag == 4 || flag == 8 || flag == 16 || flag == 32 || flag
                == 64 || flag == 128,
            other == 1 || other == 2 || other == 4 || other == 8 || other == 16 || other == 32
                || other == 64 || other == 128,
    ;
}

/// Clearing a flag bit makes it absent and leaves every other flag bit as it was.
pub proof fn lemma_clear_flag(status: u8, flag: u8, other: u8)
    requires
        is_flag_bit(flag),
        is_flag_bit(other),
    ensures
        !has_flag(status & !flag, flag),
        other != flag ==> has_flag(status & !flag, other) == has_flag(status, other),
{
    assert(!has_flag(status & !flag, flag)) by (bit_vector);
    assert(other != flag ==> ((status & !flag) & other != 0) == (status & other != 0)) by (bit_vector)
        requires
            flag == 1 || flag == 2 || flag == 4 || flag == 8 || flag == 16 || flag == 32 || flag
                == 64 || flag == 128,
            other == 1 || other == 2 || other == 4 || other == 8 || other == 16 || other == 32
                || other == 64 || other == 128,
    ;
}

} // verus!
