//! The processor status register (P).
//!
//! The eight condition and control bits are held as booleans; packing
//! into the byte layout `N V E B D I Z C` (bit 7 down to bit 0) happens
//! only where `P` moves through the stack.

use vstd::prelude::*;

verus! {

/// Selects one bit of the status register.
#[derive(Clone, Copy, Debug, PartialEq, Eq, Structural)]
pub enum Flag {
    /// C, bit 0: carry out / no borrow.
    Carry,
    /// Z, bit 1: result was zero.
    Zero,
    /// I, bit 2: IRQ masked while set.
    InterruptDisabled,
    /// D, bit 3: BCD arithmetic enabled.
    DecimalMode,
    /// B, bit 4: distinguishes BRK/PHP pushes from hardware interrupts.
    Break,
    /// E, bit 5: expansion; always observed as 1 when pushed.
    Expansion,
    /// V, bit 6: signed overflow.
    Overflow,
    /// N, bit 7: bit 7 of the last result.
    Sign,
}

/// Processor status register, one boolean per bit.
#[derive(Clone, Copy, Debug, PartialEq, Eq, Structural)]
pub struct Flags {
    pub carry: bool,
    pub zero: bool,
    pub interrupt_disabled: bool,
    pub decimal_mode: bool,
    pub break_flag: bool,
    pub expansion: bool,
    pub overflow: bool,
    pub sign: bool,
}

/// `1` when the bit is set, `0` when clear.
pub open spec fn bit_val(b: bool) -> u8 {
    if b {
        1
    } else {
        0
    }
}

impl Flags {
    /// The power-on value: interrupt-disabled and expansion set,
    /// everything else clear.
    pub open spec fn spec_power_on() -> Flags {
        Flags {
            carry: false,
            zero: false,
            interrupt_disabled: true,
            decimal_mode: false,
            break_flag: false,
            expansion: true,
            overflow: false,
            sign: false,
        }
    }

    /// The byte layout `N V E B D I Z C`, bit 7 down to bit 0.
    pub open spec fn spec_bits(self) -> u8 {
        (bit_val(self.carry) + 2 * bit_val(self.zero) + 4 * bit_val(self.interrupt_disabled) + 8
            * bit_val(self.decimal_mode) + 16 * bit_val(self.break_flag) + 32 * bit_val(
            self.expansion,
        ) + 64 * bit_val(self.overflow) + 128 * bit_val(self.sign)) as u8
    }

    /// The register decoded from a byte in the layout `N V E B D I Z C`.
    pub open spec fn spec_from_bits(v: u8) -> Flags {
        Flags {
            carry: v as int % 2 == 1,
            zero: (v as int / 2) % 2 == 1,
            interrupt_disabled: (v as int / 4) % 2 == 1,
            decimal_mode: (v as int / 8) % 2 == 1,
            break_flag: (v as int / 16) % 2 == 1,
            expansion: (v as int / 32) % 2 == 1,
            overflow: (v as int / 64) % 2 == 1,
            sign: (v as int / 128) % 2 == 1,
        }
    }

    /// Construct the power-on value.
    pub fn power_on() -> (r: Flags)
        ensures
            r == Flags::spec_power_on(),
    {
        Flags {
            carry: false,
            zero: false,
            interrupt_disabled: true,
            decimal_mode: false,
            break_flag: false,
            expansion: true,
            overflow: false,
            sign: false,
        }
    }

    /// Whether the selected bit is set.
    pub open spec fn spec_get(self, flag: Flag) -> bool {
        match flag {
            Flag::Carry => self.carry,
            Flag::Zero => self.zero,
            Flag::InterruptDisabled => self.interrupt_disabled,
            Flag::DecimalMode => self.decimal_mode,
            Flag::Break => self.break_flag,
            Flag::Expansion => self.expansion,
            Flag::Overflow => self.overflow,
            Flag::Sign => self.sign,
        }
    }

    /// Read the selected bit.
    pub fn contains(self, flag: Flag) -> (r: bool)
        ensures
            r == self.spec_get(flag),
    {
        match flag {
            Flag::Carry => self.carry,
            Flag::Zero => self.zero,
            Flag::InterruptDisabled => self.interrupt_disabled,
            Flag::DecimalMode => self.decimal_mode,
            Flag::Break => self.break_flag,
            Flag::Expansion => self.expansion,
            Flag::Overflow => self.overflow,
            Flag::Sign => self.sign,
        }
    }

    /// The selected bit as `0` or `1`.
    pub fn bit(self, flag: Flag) -> (r: u8)
        ensures
            r == bit_val(self.spec_get(flag)),
    {
        if self.contains(flag) {
            1
        } else {
            0
        }
    }

    /// Set or clear the zero flag.
    pub fn set_zero(&mut self, zero: bool)
        ensures
            *final(self) == (Flags { zero, ..*old(self) }),
    {
        self.zero = zero;
    }

    /// Set or clear the sign (negative) flag.
    pub fn set_signed(&mut self, signed: bool)
        ensures
            *final(self) == (Flags { sign: signed, ..*old(self) }),
    {
        self.sign = signed;
    }

    /// Set or clear the carry flag.
    pub fn set_carry(&mut self, carry: bool)
        ensures
            *final(self) == (Flags { carry, ..*old(self) }),
    {
        self.carry = carry;
    }

    /// Set or clear the overflow flag.
    pub fn set_overflow(&mut self, overflow: bool)
        ensures
            *final(self) == (Flags { overflow, ..*old(self) }),
    {
        self.overflow = overflow;
    }

    /// Enable or disable decimal (BCD) mode.
    pub fn set_decimal_mode(&mut self, enabled: bool)
        ensures
            *final(self) == (Flags { decimal_mode: enabled, ..*old(self) }),
    {
        self.decimal_mode = enabled;
    }

    /// Mask or unmask IRQs.
    pub fn set_interrupt_disabled(&mut self, disabled: bool)
        ensures
            *final(self) == (Flags { interrupt_disabled: disabled, ..*old(self) }),
    {
        self.interrupt_disabled = disabled;
    }

    /// Pack the register into its byte layout.
    #[verifier::rlimit(50)]
    pub fn bits(self) -> (r: u8)
        ensures
            r == self.spec_bits(),
    {
        let mut v: u8 = 0;
        if self.carry {
            v = v + 1;
        }
        if self.zero {
            v = v + 2;
        }
        if self.interrupt_disabled {
            v = v + 4;
        }
        if self.decimal_mode {
            v = v + 8;
        }
        if self.break_flag {
            v = v + 16;
        }
        if self.expansion {
            v = v + 32;
        }
        if self.overflow {
            v = v + 64;
        }
        if self.sign {
            v = v + 128;
        }
        v
    }

    /// Decode a byte in the stack layout back into the register.
    pub fn from_bits(v: u8) -> (r: Flags)
        ensures
            r == Flags::spec_from_bits(v),
    {
        Flags {
            carry: v % 2 == 1,
            zero: (v / 2) % 2 == 1,
            interrupt_disabled: (v / 4) % 2 == 1,
            decimal_mode: (v / 8) % 2 == 1,
            break_flag: (v / 16) % 2 == 1,
            expansion: (v / 32) % 2 == 1,
            overflow: (v / 64) % 2 == 1,
            sign: (v / 128) % 2 == 1,
        }
    }
}

impl Default for Flags {
    /// All bits clear.
    fn default() -> (r: Flags)
        ensures
            r == (Flags {
                carry: false,
                zero: false,
                interrupt_disabled: false,
                decimal_mode: false,
                break_flag: false,
                expansion: false,
                overflow: false,
                sign: false,
            }),
    {
        Flags {
            carry: false,
            zero: false,
            interrupt_disabled: false,
            decimal_mode: false,
            break_flag: false,
            expansion: false,
            overflow: false,
            sign: false,
        }
    }
}

/// Packing and unpacking the status byte are mutually inverse: decoding
/// a packed register yields the register, and packing a decoded byte
/// yields the byte.
#[verifier::rlimit(100)]
pub proof fn lemma_bits_round_trip(f: Flags, v: u8)
    ensures
        Flags::spec_from_bits(f.spec_bits()) == f,
        Flags::spec_from_bits(v).spec_bits() == v,
{
    let b = f.spec_bits();
    let c = bit_val(f.carry);
    let z = bit_val(f.zero);
    let i = bit_val(f.interrupt_disabled);
    let d = bit_val(f.decimal_mode);
    let k = bit_val(f.break_flag);
    let e = bit_val(f.expansion);
    let o = bit_val(f.overflow);
    let n = bit_val(f.sign);
    assert(b as int % 2 == c && (b as int / 2) % 2 == z && (b as int / 4) % 2 == i && (b as int / 8)
        % 2 == d && (b as int / 16) % 2 == k && (b as int / 32) % 2 == e && (b as int / 64) % 2 == o
        && (b as int / 128) % 2 == n) by (bit_vector)
        requires
            b as int == c + 2 * z + 4 * i + 8 * d + 16 * k + 32 * e + 64 * o + 128 * n,
            c <= 1,
            z <= 1,
            i <= 1,
            d <= 1,
            k <= 1,
            e <= 1,
            o <= 1,
            n <= 1,
    ;
    assert(v as int == v as int % 2 + 2 * ((v as int / 2) % 2) + 4 * ((v as int / 4) % 2) + 8 * ((
    v as int / 8) % 2) + 16 * ((v as int / 16) % 2) + 32 * ((v as int / 32) % 2) + 64 * ((
    v as int / 64) % 2) + 128 * ((v as int / 128) % 2)) by (bit_vector);
}

/// What the status register looks like on the stack.  The byte PHP and
/// BRK push (B and E forced on) always carries both the E and the B
/// bit.  The byte a hardware interrupt entry pushes (B and D cleared)
/// never carries the B bit, and carries E exactly when the live
/// register does — always, on a processor that keeps E high.
pub proof fn lemma_pushed_status_bits(p: Flags)
    ensures
        crate::arith::bit_n((Flags { break_flag: true, expansion: true, ..p }).spec_bits(), 5),
        crate::arith::bit_n((Flags { break_flag: true, expansion: true, ..p }).spec_bits(), 4),
        !crate::arith::bit_n(
            (Flags { break_flag: false, decimal_mode: false, ..p }).spec_bits(),
            4,
        ),
        crate::arith::bit_n((Flags { break_flag: false, decimal_mode: false, ..p }).spec_bits(), 5)
            == p.expansion,
{
    lemma_bits_round_trip(Flags { break_flag: true, expansion: true, ..p }, 0);
    lemma_bits_round_trip(Flags { break_flag: false, decimal_mode: false, ..p }, 0);
}

} // verus!
