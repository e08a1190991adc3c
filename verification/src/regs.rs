//! Hardware constants of the GPIO block and the pure address arithmetic.
//!
//! The constants are a contract with the hardware: they locate the bank
//! register table inside the mapped window and must be reproduced exactly.
//! All address computation is pure arithmetic over them — deterministic,
//! side-effect-free, and independent of any register traffic.

use vstd::prelude::*;

verus! {

/// Physical address of the GPIO register block; the start of the mapped window.
pub const GPIO_PHYS_BASE: i64 = 0x01C2_0000;

/// Size of the mapped register window in bytes (page-aligned).
pub const GPIO_WINDOW_BYTES: usize = 0x1000;

/// Number of 32-bit words in the mapped register window.
pub const WINDOW_WORDS: usize = 0x400;

/// Byte offset of the first bank's register group from the block's base.
pub const BANK_TABLE_ORIGIN: usize = 0x0800;

/// Byte distance between consecutive banks' register groups.
pub const BANK_STRIDE: usize = 0x24;

/// Byte offset, within a bank's register group, of its data (level) register.
pub const DATA_REG_OFFSET: usize = 0x10;

/// Number of pins in a bank, one per bit of the data register.
pub const PINS_PER_BANK: u32 = 32;

/// One of the seven GPIO banks, each a group of up to 32 pins sharing one
/// register group. The order is the hardware's: bank A is the first group in
/// the bank table, bank G the last.
#[derive(Clone, Copy, Debug, PartialEq, Eq, Structural)]
pub enum Bank {
    A,
    B,
    C,
    D,
    E,
    F,
    G,
}

impl Bank {
    /// The bank's position in the bank table. The numeric codes are fixed by
    /// the hardware layout and must not be renumbered.
    pub open spec fn as_int(self) -> int {
        match self {
            Bank::A => 0,
            Bank::B => 1,
            Bank::C => 2,
            Bank::D => 3,
            Bank::E => 4,
            Bank::F => 5,
            Bank::G => 6,
        }
    }

    /// The bank's index as an executable value.
    pub fn index(self) -> (r: usize)
        ensures
            r == self.as_int(),
            r <= 6,
    {
        match self {
            Bank::A => 0,
            Bank::B => 1,
            Bank::C => 2,
            Bank::D => 3,
            Bank::E => 4,
            Bank::F => 5,
            Bank::G => 6,
        }
    }
}

/// Byte offset, relative to the block's base, of the register `reg_offset`
/// bytes into `bank`'s register group.
pub open spec fn spec_bank_byte_offset(bank: Bank, reg_offset: int) -> int {
    BANK_TABLE_ORIGIN + bank.as_int() * BANK_STRIDE + reg_offset
}

/// The same register located as an index into the window's 32-bit words.
pub open spec fn spec_bank_reg_index(bank: Bank, reg_offset: int) -> int {
    spec_bank_byte_offset(bank, reg_offset) / 4
}

/// Word index of the register `reg_offset` bytes into `bank`'s register
/// group. Pure arithmetic: the result depends on `bank` and `reg_offset`
/// alone, never on prior register traffic, and the computation has no side
/// effect.
pub fn bank_reg_index(bank: Bank, reg_offset: usize) -> (r: usize)
    requires
        reg_offset % 4 == 0,
        reg_offset < BANK_STRIDE,
    ensures
        r == spec_bank_reg_index(bank, reg_offset as int),
        4 * r == spec_bank_byte_offset(bank, reg_offset as int),
        r < WINDOW_WORDS,
{
    let n: usize = bank.index();
    (BANK_TABLE_ORIGIN + n * BANK_STRIDE + reg_offset) / 4
}

/// Word index of `bank`'s data register within the window.
pub open spec fn spec_data_reg_index(bank: Bank) -> int {
    spec_bank_reg_index(bank, DATA_REG_OFFSET as int)
}

/// Word index of `bank`'s data register, the register whose bit `i` reads or
/// drives the level of pin `i`.
pub fn data_reg_index(bank: Bank) -> (r: usize)
    ensures
        r == spec_data_reg_index(bank),
        4 * r == spec_bank_byte_offset(bank, DATA_REG_OFFSET as int),
        r < WINDOW_WORDS,
{
    bank_reg_index(bank, DATA_REG_OFFSET)
}

/// A pin's function code as stored in its 4-bit configuration field. Only
/// the input and output selectors are modeled; the remaining codes of the
/// field are alternate functions this library leaves unsupported. The codes
/// are a contract with the hardware and must not be renumbered.
#[derive(Clone, Copy, Debug, PartialEq, Eq, Structural)]
pub enum PinCfg {
    Input,
    Output,
}

impl PinCfg {
    /// The numeric code written into the pin's configuration field.
    pub open spec fn spec_code(self) -> u32 {
        match self {
            PinCfg::Input => 0,
            PinCfg::Output => 1,
        }
    }

    /// The configuration's code as an executable value.
    pub fn code(self) -> (r: u32)
        ensures
            r == self.spec_code(),
            r < 16,
    {
        match self {
            PinCfg::Input => 0,
            PinCfg::Output => 1,
        }
    }
}

/// Byte offset, within a bank's register group, of the configuration
/// register that holds `pin`'s function field: 8 pins per register, 4 bytes
/// per register.
pub open spec fn spec_cfg_reg_offset(pin: u32) -> int {
    4 * (pin as int / 8)
}

/// Bit position of `pin`'s 4-bit function field within its configuration
/// register.
pub open spec fn spec_cfg_shift(pin: u32) -> u32 {
    (4 * (pin as int % 8)) as u32
}

/// The value of `pin`'s 4-bit function field in configuration-register value
/// `v`.
pub open spec fn spec_cfg_field(v: u32, pin: u32) -> u32 {
    (v >> spec_cfg_shift(pin)) & 0xf
}

/// Register value `v` with `pin`'s 4-bit function field replaced by `code`:
/// the field is cleared and the code is shifted into its place.
pub open spec fn spec_set_cfg_field(v: u32, pin: u32, code: u32) -> u32 {
    (v & !(0xfu32 << spec_cfg_shift(pin))) | (code << spec_cfg_shift(pin))
}

/// Byte offset, within a bank's register group, of the configuration
/// register for `pin`. The offset is always one of the four configuration
/// registers at the front of the group, so it stays below the bank stride
/// and is 4-byte aligned.
pub fn cfg_reg_offset(pin: u32) -> (r: usize)
    requires
        pin < PINS_PER_BANK,
    ensures
        r == spec_cfg_reg_offset(pin),
        r % 4 == 0,
        r < BANK_STRIDE,
{
    4 * ((pin / 8) as usize)
}

/// Word index of the configuration register that holds `pin`'s function
/// field within `bank`'s register group.
pub open spec fn spec_cfg_reg_index(bank: Bank, pin: u32) -> int {
    spec_bank_reg_index(bank, spec_cfg_reg_offset(pin))
}

/// Word index of `pin`'s configuration register in `bank`. Pure arithmetic,
/// like [`bank_reg_index`].
pub fn cfg_reg_index(bank: Bank, pin: u32) -> (r: usize)
    requires
        pin < PINS_PER_BANK,
    ensures
        r == spec_cfg_reg_index(bank, pin),
        4 * r == spec_bank_byte_offset(bank, spec_cfg_reg_offset(pin)),
        r < WINDOW_WORDS,
{
    bank_reg_index(bank, cfg_reg_offset(pin))
}

/// Register value `v` with `pin`'s function field set to `cfg`'s code, all
/// other bits unchanged: the read-modify-write value that a pin
/// configuration stores back.
pub fn apply_pin_cfg(value: u32, pin: u32, cfg: PinCfg) -> (r: u32)
    requires
        pin < PINS_PER_BANK,
    ensures
        r == spec_set_cfg_field(value, pin, cfg.spec_code()),
{
    let shift: u32 = 4 * (pin % 8);
    let mask: u32 = 0xfu32 << shift;
    (value & !mask) | (cfg.code() << shift)
}

/// Law: setting a pin's function field stores exactly that code — reading
/// the field back from the updated register value yields `code`.
pub proof fn lemma_cfg_field_set(v: u32, pin: u32, code: u32)
    requires
        pin < PINS_PER_BANK,
        code < 16,
    ensures
        spec_cfg_field(spec_set_cfg_field(v, pin, code), pin) == code,
{
    let s = spec_cfg_shift(pin);
    assert(s == 4 * (pin % 8));
    assert((((v & !(0xfu32 << s)) | (code << s)) >> s) & 0xf == code) by (bit_vector)
        requires
            s == 4 * (pin % 8),
            code < 16,
    ;
}

/// Law: setting one pin's function field preserves every neighbouring field
/// of the same configuration register — for any other pin of that register,
/// its field reads the same before and after.
pub proof fn lemma_cfg_field_preserved(v: u32, pin: u32, code: u32, other: u32)
    requires
        pin < PINS_PER_BANK,
        other < PINS_PER_BANK,
        code < 16,
        other != pin,
        other / 8 == pin / 8,
    ensures
        spec_cfg_field(spec_set_cfg_field(v, pin, code), other) == spec_cfg_field(v, other),
{
    let s = spec_cfg_shift(pin);
    let t = spec_cfg_shift(other);
    assert(s == 4 * (pin % 8));
    assert(t == 4 * (other % 8));
    assert(pin % 8 != other % 8);
    assert((((v & !(0xfu32 << s)) | (code << s)) >> t) & 0xf == (v >> t) & 0xf) by (bit_vector)
        requires
            s == 4 * (pin % 8),
            t == 4 * (other % 8),
            pin % 8 != other % 8,
            code < 16,
    ;
}

/// Law: register addressing never aliases — two distinct registers of the
/// block, each named by its bank and its 4-byte-aligned offset within the
/// bank's register group, resolve to distinct word indices of the window.
pub proof fn lemma_reg_addressing_injective(b1: Bank, o1: int, b2: Bank, o2: int)
    requires
        0 <= o1 < BANK_STRIDE,
        o1 % 4 == 0,
        0 <= o2 < BANK_STRIDE,
        o2 % 4 == 0,
        b1 != b2 || o1 != o2,
    ensures
        spec_bank_reg_index(b1, o1) != spec_bank_reg_index(b2, o2),
{
    let y1 = spec_bank_byte_offset(b1, o1);
    let y2 = spec_bank_byte_offset(b2, o2);
    assert(y1 % 4 == 0 && y2 % 4 == 0);
    assert(b1 != b2 ==> b1.as_int() != b2.as_int());
    assert(y1 != y2);
    assert(y1 / 4 != y2 / 4);
}

/// Law: pins of distinct configuration registers live at distinct word
/// indices, so configuring one cannot touch the other's register at all.
pub proof fn lemma_cfg_regs_distinct(bank: Bank, pin: u32, other: u32)
    requires
        pin < PINS_PER_BANK,
        other < PINS_PER_BANK,
        pin / 8 != other / 8,
    ensures
        spec_cfg_reg_index(bank, pin) != spec_cfg_reg_index(bank, other),
{
    lemma_reg_addressing_injective(bank, spec_cfg_reg_offset(pin), bank, spec_cfg_reg_offset(other));
}

/// Law: a bank's data register is none of its configuration registers, so a
/// pin configuration never disturbs pin levels, in any bank.
pub proof fn lemma_data_reg_distinct_from_cfg_regs(b1: Bank, b2: Bank, pin: u32)
    requires
        pin < PINS_PER_BANK,
    ensures
        spec_data_reg_index(b1) != spec_cfg_reg_index(b2, pin),
{
    lemma_reg_addressing_injective(b1, DATA_REG_OFFSET as int, b2, spec_cfg_reg_offset(pin));
}

} // verus!
