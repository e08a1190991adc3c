//! The GPIO controller: bank-wide and per-pin register operations.
//!
//! A [`Gpio`] owns one register window sized to the GPIO block and turns
//! every operation into one or two whole-word accesses at an index computed
//! by [`crate::regs`]. Reading a bank loads its data register; writing a
//! bank stores to it; configuring a pin is a read-modify-write of the 4-bit
//! function field in one of the bank's four configuration registers.
//!
//! The read-modify-write is not atomic: a second thread, process, or
//! controller touching the same configuration register concurrently can lose
//! an update. Callers must serialize configuration and bank-write access to
//! a bank themselves.

use vstd::prelude::*;

use crate::regs::{
    bank_reg_index, cfg_reg_index, apply_pin_cfg, spec_cfg_reg_index, spec_data_reg_index,
    spec_set_cfg_field, spec_cfg_field, lemma_cfg_field_set, lemma_cfg_field_preserved, Bank,
    PinCfg, DATA_REG_OFFSET, GPIO_WINDOW_BYTES, PINS_PER_BANK, WINDOW_WORDS,
};
use crate::window::DevMemIo;

verus! {

/// A controller over the GPIO block's register window.
///
/// The controller exclusively owns its window; the window's words are the
/// registers the operations below read and write.
pub struct Gpio {
    mem_io: DevMemIo,
}

impl View for Gpio {
    type V = Seq<u32>;

    closed spec fn view(&self) -> Seq<u32> {
        self.mem_io@
    }
}

impl Gpio {
    /// A well-formed controller's window spans exactly the GPIO block.
    pub open spec fn wf(&self) -> bool {
        self@.len() == WINDOW_WORDS
    }

    /// A controller over a fresh window sized to the GPIO block, every
    /// register zero.
    pub fn new() -> (g: Gpio)
        ensures
            g.wf(),
            forall|i: int| 0 <= i < g@.len() ==> g@[i] == 0u32,
    {
        let mem_io = DevMemIo::new(GPIO_WINDOW_BYTES);
        Gpio { mem_io }
    }

    /// The controller's register window, for whole-word inspection.
    pub fn window(&self) -> (w: &DevMemIo)
        ensures
            w@ == self@,
    {
        &self.mem_io
    }

    /// Load `bank`'s data register: bit `i` of the result is the current
    /// level of pin `i`.
    pub fn read_bank(&self, bank: Bank) -> (r: u32)
        requires
            self.wf(),
        ensures
            r == self@[spec_data_reg_index(bank)],
    {
        let index = bank_reg_index(bank, DATA_REG_OFFSET);
        self.mem_io.read_word(index)
    }

    /// Store `value` to `bank`'s data register and touch nothing else. Every
    /// output-configured pin of the bank is driven to its bit of `value`;
    /// the store is issued unconditionally even for input-configured pins,
    /// whose level it does not affect.
    pub fn write_bank(&mut self, bank: Bank, value: u32)
        requires
            old(self).wf(),
        ensures
            final(self).wf(),
            final(self)@ == old(self)@.update(spec_data_reg_index(bank), value),
    {
        let index = bank_reg_index(bank, DATA_REG_OFFSET);
        self.mem_io.write_word(index, value);
    }

    /// Set `pin`'s 4-bit function field in `bank`'s configuration registers
    /// to `cfg`'s code by a read-modify-write of the one register that holds
    /// the field. Every other register of the window, and every other field
    /// of that register, keeps its value. Not atomic; see the module
    /// documentation.
    pub fn configure_pin(&mut self, bank: Bank, pin: u32, cfg: PinCfg)
        requires
            old(self).wf(),
            pin < PINS_PER_BANK,
        ensures
            final(self).wf(),
            final(self)@ == old(self)@.update(
                spec_cfg_reg_index(bank, pin),
                spec_set_cfg_field(old(self)@[spec_cfg_reg_index(bank, pin)], pin, cfg.spec_code()),
            ),
            spec_cfg_field(final(self)@[spec_cfg_reg_index(bank, pin)], pin) == cfg.spec_code(),
            forall|other: u32|
                other < PINS_PER_BANK && other / 8 == pin / 8 && other != pin
                    ==> spec_cfg_field(final(self)@[spec_cfg_reg_index(bank, pin)], other)
                        == spec_cfg_field(old(self)@[spec_cfg_reg_index(bank, pin)], other),
    {
        let index = cfg_reg_index(bank, pin);
        let value = self.mem_io.read_word(index);
        let updated = apply_pin_cfg(value, pin, cfg);
        self.mem_io.write_word(index, updated);
        proof {
            lemma_cfg_field_set(value, pin, cfg.spec_code());
            assert forall|other: u32|
                other < PINS_PER_BANK && other / 8 == pin / 8 && other != pin
                    implies spec_cfg_field(updated, other) == spec_cfg_field(value, other) by {
                lemma_cfg_field_preserved(value, pin, cfg.spec_code(), other);
            }
        }
    }
}

/// Law: a bank write followed by a read of the same bank returns the written
/// value. Stated over the window model the two operations' contracts use —
/// storing `value` at a bank's data-register index and then loading that
/// index yields `value`, for every window of the block's size, every bank
/// and every value.
pub proof fn lemma_bank_round_trip(regs: Seq<u32>, bank: Bank, value: u32)
    requires
        regs.len() == WINDOW_WORDS,
    ensures
        regs.update(spec_data_reg_index(bank), value)[spec_data_reg_index(bank)] == value,
{
    assert(0 <= spec_data_reg_index(bank) < WINDOW_WORDS);
}

} // verus!
