//! The register file: eight 8-bit registers seen as four pairs, the stack
//! pointer, the program counter, the four flags and the interrupt latch.

use crate::bits::{
    bit, lemma_bit_set_clear, lemma_high_masks, lemma_low_nibble_kept, lemma_mask_low_nibble,
    lemma_pack_bytes, lemma_split_word, test_bit,
};
use crate::cpu::{Cpu, Flag, HLMode, Register};
use crate::memory::{Memory, MemoryMap};
use vstd::pervasive::unreached;
use vstd::prelude::*;

verus! {

/// The mask of the Zero flag.
const Z_BIT: u8 = 0b1000_0000;

/// The mask of the Subtract flag.
const N_BIT: u8 = 0b0100_0000;

/// The mask of the Half-carry flag.
const H_BIT: u8 = 0b0010_0000;

/// The mask of the Carry flag.
const C_BIT: u8 = 0b0001_0000;

/// The accumulator and the flag byte.
#[derive(Copy, Clone, Debug, PartialEq)]
pub struct AccumulatorAndFlags {
    pub accumulator: u8,
    pub flags: Flags,
}

/// The flag byte: Zero in bit 7, Subtract in bit 6, Half-carry in bit 5,
/// Carry in bit 4. The low four bits are not used.
#[derive(Copy, Clone, Debug, PartialEq)]
pub struct Flags {
    pub bits: u8,
}

impl Flags {
    /// Whether `flag` is set.
    pub open spec fn spec_get(&self, flag: Flag) -> bool {
        bit(self.bits, flag.position())
    }

    /// Whether the four unused bits are zero.
    pub open spec fn wf(&self) -> bool {
        self.bits % 16 == 0
    }

    /// No flag set.
    pub fn new() -> (flags: Self)
        ensures
            flags.bits == 0,
            flags.wf(),
    {
        Flags { bits: 0 }
    }

    /// Gives `flag` the state `value` and leaves the rest of the byte alone.
    pub fn set(&mut self, flag: Flag, value: bool)
        ensures
            forall|other: Flag|
                #[trigger] final(self).spec_get(other) == (if other == flag {
                    value
                } else {
                    old(self).spec_get(other)
                }),
            final(self).bits % 16 == old(self).bits % 16,
            old(self).wf() ==> final(self).wf(),
    {
        let flag_bit = match flag {
            Flag::Z => Z_BIT,
            Flag::N => N_BIT,
            Flag::H => H_BIT,
            Flag::C => C_BIT,
        };
        proof {
            lemma_high_masks(self.bits);
            lemma_low_nibble_kept(self.bits, flag.position());
        }
        if value {
            self.bits |= flag_bit;
        } else {
            self.bits &= !flag_bit;
        }
        proof {
            assert forall|other: Flag|
                #[trigger] self.spec_get(other) == (if other == flag {
                    value
                } else {
                    old(self).spec_get(other)
                }) by {
                lemma_bit_set_clear(old(self).bits, flag.position(), other.position());
            }
        }
    }

    /// Whether `flag` is set.
    pub fn get(&self, flag: Flag) -> (value: bool)
        ensures
            value == self.spec_get(flag),
    {
        let flag_bit = match flag {
            Flag::Z => Z_BIT,
            Flag::N => N_BIT,
            Flag::H => H_BIT,
            Flag::C => C_BIT,
        };
        proof {
            lemma_high_masks(self.bits);
        }
        (self.bits & flag_bit) != 0
    }
}

impl Default for Flags {
    fn default() -> (flags: Self)
        ensures
            flags.bits == 0,
            flags.wf(),
    {
        Self::new()
    }
}

/// The B/C pair.
#[derive(Copy, Clone, Debug, PartialEq)]
pub struct BAndC {
    pub b: u8,
    pub c: u8,
}

/// The D/E pair.
#[derive(Copy, Clone, Debug, PartialEq)]
pub struct DAndE {
    pub d: u8,
    pub e: u8,
}

/// The H/L pair.
#[derive(Copy, Clone, Debug, PartialEq)]
pub struct HAndL {
    pub h: u8,
    pub l: u8,
}

/// The stack pointer.
#[derive(Copy, Clone, Debug, PartialEq)]
pub struct StackPointer {
    pub stackpointer: u16,
}

/// The program counter.
#[derive(Copy, Clone, Debug, PartialEq)]
pub struct ProgramCounter {
    pub programcounter: u16,
}

/// The interrupt master enable latch, and whether the instruction after the
/// one that asked for it has gone by.
#[derive(Copy, Clone, Debug, PartialEq)]
pub struct InterruptMasterEnable {
    pub ime: bool,
    pub has_waited: bool,
}

/// The five interrupt lines that a control byte stands for.
#[derive(Copy, Clone, Debug, PartialEq, Eq, Structural)]
pub struct InterruptLines {
    pub joypad: bool,
    pub serial: bool,
    pub timer: bool,
    pub lcd: bool,
    pub vblank: bool,
}

impl InterruptLines {
    /// The lines of `byte`: vertical blank in bit 0, LCD in bit 1, timer in
    /// bit 2, serial in bit 3, joypad in bit 4.
    pub open spec fn of(byte: u8) -> InterruptLines {
        InterruptLines {
            joypad: bit(byte, 4),
            serial: bit(byte, 3),
            timer: bit(byte, 2),
            lcd: bit(byte, 1),
            vblank: bit(byte, 0),
        }
    }

    /// Takes a control byte apart into its five lines.
    pub fn classify(byte: u8) -> (lines: Self)
        ensures
            lines == Self::of(byte),
    {
        InterruptLines {
            joypad: test_bit(byte, 4),
            serial: test_bit(byte, 3),
            timer: test_bit(byte, 2),
            lcd: test_bit(byte, 1),
            vblank: test_bit(byte, 0),
        }
    }
}

impl InterruptMasterEnable {
    /// Reads the interrupt enable byte at 0xFFFF and says which of the five
    /// lines it enables. Neither the processor nor the bus is changed.
    pub fn check_interrupts(cpu: &mut Cpu, memory: &mut MemoryMap) -> (lines: InterruptLines)
        ensures
            lines == InterruptLines::of(old(memory)@[0xFFFF]),
            *final(cpu) == *old(cpu),
            *final(memory) == *old(memory),
    {
        let enabled = memory.read(0xFFFF);
        InterruptLines::classify(enabled)
    }
}

/// The sixteen bits that two bytes make: `high` in bits 8 to 15, `low` in
/// bits 0 to 7.
pub open spec fn compose(high: u8, low: u8) -> u16 {
    (high * 256 + low) as u16
}

/// The register file.
#[derive(Copy, Clone, Debug, PartialEq)]
pub struct Registers {
    pub af: AccumulatorAndFlags,
    pub bc: BAndC,
    pub de: DAndE,
    pub hl: HAndL,
    pub sp: StackPointer,
    pub pc: ProgramCounter,
    pub ime: InterruptMasterEnable,
}

impl Registers {
    /// Whether the unused bits of the flag byte are zero.
    pub open spec fn wf(&self) -> bool {
        self.af.flags.wf()
    }

    /// The sixteen bits that a wide selector names.
    pub open spec fn pair(&self, register: Register) -> u16
        recommends
            register.is_wide(),
    {
        match register {
            Register::AF => compose(self.af.accumulator, self.af.flags.bits),
            Register::BC => compose(self.bc.b, self.bc.c),
            Register::DE => compose(self.de.d, self.de.e),
            Register::HL(_) => compose(self.hl.h, self.hl.l),
            Register::SP => self.sp.stackpointer,
            Register::PC => self.pc.programcounter,
            _ => 0,
        }
    }

    /// The register file after a read through `register`: L is stepped by
    /// one, wrapping at 256 and without carry into H, when the selector is the
    /// H/L pair in Increment or Decrement mode; nothing changes otherwise.
    pub open spec fn after_read(&self, register: Register) -> Registers {
        match register {
            Register::HL(HLMode::Increment) => Registers {
                hl: HAndL { h: self.hl.h, l: ((self.hl.l + 1) % 256) as u8 },
                ..*self
            },
            Register::HL(HLMode::Decrement) => Registers {
                hl: HAndL { h: self.hl.h, l: ((self.hl.l + 255) % 256) as u8 },
                ..*self
            },
            _ => *self,
        }
    }

    /// The register file after `value` is written to `register`: bits 8 to
    /// 15 go to the first register of a pair and bits 0 to 7 to the second,
    /// of which the flag byte keeps only its four flags.
    pub open spec fn after_write(&self, register: Register, value: u16) -> Registers
        recommends
            register.is_wide(),
    {
        let high = (value / 256) as u8;
        let low = (value % 256) as u8;
        match register {
            Register::AF => Registers {
                af: AccumulatorAndFlags { accumulator: high, flags: Flags { bits: low & 0xF0 } },
                ..*self
            },
            Register::BC => Registers { bc: BAndC { b: high, c: low }, ..*self },
            Register::DE => Registers { de: DAndE { d: high, e: low }, ..*self },
            Register::HL(_) => Registers { hl: HAndL { h: high, l: low }, ..*self },
            Register::SP => Registers { sp: StackPointer { stackpointer: value }, ..*self },
            Register::PC => Registers { pc: ProgramCounter { programcounter: value }, ..*self },
            _ => *self,
        }
    }

    /// Reads the sixteen bits that `register` names. Through the H/L pair in
    /// Increment or Decrement mode the value is taken first and L stepped
    /// afterwards.
    pub fn read_u16(&mut self, register: Register) -> (value: u16)
        requires
            register.is_wide(),
        ensures
            value == old(self).pair(register),
            *final(self) == old(self).after_read(register),
            old(self).wf() ==> final(self).wf(),
    {
        match register {
            Register::AF => {
                proof {
                    lemma_pack_bytes(self.af.accumulator, self.af.flags.bits);
                }
                ((self.af.accumulator as u16) << 8) | (self.af.flags.bits as u16)
            },
            Register::BC => {
                proof {
                    lemma_pack_bytes(self.bc.b, self.bc.c);
                }
                ((self.bc.b as u16) << 8) | (self.bc.c as u16)
            },
            Register::DE => {
                proof {
                    lemma_pack_bytes(self.de.d, self.de.e);
                }
                ((self.de.d as u16) << 8) | (self.de.e as u16)
            },
            Register::HL(hlm) => {
                proof {
                    lemma_pack_bytes(self.hl.h, self.hl.l);
                }
                let return_value = ((self.hl.h as u16) << 8) | (self.hl.l as u16);
                match hlm {
                    HLMode::Normal => {},
                    HLMode::Increment => {
                        self.hl.l = self.hl.l.wrapping_add(1);
                    },
                    HLMode::Decrement => {
                        self.hl.l = self.hl.l.wrapping_sub(1);
                    },
                }
                return_value
            },
            Register::SP => self.sp.stackpointer,
            Register::PC => self.pc.programcounter,
            _ => unreached(),
        }
    }

    /// Writes `value` to the sixteen bits that `register` names.
    pub fn write_u16(&mut self, register: Register, value: u16)
        requires
            register.is_wide(),
        ensures
            *final(self) == old(self).after_write(register, value),
            old(self).wf() || register == Register::AF ==> final(self).wf(),
    {
        proof {
            lemma_split_word(value);
            lemma_mask_low_nibble(value);
        }
        let high_byte = (value >> 8) as u8;
        let low_byte = (value & 0xFF) as u8;
        match register {
            Register::AF => {
                self.af.accumulator = high_byte;
                self.af.flags.bits = low_byte & 0xF0;
            },
            Register::BC => {
                self.bc.b = high_byte;
                self.bc.c = low_byte;
            },
            Register::DE => {
                self.de.d = high_byte;
                self.de.e = low_byte;
            },
            Register::HL(_) => {
                self.hl.h = high_byte;
                self.hl.l = low_byte;
            },
            Register::SP => {
                self.sp.stackpointer = value;
            },
            Register::PC => {
                self.pc.programcounter = value;
            },
            _ => unreached(),
        }
    }
}

/// Writing sixteen bits to a register and reading it back gives the same
/// sixteen bits, but for the accumulator and flags, where the low four bits
/// come back as zero.
pub proof fn lemma_write_then_read(registers: Registers, register: Register, value: u16)
    requires
        register.is_wide(),
    ensures
        registers.after_write(register, value).pair(register) == (if register == Register::AF {
            value & 0xFFF0
        } else {
            value
        }),
{
    lemma_mask_low_nibble(value);
}

/// A write changes the register it names and no other, and leaves the
/// interrupt latch alone.
pub proof fn lemma_write_keeps_others(
    registers: Registers,
    register: Register,
    value: u16,
    other: Register,
)
    requires
        register.is_wide(),
        other.is_wide(),
        !register.same_storage(other),
    ensures
        registers.after_write(register, value).pair(other) == registers.pair(other),
        registers.after_write(register, value).ime == registers.ime,
{
}

/// A read through the H/L pair in Increment mode gives the pair as it is,
/// and the pair then holds that value with its low byte one higher, 0xFF
/// turning into 0x00 without carry into the high byte.
pub proof fn lemma_read_increment(registers: Registers)
    ensures
        registers.pair(Register::HL(HLMode::Increment)) == registers.pair(
            Register::HL(HLMode::Normal),
        ),
        registers.after_read(Register::HL(HLMode::Increment)).pair(Register::HL(HLMode::Normal))
            == ({
            let value = registers.pair(Register::HL(HLMode::Normal));
            (value / 256) * 256 + (value % 256 + 1) % 256
        }),
{
}

/// A read through the H/L pair in Decrement mode gives the pair as it is,
/// and the pair then holds that value with its low byte one lower, 0x00
/// turning into 0xFF without borrow from the high byte.
pub proof fn lemma_read_decrement(registers: Registers)
    ensures
        registers.pair(Register::HL(HLMode::Decrement)) == registers.pair(
            Register::HL(HLMode::Normal),
        ),
        registers.after_read(Register::HL(HLMode::Decrement)).pair(Register::HL(HLMode::Normal))
            == ({
            let value = registers.pair(Register::HL(HLMode::Normal));
            (value / 256) * 256 + (value % 256 + 255) % 256
        }),
{
}

} // verus!
