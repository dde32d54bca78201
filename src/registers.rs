//! Processor modes, the banked general-purpose register file and the
//! current / saved status flags.

use vstd::prelude::*;
use crate::flags::StatusFlags;

verus! {

/// Address of the exception vector table.
pub const BASE_ADDRESS: u32 = 0x0000_0000;
/// Slots of the shared bank: r0 to r14.
pub const GENERAL_PURPOSE_REGISTERS_COUNT: usize = 15;
pub const FIQ_REGISTERS_COUNT: usize = 7;
pub const SUPERVISOR_REGISTERS_COUNT: usize = 2;
pub const ABORT_REGISTERS_COUNT: usize = 2;
pub const IRQ_REGISTERS_COUNT: usize = 2;
pub const UNDEFINED_REGISTERS_COUNT: usize = 2;

/// The processor's privilege and banking context.
#[derive(Clone, Copy, PartialEq, Eq, Structural, Debug, Hash)]
pub enum Mode {
    System,
    Fiq,
    Supervisor,
    Abort,
    Irq,
    Undefined,
}

/// The five mode bits of the status word for each mode.
pub open spec fn mode_bits(mode: Mode) -> u32 {
    match mode {
        Mode::System => 0x1F,
        Mode::Fiq => 0x11,
        Mode::Irq => 0x12,
        Mode::Supervisor => 0x13,
        Mode::Abort => 0x17,
        Mode::Undefined => 0x1B,
    }
}

impl Mode {
    /// The value of the mode field of the status word for this mode.
    pub fn bits(self) -> (r: u32)
        ensures
            r == mode_bits(self),
    {
        match self {
            Mode::System => 0x1F,
            Mode::Fiq => 0x11,
            Mode::Irq => 0x12,
            Mode::Supervisor => 0x13,
            Mode::Abort => 0x17,
            Mode::Undefined => 0x1B,
        }
    }

    /// The mode that a mode field names, if any.
    pub fn from_bits(field: u32) -> (r: Option<Mode>)
        ensures
            r matches Some(m) ==> mode_bits(m) == field,
            r is None ==> forall|m: Mode| mode_bits(m) != field,
    {
        match field {
            0x1F => Some(Mode::System),
            0x11 => Some(Mode::Fiq),
            0x12 => Some(Mode::Irq),
            0x13 => Some(Mode::Supervisor),
            0x17 => Some(Mode::Abort),
            0x1B => Some(Mode::Undefined),
            _ => None,
        }
    }
}

/// A physical bank of register storage.
#[derive(Clone, Copy, PartialEq, Eq, Structural, Debug)]
pub enum Bank {
    Base,
    Fiq,
    Supervisor,
    Abort,
    Irq,
    Undefined,
}

/// Number of slots of each bank.
pub open spec fn bank_capacity(bank: Bank) -> int {
    match bank {
        Bank::Base => GENERAL_PURPOSE_REGISTERS_COUNT as int,
        Bank::Fiq => FIQ_REGISTERS_COUNT as int,
        Bank::Supervisor => SUPERVISOR_REGISTERS_COUNT as int,
        Bank::Abort => ABORT_REGISTERS_COUNT as int,
        Bank::Irq => IRQ_REGISTERS_COUNT as int,
        Bank::Undefined => UNDEFINED_REGISTERS_COUNT as int,
    }
}

/// For each mode: its own bank and the first register index that the bank serves.
pub open spec fn layout(mode: Mode) -> (Bank, int) {
    match mode {
        Mode::System => (Bank::Base, 0),
        Mode::Fiq => (Bank::Fiq, 8),
        Mode::Supervisor => (Bank::Supervisor, 13),
        Mode::Abort => (Bank::Abort, 13),
        Mode::Irq => (Bank::Irq, 13),
        Mode::Undefined => (Bank::Undefined, 13),
    }
}

/// The bank and the offset in it that register `index` names in `mode`:
/// indices below the mode's first banked index use the shared bank.
pub open spec fn slot(mode: Mode, index: int) -> (Bank, int) {
    let (bank, first) = layout(mode);
    if index < first {
        (Bank::Base, index)
    } else {
        (bank, index - first)
    }
}

/// True when `mode` has a private slot of its own for register `index`.
pub open spec fn is_banked(mode: Mode, index: int) -> bool {
    0 <= index < GENERAL_PURPOSE_REGISTERS_COUNT && slot(mode, index).0 != Bank::Base
}

/// Computes `slot`.
fn resolve(mode: Mode, index: usize) -> (r: (Bank, usize))
    requires
        index < GENERAL_PURPOSE_REGISTERS_COUNT,
    ensures
        (r.0, r.1 as int) == slot(mode, index as int),
        r.1 < bank_capacity(r.0),
{
    let (bank, first): (Bank, usize) = match mode {
        Mode::System => (Bank::Base, 0),
        Mode::Fiq => (Bank::Fiq, 8),
        Mode::Supervisor => (Bank::Supervisor, 13),
        Mode::Abort => (Bank::Abort, 13),
        Mode::Irq => (Bank::Irq, 13),
        Mode::Undefined => (Bank::Undefined, 13),
    };
    if index < first {
        (Bank::Base, index)
    } else {
        (bank, index - first)
    }
}

/// The general-purpose registers: a shared bank, one private bank per
/// exception mode, and the program counter.
pub struct Registers {
    pub register: [u32; GENERAL_PURPOSE_REGISTERS_COUNT],
    pub program_counter: u32,
    pub fiq_register: [u32; FIQ_REGISTERS_COUNT],
    pub svc_register: [u32; SUPERVISOR_REGISTERS_COUNT],
    pub abort_register: [u32; ABORT_REGISTERS_COUNT],
    pub irq_register: [u32; IRQ_REGISTERS_COUNT],
    pub und_register: [u32; UNDEFINED_REGISTERS_COUNT],
}

impl Registers {
    /// The value held in slot `k` of `bank`.
    pub open spec fn bank_slot(&self, bank: Bank, k: int) -> u32 {
        match bank {
            Bank::Base => self.register@[k],
            Bank::Fiq => self.fiq_register@[k],
            Bank::Supervisor => self.svc_register@[k],
            Bank::Abort => self.abort_register@[k],
            Bank::Irq => self.irq_register@[k],
            Bank::Undefined => self.und_register@[k],
        }
    }

    /// What register `index` reads in `mode`.
    pub open spec fn read(&self, mode: Mode, index: int) -> u32 {
        self.bank_slot(slot(mode, index).0, slot(mode, index).1)
    }

    /// True when every register of every bank is zero.
    pub open spec fn all_zero(&self) -> bool {
        forall|bank: Bank, k: int| 0 <= k < bank_capacity(bank) ==> #[trigger] self.bank_slot(bank, k) == 0
    }

    /// `after` is `before` once `value` was written to register `index` in `mode`:
    /// that slot holds `value`, every other slot and the program counter are kept.
    pub open spec fn is_write(before: Registers, after: Registers, mode: Mode, index: int, value: u32) -> bool {
        &&& after.program_counter == before.program_counter
        &&& forall|bank: Bank, k: int|
            0 <= k < bank_capacity(bank) ==> #[trigger] after.bank_slot(bank, k) == if (bank, k)
                == slot(mode, index) {
                value
            } else {
                before.bank_slot(bank, k)
            }
    }

    /// All registers zero, the program counter at the vector table.
    pub fn new() -> (r: Registers)
        ensures
            r.all_zero(),
            r.program_counter == BASE_ADDRESS,
    {
        let r = Registers {
            register: [0u32; GENERAL_PURPOSE_REGISTERS_COUNT],
            program_counter: BASE_ADDRESS,
            fiq_register: [0u32; FIQ_REGISTERS_COUNT],
            svc_register: [0u32; SUPERVISOR_REGISTERS_COUNT],
            abort_register: [0u32; ABORT_REGISTERS_COUNT],
            irq_register: [0u32; IRQ_REGISTERS_COUNT],
            und_register: [0u32; UNDEFINED_REGISTERS_COUNT],
        };
        r
    }
    /// Writes slot `index` of the shared bank.
    pub fn set_register(&mut self, index: usize, value: u32)
        requires
            index < GENERAL_PURPOSE_REGISTERS_COUNT,
        ensures
            Registers::is_write(*old(self), *final(self), Mode::System, index as int, value),
    {
        self.register[index] = value;
    }

    /// Reads slot `index` of the shared bank.
    pub fn get_register(&self, index: usize) -> (r: u32)
        requires
            index < GENERAL_PURPOSE_REGISTERS_COUNT,
        ensures
            r == self.read(Mode::System, index as int),
            r == self.register@[index as int],
    {
        self.register[index]
    }

    /// Writes register `index` (r0 to r14) as seen from `mode`.
    pub fn set_register_by_mode(&mut self, mode: Mode, index: usize, value: u32)
        requires
            index < GENERAL_PURPOSE_REGISTERS_COUNT,
        ensures
            Registers::is_write(*old(self), *final(self), mode, index as int, value),
    {
        let (bank, k) = resolve(mode, index);
        match bank {
            Bank::Base => self.register[k] = value,
            Bank::Fiq => self.fiq_register[k] = value,
            Bank::Supervisor => self.svc_register[k] = value,
            Bank::Abort => self.abort_register[k] = value,
            Bank::Irq => self.irq_register[k] = value,
            Bank::Undefined => self.und_register[k] = value,
        }
    }

    /// Reads register `index` (r0 to r14) as seen from `mode`.
    pub fn get_register_by_mode(&self, mode: Mode, index: usize) -> (r: u32)
        requires
            index < GENERAL_PURPOSE_REGISTERS_COUNT,
        ensures
            r == self.read(mode, index as int),
    {
        let (bank, k) = resolve(mode, index);
        match bank {
            Bank::Base => self.register[k],
            Bank::Fiq => self.fiq_register[k],
            Bank::Supervisor => self.svc_register[k],
            Bank::Abort => self.abort_register[k],
            Bank::Irq => self.irq_register[k],
            Bank::Undefined => self.und_register[k],
        }
    }
}


/// A write through a mode's private bank reads back in that mode, and no mode
/// whose slot for that index differs observes it.
pub proof fn lemma_banked_write_isolated(
    before: Registers,
    after: Registers,
    mode: Mode,
    index: int,
    value: u32,
)
    requires
        mode != Mode::System,
        is_banked(mode, index),
        Registers::is_write(before, after, mode, index, value),
    ensures
        after.read(mode, index) == value,
        forall|other: Mode|
            slot(other, index) != slot(mode, index) ==> #[trigger] after.read(other, index)
                == before.read(other, index),
{
    assert(after.bank_slot(slot(mode, index).0, slot(mode, index).1) == value);
    assert forall|other: Mode| slot(other, index) != slot(mode, index) implies #[trigger] after.read(
        other,
        index,
    ) == before.read(other, index) by {
        assert(after.bank_slot(slot(other, index).0, slot(other, index).1) == before.bank_slot(
            slot(other, index).0,
            slot(other, index).1,
        ));
    }
}

/// Registers r0 to r7 read the same in every mode.
pub proof fn lemma_low_registers_shared(regs: Registers, mode: Mode, index: int)
    requires
        0 <= index < 8,
    ensures
        regs.read(mode, index) == regs.read(Mode::System, index),
{
}

/// The current status flags and one saved copy per exception mode.
pub struct StatusRegister {
    pub cpsr: StatusFlags,
    pub spsr_fiq: StatusFlags,
    pub spsr_svc: StatusFlags,
    pub spsr_abt: StatusFlags,
    pub spsr_irq: StatusFlags,
    pub spsr_und: StatusFlags,
}

impl StatusRegister {
    /// The saved flags of `mode`; System mode has none.
    pub open spec fn saved_of(&self, mode: Mode) -> Option<StatusFlags> {
        match mode {
            Mode::System => None,
            Mode::Fiq => Some(self.spsr_fiq),
            Mode::Supervisor => Some(self.spsr_svc),
            Mode::Abort => Some(self.spsr_abt),
            Mode::Irq => Some(self.spsr_irq),
            Mode::Undefined => Some(self.spsr_und),
        }
    }

    /// Every flag set empty.
    pub fn new() -> (r: StatusRegister)
        ensures
            r.cpsr@ == 0,
            forall|m: Mode| m != Mode::System ==> (#[trigger] r.saved_of(m)).unwrap()@ == 0,
    {
        StatusRegister {
            cpsr: StatusFlags::empty(),
            spsr_fiq: StatusFlags::empty(),
            spsr_svc: StatusFlags::empty(),
            spsr_abt: StatusFlags::empty(),
            spsr_irq: StatusFlags::empty(),
            spsr_und: StatusFlags::empty(),
        }
    }

    /// The current flags.
    pub fn active(&self) -> (r: StatusFlags)
        ensures
            r == self.cpsr,
    {
        self.cpsr
    }

    /// Replaces the current flags; the saved ones are kept.
    pub fn set_active(&mut self, flags: StatusFlags)
        ensures
            final(self).cpsr == flags,
            forall|m: Mode| #[trigger] final(self).saved_of(m) == old(self).saved_of(m),
    {
        self.cpsr = flags;
    }

    /// The flags saved on entry to `mode`.
    pub fn saved(&self, mode: Mode) -> (r: StatusFlags)
        requires
            mode != Mode::System,
        ensures
            self.saved_of(mode) == Some(r),
    {
        match mode {
            Mode::Fiq => self.spsr_fiq,
            Mode::Supervisor => self.spsr_svc,
            Mode::Abort => self.spsr_abt,
            Mode::Irq => self.spsr_irq,
            _ => self.spsr_und,
        }
    }

    /// Replaces the saved flags of `mode`; the current flags and the other
    /// saved ones are kept.
    pub fn set_saved(&mut self, mode: Mode, flags: StatusFlags)
        requires
            mode != Mode::System,
        ensures
            final(self).cpsr == old(self).cpsr,
            final(self).saved_of(mode) == Some(flags),
            forall|m: Mode|
                m != mode ==> #[trigger] final(self).saved_of(m) == old(self).saved_of(m),
    {
        match mode {
            Mode::Fiq => self.spsr_fiq = flags,
            Mode::Supervisor => self.spsr_svc = flags,
            Mode::Abort => self.spsr_abt = flags,
            Mode::Irq => self.spsr_irq = flags,
            _ => self.spsr_und = flags,
        }
    }
}

} // verus!
