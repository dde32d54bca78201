//! The processor core: register file, status register and run state, with
//! exception entry and reset.

use vstd::prelude::*;
use crate::exceptions::{
    entry_mode_of, forced_flags_of, is_selection, select, vector_offset, ExceptionType,
};
use crate::flags::{StatusFlags, ALL_FLAGS, FIQ_DISABLE, IRQ_DISABLE, MODE_MASK, STATE};
use crate::registers::{
    bank_capacity, mode_bits, Bank, Mode, Registers, StatusRegister, BASE_ADDRESS,
    GENERAL_PURPOSE_REGISTERS_COUNT,
};

verus! {

pub const CPU_CYCLES_PER_SECOND: u64 = 1 << 24;

/// Width of the instruction set being run.
#[derive(Clone, Copy, PartialEq, Eq, Structural, Debug)]
pub enum State {
    ARM,
    THUMB,
}

/// The status word right after entry into `kind`, from the word `flags`: the
/// forced disable flags are added, the run state is back to 32-bit and the
/// mode field names the entry mode; every other bit is kept.
pub open spec fn entry_flags(flags: u32, kind: ExceptionType) -> u32 {
    ((flags | forced_flags_of(kind)) & !(STATE | MODE_MASK)) | mode_bits(entry_mode_of(kind))
}

pub struct Cpu {
    state: State,
    mode: Mode,
    status_register: StatusRegister,
    registers: Registers,
}

impl Cpu {
    pub closed spec fn spec_state(&self) -> State {
        self.state
    }

    pub closed spec fn spec_mode(&self) -> Mode {
        self.mode
    }

    pub closed spec fn spec_status(&self) -> StatusRegister {
        self.status_register
    }

    pub closed spec fn spec_registers(&self) -> Registers {
        self.registers
    }

    /// The mode tag agrees with the mode field of the current flags, and the
    /// run state with their state bit.
    pub open spec fn wf(&self) -> bool {
        &&& self.spec_status().cpsr@ & MODE_MASK == mode_bits(self.spec_mode())
        &&& (self.spec_state() == State::THUMB) == (self.spec_status().cpsr@ & STATE != 0)
    }

    /// `after` is `before` once exception `kind` was entered.
    pub open spec fn is_entry(before: Cpu, after: Cpu, kind: ExceptionType) -> bool {
        let target = entry_mode_of(kind);
        &&& after.spec_mode() == target
        &&& after.spec_state() == State::ARM
        &&& after.spec_status().cpsr@ == entry_flags(before.spec_status().cpsr@, kind)
        &&& if kind == ExceptionType::Reset {
            forall|m: Mode| #[trigger] after.spec_status().saved_of(m) == before.spec_status().saved_of(m)
        } else {
            &&& after.spec_status().saved_of(target) == Some(before.spec_status().cpsr)
            &&& forall|m: Mode|
                m != target ==> #[trigger] after.spec_status().saved_of(m)
                    == before.spec_status().saved_of(m)
        }
        &&& forall|bank: Bank, k: int|
            0 <= k < bank_capacity(bank) ==> #[trigger] after.spec_registers().bank_slot(bank, k)
                == before.spec_registers().bank_slot(bank, k)
        &&& after.spec_registers().program_counter as int == BASE_ADDRESS as int + vector_offset(
            kind,
        ) as int
    }

    /// Enters exception `kind`: saves the current flags in the entry mode's
    /// saved slot (not for a reset), switches to the entry mode's bank, forces
    /// the disable flags, returns to 32-bit instructions and jumps to the
    /// kind's vector.
    pub fn enter_exception(&mut self, kind: ExceptionType)
        ensures
            Cpu::is_entry(*old(self), *final(self), kind),
            final(self).wf(),
    {
        let d = kind.descriptor();
        let active = self.status_register.active();
        if !matches!(kind, ExceptionType::Reset) {
            self.status_register.set_saved(d.entry_mode, active);
        }
        let mb = d.entry_mode.bits();
        let cleared = active.union(d.interrupt_flags).difference(
            StatusFlags::from_bits_truncate(STATE | MODE_MASK),
        );
        let mode_field = StatusFlags::from_bits_truncate(mb);
        let entered = cleared.union(mode_field);
        let ghost f = active@;
        let ghost forced = d.interrupt_flags@;
        assert((STATE | MODE_MASK) & ALL_FLAGS == STATE | MODE_MASK) by (bit_vector);
        assert(mb & ALL_FLAGS == mb && (((f | forced) & !(STATE | MODE_MASK)) | mb) & MODE_MASK == mb
            && (((f | forced) & !(STATE | MODE_MASK)) | mb) & STATE == 0) by (bit_vector)
            requires
                mb < 0x20,
        ;
        self.status_register.set_active(entered);
        self.mode = d.entry_mode;
        self.state = State::ARM;
        self.registers.program_counter = BASE_ADDRESS + d.address_offset;
    }

    /// A core after reset: see `reset`.
    pub fn new() -> (r: Cpu)
        ensures
            r.wf(),
            r.spec_mode() == Mode::Supervisor,
            r.spec_state() == State::ARM,
            r.spec_status().cpsr@ == mode_bits(Mode::Supervisor) | IRQ_DISABLE | FIQ_DISABLE,
            r.spec_registers().program_counter == BASE_ADDRESS,
            r.spec_registers().all_zero(),
            forall|m: Mode|
                m != Mode::System ==> (#[trigger] r.spec_status().saved_of(m)).unwrap()@ == 0,
    {
        let mut cpu = Cpu {
            state: State::ARM,
            mode: Mode::System,
            status_register: StatusRegister::new(),
            registers: Registers::new(),
        };
        cpu.reset();
        cpu
    }

    /// Cold start: every general-purpose register and the current flags
    /// cleared, 32-bit instructions, then entry into the reset exception, which
    /// saves nothing: the saved flag sets are kept. Afterwards the core is in
    /// Supervisor mode with both interrupts disabled and the program counter at
    /// the vector table.
    pub fn reset(&mut self)
        ensures
            final(self).wf(),
            final(self).spec_mode() == Mode::Supervisor,
            final(self).spec_state() == State::ARM,
            final(self).spec_status().cpsr@ == mode_bits(Mode::Supervisor) | IRQ_DISABLE
                | FIQ_DISABLE,
            forall|m: Mode| #[trigger] final(self).spec_status().saved_of(m) == old(
                self,
            ).spec_status().saved_of(m),
            final(self).spec_registers().program_counter == BASE_ADDRESS,
            final(self).spec_registers().all_zero(),
    {
        self.registers = Registers::new();
        self.status_register.set_active(StatusFlags::empty());
        self.state = State::ARM;
        self.enter_exception(ExceptionType::Reset);
        assert(((0u32 | (IRQ_DISABLE | FIQ_DISABLE)) & !(STATE | MODE_MASK)) | 0x13u32 == 0x13u32
            | IRQ_DISABLE | FIQ_DISABLE) by (bit_vector);
    }

    /// Dispatches the most urgent of the pending exceptions (see `select`) and
    /// returns its kind.
    pub fn dispatch(&mut self, pending: &[ExceptionType]) -> (r: ExceptionType)
        requires
            pending@.len() > 0,
        ensures
            is_selection(pending@, r),
            Cpu::is_entry(*old(self), *final(self), r),
            final(self).wf(),
    {
        let kind = select(pending);
        self.enter_exception(kind);
        kind
    }

    /// Replaces the current flags, switching to the mode that their mode field
    /// names and to the run state that their state bit gives. Returns false, and
    /// changes nothing, when the mode field names no mode.
    pub fn set_active_flags(&mut self, flags: StatusFlags) -> (r: bool)
        ensures
            r == exists|m: Mode| mode_bits(m) == flags@ & MODE_MASK,
            r ==> {
                &&& mode_bits(final(self).spec_mode()) == flags@ & MODE_MASK
                &&& final(self).spec_status().cpsr == flags
                &&& final(self).spec_state() == if flags@ & STATE != 0 {
                    State::THUMB
                } else {
                    State::ARM
                }
                &&& forall|m: Mode| #[trigger] final(self).spec_status().saved_of(m)
                    == old(self).spec_status().saved_of(m)
                &&& final(self).spec_registers() == old(self).spec_registers()
            },
            !r ==> *final(self) == *old(self),
            r ==> final(self).wf(),
    {
        let bits = flags.bits();
        match Mode::from_bits(bits & MODE_MASK) {
            Some(mode) => {
                self.status_register.set_active(flags);
                self.mode = mode;
                self.state = if bits & STATE != 0 {
                    State::THUMB
                } else {
                    State::ARM
                };
                true
            },
            None => false,
        }
    }

    /// Run state.
    pub fn state(&self) -> (r: State)
        ensures
            r == self.spec_state(),
    {
        self.state
    }

    /// Current mode.
    pub fn mode(&self) -> (r: Mode)
        ensures
            r == self.spec_mode(),
    {
        self.mode
    }

    /// Current and saved flags.
    pub fn status_register(&self) -> (r: &StatusRegister)
        ensures
            *r == self.spec_status(),
    {
        &self.status_register
    }

    /// The register file.
    pub fn registers(&self) -> (r: &Registers)
        ensures
            *r == self.spec_registers(),
    {
        &self.registers
    }

    /// The program counter.
    pub fn program_counter(&self) -> (r: u32)
        ensures
            r == self.spec_registers().program_counter,
    {
        self.registers.program_counter
    }

    /// Reads register `index` (r0 to r14) through the current mode's bank.
    pub fn read_register(&self, index: usize) -> (r: u32)
        requires
            index < GENERAL_PURPOSE_REGISTERS_COUNT,
        ensures
            r == self.spec_registers().read(self.spec_mode(), index as int),
    {
        self.registers.get_register_by_mode(self.mode, index)
    }

    /// Writes register `index` (r0 to r14) through the current mode's bank;
    /// flags, mode and run state are kept.
    pub fn write_register(&mut self, index: usize, value: u32)
        requires
            index < GENERAL_PURPOSE_REGISTERS_COUNT,
        ensures
            Registers::is_write(
                old(self).spec_registers(),
                final(self).spec_registers(),
                old(self).spec_mode(),
                index as int,
                value,
            ),
            final(self).spec_mode() == old(self).spec_mode(),
            final(self).spec_state() == old(self).spec_state(),
            final(self).spec_status() == old(self).spec_status(),
    {
        self.registers.set_register_by_mode(self.mode, index, value);
    }
}

/// Entry into any exception keeps the condition and other flags, sets the
/// normal-interrupt disable flag, sets the fast-interrupt disable flag for a
/// reset or a fast interrupt and keeps it otherwise, clears the Thumb state
/// bit, and writes the entry mode into the mode field.
pub proof fn lemma_entry_flags(flags: u32, kind: ExceptionType)
    ensures
        entry_flags(flags, kind) & MODE_MASK == mode_bits(entry_mode_of(kind)),
        entry_flags(flags, kind) & IRQ_DISABLE != 0,
        (entry_flags(flags, kind) & FIQ_DISABLE != 0) == (flags & FIQ_DISABLE != 0 || kind
            == ExceptionType::Reset || kind == ExceptionType::FastInterrupt),
        entry_flags(flags, kind) & STATE == 0,
        entry_flags(flags, kind) & !(IRQ_DISABLE | FIQ_DISABLE | STATE | MODE_MASK) == flags & !(
        IRQ_DISABLE | FIQ_DISABLE | STATE | MODE_MASK),
{
    let mb = mode_bits(entry_mode_of(kind));
    let forced = forced_flags_of(kind);
    let both = kind == ExceptionType::Reset || kind == ExceptionType::FastInterrupt;
    assert(both ==> forced == IRQ_DISABLE | FIQ_DISABLE);
    assert(!both ==> forced == IRQ_DISABLE);
    assert({
        let r = ((flags | forced) & !(STATE | MODE_MASK)) | mb;
        &&& r & MODE_MASK == mb
        &&& r & IRQ_DISABLE != 0
        &&& (r & FIQ_DISABLE != 0) == (flags & FIQ_DISABLE != 0 || both)
        &&& r & STATE == 0
        &&& r & !(IRQ_DISABLE | FIQ_DISABLE | STATE | MODE_MASK) == flags & !(IRQ_DISABLE
            | FIQ_DISABLE | STATE | MODE_MASK)
    }) by (bit_vector)
        requires
            mb < 0x20,
            both ==> forced == IRQ_DISABLE | FIQ_DISABLE,
            !both ==> forced == IRQ_DISABLE,
    ;
}

} // verus!
