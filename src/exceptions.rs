//! The catalogue of exception kinds and the choice among pending ones.

use vstd::prelude::*;
use crate::flags::{StatusFlags, ALL_FLAGS, FIQ_DISABLE, IRQ_DISABLE};
use crate::registers::Mode;

verus! {

pub const RESET_OFFSET: u32 = 0x00;
pub const UNDEFINED_INSTRUCTION_OFFSET: u32 = 0x04;
pub const SOFTWARE_INTERRUPT_OFFSET: u32 = 0x08;
pub const PREFETCH_ABORT_OFFSET: u32 = 0x0C;
pub const DATA_ABORT_OFFSET: u32 = 0x10;
pub const ADDRESS_EXCEEDS_OFFSET: u32 = 0x14;
pub const NORMAL_INTERRUPT_OFFSET: u32 = 0x18;
pub const FAST_INTERRUPT_OFFSET: u32 = 0x1C;

/// The eight exception kinds, in the order that breaks ties of priority.
#[derive(Clone, Copy, PartialEq, Eq, Structural, Debug, Hash)]
pub enum ExceptionType {
    Reset,
    UndefinedInstruction,
    SoftwareInterrupt,
    PrefetchAbort,
    DataAbort,
    AddressExceeds26bit,
    NormalInterrupt,
    FastInterrupt,
}

/// Position of a kind in the declaration order above.
pub open spec fn ordinal(kind: ExceptionType) -> int {
    match kind {
        ExceptionType::Reset => 0,
        ExceptionType::UndefinedInstruction => 1,
        ExceptionType::SoftwareInterrupt => 2,
        ExceptionType::PrefetchAbort => 3,
        ExceptionType::DataAbort => 4,
        ExceptionType::AddressExceeds26bit => 5,
        ExceptionType::NormalInterrupt => 6,
        ExceptionType::FastInterrupt => 7,
    }
}

/// Byte offset of the kind's entry in the vector table.
pub open spec fn vector_offset(kind: ExceptionType) -> u32 {
    match kind {
        ExceptionType::Reset => RESET_OFFSET,
        ExceptionType::UndefinedInstruction => UNDEFINED_INSTRUCTION_OFFSET,
        ExceptionType::SoftwareInterrupt => SOFTWARE_INTERRUPT_OFFSET,
        ExceptionType::PrefetchAbort => PREFETCH_ABORT_OFFSET,
        ExceptionType::DataAbort => DATA_ABORT_OFFSET,
        ExceptionType::AddressExceeds26bit => ADDRESS_EXCEEDS_OFFSET,
        ExceptionType::NormalInterrupt => NORMAL_INTERRUPT_OFFSET,
        ExceptionType::FastInterrupt => FAST_INTERRUPT_OFFSET,
    }
}

/// Dispatch priority; 1 is the most urgent.
pub open spec fn priority_of(kind: ExceptionType) -> usize {
    match kind {
        ExceptionType::Reset => 1,
        ExceptionType::UndefinedInstruction => 7,
        ExceptionType::SoftwareInterrupt => 6,
        ExceptionType::PrefetchAbort => 5,
        ExceptionType::DataAbort => 2,
        ExceptionType::AddressExceeds26bit => 2,
        ExceptionType::NormalInterrupt => 4,
        ExceptionType::FastInterrupt => 3,
    }
}

/// The mode that the processor enters for the kind.
pub open spec fn entry_mode_of(kind: ExceptionType) -> Mode {
    match kind {
        ExceptionType::Reset => Mode::Supervisor,
        ExceptionType::UndefinedInstruction => Mode::Undefined,
        ExceptionType::SoftwareInterrupt => Mode::Supervisor,
        ExceptionType::PrefetchAbort => Mode::Abort,
        ExceptionType::DataAbort => Mode::Abort,
        ExceptionType::AddressExceeds26bit => Mode::Supervisor,
        ExceptionType::NormalInterrupt => Mode::Irq,
        ExceptionType::FastInterrupt => Mode::Fiq,
    }
}

/// The interrupt-disable flags forced on at entry: both for a reset and a fast
/// interrupt, the normal interrupt one alone otherwise.
pub open spec fn forced_flags_of(kind: ExceptionType) -> u32 {
    match kind {
        ExceptionType::Reset | ExceptionType::FastInterrupt => IRQ_DISABLE | FIQ_DISABLE,
        _ => IRQ_DISABLE,
    }
}

/// How one exception kind is entered.
pub struct Exception {
    pub exception_type: ExceptionType,
    pub address_offset: u32,
    pub priority: usize,
    pub entry_mode: Mode,
    pub interrupt_flags: StatusFlags,
}

impl Exception {
    pub fn new(
        exception_type: ExceptionType,
        address_offset: u32,
        priority: usize,
        entry_mode: Mode,
        interrupt_flags: StatusFlags,
    ) -> (r: Exception)
        ensures
            r.exception_type == exception_type,
            r.address_offset == address_offset,
            r.priority == priority,
            r.entry_mode == entry_mode,
            r.interrupt_flags == interrupt_flags,
    {
        Exception { exception_type, address_offset, priority, entry_mode, interrupt_flags }
    }

    /// True when this is the catalogue's entry for `kind`.
    pub open spec fn describes(&self, kind: ExceptionType) -> bool {
        &&& self.exception_type == kind
        &&& self.address_offset == vector_offset(kind)
        &&& self.priority == priority_of(kind)
        &&& self.entry_mode == entry_mode_of(kind)
        &&& self.interrupt_flags@ == forced_flags_of(kind)
    }
}

impl ExceptionType {
    /// The catalogue's entry for this kind.
    pub fn descriptor(self) -> (r: Exception)
        ensures
            r.describes(self),
    {
        let both = StatusFlags::from_bits_truncate(IRQ_DISABLE | FIQ_DISABLE);
        let irq = StatusFlags::from_bits_truncate(IRQ_DISABLE);
        assert((IRQ_DISABLE | FIQ_DISABLE) & ALL_FLAGS == IRQ_DISABLE | FIQ_DISABLE) by (bit_vector);
        assert(IRQ_DISABLE & ALL_FLAGS == IRQ_DISABLE) by (bit_vector);
        match self {
            ExceptionType::Reset => Exception::new(self, RESET_OFFSET, 1, Mode::Supervisor, both),
            ExceptionType::UndefinedInstruction => Exception::new(
                self,
                UNDEFINED_INSTRUCTION_OFFSET,
                7,
                Mode::Undefined,
                irq,
            ),
            ExceptionType::SoftwareInterrupt => Exception::new(
                self,
                SOFTWARE_INTERRUPT_OFFSET,
                6,
                Mode::Supervisor,
                irq,
            ),
            ExceptionType::PrefetchAbort => Exception::new(
                self,
                PREFETCH_ABORT_OFFSET,
                5,
                Mode::Abort,
                irq,
            ),
            ExceptionType::DataAbort => Exception::new(self, DATA_ABORT_OFFSET, 2, Mode::Abort, irq),
            ExceptionType::AddressExceeds26bit => Exception::new(
                self,
                ADDRESS_EXCEEDS_OFFSET,
                2,
                Mode::Supervisor,
                irq,
            ),
            ExceptionType::NormalInterrupt => Exception::new(
                self,
                NORMAL_INTERRUPT_OFFSET,
                4,
                Mode::Irq,
                irq,
            ),
            ExceptionType::FastInterrupt => Exception::new(
                self,
                FAST_INTERRUPT_OFFSET,
                3,
                Mode::Fiq,
                both,
            ),
        }
    }
}


/// `a` is dispatched no later than `b`: a smaller priority number wins, and
/// between equal priorities the kind declared first wins.
pub open spec fn precedes(a: ExceptionType, b: ExceptionType) -> bool {
    priority_of(a) < priority_of(b) || (priority_of(a) == priority_of(b) && ordinal(a) <= ordinal(
        b,
    ))
}

/// `kind` is the one kind of `pending` that dispatch takes.
pub open spec fn is_selection(pending: Seq<ExceptionType>, kind: ExceptionType) -> bool {
    &&& pending.contains(kind)
    &&& forall|i: int| 0 <= i < pending.len() ==> precedes(kind, #[trigger] pending[i])
}

/// Computes `precedes`.
fn comes_before(a: ExceptionType, b: ExceptionType) -> (r: bool)
    ensures
        r == precedes(a, b),
{
    let pa = a.descriptor().priority;
    let pb = b.descriptor().priority;
    pa < pb || (pa == pb && a.index() <= b.index())
}

impl ExceptionType {
    /// Position of this kind in declaration order.
    fn index(self) -> (r: u8)
        ensures
            r as int == ordinal(self),
    {
        match self {
            ExceptionType::Reset => 0,
            ExceptionType::UndefinedInstruction => 1,
            ExceptionType::SoftwareInterrupt => 2,
            ExceptionType::PrefetchAbort => 3,
            ExceptionType::DataAbort => 4,
            ExceptionType::AddressExceeds26bit => 5,
            ExceptionType::NormalInterrupt => 6,
            ExceptionType::FastInterrupt => 7,
        }
    }
}

/// Of the pending kinds, the one to dispatch: the smallest priority number,
/// and among equal priorities the kind declared first (so a data abort goes
/// before an address beyond 26 bits).
pub fn select(pending: &[ExceptionType]) -> (r: ExceptionType)
    requires
        pending@.len() > 0,
    ensures
        is_selection(pending@, r),
{
    let mut best = pending[0];
    let mut at: usize = 0;
    let mut i: usize = 1;
    while i < pending.len()
        invariant
            1 <= i <= pending@.len(),
            at < i,
            pending@[at as int] == best,
            forall|j: int| 0 <= j < i ==> precedes(best, #[trigger] pending@[j]),
        decreases pending@.len() - i,
    {
        if !comes_before(best, pending[i]) {
            best = pending[i];
            at = i;
        }
        i += 1;
    }
    best
}

/// The choice does not depend on the order or repetition of the pending kinds:
/// two lists that hold the same kinds select the same one.
pub proof fn lemma_selection_deterministic(
    p: Seq<ExceptionType>,
    q: Seq<ExceptionType>,
    a: ExceptionType,
    b: ExceptionType,
)
    requires
        forall|k: ExceptionType| p.contains(k) <==> q.contains(k),
        is_selection(p, a),
        is_selection(q, b),
    ensures
        a == b,
{
    assert(q.contains(a));
    assert(p.contains(b));
    let i = choose|i: int| 0 <= i < q.len() && q[i] == a;
    let j = choose|j: int| 0 <= j < p.len() && p[j] == b;
    assert(precedes(b, q[i]));
    assert(precedes(a, p[j]));
}

} // verus!
