use arm7_core::exceptions::{select, Exception, ExceptionType};
use arm7_core::flags::{StatusFlags, FIQ_DISABLE, IRQ_DISABLE};
use arm7_core::registers::Mode;

#[test]
fn descriptor_table() {
    let rows = [
        (ExceptionType::Reset, 0x00, 1, Mode::Supervisor, 0xC0),
        (ExceptionType::UndefinedInstruction, 0x04, 7, Mode::Undefined, 0x80),
        (ExceptionType::SoftwareInterrupt, 0x08, 6, Mode::Supervisor, 0x80),
        (ExceptionType::PrefetchAbort, 0x0C, 5, Mode::Abort, 0x80),
        (ExceptionType::DataAbort, 0x10, 2, Mode::Abort, 0x80),
        (ExceptionType::AddressExceeds26bit, 0x14, 2, Mode::Supervisor, 0x80),
        (ExceptionType::NormalInterrupt, 0x18, 4, Mode::Irq, 0x80),
        (ExceptionType::FastInterrupt, 0x1C, 3, Mode::Fiq, 0xC0),
    ];
    for (kind, offset, priority, mode, flags) in rows {
        let d = kind.descriptor();
        assert_eq!(d.exception_type, kind);
        assert_eq!(d.address_offset, offset);
        assert_eq!(d.priority, priority);
        assert_eq!(d.entry_mode, mode);
        assert_eq!(d.interrupt_flags.bits(), flags);
    }
}

#[test]
fn exception_new_keeps_fields() {
    let f = StatusFlags::from_bits_truncate(IRQ_DISABLE | FIQ_DISABLE);
    let e = Exception::new(ExceptionType::FastInterrupt, 0x1C, 3, Mode::Fiq, f);
    assert_eq!(e.exception_type, ExceptionType::FastInterrupt);
    assert_eq!(e.address_offset, 0x1C);
    assert_eq!(e.priority, 3);
    assert_eq!(e.entry_mode, Mode::Fiq);
    assert_eq!(e.interrupt_flags, f);
}

#[test]
fn reset_wins_over_undefined_instruction() {
    let pending = [ExceptionType::Reset, ExceptionType::UndefinedInstruction];
    assert_eq!(select(&pending), ExceptionType::Reset);
    let pending = [ExceptionType::UndefinedInstruction, ExceptionType::Reset];
    assert_eq!(select(&pending), ExceptionType::Reset);
}

#[test]
fn tied_priorities_pick_data_abort_every_time() {
    let a = [ExceptionType::DataAbort, ExceptionType::AddressExceeds26bit];
    let b = [ExceptionType::AddressExceeds26bit, ExceptionType::DataAbort];
    for _ in 0..3 {
        assert_eq!(select(&a), ExceptionType::DataAbort);
        assert_eq!(select(&b), ExceptionType::DataAbort);
    }
}

#[test]
fn selection_ignores_order_and_repeats() {
    let a = [
        ExceptionType::NormalInterrupt,
        ExceptionType::SoftwareInterrupt,
        ExceptionType::FastInterrupt,
        ExceptionType::NormalInterrupt,
    ];
    let b = [ExceptionType::FastInterrupt, ExceptionType::SoftwareInterrupt, ExceptionType::NormalInterrupt];
    assert_eq!(select(&a), ExceptionType::FastInterrupt);
    assert_eq!(select(&b), ExceptionType::FastInterrupt);
    assert_eq!(select(&[ExceptionType::PrefetchAbort]), ExceptionType::PrefetchAbort);
}
