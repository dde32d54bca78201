use arm7_core::registers::{Mode, Registers, StatusRegister, BASE_ADDRESS};
use arm7_core::flags::{StatusFlags, CARRY, ZERO};

const EXCEPTION_MODES: [Mode; 5] =
    [Mode::Fiq, Mode::Supervisor, Mode::Abort, Mode::Irq, Mode::Undefined];
const ALL_MODES: [Mode; 6] =
    [Mode::System, Mode::Fiq, Mode::Supervisor, Mode::Abort, Mode::Irq, Mode::Undefined];

fn banked_indices(mode: Mode) -> Vec<usize> {
    match mode {
        Mode::Fiq => (8..15).collect(),
        Mode::System => Vec::new(),
        _ => vec![13, 14],
    }
}

#[test]
fn new_registers_are_zero() {
    let r = Registers::new();
    assert_eq!(r.program_counter, BASE_ADDRESS);
    for m in ALL_MODES {
        for i in 0..15 {
            assert_eq!(r.get_register_by_mode(m, i), 0);
        }
    }
}

#[test]
fn banked_write_reads_back_and_stays_private() {
    for m in EXCEPTION_MODES {
        for i in banked_indices(m) {
            let mut r = Registers::new();
            r.set_register_by_mode(m, i, 0xDEAD_0000 + i as u32);
            assert_eq!(r.get_register_by_mode(m, i), 0xDEAD_0000 + i as u32);
            for other in ALL_MODES {
                if other != m && banked_indices(other).contains(&i) {
                    assert_eq!(r.get_register_by_mode(other, i), 0);
                }
            }
            assert_eq!(r.get_register_by_mode(Mode::System, i), 0);
        }
    }
}

#[test]
fn low_registers_are_shared() {
    let mut r = Registers::new();
    for i in 0..8 {
        r.set_register_by_mode(ALL_MODES[i % 6], i, 100 + i as u32);
    }
    for m in ALL_MODES {
        for i in 0..8 {
            assert_eq!(r.get_register_by_mode(m, i), r.get_register_by_mode(Mode::System, i));
            assert_eq!(r.get_register_by_mode(m, i), 100 + i as u32);
        }
    }
}

#[test]
fn r8_to_r12_banked_only_for_fiq() {
    let mut r = Registers::new();
    r.set_register_by_mode(Mode::Irq, 10, 7);
    assert_eq!(r.get_register_by_mode(Mode::System, 10), 7);
    assert_eq!(r.get_register_by_mode(Mode::Supervisor, 10), 7);
    assert_eq!(r.get_register_by_mode(Mode::Fiq, 10), 0);
    r.set_register_by_mode(Mode::Fiq, 10, 9);
    assert_eq!(r.get_register_by_mode(Mode::Irq, 10), 7);
    assert_eq!(r.fiq_register[2], 9);
}

#[test]
fn system_r14_has_its_own_shared_slot() {
    let mut r = Registers::new();
    r.set_register_by_mode(Mode::System, 14, 0x1234);
    assert_eq!(r.get_register(14), 0x1234);
    assert_eq!(r.register[14], 0x1234);
    for m in EXCEPTION_MODES {
        assert_eq!(r.get_register_by_mode(m, 14), 0);
    }
}

#[test]
fn shared_bank_accessors() {
    let mut r = Registers::new();
    r.set_register(3, 42);
    assert_eq!(r.get_register(3), 42);
    assert_eq!(r.get_register_by_mode(Mode::Abort, 3), 42);
    r.set_register(13, 5);
    assert_eq!(r.get_register_by_mode(Mode::System, 13), 5);
    assert_eq!(r.get_register_by_mode(Mode::Abort, 13), 0);
}

#[test]
fn mode_encodings() {
    assert_eq!(Mode::System.bits(), 0x1F);
    assert_eq!(Mode::Fiq.bits(), 0x11);
    assert_eq!(Mode::Irq.bits(), 0x12);
    assert_eq!(Mode::Supervisor.bits(), 0x13);
    assert_eq!(Mode::Abort.bits(), 0x17);
    assert_eq!(Mode::Undefined.bits(), 0x1B);
    for m in ALL_MODES {
        assert_eq!(Mode::from_bits(m.bits()), Some(m));
    }
    assert_eq!(Mode::from_bits(0x10), None);
    assert_eq!(Mode::from_bits(0), None);
}

#[test]
fn status_register_slots() {
    let mut s = StatusRegister::new();
    assert_eq!(s.active(), StatusFlags::empty());
    let c = StatusFlags::from_bits_truncate(CARRY);
    let z = StatusFlags::from_bits_truncate(ZERO);
    s.set_active(c);
    assert_eq!(s.active(), c);
    s.set_saved(Mode::Irq, z);
    assert_eq!(s.saved(Mode::Irq), z);
    assert_eq!(s.spsr_irq, z);
    for m in [Mode::Fiq, Mode::Supervisor, Mode::Abort, Mode::Undefined] {
        assert_eq!(s.saved(m), StatusFlags::empty());
    }
    assert_eq!(s.active(), c);
}
