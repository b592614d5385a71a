use cpu6502::alu;
use cpu6502::{Interrupts, Reg16, Reg8, StatusReg, StatusRegFlags};

fn status_with_carry(carry: bool) -> StatusReg {
    let mut s = StatusReg::default();
    s.update_flags(StatusRegFlags::CARRY, carry);
    s
}

#[test]
fn sbc_equals_adc_of_complement() {
    for a in 0..=u8::MAX {
        for m in 0..=u8::MAX {
            for carry in [false, true] {
                let mut sub_acc = Reg8::new(a);
                let mut sub_status = status_with_carry(carry);
                alu::sub(&mut sub_acc, &Reg8::new(m), &mut sub_status);

                let mut add_acc = Reg8::new(a);
                let mut add_status = status_with_carry(carry);
                alu::add(&mut add_acc, &Reg8::new(!m), &mut add_status);

                assert_eq!(sub_acc.to_u8(), add_acc.to_u8());
                assert_eq!(sub_status.to_u8(), add_status.to_u8());
            }
        }
    }
}

#[test]
fn rotate_left_then_right_restores_value_and_carry() {
    for v in 0..=u8::MAX {
        for carry in [false, true] {
            let mut r = Reg8::new(v);
            let mut s = status_with_carry(carry);
            alu::rotate_left(&mut r, &mut s);
            alu::rotate_right(&mut r, &mut s);
            assert_eq!(r.to_u8(), v);
            assert_eq!(s.carry(), carry);

            let mut r = Reg8::new(v);
            let mut s = status_with_carry(carry);
            alu::rotate_right(&mut r, &mut s);
            alu::rotate_left(&mut r, &mut s);
            assert_eq!(r.to_u8(), v);
            assert_eq!(s.carry(), carry);
        }
    }
}

#[test]
fn compare_flags_follow_unsigned_order() {
    for a in 0..=u8::MAX {
        for m in 0..=u8::MAX {
            let mut s = StatusReg::default();
            alu::cmp(&Reg8::new(a), &Reg8::new(m), &mut s);
            assert_eq!(s.zero(), a == m);
            assert_eq!(s.carry(), a >= m);
            assert_eq!(s.negative(), a.wrapping_sub(m) >= 0x80);
        }
    }
}

#[test]
fn add_flags_follow_sums() {
    for a in 0..=u8::MAX {
        for m in 0..=u8::MAX {
            for carry in [false, true] {
                let mut acc = Reg8::new(a);
                let mut s = status_with_carry(carry);
                alu::add(&mut acc, &Reg8::new(m), &mut s);
                let c = carry as i32;
                let unsigned = a as i32 + m as i32 + c;
                let signed = a as i8 as i32 + m as i8 as i32 + c;
                assert_eq!(acc.to_u8(), (unsigned % 256) as u8);
                assert_eq!(s.carry(), unsigned > 255);
                assert_eq!(s.overflow(), !(-128..=127).contains(&signed));
                assert_eq!(s.zero(), acc.to_u8() == 0);
            }
        }
    }
}

#[test]
fn reg8_inc_dec_round_trip() {
    for v in [0x00u8, 0x01, 0x7F, 0x80, 0xFE, 0xFF] {
        let mut r = Reg8::new(v);
        r.inc();
        r.dec();
        assert_eq!(r.to_u8(), v);
        r.dec();
        r.inc();
        assert_eq!(r.to_u8(), v);
    }
    let mut r = Reg8::new(0xFF);
    r.inc();
    assert_eq!(r.to_u8(), 0x00);
}

#[test]
fn reg16_inc_dec_round_trip() {
    for v in [0x0000u16, 0x00FF, 0x0100, 0x7FFF, 0xFFFF] {
        let mut r = Reg16::new(v);
        r.inc();
        r.dec();
        assert_eq!(r.to_u16(), v);
        r.dec();
        r.inc();
        assert_eq!(r.to_u16(), v);
    }
    let mut r = Reg16::new(0x0000);
    r.dec();
    assert_eq!(r.to_u16(), 0xFFFF);
}

#[test]
fn reg16_bytes_split_and_join() {
    let mut r = Reg16::new(0x1234);
    assert_eq!(r.high_u8(), 0x12);
    assert_eq!(r.low_u8(), 0x34);
    r.set_low_u8(0xCD);
    assert_eq!(r.to_u16(), 0x12CD);
    r.set_high_u8(0xAB);
    assert_eq!(r.to_u16(), 0xABCD);
    r.set_low_i8(-1);
    assert_eq!(r.to_u16(), 0xABFF);
    r.set_high_i8(-128);
    assert_eq!(r.to_u16(), 0x80FF);
    assert_eq!(r.high_i8(), -128);
    assert_eq!(r.low_i8(), -1);
}

#[test]
fn status_flags_set_and_clear() {
    let mut s = StatusReg::default();
    s.set_flags(StatusRegFlags::ZERO | StatusRegFlags::CARRY);
    assert!(s.are_all_flags_set(StatusRegFlags::ZERO | StatusRegFlags::CARRY));
    assert!(!s.are_all_flags_set(StatusRegFlags::ZERO | StatusRegFlags::NEGATIVE));
    assert!(s.are_any_flags_set(StatusRegFlags::ZERO | StatusRegFlags::NEGATIVE));
    s.clear_flags(StatusRegFlags::CARRY);
    assert!(!s.carry());
    assert!(s.zero());
    assert_eq!(s.to_u8(), StatusRegFlags::ZERO);
    s.reset();
    assert_eq!(s.to_u8(), 0x24);
}

#[test]
fn irq_level_is_last_irq_write() {
    let mut pins = Interrupts::default();
    assert!(!pins.is_irq_set());
    pins.set_nmi_input();
    assert!(!pins.is_irq_set());
    pins.set_irq_input();
    pins.set_nmi_input_value(false);
    assert!(pins.waiting_nmi());
    assert!(pins.is_irq_set());
    pins.set_irq_input_value(false);
    pins.clear_nmi_input();
    assert!(!pins.is_irq_set());
    pins.set_irq_input_value(true);
    assert!(pins.is_irq_set());
    pins.reset();
    assert!(!pins.is_irq_set());
}
