use core::ops::DerefMut;
use samd_clock::dmac::swtrigctrl;
use samd_clock::generic::{Resettable, R as RawR, W as RawW};
use samd_clock::tcc0::cc_dith6_mode;

fn swtrig_writer(bits: u32) -> swtrigctrl::W {
    swtrigctrl::W::from(RawW::new(bits))
}

fn swtrig_reader(bits: u32) -> swtrigctrl::R {
    swtrigctrl::R::from(RawR::new(bits))
}

fn cc_writer(bits: u32) -> cc_dith6_mode::W {
    cc_dith6_mode::W::from(RawW::new(bits))
}

fn cc_reader(bits: u32) -> cc_dith6_mode::R {
    cc_dith6_mode::R::from(RawR::new(bits))
}

#[test]
fn swtrig_set_bit_sets_exactly_its_bit() {
    let mut w = swtrig_writer(0);
    w.swtrig0().set_bit();
    assert_eq!(w.raw(), 1 << 0);
    let mut w = swtrig_writer(0);
    w.swtrig1().set_bit();
    assert_eq!(w.raw(), 1 << 1);
    let mut w = swtrig_writer(0);
    w.swtrig2().set_bit();
    assert_eq!(w.raw(), 1 << 2);
    let mut w = swtrig_writer(0);
    w.swtrig3().set_bit();
    assert_eq!(w.raw(), 1 << 3);
    let mut w = swtrig_writer(0);
    w.swtrig4().set_bit();
    assert_eq!(w.raw(), 1 << 4);
    let mut w = swtrig_writer(0);
    w.swtrig5().set_bit();
    assert_eq!(w.raw(), 1 << 5);
    let mut w = swtrig_writer(0);
    w.swtrig6().set_bit();
    assert_eq!(w.raw(), 1 << 6);
    let mut w = swtrig_writer(0);
    w.swtrig7().set_bit();
    assert_eq!(w.raw(), 1 << 7);
    let mut w = swtrig_writer(0);
    w.swtrig8().set_bit();
    assert_eq!(w.raw(), 1 << 8);
    let mut w = swtrig_writer(0);
    w.swtrig9().set_bit();
    assert_eq!(w.raw(), 1 << 9);
    let mut w = swtrig_writer(0);
    w.swtrig10().set_bit();
    assert_eq!(w.raw(), 1 << 10);
    let mut w = swtrig_writer(0);
    w.swtrig11().set_bit();
    assert_eq!(w.raw(), 1 << 11);
}

#[test]
fn swtrig_clear_bit_clears_exactly_its_bit() {
    let all = 0xffff_ffffu32;
    let mut w = swtrig_writer(all);
    w.swtrig0().clear_bit();
    assert_eq!(w.raw(), all & !(1 << 0));
    let mut w = swtrig_writer(all);
    w.swtrig1().clear_bit();
    assert_eq!(w.raw(), all & !(1 << 1));
    let mut w = swtrig_writer(all);
    w.swtrig2().clear_bit();
    assert_eq!(w.raw(), all & !(1 << 2));
    let mut w = swtrig_writer(all);
    w.swtrig3().clear_bit();
    assert_eq!(w.raw(), all & !(1 << 3));
    let mut w = swtrig_writer(all);
    w.swtrig4().clear_bit();
    assert_eq!(w.raw(), all & !(1 << 4));
    let mut w = swtrig_writer(all);
    w.swtrig5().clear_bit();
    assert_eq!(w.raw(), all & !(1 << 5));
    let mut w = swtrig_writer(all);
    w.swtrig6().clear_bit();
    assert_eq!(w.raw(), all & !(1 << 6));
    let mut w = swtrig_writer(all);
    w.swtrig7().clear_bit();
    assert_eq!(w.raw(), all & !(1 << 7));
    let mut w = swtrig_writer(all);
    w.swtrig8().clear_bit();
    assert_eq!(w.raw(), all & !(1 << 8));
    let mut w = swtrig_writer(all);
    w.swtrig9().clear_bit();
    assert_eq!(w.raw(), all & !(1 << 9));
    let mut w = swtrig_writer(all);
    w.swtrig10().clear_bit();
    assert_eq!(w.raw(), all & !(1 << 10));
    let mut w = swtrig_writer(all);
    w.swtrig11().clear_bit();
    assert_eq!(w.raw(), all & !(1 << 11));
}

#[test]
fn swtrig_bit_writes_the_value_given() {
    let mut w = swtrig_writer(0x0000_0f0f);
    w.swtrig4().bit(true);
    assert_eq!(w.raw(), 0x0000_0f1f);
    w.swtrig4().bit(true);
    assert_eq!(w.raw(), 0x0000_0f1f);
    w.swtrig0().bit(false);
    assert_eq!(w.raw(), 0x0000_0f1e);
    w.swtrig11().bit(false);
    assert_eq!(w.raw(), 0x0000_071e);
    w.swtrig7().bit(false);
    assert_eq!(w.raw(), 0x0000_071e);
}

#[test]
fn swtrig_writes_chain() {
    let mut w = swtrig_writer(0);
    w.swtrig0().set_bit().swtrig5().set_bit().swtrig11().bit(true).swtrig5().clear_bit();
    assert_eq!(w.raw(), 0x0000_0801);
}

#[test]
fn swtrig_whole_value_can_be_replaced() {
    let mut w = swtrig_writer(0x1234);
    w.bits(0xdead_beef);
    assert_eq!(w.raw(), 0xdead_beef);
}

#[test]
fn swtrig_readers_pick_their_bit() {
    let r = swtrig_reader(0b1010_0101_0011);
    assert!(r.swtrig0().bit());
    assert!(r.swtrig1().bit_is_set());
    assert!(r.swtrig2().bit_is_clear());
    assert!(!r.swtrig3().bit());
    assert!(r.swtrig4().bit());
    assert!(!r.swtrig5().bit());
    assert!(r.swtrig6().bit());
    assert!(!r.swtrig7().bit());
    assert!(!r.swtrig8().bit());
    assert!(r.swtrig9().bit());
    assert!(!r.swtrig10().bit());
    assert!(r.swtrig11().bit());
    assert_eq!(r.bits(), 0b1010_0101_0011);
}

#[test]
fn swtrig_readers_ignore_the_bits_above() {
    let r = swtrig_reader(0xffff_f000);
    assert!(r.swtrig0().bit_is_clear());
    assert!(r.swtrig11().bit_is_clear());
    assert!(r.swtrig11().bits() == false);
}

#[test]
fn swtrig_what_is_written_is_read_back() {
    let mut w = swtrig_writer(0);
    w.swtrig3().set_bit().swtrig8().set_bit();
    let r = swtrig_reader(w.raw());
    assert!(r.swtrig3().bit());
    assert!(r.swtrig8().bit());
    assert!(!r.swtrig4().bit());
    assert!(!r.swtrig7().bit());
}

#[test]
fn registers_reset_to_zero() {
    assert_eq!(swtrigctrl::SWTRIGCTRL_SPEC::reset_value(), 0);
    assert_eq!(cc_dith6_mode::CC_DITH6_MODE_SPEC::reset_value(), 0);
}

#[test]
fn dither_is_the_low_six_bits() {
    let mut w = cc_writer(0);
    w.dither().bits(0x3f);
    assert_eq!(w.raw(), 0x0000_003f);
    let mut w = cc_writer(0xffff_ffff);
    w.dither().bits(0);
    assert_eq!(w.raw(), 0xffff_ffc0);
    let mut w = cc_writer(0x0000_0fc0);
    w.dither().bits(0x15);
    assert_eq!(w.raw(), 0x0000_0fd5);
}

#[test]
fn dither_keeps_only_six_bits_of_what_is_written() {
    let mut w = cc_writer(0);
    w.dither().bits(0xff);
    assert_eq!(w.raw(), 0x0000_003f);
    let mut w = cc_writer(0);
    w.dither().bits(0x40);
    assert_eq!(w.raw(), 0);
}

#[test]
fn cc_is_the_eighteen_bits_from_bit_six() {
    let mut w = cc_writer(0);
    w.cc().bits(0x3_ffff);
    assert_eq!(w.raw(), 0x00ff_ffc0);
    let mut w = cc_writer(0xffff_ffff);
    w.cc().bits(0);
    assert_eq!(w.raw(), 0xff00_003f);
    let mut w = cc_writer(0x0000_002a);
    w.cc().bits(1);
    assert_eq!(w.raw(), 0x0000_006a);
}

#[test]
fn cc_keeps_only_eighteen_bits_of_what_is_written() {
    let mut w = cc_writer(0);
    w.cc().bits(0xffff_ffff);
    assert_eq!(w.raw(), 0x00ff_ffc0);
    let mut w = cc_writer(0);
    w.cc().bits(0x4_0000);
    assert_eq!(w.raw(), 0);
}

#[test]
fn cc_and_dither_do_not_touch_each_other() {
    let mut w = cc_writer(0);
    w.cc().bits(0x1_2345).dither().bits(0x2a);
    assert_eq!(w.raw(), (0x1_2345 << 6) | 0x2a);
    w.dither().bits(0x01);
    assert_eq!(w.raw(), (0x1_2345 << 6) | 0x01);
    w.cc().bits(0x0_0007);
    assert_eq!(w.raw(), (0x7 << 6) | 0x01);
}

#[test]
fn cc_readers_pick_their_field() {
    let r = cc_reader((0x2_abcd << 6) | 0x33 | 0xff00_0000);
    assert_eq!(r.dither().bits(), 0x33);
    assert_eq!(r.cc().bits(), 0x2_abcd);
    assert_eq!(r.bits(), (0x2_abcd << 6) | 0x33 | 0xff00_0000);
}

#[test]
fn cc_whole_value_can_be_replaced() {
    let mut w = cc_writer(7);
    w.bits(0x8000_0001);
    assert_eq!(w.raw(), 0x8000_0001);
    let r = cc_reader(w.raw());
    assert_eq!(r.dither().bits(), 1);
    assert_eq!(r.cc().bits(), 0);
}

#[test]
fn a_writer_gives_way_to_the_raw_writer() {
    let mut w = swtrig_writer(0x0000_0004);
    w.deref_mut().bits(0x0000_0800);
    assert_eq!(w.raw(), 0x0000_0800);
    w.swtrig0().set_bit();
    assert_eq!(w.raw(), 0x0000_0801);
    let mut w = cc_writer(0);
    w.deref_mut().bits(0x0000_0040);
    assert_eq!(w.raw(), 0x0000_0040);
    assert_eq!(cc_reader(w.raw()).cc().bits(), 1);
}
