//! The UART register map: bit-exact accessor behavior under each
//! access discipline.
use pacgen::uart::mode::{ChannelMode as BuilderChannelMode, CharacterLength, ModeBuilder,
    ParityType, StopBits as BuilderStopBits};
use pacgen::uart::mode_register::{ChannelMode, CharLen, ModeRegister, Parity, StopBits};
use pacgen::uart::{
    uart, BaudGen, ChannelStatus, ControlRegister, InterruptDisable, InterruptMask,
    InterruptStatus, ModemCtrl, ModemStatus, RxFifoTriggerLevel, RxTimeout,
};
use pacgen::{Read, ReadWrite, Resettable, Write};

#[test]
fn control_register_sets_single_bits_with_a_mask() {
    let mut c = ControlRegister::new(0);
    c.set_rx_en(true);
    assert_eq!(c.value, 1 << 2);
    assert!(c.get_rx_en());
    c.set_tx_en(true);
    // The earlier bit survives: masked read-modify-write.
    assert_eq!(c.value, (1 << 2) | (1 << 4));
    c.set_rx_en(false);
    assert_eq!(c.value, 1 << 4);
    assert!(!c.get_rx_en());
    assert!(c.get_tx_en());
}

#[test]
fn control_register_covers_every_declared_bit() {
    let mut c = ControlRegister::new(0);
    c.set_sw_rx_rst(true);
    c.set_sw_tx_rst(true);
    c.set_rx_dis(true);
    c.set_tx_dis(true);
    c.set_restart_rx_timeout_counter(true);
    c.set_start_tx_break(true);
    c.set_stop_tx_break(true);
    assert_eq!(c.value, 0b1_1110_1011);
    assert!(c.get_sw_rx_rst() && c.get_sw_tx_rst());
    assert!(c.get_rx_dis() && c.get_tx_dis());
    assert!(c.get_restart_rx_timeout_counter());
    assert!(c.get_start_tx_break() && c.get_stop_tx_break());
}

#[test]
fn write_only_interrupt_registers_zero_the_other_bits() {
    let mut d = InterruptDisable::new(0xffff_ffff);
    d.set_tovr(true);
    // An unmasked write: only the named bit lands in the word.
    assert_eq!(d.value, 1 << 12);
    d.set_ixr_rxovr(true);
    assert_eq!(d.value, 1);

    let mut s = InterruptStatus::new(0xffff_ffff);
    s.set_ixr_txempty(true);
    assert_eq!(s.value, 1 << 3);
    s.set_ixr_framing(false);
    assert_eq!(s.value, 0);
}

#[test]
fn read_only_interrupt_mask_reports_every_bit() {
    let m = InterruptMask::new((1 << 12) | (1 << 9) | 1);
    assert!(m.get_tovr());
    assert!(m.get_ixr_dms());
    assert!(m.get_ixr_rxovr());
    assert!(!m.get_tnful());
    assert!(!m.get_ttrig());
    assert!(!m.get_ixr_tout());
    assert!(!m.get_ixr_parity());
    assert!(!m.get_ixr_framing());
    assert!(!m.get_ixr_over());
    assert!(!m.get_ixr_txfull());
    assert!(!m.get_ixr_txempty());
    assert!(!m.get_ixr_rxfull());
    assert!(!m.get_ixr_rxempty());
}

#[test]
fn channel_status_reads_its_flags() {
    let s = ChannelStatus::new((1 << 14) | (1 << 10) | (1 << 3));
    assert!(s.get_tnful());
    assert!(s.get_ractive());
    assert!(s.get_txempty());
    assert!(!s.get_ttrig() && !s.get_flowdel() && !s.get_tactive());
    assert!(!s.get_txfull() && !s.get_rxfull() && !s.get_rxempty() && !s.get_rxovr());
}

#[test]
fn baud_gen_field_is_bit_exact() {
    let mut b = BaudGen::new(0xffff_0000);
    b.set_cd(0x1234);
    // The field lives in bits 15..0; the upper half is preserved.
    assert_eq!(b.value, 0xffff_1234);
    assert_eq!(b.get_cd(), 0x1234);
    // A value wider than the field is truncated to it.
    b.set_cd(0x1_0005);
    assert_eq!(b.get_cd(), 5);
}

#[test]
fn rx_timeout_and_trigger_level_fields() {
    let mut t = RxTimeout::new(0);
    t.set_rto(0xab);
    assert_eq!(t.value, 0xab);
    assert_eq!(t.get_rto(), 0xab);

    let mut f = RxFifoTriggerLevel::new(0);
    f.set_rx_trig(0x3f);
    assert_eq!(f.get_rx_trig(), 0x3f);
    assert_eq!(f.value, 0x3f);
}

#[test]
fn modem_registers_mix_disciplines() {
    let mut mc = ModemCtrl::new(0);
    mc.set_fcm(true);
    mc.set_rts(true);
    mc.set_dtr(true);
    assert_eq!(mc.value, (1 << 5) | (1 << 1) | 1);
    assert!(mc.get_fcm() && mc.get_rts() && mc.get_dtr());

    let mut ms = ModemStatus::new((1 << 7) | (1 << 4));
    assert!(ms.get_dcd() && ms.get_cts());
    assert!(!ms.get_ri() && !ms.get_dsr());
    ms.set_fcms(true);
    // Masked: the input-state bits survive.
    assert_eq!(ms.value, (1 << 8) | (1 << 7) | (1 << 4));
    // The delta bits are write-to-clear: an unmasked word write.
    ms.set_dcdx(true);
    assert_eq!(ms.value, 1 << 3);
}

#[test]
fn mode_register_round_trips_its_enums() {
    let mut m = ModeRegister::new(0);
    m.set_clk_src_sel(true);
    m.set_char_len(CharLen::SevenBits);
    m.set_parity(Parity::MarkParity);
    m.set_stop_bits(StopBits::TwoStopBits);
    m.set_channel_mode(ChannelMode::LocalLoopback);
    assert_eq!(m.value, 1 | (2 << 1) | (3 << 3) | (2 << 6) | (2 << 8));
    assert!(m.get_clk_src_sel());
    assert_eq!(m.get_char_len(), Some(CharLen::SevenBits));
    assert_eq!(m.get_parity(), Some(Parity::MarkParity));
    assert_eq!(m.get_stop_bits(), Some(StopBits::TwoStopBits));
    assert_eq!(m.get_channel_mode(), Some(ChannelMode::LocalLoopback));
}

#[test]
fn mode_enums_decode_exact_then_wildcard() {
    // Exact values first.
    assert_eq!(CharLen::from_bits(2), Some(CharLen::SevenBits));
    assert_eq!(CharLen::from_bits(3), Some(CharLen::SixBits));
    // The wildcard pattern catches even words.
    assert_eq!(CharLen::from_bits(0), Some(CharLen::EightBits));
    assert_eq!(CharLen::from_bits(4), Some(CharLen::EightBits));
    // An odd word outside the exact values decodes to nothing.
    assert_eq!(CharLen::from_bits(1), None);

    assert_eq!(Parity::from_bits(0), Some(Parity::EvenParity));
    assert_eq!(Parity::from_bits(4), Some(Parity::NoParity));
    assert_eq!(Parity::from_bits(5), None);
    assert_eq!(StopBits::from_bits(3), None);
    assert_eq!(ChannelMode::from_bits(3), Some(ChannelMode::RemoteLoopback));
    assert_eq!(ChannelMode::from_bits(4), None);
}

#[test]
fn register_traits_compose() {
    let mut c = ControlRegister::new(0);
    c.write(0xdead_beef);
    assert_eq!(c.read(), 0xdead_beef);
    c.modify(|v| v & 0xffff);
    assert_eq!(c.read(), 0xbeef);
    c.reset();
    assert_eq!(c.read(), 0);
    assert_eq!(ControlRegister::reset_value(), 0);
}

#[test]
fn uart_block_starts_in_reset() {
    let u = uart::new();
    assert_eq!(u.control_register.value, 0);
    assert_eq!(u.mode_register.value, 0);
    assert_eq!(u.interrupt_disable.value, 0);
    assert_eq!(u.interrupt_mask.value, 0);
    assert_eq!(u.interrupt_status.value, 0);
    assert_eq!(u.baud_gen.value, 0);
    assert_eq!(u.rx_timeout.value, 0);
    assert_eq!(u.rx_fifo_trigger_level.value, 0);
    assert_eq!(u.modem_ctrl.value, 0);
    assert_eq!(u.modem_status.value, 0);
    assert_eq!(u.channel_status.value, 0);
}

#[test]
fn mode_builder_defaults_follow_the_declared_variants() {
    assert_eq!(CharacterLength::default(), CharacterLength::SixBits);
    assert_eq!(ParityType::default(), ParityType::Even);
    assert_eq!(BuilderStopBits::default(), BuilderStopBits::One);
    assert_eq!(BuilderChannelMode::default(), BuilderChannelMode::Normal);
    let b = ModeBuilder { value: 7 };
    assert_eq!(b.value, 7);
}
