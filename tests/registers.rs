use spirit1_rs::band::BandSelect;
use spirit1_rs::gpio::{
    DigitalInputMode, DigitalOutputMode, GpioConf, GpioMode, RcoVcoCalibrIn, RcoVcoCalibrOut,
};
use spirit1_rs::registers::{
    AdditionalLoadCapacitors, ChFlt, CrcMode, FcOffset, FreqDev0, InterruptEvent, IrqMask,
    IrqMaskBuilder, IrqStatus, LinearFifoStatusRxElements, McState, Modulation, ModulationType,
    PaPower, PaSlot, PacketFormat, PacketLengthMode, PcktCtrl1, PcktCtrl2, PcktCtrl3, PcktCtrl4,
    PcktLen, RxMode, RxPcktLen, SpiritState, Synt, Timers, TxMode,
};

#[test]
fn chflt_round_trip() {
    let r = ChFlt { chflt_m: 2, chflt_e: 3 };
    assert_eq!(r.into_bytes(), [0x23]);
    assert_eq!(ChFlt::from_bytes(r.into_bytes()), r);
}

#[test]
fn fdev_round_trip() {
    let r = FreqDev0 { fdev_e: 4, clock_rec_algo_sel: true, fdev_m: 5 };
    assert_eq!(r.into_bytes(), [0x4D]);
    assert_eq!(FreqDev0::from_bytes(r.into_bytes()), r);
}

#[test]
fn modulation_round_trip() {
    let r = Modulation::new(false, ModulationType::Gfsk, 10, 147);
    assert_eq!(r.into_bytes(), [147, 0x1A]);
    assert_eq!(Modulation::from_bytes(r.into_bytes()), Some(r));
}

#[test]
fn mc_state_decodes_ready() {
    let s = McState::from_bytes([0x56, 0x07]).unwrap();
    assert_eq!(s.state, SpiritState::READY);
    assert!(s.xo_operating);
    assert!(s.tx_fifo_full);
    assert!(s.rx_fifo_empty);
    assert_eq!(s.reserved, 5);
    assert_eq!(McState::from_bytes(s.into_bytes()), Some(s));
}

#[test]
fn mc_state_unknown_code_fails() {
    assert_eq!(McState::from_bytes([0x00, 0x02]), None);
}

#[test]
fn irq_words() {
    let m = IrqMask::new(0x2000_0007);
    assert_eq!(m.into_bytes(), [0x20, 0x00, 0x00, 0x07]);
    assert_eq!(m.as_u32(), 0x2000_0007);
    assert_eq!(IrqMask::from_bytes(m.into_bytes()), m);
    let s = IrqStatus::from_bytes([0, 0, 0, 1]);
    assert!(s.is_set(InterruptEvent::RxDataReady));
    assert!(!s.is_set(InterruptEvent::TxDataSent));
    assert_eq!(IrqStatus::from_bytes(s.into_bytes()), s);
}

#[test]
fn irq_mask_builder() {
    let mut b = IrqMaskBuilder::new();
    b.set(InterruptEvent::TxDataSent)
        .set(InterruptEvent::RxDataReady)
        .set(InterruptEvent::RxDataDiscarded)
        .set(InterruptEvent::TimerRxTimeout);
    let m = b.build();
    assert_eq!(m.as_u32(), 0x2000_0007);
    assert!(m.is_set(InterruptEvent::TimerRxTimeout));
    assert!(!m.is_set(InterruptEvent::CrcError));
}

#[test]
fn packet_lengths() {
    assert_eq!(PcktLen::new(96).into_bytes(), [0, 96]);
    assert_eq!(PcktLen::new(0x1234).into_bytes(), [0x12, 0x34]);
    let p = PcktLen::new(300);
    assert_eq!(PcktLen::from_bytes(p.into_bytes()), p);
    let r = RxPcktLen::from_bytes([0x01, 0x02]);
    assert_eq!(r.get_length(), 258);
    assert_eq!(RxPcktLen::from_bytes(r.into_bytes()), r);
}

#[test]
fn fc_offset_twelve_bits() {
    assert_eq!(FcOffset::new(-1).into_bytes(), [0x0F, 0xFF]);
    assert_eq!(FcOffset::new(0x123).into_bytes(), [0x01, 0x23]);
    assert_eq!(FcOffset::new(-2048).into_bytes(), [0x08, 0x00]);
    let f = FcOffset::new(-300);
    assert_eq!(FcOffset::from_bytes(f.into_bytes()), f);
}

#[test]
fn timers_round_trip() {
    let t = Timers {
        rx_timeout_prescaler: 1,
        rx_timeout_counter: 2,
        ldc_prescaler: 3,
        ldc_counter: 4,
        ldc_reload_prescaler: 5,
        ldc_reload_counter: 6,
    };
    assert_eq!(t.into_bytes(), [1, 2, 3, 4, 5, 6]);
    assert_eq!(Timers::from_bytes(t.into_bytes()), t);
}

#[test]
fn fifo_status_round_trip() {
    let f = LinearFifoStatusRxElements::from_bytes([0x85]);
    assert_eq!(f.elem_rxfifo, 5);
    assert!(f.reserved);
    assert_eq!(LinearFifoStatusRxElements::from_bytes(f.into_bytes()), f);
}

#[test]
fn pa_power_round_trip() {
    let p = PaPower {
        additional_load_capacitors: AdditionalLoadCapacitors::Cap3p6,
        ramp_enable: true,
        ramp_step_width: 2,
        level_max_index: PaSlot::Slot8,
    };
    assert_eq!(p.into_bytes(), [0xF7]);
    assert_eq!(PaPower::from_bytes(p.into_bytes()), Some(p));
}

#[test]
fn packet_control_round_trip() {
    let c4 = PcktCtrl4 { reserved: 0, address_len: 1, control_len: 1 };
    assert_eq!(c4.into_bytes(), [0x09]);
    assert_eq!(PcktCtrl4::from_bytes(c4.into_bytes()), c4);
    let c3 = PcktCtrl3 { pckt_frmt: PacketFormat::STack, rx_mode: RxMode::DirectGPIO, len_wid: 7 };
    assert_eq!(c3.into_bytes(), [0xA7]);
    assert_eq!(PcktCtrl3::from_bytes(c3.into_bytes()), Some(c3));
    assert_eq!(PcktCtrl3::reset_value().into_bytes(), [0x07]);
    let c2 = PcktCtrl2 { preamble_length: 31, sync_length: 3, fix_var_len: PacketLengthMode::Variable };
    assert_eq!(c2.into_bytes(), [0xFF]);
    assert_eq!(PcktCtrl2::from_bytes(c2.into_bytes()), Some(c2));
    let c1 = PcktCtrl1 {
        crc_mode: CrcMode::Crc0x864CBF,
        whit_en: true,
        tx_source: TxMode::PN9,
        reserved: false,
        fec_en: true,
    };
    assert_eq!(c1.into_bytes(), [0x9D]);
    assert_eq!(PcktCtrl1::from_bytes(c1.into_bytes()), Some(c1));
    assert_eq!(PcktCtrl1::from_bytes([0xA0]), None);
}

#[test]
fn synt_round_trip() {
    let s = Synt { wcp: 5, synt: 0x2B5_D108, band_select: BandSelect::Middle };
    let bytes = s.into_bytes();
    let word = u32::from_be_bytes(bytes);
    assert_eq!(word >> 29, 5);
    assert_eq!((word >> 3) & 0x3FF_FFFF, 0x2B5_D108);
    assert_eq!(word & 7, 3);
    assert_eq!(Synt::from_bytes(bytes), Some(s));
    assert_eq!(Synt::from_bytes([0, 0, 0, 2]), None);
}

#[test]
fn gpio_configuration_round_trip() {
    let c = GpioConf::new(GpioMode::OutputLowPower(DigitalOutputMode::nIRQ));
    assert_eq!(c.into_bytes(), [0x02]);
    assert_eq!(GpioConf::from_bytes(c.into_bytes()), Some(c));
    let c = GpioConf::new(GpioMode::DigitalInput(DigitalInputMode::ExternalClock));
    assert_eq!(c.into_bytes(), [0x21]);
    assert_eq!(GpioConf::from_bytes(c.into_bytes()), Some(c));
    let c = GpioConf::new(GpioMode::Analog);
    assert_eq!(c.into_bytes(), [0x08]);
    assert_eq!(GpioConf::from_bytes(c.into_bytes()), Some(c));
    assert_eq!(GpioConf::from_bytes([0xF9]), None);
    assert_eq!(GpioConf::default().into_bytes(), [0xA2]);
}

#[test]
fn calibration_words() {
    let c = RcoVcoCalibrIn::new(7, 0x15, 36, 36);
    assert_eq!(c.into_bytes(), [0x7A, 0xA4, 0x24]);
    assert_eq!(RcoVcoCalibrIn::from_bytes(c.into_bytes()), c);
    let o = RcoVcoCalibrOut::from_bytes([0x3A, 0x81]);
    assert_eq!(o.rfb(), 0x15);
    assert_eq!(o.vco_calibr_data, 1);
    assert_eq!(RcoVcoCalibrOut::from_bytes(o.into_bytes()), o);
}
