use std::collections::{HashMap, VecDeque};

use spirit1_rs::driver::{RadioInitOpts, RxTimeoutStopCondition, Spirit1Driver, Spirit1HalBlocking};
use spirit1_rs::packet::{
    BasicAddressOpts, BasicProtocolOpts, PacketConfiguration, PacketControlLength,
    PacketSyncLength, PreambleLength, WMBusProtocolOpts,
};
use spirit1_rs::registers::{CrcMode, McState, PacketLengthMode, SpiritCommand};
use spirit1_rs::{RadioError, RadioResult};

#[derive(Debug, Clone, PartialEq)]
enum Op {
    Write(u8, Vec<u8>),
    Read(u8, usize),
    Command(u8),
    Delay(u32),
}

struct FakeBus {
    xtal: u32,
    base: u32,
    ops: Vec<Op>,
    replies: HashMap<u8, VecDeque<Vec<u8>>>,
    failing_write: Option<u8>,
}

impl FakeBus {
    fn new(xtal: u32, base: u32) -> Self {
        FakeBus { xtal, base, ops: Vec::new(), replies: HashMap::new(), failing_write: None }
    }

    fn reply(&mut self, address: u8, data: &[u8]) {
        self.replies.entry(address).or_default().push_back(data.to_vec());
    }
}

impl Spirit1HalBlocking for FakeBus {
    fn read_raw(&mut self, address: u8, length: usize) -> RadioResult<Vec<u8>> {
        self.ops.push(Op::Read(address, length));
        let reply = self
            .replies
            .get_mut(&address)
            .and_then(|q| q.pop_front())
            .unwrap_or_else(|| vec![0; length]);
        Ok(reply)
    }

    fn write_raw(&mut self, address: u8, data: &[u8]) -> RadioResult<()> {
        self.ops.push(Op::Write(address, data.to_vec()));
        if self.failing_write == Some(address) {
            Err(RadioError::Spi)
        } else {
            Ok(())
        }
    }

    fn write_command(&mut self, command: SpiritCommand) -> RadioResult<McState> {
        self.ops.push(Op::Command(command.code()));
        Ok(McState::from_bytes([0, 0x06]).unwrap())
    }

    fn get_xtal_frequency(&self) -> u32 {
        self.xtal
    }

    fn get_base_frequency(&self) -> u32 {
        self.base
    }

    fn delay_ms(&mut self, ms: u32) {
        self.ops.push(Op::Delay(ms));
    }
}

fn driver(bus: FakeBus) -> Spirit1Driver<FakeBus> {
    Spirit1Driver::new(bus).unwrap()
}

#[test]
fn new_rejects_frequency_outside_bands() {
    assert!(Spirit1Driver::new(FakeBus::new(50_000_000, 200_000_000)).is_err());
    assert!(Spirit1Driver::new(FakeBus::new(100, 433_400_000)).is_err());
    let mut d = driver(FakeBus::new(50_000_000, 868_000_000));
    assert_eq!(d.band, spirit1_rs::band::BandSelect::High);
    assert!(d.is_well_formed());
    d.band = spirit1_rs::band::BandSelect::Low;
    assert!(!d.is_well_formed());
}

#[test]
fn tx_truncates_payload_to_fifo() {
    let mut bus = FakeBus::new(50_000_000, 433_400_000);
    bus.reply(0xFA, &[0, 0, 0, 0]);
    bus.reply(0xFA, &[0, 0, 0, 4]);
    bus.reply(0x18, &[0x07]);
    let mut d = driver(bus);
    let payload: Vec<u8> = (0..200u32).map(|i| i as u8).collect();
    assert_eq!(d.tx_blocking(&payload, 10), Ok(96));
    let ops = &d.hal.ops;
    assert_eq!(ops[0], Op::Command(0x72));
    assert_eq!(ops[1], Op::Write(0xFF, payload[..96].to_vec()));
    assert_eq!(ops[2], Op::Write(0x34, vec![0, 96]));
    assert_eq!(ops[3], Op::Read(0x18, 1));
    // Middle band: 3.6 pF of load capacitors.
    assert_eq!(ops[4], Op::Write(0x18, vec![0xC7]));
    assert_eq!(ops[5], Op::Write(0xA9, vec![0x11]));
    assert_eq!(ops[6], Op::Write(0xA5, vec![0x20]));
    assert_eq!(ops[7], Op::Command(0x60));
    assert_eq!(ops[8..].to_vec(), vec![Op::Read(0xFA, 4), Op::Delay(1000), Op::Read(0xFA, 4)]);
}

#[test]
fn tx_short_payload_high_band() {
    let mut bus = FakeBus::new(50_000_000, 915_000_000);
    bus.reply(0xFA, &[0, 0, 0, 4]);
    bus.reply(0x18, &[0xC7]);
    let mut d = driver(bus);
    assert_eq!(d.tx_blocking(b"Hello World", 10), Ok(11));
    assert_eq!(d.hal.ops[2], Op::Write(0x34, vec![0, 11]));
    assert_eq!(d.hal.ops[4], Op::Write(0x18, vec![0x07]));
}

#[test]
fn tx_times_out() {
    let mut d = driver(FakeBus::new(50_000_000, 433_400_000));
    assert_eq!(d.tx_blocking(&[1, 2, 3], 3), Err(RadioError::Timeout));
    let reads = d.hal.ops.iter().filter(|op| **op == Op::Read(0xFA, 4)).count();
    assert_eq!(reads, 3);
}

#[test]
fn tx_stops_at_bus_failure() {
    let mut bus = FakeBus::new(50_000_000, 433_400_000);
    bus.failing_write = Some(0xFF);
    let mut d = driver(bus);
    assert_eq!(d.tx_blocking(&[1, 2, 3], 3), Err(RadioError::Spi));
    assert_eq!(d.hal.ops.len(), 2);
}

#[test]
fn rx_restrobes_once_after_discard() {
    let mut bus = FakeBus::new(50_000_000, 433_400_000);
    bus.reply(0xFA, &[0, 0, 0, 2]);
    bus.reply(0xFA, &[0, 0, 0, 1]);
    bus.reply(0xE7, &[5]);
    bus.reply(0xFF, &[9, 8, 7, 6, 5]);
    let mut d = driver(bus);
    let mut buffer = [0u8; 96];
    assert_eq!(d.rx_blocking(&mut buffer, 10), Ok(5));
    assert_eq!(&buffer[..5], &[9, 8, 7, 6, 5]);
    assert!(buffer[5..].iter().all(|b| *b == 0));
    let ops = &d.hal.ops;
    let strobes = ops.iter().filter(|op| **op == Op::Command(0x61)).count();
    assert_eq!(strobes, 2);
    let last_status = ops.iter().rposition(|op| *op == Op::Read(0xFA, 4)).unwrap();
    let count = ops.iter().position(|op| *op == Op::Read(0xE7, 1)).unwrap();
    assert!(count > last_status);
    assert_eq!(ops[ops.len() - 1], Op::Read(0xFF, 5));
    assert_eq!(ops[0], Op::Write(0xA5, vec![0x98]));
}

#[test]
fn rx_restrobes_after_timeout_event() {
    let mut bus = FakeBus::new(50_000_000, 433_400_000);
    bus.reply(0xFA, &[0x20, 0, 0, 0]);
    bus.reply(0xFA, &[0, 0, 0, 0]);
    bus.reply(0xFA, &[0, 0, 0, 1]);
    bus.reply(0xE7, &[0]);
    let mut d = driver(bus);
    let mut buffer = [0u8; 96];
    assert_eq!(d.rx_blocking(&mut buffer, 10), Ok(0));
    let strobes = d.hal.ops.iter().filter(|op| **op == Op::Command(0x61)).count();
    assert_eq!(strobes, 2);
}

#[test]
fn rx_times_out() {
    let mut d = driver(FakeBus::new(50_000_000, 433_400_000));
    let mut buffer = [0u8; 96];
    assert_eq!(d.rx_blocking(&mut buffer, 4), Err(RadioError::Timeout));
}

#[test]
fn rx_rejects_oversized_fifo_count() {
    let mut bus = FakeBus::new(50_000_000, 433_400_000);
    bus.reply(0xFA, &[0, 0, 0, 1]);
    bus.reply(0xE7, &[100]);
    let mut d = driver(bus);
    let mut buffer = [0u8; 96];
    assert_eq!(d.rx_blocking(&mut buffer, 4), Err(RadioError::ParameterError));
}

#[test]
fn init_default_options() {
    let mut bus = FakeBus::new(50_000_000, 433_400_000);
    bus.reply(0xC0, &[0, 0x80]);
    bus.reply(0xC0, &[0, 0x06]);
    let mut d = driver(bus);
    assert_eq!(d.init(RadioInitOpts::default(), 10), Ok(()));
    let ops = d.hal.ops.clone();
    let expected = vec![
        Op::Write(0x9E, vec![0x5B, 0xA0]),
        Op::Command(0x63),
        Op::Read(0xB4, 1),
        Op::Write(0xB4, vec![0x00]),
        Op::Command(0x62),
        Op::Read(0xC0, 2),
        Op::Delay(100),
        Op::Read(0xC0, 2),
        Op::Read(0x0D, 1),
        Op::Write(0x0D, vec![0x00]),
        Op::Read(0x1C, 1),
        Op::Write(0x07, vec![53]),
        Op::Read(0x01, 1),
        Op::Write(0x01, vec![0x40]),
        Op::Write(0x6C, vec![0]),
        Op::Write(0x0C, vec![14]),
        Op::Write(0x0E, vec![0, 0]),
        Op::Write(0x0D, vec![172]),
        Op::Write(0x1A, vec![147, 0x0A]),
        Op::Write(0x1C, vec![0x45]),
        Op::Write(0x1D, vec![0x00]),
        Op::Read(0x1E, 1),
        Op::Write(0x1E, vec![0x80]),
        Op::Write(0x99, vec![0x80, 0xE3]),
        Op::Write(0xBC, vec![0x22]),
    ];
    assert_eq!(ops, expected);
}

#[test]
fn init_26mhz_crystal_with_offset() {
    let mut bus = FakeBus::new(26_000_000, 868_000_000);
    bus.reply(0xC0, &[0, 0x06]);
    let mut d = driver(bus);
    let opts = RadioInitOpts { xtal_offset_ppm: -20, channel_number: 3, ..RadioInitOpts::default() };
    assert_eq!(d.init(opts, 10), Ok(()));
    let ops = &d.hal.ops;
    // Clock divider powered down below 30 MHz.
    assert_eq!(ops[3], Op::Write(0xB4, vec![0x08]));
    // -20 ppm of 868 MHz: -17360 Hz, -175 steps of fXO / 2^18.
    assert!(ops.contains(&Op::Write(0x0E, vec![0x0F, 0x51])));
    assert!(ops.contains(&Op::Write(0x6C, vec![3])));
}

#[test]
fn init_fails_on_bus_error() {
    let mut bus = FakeBus::new(50_000_000, 433_400_000);
    bus.failing_write = Some(0x9E);
    let mut d = driver(bus);
    assert_eq!(d.init(RadioInitOpts::default(), 10), Err(RadioError::Spi));
    assert_eq!(d.hal.ops.len(), 1);
}

#[test]
fn wait_for_ready_times_out() {
    let mut bus = FakeBus::new(50_000_000, 433_400_000);
    for _ in 0..5 {
        bus.reply(0xC0, &[0, 0x80]);
    }
    let mut d = driver(bus);
    assert_eq!(d.wait_for_ready(3), Err(RadioError::Timeout));
}

#[test]
fn wait_for_state_rejects_unknown_state() {
    let mut bus = FakeBus::new(50_000_000, 433_400_000);
    bus.reply(0xC0, &[0, 0x02]);
    let mut d = driver(bus);
    assert_eq!(d.wait_for_ready(3), Err(RadioError::ParameterError));
}

#[test]
fn extra_current_workaround() {
    let mut d = driver(FakeBus::new(50_000_000, 433_400_000));
    assert_eq!(d.management_wa_extra_current(), Ok(()));
    assert_eq!(
        d.hal.ops,
        vec![
            Op::Write(0xB2, vec![0xCA]),
            Op::Write(0xA8, vec![0x04]),
            Op::Delay(1),
            Op::Write(0xA8, vec![0x00]),
        ]
    );
}

#[test]
fn rssi_threshold_write() {
    let mut d = driver(FakeBus::new(50_000_000, 433_400_000));
    assert_eq!(d.set_rssi_threshold(-120), Ok(()));
    assert_eq!(d.hal.ops, vec![Op::Write(0x22, vec![0x14])]);
}

#[test]
fn rx_timeout_registers() {
    let mut bus = FakeBus::new(50_000_000, 433_400_000);
    bus.reply(0x53, &[0, 2, 4, 6, 1, 0]);
    let mut d = driver(bus);
    assert_eq!(d.set_rx_timeout(254, 83), Ok(()));
    assert_eq!(d.hal.ops[1], Op::Write(0x53, vec![83, 254, 4, 6, 1, 0]));
}

#[test]
fn rx_timeout_stop_condition() {
    let mut bus = FakeBus::new(50_000_000, 433_400_000);
    bus.reply(0x4F, &[0x70]);
    bus.reply(0x50, &[0x1F]);
    let mut d = driver(bus);
    assert_eq!(d.set_rx_timeout_stop_condition(RxTimeoutStopCondition::SqiAboveThreshold), Ok(()));
    assert_eq!(d.hal.ops[1], Op::Write(0x4F, vec![0x30]));
    assert_eq!(d.hal.ops[3], Op::Write(0x50, vec![0x5F]));
    let mut bus = FakeBus::new(50_000_000, 433_400_000);
    bus.reply(0x4F, &[0x00]);
    let mut d = driver(bus);
    assert_eq!(d.set_rx_timeout_stop_condition(RxTimeoutStopCondition::AnyAboveThreshold), Ok(()));
    assert_eq!(d.hal.ops[1], Op::Write(0x4F, vec![0x40]));
    assert_eq!(d.hal.ops[3], Op::Write(0x50, vec![0xE0]));
}

#[test]
fn irq_silence_and_clear() {
    let mut d = driver(FakeBus::new(50_000_000, 433_400_000));
    assert_eq!(d.irq_silence(), Ok(()));
    assert_eq!(d.irq_clear(), Ok(()));
    assert_eq!(d.hal.ops, vec![Op::Write(0x90, vec![0, 0, 0, 0]), Op::Read(0xFA, 4)]);
}

fn basic_options() -> BasicProtocolOpts {
    BasicProtocolOpts {
        preamble_length: PreambleLength::Bytes01,
        sync_length: PacketSyncLength::Bytes01,
        sync_words: (0x11, 0x22, 0x33, 0x44),
        fix_var_length: PacketLengthMode::Fixed,
        packet_length_width: 0,
        crc_mode: CrcMode::Crc0x07,
        control_length: PacketControlLength::Bytes01,
        address_field: true,
        fec: false,
        data_whitening: false,
    }
}

#[test]
fn configure_basic_packet() {
    let mut bus = FakeBus::new(50_000_000, 433_400_000);
    bus.reply(0x51, &[0x00]);
    bus.reply(0x4F, &[0x40]);
    let mut d = driver(bus);
    assert_eq!(d.configure_packet_protocol(PacketConfiguration::Basic(basic_options())), Ok(()));
    assert_eq!(
        d.hal.ops,
        vec![
            Op::Read(0x51, 1),
            Op::Write(0x51, vec![0x01]),
            Op::Read(0x4F, 1),
            Op::Write(0x4F, vec![0x71]),
            Op::Write(0x30, vec![0x09]),
            Op::Write(0x31, vec![0x01]),
            Op::Write(0x32, vec![0x00]),
            Op::Write(0x33, vec![0x20]),
            Op::Write(0x39, vec![0x11]),
            Op::Write(0x38, vec![0x22]),
            Op::Write(0x37, vec![0x33]),
            Op::Write(0x36, vec![0x44]),
        ]
    );
}

#[test]
fn configure_longest_preamble_without_crc() {
    let mut d = driver(FakeBus::new(50_000_000, 433_400_000));
    let opts = BasicProtocolOpts {
        preamble_length: PreambleLength::Bytes32,
        sync_length: PacketSyncLength::Bytes04,
        crc_mode: CrcMode::NoCrc,
        fix_var_length: PacketLengthMode::Variable,
        packet_length_width: 7,
        ..basic_options()
    };
    assert_eq!(d.configure_basic(opts), Ok(()));
    assert_eq!(d.hal.ops[3], Op::Write(0x4F, vec![0x30]));
    assert_eq!(d.hal.ops[5], Op::Write(0x31, vec![0x07]));
    assert_eq!(d.hal.ops[6], Op::Write(0x32, vec![0xFF]));
    assert_eq!(d.hal.ops[7], Op::Write(0x33, vec![0x00]));
}

#[test]
fn configure_other_formats_not_implemented() {
    let mut d = driver(FakeBus::new(50_000_000, 433_400_000));
    assert_eq!(
        d.configure_packet_protocol(PacketConfiguration::WMBus(WMBusProtocolOpts {})),
        Err(RadioError::NotImplemented)
    );
    assert!(d.hal.ops.is_empty());
}

#[test]
fn configure_address_filter() {
    let mut bus = FakeBus::new(50_000_000, 433_400_000);
    bus.reply(0x4F, &[0x7F]);
    let mut d = driver(bus);
    let opts = BasicAddressOpts {
        filter_on_my_address: false,
        my_address: 0x10,
        filter_on_multicast_address: false,
        multicast_address: 0xEE,
        filter_on_broadcast_address: true,
        broadcast_address: 0xFF,
    };
    assert_eq!(d.configure_basic_filter(opts), Ok(()));
    assert_eq!(
        d.hal.ops,
        vec![Op::Read(0x4F, 1), Op::Write(0x4F, vec![0x73]), Op::Write(0x4C, vec![0xFF, 0xEE, 0x10])]
    );
}

#[test]
fn pa_power_level_and_slot() {
    let mut bus = FakeBus::new(50_000_000, 433_400_000);
    bus.reply(0x18, &[0xC7]);
    let mut d = driver(bus);
    assert_eq!(d.set_pa_power_level(spirit1_rs::registers::PaSlot::Slot1, 0), Ok(()));
    assert_eq!(d.set_pa_power_level(spirit1_rs::registers::PaSlot::Slot8, 13), Err(RadioError::ParameterError));
    assert_eq!(d.set_pa_slot(spirit1_rs::registers::PaSlot::Slot1), Ok(()));
    assert_eq!(
        d.hal.ops,
        vec![Op::Write(0x17, vec![27]), Op::Read(0x18, 1), Op::Write(0x18, vec![0xC0])]
    );
}

#[test]
fn rx_passes_bus_error_on() {
    let mut bus = FakeBus::new(50_000_000, 433_400_000);
    bus.failing_write = Some(0x18);
    let mut d = driver(bus);
    let mut buffer = [0u8; 96];
    assert_eq!(d.rx_blocking(&mut buffer, 4), Err(RadioError::Spi));
    assert_eq!(d.hal.ops.last(), Some(&Op::Write(0x18, vec![0x00])));
}

#[test]
fn init_times_out_when_never_ready() {
    let mut bus = FakeBus::new(50_000_000, 433_400_000);
    for _ in 0..3 {
        bus.reply(0xC0, &[0, 0x80]);
    }
    let mut d = driver(bus);
    assert_eq!(d.init(RadioInitOpts::default(), 3), Err(RadioError::Timeout));
    assert_eq!(d.hal.ops.len(), 5 + 6);
}
