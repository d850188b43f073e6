//! Packet format configuration: the Basic packet, its sync word and its
//! address filter.
use vstd::prelude::*;

use crate::driver::{
    bus_failed, extends, is_bit_update, new_ops, read_data, BusOp, Spirit1Driver,
    Spirit1HalBlocking,
};
use crate::registers::{
    CrcMode, PacketFormat, PacketLengthMode, PcktCtrl1, PcktCtrl2, PcktCtrl3, PcktCtrl4, RxMode,
    TxMode, PCKT_FLT_GOALS_BROADCAST_ADDRESS, PCKT_FLT_OPTIONS_ADDRESS, PROTOCOL_1_ADDRESS,
    SYNC1_ADDRESS, SYNC2_ADDRESS, SYNC3_ADDRESS, SYNC4_ADDRESS,
};
use crate::{RadioError, RadioResult};

verus! {

/// Length of the preamble in bytes; the code is the length.
#[derive(Clone, Copy, Debug, PartialEq, Eq, Structural)]
pub enum PreambleLength {
    Bytes01,
    Bytes02,
    Bytes03,
    Bytes04,
    Bytes05,
    Bytes06,
    Bytes07,
    Bytes08,
    Bytes09,
    Bytes10,
    Bytes11,
    Bytes12,
    Bytes13,
    Bytes14,
    Bytes15,
    Bytes16,
    Bytes17,
    Bytes18,
    Bytes19,
    Bytes20,
    Bytes21,
    Bytes22,
    Bytes23,
    Bytes24,
    Bytes25,
    Bytes26,
    Bytes27,
    Bytes28,
    Bytes29,
    Bytes30,
    Bytes31,
    Bytes32,
}

impl PreambleLength {
    /// Code of the value in its register field.
    pub open spec fn spec_code(self) -> u8 {
        match self {
            PreambleLength::Bytes01 => 0x01,
            PreambleLength::Bytes02 => 0x02,
            PreambleLength::Bytes03 => 0x03,
            PreambleLength::Bytes04 => 0x04,
            PreambleLength::Bytes05 => 0x05,
            PreambleLength::Bytes06 => 0x06,
            PreambleLength::Bytes07 => 0x07,
            PreambleLength::Bytes08 => 0x08,
            PreambleLength::Bytes09 => 0x09,
            PreambleLength::Bytes10 => 0x0a,
            PreambleLength::Bytes11 => 0x0b,
            PreambleLength::Bytes12 => 0x0c,
            PreambleLength::Bytes13 => 0x0d,
            PreambleLength::Bytes14 => 0x0e,
            PreambleLength::Bytes15 => 0x0f,
            PreambleLength::Bytes16 => 0x10,
            PreambleLength::Bytes17 => 0x11,
            PreambleLength::Bytes18 => 0x12,
            PreambleLength::Bytes19 => 0x13,
            PreambleLength::Bytes20 => 0x14,
            PreambleLength::Bytes21 => 0x15,
            PreambleLength::Bytes22 => 0x16,
            PreambleLength::Bytes23 => 0x17,
            PreambleLength::Bytes24 => 0x18,
            PreambleLength::Bytes25 => 0x19,
            PreambleLength::Bytes26 => 0x1a,
            PreambleLength::Bytes27 => 0x1b,
            PreambleLength::Bytes28 => 0x1c,
            PreambleLength::Bytes29 => 0x1d,
            PreambleLength::Bytes30 => 0x1e,
            PreambleLength::Bytes31 => 0x1f,
            PreambleLength::Bytes32 => 0x20,
        }
    }

    /// The value whose code is `code`, if any.
    pub open spec fn spec_from_code(code: u8) -> Option<Self> {
        if code == 0x01 {
            Some(PreambleLength::Bytes01)
        } else if code == 0x02 {
            Some(PreambleLength::Bytes02)
        } else if code == 0x03 {
            Some(PreambleLength::Bytes03)
        } else if code == 0x04 {
            Some(PreambleLength::Bytes04)
        } else if code == 0x05 {
            Some(PreambleLength::Bytes05)
        } else if code == 0x06 {
            Some(PreambleLength::Bytes06)
        } else if code == 0x07 {
            Some(PreambleLength::Bytes07)
        } else if code == 0x08 {
            Some(PreambleLength::Bytes08)
        } else if code == 0x09 {
            Some(PreambleLength::Bytes09)
        } else if code == 0x0a {
            Some(PreambleLength::Bytes10)
        } else if code == 0x0b {
            Some(PreambleLength::Bytes11)
        } else if code == 0x0c {
            Some(PreambleLength::Bytes12)
        } else if code == 0x0d {
            Some(PreambleLength::Bytes13)
        } else if code == 0x0e {
            Some(PreambleLength::Bytes14)
        } else if code == 0x0f {
            Some(PreambleLength::Bytes15)
        } else if code == 0x10 {
            Some(PreambleLength::Bytes16)
        } else if code == 0x11 {
            Some(PreambleLength::Bytes17)
        } else if code == 0x12 {
            Some(PreambleLength::Bytes18)
        } else if code == 0x13 {
            Some(PreambleLength::Bytes19)
        } else if code == 0x14 {
            Some(PreambleLength::Bytes20)
        } else if code == 0x15 {
            Some(PreambleLength::Bytes21)
        } else if code == 0x16 {
            Some(PreambleLength::Bytes22)
        } else if code == 0x17 {
            Some(PreambleLength::Bytes23)
        } else if code == 0x18 {
            Some(PreambleLength::Bytes24)
        } else if code == 0x19 {
            Some(PreambleLength::Bytes25)
        } else if code == 0x1a {
            Some(PreambleLength::Bytes26)
        } else if code == 0x1b {
            Some(PreambleLength::Bytes27)
        } else if code == 0x1c {
            Some(PreambleLength::Bytes28)
        } else if code == 0x1d {
            Some(PreambleLength::Bytes29)
        } else if code == 0x1e {
            Some(PreambleLength::Bytes30)
        } else if code == 0x1f {
            Some(PreambleLength::Bytes31)
        } else if code == 0x20 {
            Some(PreambleLength::Bytes32)
        } else {
            None
        }
    }

    /// Code of the value in its register field.
    pub fn code(&self) -> (r: u8)
        ensures
            r == self.spec_code(),
    {
        match self {
            PreambleLength::Bytes01 => 0x01,
            PreambleLength::Bytes02 => 0x02,
            PreambleLength::Bytes03 => 0x03,
            PreambleLength::Bytes04 => 0x04,
            PreambleLength::Bytes05 => 0x05,
            PreambleLength::Bytes06 => 0x06,
            PreambleLength::Bytes07 => 0x07,
            PreambleLength::Bytes08 => 0x08,
            PreambleLength::Bytes09 => 0x09,
            PreambleLength::Bytes10 => 0x0a,
            PreambleLength::Bytes11 => 0x0b,
            PreambleLength::Bytes12 => 0x0c,
            PreambleLength::Bytes13 => 0x0d,
            PreambleLength::Bytes14 => 0x0e,
            PreambleLength::Bytes15 => 0x0f,
            PreambleLength::Bytes16 => 0x10,
            PreambleLength::Bytes17 => 0x11,
            PreambleLength::Bytes18 => 0x12,
            PreambleLength::Bytes19 => 0x13,
            PreambleLength::Bytes20 => 0x14,
            PreambleLength::Bytes21 => 0x15,
            PreambleLength::Bytes22 => 0x16,
            PreambleLength::Bytes23 => 0x17,
            PreambleLength::Bytes24 => 0x18,
            PreambleLength::Bytes25 => 0x19,
            PreambleLength::Bytes26 => 0x1a,
            PreambleLength::Bytes27 => 0x1b,
            PreambleLength::Bytes28 => 0x1c,
            PreambleLength::Bytes29 => 0x1d,
            PreambleLength::Bytes30 => 0x1e,
            PreambleLength::Bytes31 => 0x1f,
            PreambleLength::Bytes32 => 0x20,
        }
    }

    /// The value whose code is `code`, if any.
    pub fn from_code(code: u8) -> (r: Option<Self>)
        ensures
            r == Self::spec_from_code(code),
    {
        if code == 0x01 {
            Some(PreambleLength::Bytes01)
        } else if code == 0x02 {
            Some(PreambleLength::Bytes02)
        } else if code == 0x03 {
            Some(PreambleLength::Bytes03)
        } else if code == 0x04 {
            Some(PreambleLength::Bytes04)
        } else if code == 0x05 {
            Some(PreambleLength::Bytes05)
        } else if code == 0x06 {
            Some(PreambleLength::Bytes06)
        } else if code == 0x07 {
            Some(PreambleLength::Bytes07)
        } else if code == 0x08 {
            Some(PreambleLength::Bytes08)
        } else if code == 0x09 {
            Some(PreambleLength::Bytes09)
        } else if code == 0x0a {
            Some(PreambleLength::Bytes10)
        } else if code == 0x0b {
            Some(PreambleLength::Bytes11)
        } else if code == 0x0c {
            Some(PreambleLength::Bytes12)
        } else if code == 0x0d {
            Some(PreambleLength::Bytes13)
        } else if code == 0x0e {
            Some(PreambleLength::Bytes14)
        } else if code == 0x0f {
            Some(PreambleLength::Bytes15)
        } else if code == 0x10 {
            Some(PreambleLength::Bytes16)
        } else if code == 0x11 {
            Some(PreambleLength::Bytes17)
        } else if code == 0x12 {
            Some(PreambleLength::Bytes18)
        } else if code == 0x13 {
            Some(PreambleLength::Bytes19)
        } else if code == 0x14 {
            Some(PreambleLength::Bytes20)
        } else if code == 0x15 {
            Some(PreambleLength::Bytes21)
        } else if code == 0x16 {
            Some(PreambleLength::Bytes22)
        } else if code == 0x17 {
            Some(PreambleLength::Bytes23)
        } else if code == 0x18 {
            Some(PreambleLength::Bytes24)
        } else if code == 0x19 {
            Some(PreambleLength::Bytes25)
        } else if code == 0x1a {
            Some(PreambleLength::Bytes26)
        } else if code == 0x1b {
            Some(PreambleLength::Bytes27)
        } else if code == 0x1c {
            Some(PreambleLength::Bytes28)
        } else if code == 0x1d {
            Some(PreambleLength::Bytes29)
        } else if code == 0x1e {
            Some(PreambleLength::Bytes30)
        } else if code == 0x1f {
            Some(PreambleLength::Bytes31)
        } else if code == 0x20 {
            Some(PreambleLength::Bytes32)
        } else {
            None
        }
    }
}

/// Length of the sync word in bytes; the code is the length.
#[derive(Clone, Copy, Debug, PartialEq, Eq, Structural)]
pub enum PacketSyncLength {
    Bytes01,
    Bytes02,
    Bytes03,
    Bytes04,
}

impl PacketSyncLength {
    /// Code of the value in its register field.
    pub open spec fn spec_code(self) -> u8 {
        match self {
            PacketSyncLength::Bytes01 => 0x01,
            PacketSyncLength::Bytes02 => 0x02,
            PacketSyncLength::Bytes03 => 0x03,
            PacketSyncLength::Bytes04 => 0x04,
        }
    }

    /// The value whose code is `code`, if any.
    pub open spec fn spec_from_code(code: u8) -> Option<Self> {
        if code == 0x01 {
            Some(PacketSyncLength::Bytes01)
        } else if code == 0x02 {
            Some(PacketSyncLength::Bytes02)
        } else if code == 0x03 {
            Some(PacketSyncLength::Bytes03)
        } else if code == 0x04 {
            Some(PacketSyncLength::Bytes04)
        } else {
            None
        }
    }

    /// Code of the value in its register field.
    pub fn code(&self) -> (r: u8)
        ensures
            r == self.spec_code(),
    {
        match self {
            PacketSyncLength::Bytes01 => 0x01,
            PacketSyncLength::Bytes02 => 0x02,
            PacketSyncLength::Bytes03 => 0x03,
            PacketSyncLength::Bytes04 => 0x04,
        }
    }

    /// The value whose code is `code`, if any.
    pub fn from_code(code: u8) -> (r: Option<Self>)
        ensures
            r == Self::spec_from_code(code),
    {
        if code == 0x01 {
            Some(PacketSyncLength::Bytes01)
        } else if code == 0x02 {
            Some(PacketSyncLength::Bytes02)
        } else if code == 0x03 {
            Some(PacketSyncLength::Bytes03)
        } else if code == 0x04 {
            Some(PacketSyncLength::Bytes04)
        } else {
            None
        }
    }
}

/// Length of the control field in bytes; the code is the length.
#[derive(Clone, Copy, Debug, PartialEq, Eq, Structural)]
pub enum PacketControlLength {
    Bytes0,
    Bytes01,
    Bytes02,
    Bytes03,
    Bytes04,
}

impl PacketControlLength {
    /// Code of the value in its register field.
    pub open spec fn spec_code(self) -> u8 {
        match self {
            PacketControlLength::Bytes0 => 0x00,
            PacketControlLength::Bytes01 => 0x01,
            PacketControlLength::Bytes02 => 0x02,
            PacketControlLength::Bytes03 => 0x03,
            PacketControlLength::Bytes04 => 0x04,
        }
    }

    /// The value whose code is `code`, if any.
    pub open spec fn spec_from_code(code: u8) -> Option<Self> {
        if code == 0x00 {
            Some(PacketControlLength::Bytes0)
        } else if code == 0x01 {
            Some(PacketControlLength::Bytes01)
        } else if code == 0x02 {
            Some(PacketControlLength::Bytes02)
        } else if code == 0x03 {
            Some(PacketControlLength::Bytes03)
        } else if code == 0x04 {
            Some(PacketControlLength::Bytes04)
        } else {
            None
        }
    }

    /// Code of the value in its register field.
    pub fn code(&self) -> (r: u8)
        ensures
            r == self.spec_code(),
    {
        match self {
            PacketControlLength::Bytes0 => 0x00,
            PacketControlLength::Bytes01 => 0x01,
            PacketControlLength::Bytes02 => 0x02,
            PacketControlLength::Bytes03 => 0x03,
            PacketControlLength::Bytes04 => 0x04,
        }
    }

    /// The value whose code is `code`, if any.
    pub fn from_code(code: u8) -> (r: Option<Self>)
        ensures
            r == Self::spec_from_code(code),
    {
        if code == 0x00 {
            Some(PacketControlLength::Bytes0)
        } else if code == 0x01 {
            Some(PacketControlLength::Bytes01)
        } else if code == 0x02 {
            Some(PacketControlLength::Bytes02)
        } else if code == 0x03 {
            Some(PacketControlLength::Bytes03)
        } else if code == 0x04 {
            Some(PacketControlLength::Bytes04)
        } else {
            None
        }
    }
}


/// Options of the Basic packet.
#[derive(Clone, Copy, Debug)]
pub struct BasicProtocolOpts {
    /// Length of the preamble.
    pub preamble_length: PreambleLength,
    /// Length of the sync word.
    pub sync_length: PacketSyncLength,
    /// Sync word bytes, for `SYNC1` to `SYNC4`.
    pub sync_words: (u8, u8, u8, u8),
    /// Fixed or variable packet length.
    pub fix_var_length: PacketLengthMode,
    /// Width of the length field in bits, for variable length packets.
    pub packet_length_width: u8,
    /// CRC polynomial.
    pub crc_mode: CrcMode,
    /// Length of the control field.
    pub control_length: PacketControlLength,
    /// Whether a destination address is sent.
    pub address_field: bool,
    /// Whether FEC is enabled.
    pub fec: bool,
    /// Whether data whitening is enabled.
    pub data_whitening: bool,
}

/// Addresses of this node and the filters that received packets pass.
#[derive(Clone, Copy, Debug, PartialEq, Eq, Structural)]
pub struct BasicAddressOpts {
    /// Accept packets addressed to `my_address`.
    pub filter_on_my_address: bool,
    /// Source address of transmitted packets (this node).
    pub my_address: u8,
    /// Accept packets addressed to `multicast_address`.
    pub filter_on_multicast_address: bool,
    /// Multicast group of this node.
    pub multicast_address: u8,
    /// Accept packets addressed to `broadcast_address`.
    pub filter_on_broadcast_address: bool,
    /// Broadcast address.
    pub broadcast_address: u8,
}

/// Options of the Wireless M-Bus packet, which has no implementation.
#[derive(Clone, Copy, Debug, PartialEq, Eq, Structural)]
pub struct WMBusProtocolOpts {}

/// Options of the STack packet, which has no implementation.
#[derive(Clone, Copy, Debug, PartialEq, Eq, Structural)]
pub struct STackProtocolOpts {}

/// A packet format with its options.
#[derive(Clone, Copy, Debug)]
pub enum PacketConfiguration {
    Basic(BasicProtocolOpts),
    WMBus(WMBusProtocolOpts),
    STack(STackProtocolOpts),
}

/// `PCKT_FLT_OPTIONS` byte `b` with source and control filtering on and the CRC
/// check as requested.
pub open spec fn basic_filter_options(b: u8, crc_check: bool) -> u8 {
    crate::registers::with_bit(
        crate::registers::with_bit(crate::registers::with_bit(b, 16, true), 32, true),
        1,
        crc_check,
    )
}

/// `PCKTCTRL4` to `PCKTCTRL1` of a Basic packet. Preamble and sync lengths are
/// stored minus one.
pub open spec fn basic_packet_control(opts: BasicProtocolOpts) -> (PcktCtrl4, PcktCtrl3, PcktCtrl2, PcktCtrl1) {
    (
        PcktCtrl4 {
            reserved: 0,
            address_len: if opts.address_field {
                1
            } else {
                0
            },
            control_len: opts.control_length.spec_code(),
        },
        PcktCtrl3 {
            pckt_frmt: PacketFormat::Basic,
            rx_mode: RxMode::Normal,
            len_wid: if opts.packet_length_width < 1 {
                1
            } else {
                opts.packet_length_width
            },
        },
        PcktCtrl2 {
            preamble_length: (opts.preamble_length.spec_code() - 1) as u8,
            sync_length: (opts.sync_length.spec_code() - 1) as u8,
            fix_var_len: opts.fix_var_length,
        },
        PcktCtrl1 {
            crc_mode: opts.crc_mode,
            whit_en: opts.data_whitening,
            tx_source: TxMode::Normal,
            reserved: false,
            fec_en: opts.fec,
        },
    )
}

/// Transactions that configure a Basic packet: automatic packet filtering on
/// in `PROTOCOL[1]`, the filter options, the four packet control registers and
/// the sync word, `SYNC1` first.
pub open spec fn basic_trace(t: Seq<BusOp>, opts: BasicProtocolOpts) -> bool {
    let ctrl = basic_packet_control(opts);
    &&& t.len() == 12
    &&& is_bit_update(t[0], t[1], PROTOCOL_1_ADDRESS, 1, true)
    &&& t[2] matches BusOp::Read { address, data } && address == PCKT_FLT_OPTIONS_ADDRESS && data.len() == 1
    &&& t[3] == (BusOp::Write {
        address: PCKT_FLT_OPTIONS_ADDRESS,
        data: seq![basic_filter_options(read_data(t[2])[0], opts.crc_mode != CrcMode::NoCrc)],
    })
    &&& t[4] == (BusOp::Write { address: PcktCtrl4::ADDRESS, data: ctrl.0.encode() })
    &&& t[5] == (BusOp::Write { address: PcktCtrl3::ADDRESS, data: ctrl.1.encode() })
    &&& t[6] == (BusOp::Write { address: PcktCtrl2::ADDRESS, data: ctrl.2.encode() })
    &&& t[7] == (BusOp::Write { address: PcktCtrl1::ADDRESS, data: ctrl.3.encode() })
    &&& t[8] == (BusOp::Write { address: SYNC1_ADDRESS, data: seq![opts.sync_words.0] })
    &&& t[9] == (BusOp::Write { address: SYNC2_ADDRESS, data: seq![opts.sync_words.1] })
    &&& t[10] == (BusOp::Write { address: SYNC3_ADDRESS, data: seq![opts.sync_words.2] })
    &&& t[11] == (BusOp::Write { address: SYNC4_ADDRESS, data: seq![opts.sync_words.3] })
}

/// `PCKT_FLT_OPTIONS` byte `b` with the three destination filters as requested.
pub open spec fn address_filter_options(b: u8, opts: BasicAddressOpts) -> u8 {
    crate::registers::with_bit(
        crate::registers::with_bit(
            crate::registers::with_bit(b, 8, opts.filter_on_my_address),
            4,
            opts.filter_on_multicast_address,
        ),
        2,
        opts.filter_on_broadcast_address,
    )
}

impl<H: Spirit1HalBlocking> Spirit1Driver<H> {
    /// Configures the packet format; only the Basic packet has an
    /// implementation, the others fail with `NotImplemented` before any
    /// transaction.
    pub fn configure_packet_protocol(&mut self, configuration: PacketConfiguration) -> (r: RadioResult<()>)
        ensures
            final(self).facts() == old(self).facts(),
            extends(old(self).ops@, final(self).ops@),
            configuration matches PacketConfiguration::Basic(opts) ==> (r is Ok ==> basic_trace(
                new_ops(old(self).ops@, final(self).ops@),
                opts,
            )) && (r matches Err(e) ==> bus_failed(old(self).ops@, final(self).ops@, e)),
            !(configuration is Basic) ==> r == Err::<(), RadioError>(RadioError::NotImplemented)
                && final(self).ops@ == old(self).ops@,
    {
        match configuration {
            PacketConfiguration::Basic(opts) => self.configure_basic(opts),
            _ => Err(RadioError::NotImplemented),
        }
    }

    /// Sets the destination address filters and the three addresses of this node.
    pub fn configure_basic_filter(&mut self, opts: BasicAddressOpts) -> (r: RadioResult<()>)
        ensures
            final(self).facts() == old(self).facts(),
            extends(old(self).ops@, final(self).ops@),
            r is Ok ==> ({
                let t = new_ops(old(self).ops@, final(self).ops@);
                &&& t.len() == 3
                &&& t[0] matches BusOp::Read { address, data } && address == PCKT_FLT_OPTIONS_ADDRESS
                    && data.len() == 1
                &&& t[1] == (BusOp::Write {
                    address: PCKT_FLT_OPTIONS_ADDRESS,
                    data: seq![address_filter_options(read_data(t[0])[0], opts)],
                })
                &&& t[2] == (BusOp::Write {
                    address: PCKT_FLT_GOALS_BROADCAST_ADDRESS,
                    data: seq![opts.broadcast_address, opts.multicast_address, opts.my_address],
                })
            }),
            r matches Err(e) ==> bus_failed(old(self).ops@, final(self).ops@, e),
    {
        let ghost start = self.ops@;
        let options = self.read_raw(PCKT_FLT_OPTIONS_ADDRESS, 1)?;
        let b = options[0];
        let b = crate::registers::set_bit(b, 8, opts.filter_on_my_address);
        let b = crate::registers::set_bit(b, 4, opts.filter_on_multicast_address);
        let b = crate::registers::set_bit(b, 2, opts.filter_on_broadcast_address);
        let filters = [b];
        self.write_raw(PCKT_FLT_OPTIONS_ADDRESS, &filters)?;
        // PCKT_FLT_GOALS[2] to [0]: broadcast, multicast and source address.
        let goals = [opts.broadcast_address, opts.multicast_address, opts.my_address];
        let r = self.write_raw(PCKT_FLT_GOALS_BROADCAST_ADDRESS, &goals);
        proof {
            assert(filters@ =~= seq![address_filter_options(options@[0], opts)]);
            assert(goals@ =~= seq![opts.broadcast_address, opts.multicast_address, opts.my_address]);
            if r is Ok {
                assert(new_ops(start, self.ops@) =~= seq![
                    BusOp::Read { address: PCKT_FLT_OPTIONS_ADDRESS, data: options@ },
                    BusOp::Write { address: PCKT_FLT_OPTIONS_ADDRESS, data: filters@ },
                    BusOp::Write { address: PCKT_FLT_GOALS_BROADCAST_ADDRESS, data: goals@ },
                ]);
            }
        }
        r
    }

    /// Configures the Basic packet.
    pub fn configure_basic(&mut self, opts: BasicProtocolOpts) -> (r: RadioResult<()>)
        ensures
            final(self).facts() == old(self).facts(),
            extends(old(self).ops@, final(self).ops@),
            r is Ok ==> basic_trace(new_ops(old(self).ops@, final(self).ops@), opts),
            r matches Err(e) ==> bus_failed(old(self).ops@, final(self).ops@, e),
    {
        let ghost start = self.ops@;
        self.update_bit(PROTOCOL_1_ADDRESS, 1, true)?;
        let ghost after_protocol = self.ops@;
        let options = self.read_raw(PCKT_FLT_OPTIONS_ADDRESS, 1)?;
        let crc_check = match opts.crc_mode {
            CrcMode::NoCrc => false,
            _ => true,
        };
        let b = crate::registers::set_bit(options[0], 16, true);
        let b = crate::registers::set_bit(b, 32, true);
        let b = crate::registers::set_bit(b, 1, crc_check);
        let filters = [b];
        self.write_raw(PCKT_FLT_OPTIONS_ADDRESS, &filters)?;
        let ctrl4 = PcktCtrl4 {
            reserved: 0,
            address_len: if opts.address_field {
                1
            } else {
                0
            },
            control_len: opts.control_length.code(),
        };
        let mut ctrl3 = PcktCtrl3::reset_value();
        ctrl3.len_wid = if opts.packet_length_width < 1 {
            1
        } else {
            opts.packet_length_width
        };
        ctrl3.pckt_frmt = PacketFormat::Basic;
        let ctrl2 = PcktCtrl2 {
            preamble_length: opts.preamble_length.code() - 1,
            sync_length: opts.sync_length.code() - 1,
            fix_var_len: opts.fix_var_length,
        };
        let ctrl1 = PcktCtrl1 {
            crc_mode: opts.crc_mode,
            whit_en: opts.data_whitening,
            tx_source: TxMode::Normal,
            reserved: false,
            fec_en: opts.fec,
        };
        let b4 = ctrl4.into_bytes();
        self.write_raw(PcktCtrl4::ADDRESS, &b4)?;
        let b3 = ctrl3.into_bytes();
        self.write_raw(PcktCtrl3::ADDRESS, &b3)?;
        let b2 = ctrl2.into_bytes();
        self.write_raw(PcktCtrl2::ADDRESS, &b2)?;
        let b1 = ctrl1.into_bytes();
        self.write_raw(PcktCtrl1::ADDRESS, &b1)?;
        let sync1 = [opts.sync_words.0];
        self.write_raw(SYNC1_ADDRESS, &sync1)?;
        let sync2 = [opts.sync_words.1];
        self.write_raw(SYNC2_ADDRESS, &sync2)?;
        let sync3 = [opts.sync_words.2];
        self.write_raw(SYNC3_ADDRESS, &sync3)?;
        let sync4 = [opts.sync_words.3];
        let r = self.write_raw(SYNC4_ADDRESS, &sync4);
        proof {
            if r is Ok {
                let t = new_ops(start, self.ops@);
                let ctrl = basic_packet_control(opts);
                assert(t.len() == 12);
                assert(t[0] == after_protocol[start.len() as int]);
                assert(t[1] == after_protocol[start.len() + 1int]);
                assert(filters@ =~= seq![basic_filter_options(options@[0], opts.crc_mode != CrcMode::NoCrc)]);
                assert(read_data(t[2]) == options@);
                assert(ctrl4 == ctrl.0);
                assert(ctrl3 == ctrl.1);
                assert(ctrl2 == ctrl.2);
                assert(ctrl1 == ctrl.3);
                assert(sync1@ =~= seq![opts.sync_words.0]);
                assert(sync2@ =~= seq![opts.sync_words.1]);
                assert(sync3@ =~= seq![opts.sync_words.2]);
                assert(sync4@ =~= seq![opts.sync_words.3]);
            }
        }
        r
    }
}

} // verus!
