//! Register layouts of the chip and their byte codec. Bytes are listed in
//! address order, starting at the register's address; bit fields are named
//! by the weight of their lowest bit.
use vstd::prelude::*;

use crate::band::BandSelect;

verus! {

/// Value of the `span`-valued field at bit weight `unit` of byte `b`.
pub open spec fn field(b: u8, unit: int, span: int) -> int {
    (b as int / unit) % span
}

/// Byte `b` with bit `unit` (a power of two) set to `value`.
pub open spec fn with_bit(b: u8, unit: int, value: bool) -> u8 {
    if (field(b, unit, 2) == 1) == value {
        b
    } else if value {
        (b + unit) as u8
    } else {
        (b - unit) as u8
    }
}

/// Byte `b` with bit `unit` (a power of two) set to `value`.
pub fn set_bit(b: u8, unit: u8, value: bool) -> (r: u8)
    requires
        unit == 1 || unit == 2 || unit == 4 || unit == 8 || unit == 16 || unit == 32 || unit == 64
            || unit == 128,
    ensures
        r == with_bit(b, unit as int, value),
{
    let set = (b / unit) % 2 == 1;
    if set == value {
        b
    } else if value {
        b + unit
    } else {
        b - unit
    }
}

/// 0 or 1.
pub open spec fn bit(value: bool) -> int {
    if value {
        1
    } else {
        0
    }
}

/// `CHFLT` register (0x1D): channel filter bandwidth as mantissa and exponent.
#[derive(Clone, Copy, Debug, PartialEq, Eq, Structural)]
pub struct ChFlt {
    /// Mantissa of the channel filter bandwidth (bits 7..4).
    pub chflt_m: u8,
    /// Exponent of the channel filter bandwidth (bits 3..0).
    pub chflt_e: u8,
}

impl ChFlt {
    /// Address of the register's first byte.
    pub const ADDRESS: u8 = 0x1D;

    /// Every field fits its width.
    pub open spec fn wf(self) -> bool {
        self.chflt_m < 16 && self.chflt_e < 16
    }

    /// Register bytes, each field kept to its width.
    pub open spec fn encode(self) -> Seq<u8> {
        seq![((self.chflt_m % 16) * 16 + self.chflt_e % 16) as u8]
    }

    /// The register held by `bytes`.
    pub open spec fn decode(bytes: Seq<u8>) -> Option<Self> {
        Some(ChFlt { chflt_m: field(bytes[0], 16, 16) as u8, chflt_e: field(bytes[0], 1, 16) as u8 })
    }

    /// Register bytes, each field kept to its width.
    pub fn into_bytes(&self) -> (r: [u8; 1])
        ensures
            r@ == self.encode(),
    {
        let r = [(self.chflt_m % 16) * 16 + self.chflt_e % 16];
        assert(r@ =~= self.encode());
        r
    }

    /// The register held by `bytes`.
    pub fn from_bytes(bytes: [u8; 1]) -> (r: Self)
        ensures
            Some(r) == Self::decode(bytes@),
    {
        ChFlt { chflt_m: bytes[0] / 16, chflt_e: bytes[0] % 16 }
    }
}

/// `FDEV0` register (0x1C): frequency deviation and clock recovery algorithm.
#[derive(Clone, Copy, Debug, PartialEq, Eq, Structural)]
pub struct FreqDev0 {
    /// Exponent of the frequency deviation (bits 7..4).
    pub fdev_e: u8,
    /// PLL (true) or DLL (false) symbol timing recovery (bit 3).
    pub clock_rec_algo_sel: bool,
    /// Mantissa of the frequency deviation (bits 2..0).
    pub fdev_m: u8,
}

impl FreqDev0 {
    /// Address of the register's first byte.
    pub const ADDRESS: u8 = 0x1C;

    /// Every field fits its width.
    pub open spec fn wf(self) -> bool {
        self.fdev_e < 16 && self.fdev_m < 8
    }

    /// Register bytes, each field kept to its width.
    pub open spec fn encode(self) -> Seq<u8> {
        seq![((self.fdev_e % 16) * 16 + bit(self.clock_rec_algo_sel) * 8 + self.fdev_m % 8) as u8]
    }

    /// The register held by `bytes`.
    pub open spec fn decode(bytes: Seq<u8>) -> Option<Self> {
        Some(
            FreqDev0 {
                fdev_e: field(bytes[0], 16, 16) as u8,
                clock_rec_algo_sel: field(bytes[0], 8, 2) == 1,
                fdev_m: field(bytes[0], 1, 8) as u8,
            },
        )
    }

    /// Register bytes, each field kept to its width.
    pub fn into_bytes(&self) -> (r: [u8; 1])
        ensures
            r@ == self.encode(),
    {
        let algo: u8 = if self.clock_rec_algo_sel {
            8
        } else {
            0
        };
        let r = [(self.fdev_e % 16) * 16 + algo + self.fdev_m % 8];
        assert(r@ =~= self.encode());
        r
    }

    /// The register held by `bytes`.
    pub fn from_bytes(bytes: [u8; 1]) -> (r: Self)
        ensures
            Some(r) == Self::decode(bytes@),
    {
        FreqDev0 {
            fdev_e: bytes[0] / 16,
            clock_rec_algo_sel: (bytes[0] / 8) % 2 == 1,
            fdev_m: bytes[0] % 8,
        }
    }
}

/// `MOD1` and `MOD0` registers (0x1A, 0x1B): data rate and modulation.
#[derive(Clone, Copy, Debug, PartialEq, Eq, Structural)]
pub struct Modulation {
    /// Mantissa of the data rate (`MOD1`).
    pub datarate_m: u8,
    /// Continuous wave mode (`MOD0` bit 7).
    pub cw: bool,
    /// Gaussian filter bandwidth-time product 0.5 instead of 1 (`MOD0` bit 6).
    pub bt_sel: bool,
    /// Modulation (`MOD0` bits 5..4).
    pub mod_type: ModulationType,
    /// Exponent of the data rate (`MOD0` bits 3..0).
    pub datarate_e: u8,
}

impl Modulation {
    /// Address of the register's first byte.
    pub const ADDRESS: u8 = 0x1A;

    /// A modulation register with a Gaussian bandwidth-time product of 1.
    pub fn new(cw: bool, mod_type: ModulationType, datarate_e: u8, datarate_m: u8) -> (r: Self)
        ensures
            r == (Modulation { datarate_m, cw, bt_sel: false, mod_type, datarate_e }),
    {
        Modulation { datarate_m, cw, bt_sel: false, mod_type, datarate_e }
    }

    /// Every field fits its width.
    pub open spec fn wf(self) -> bool {
        self.datarate_e < 16
    }

    /// Register bytes, each field kept to its width.
    pub open spec fn encode(self) -> Seq<u8> {
        seq![
            self.datarate_m,
            (bit(self.cw) * 128 + bit(self.bt_sel) * 64 + self.mod_type.spec_code() * 16
                + self.datarate_e % 16) as u8,
        ]
    }

    /// The register held by `bytes`; `None` where the modulation code is unknown.
    pub open spec fn decode(bytes: Seq<u8>) -> Option<Self> {
        match ModulationType::spec_from_code(field(bytes[1], 16, 4) as u8) {
            Some(mod_type) => Some(
                Modulation {
                    datarate_m: bytes[0],
                    cw: field(bytes[1], 128, 2) == 1,
                    bt_sel: field(bytes[1], 64, 2) == 1,
                    mod_type,
                    datarate_e: field(bytes[1], 1, 16) as u8,
                },
            ),
            None => None,
        }
    }

    /// Register bytes, each field kept to its width.
    pub fn into_bytes(&self) -> (r: [u8; 2])
        ensures
            r@ == self.encode(),
    {
        let cw: u8 = if self.cw {
            128
        } else {
            0
        };
        let bt: u8 = if self.bt_sel {
            64
        } else {
            0
        };
        let r = [self.datarate_m, cw + bt + self.mod_type.code() * 16 + self.datarate_e % 16];
        assert(r@ =~= self.encode());
        r
    }

    /// The register held by `bytes`; `None` where the modulation code is unknown.
    pub fn from_bytes(bytes: [u8; 2]) -> (r: Option<Self>)
        ensures
            r == Self::decode(bytes@),
    {
        match ModulationType::from_code((bytes[1] / 16) % 4) {
            Some(mod_type) => Some(
                Modulation {
                    datarate_m: bytes[0],
                    cw: bytes[1] / 128 == 1,
                    bt_sel: (bytes[1] / 64) % 2 == 1,
                    mod_type,
                    datarate_e: bytes[1] % 16,
                },
            ),
            None => None,
        }
    }
}

/// `MC_STATE` registers (0xC0, 0xC1): state of the chip's main controller.
#[derive(Clone, Copy, Debug, PartialEq, Eq, Structural)]
pub struct McState {
    /// Reserved (`MC_STATE[1]` bits 7..4).
    pub reserved: u8,
    /// Currently selected antenna (`MC_STATE[1]` bit 3).
    pub ant_selection: bool,
    /// TX FIFO is full (`MC_STATE[1]` bit 2).
    pub tx_fifo_full: bool,
    /// RX FIFO is empty (`MC_STATE[1]` bit 1).
    pub rx_fifo_empty: bool,
    /// RCO calibrator error (`MC_STATE[1]` bit 0).
    pub rco_cal_error: bool,
    /// Current state (`MC_STATE[0]` bits 7..1).
    pub state: SpiritState,
    /// The crystal oscillator is running (`MC_STATE[0]` bit 0).
    pub xo_operating: bool,
}

impl McState {
    /// Address of the register's first byte.
    pub const ADDRESS: u8 = 0xC0;

    /// Every field fits its width.
    pub open spec fn wf(self) -> bool {
        self.reserved < 16
    }

    /// Register bytes, each field kept to its width.
    pub open spec fn encode(self) -> Seq<u8> {
        seq![
            ((self.reserved % 16) * 16 + bit(self.ant_selection) * 8 + bit(self.tx_fifo_full) * 4
                + bit(self.rx_fifo_empty) * 2 + bit(self.rco_cal_error)) as u8,
            (self.state.spec_code() * 2 + bit(self.xo_operating)) as u8,
        ]
    }

    /// The register held by `bytes`; `None` where the state code is unknown.
    pub open spec fn decode(bytes: Seq<u8>) -> Option<Self> {
        match SpiritState::spec_from_code((bytes[1] / 2) as u8) {
            Some(state) => Some(
                McState {
                    reserved: field(bytes[0], 16, 16) as u8,
                    ant_selection: field(bytes[0], 8, 2) == 1,
                    tx_fifo_full: field(bytes[0], 4, 2) == 1,
                    rx_fifo_empty: field(bytes[0], 2, 2) == 1,
                    rco_cal_error: field(bytes[0], 1, 2) == 1,
                    state,
                    xo_operating: field(bytes[1], 1, 2) == 1,
                },
            ),
            None => None,
        }
    }

    /// Register bytes, each field kept to its width.
    pub fn into_bytes(&self) -> (r: [u8; 2])
        ensures
            r@ == self.encode(),
    {
        let ant: u8 = if self.ant_selection {
            8
        } else {
            0
        };
        let full: u8 = if self.tx_fifo_full {
            4
        } else {
            0
        };
        let empty: u8 = if self.rx_fifo_empty {
            2
        } else {
            0
        };
        let cal: u8 = if self.rco_cal_error {
            1
        } else {
            0
        };
        let xo: u8 = if self.xo_operating {
            1
        } else {
            0
        };
        let r = [(self.reserved % 16) * 16 + ant + full + empty + cal, self.state.code() * 2 + xo];
        assert(r@ =~= self.encode());
        r
    }

    /// The register held by `bytes`; `None` where the state code is unknown.
    pub fn from_bytes(bytes: [u8; 2]) -> (r: Option<Self>)
        ensures
            r == Self::decode(bytes@),
    {
        match SpiritState::from_code(bytes[1] / 2) {
            Some(state) => Some(
                McState {
                    reserved: bytes[0] / 16,
                    ant_selection: (bytes[0] / 8) % 2 == 1,
                    tx_fifo_full: (bytes[0] / 4) % 2 == 1,
                    rx_fifo_empty: (bytes[0] / 2) % 2 == 1,
                    rco_cal_error: bytes[0] % 2 == 1,
                    state,
                    xo_operating: bytes[1] % 2 == 1,
                },
            ),
            None => None,
        }
    }
}

/// `IRQ_MASK` registers (0x90 to 0x93): the events that raise the interrupt line,
/// most significant byte first.
#[derive(Clone, Copy, Debug, PartialEq, Eq, Structural)]
pub struct IrqMask {
    /// Mask bits 31..24.
    pub int_mask_31_24: u8,
    /// Mask bits 23..16.
    pub int_mask_23_16: u8,
    /// Mask bits 15..8.
    pub int_mask_15_8: u8,
    /// Mask bits 7..0.
    pub int_mask_7_0: u8,
}

/// The 32-bit word of four bytes, most significant first.
pub open spec fn word_of(b3: u8, b2: u8, b1: u8, b0: u8) -> int {
    b3 * 0x100_0000 + b2 * 0x1_0000 + b1 * 0x100 + b0
}

impl IrqMask {
    /// Address of the register's first byte.
    pub const ADDRESS: u8 = 0x90;

    /// The mask of a 32-bit event word.
    pub fn new(irq_mask: u32) -> (r: Self)
        ensures
            r.spec_as_u32() == irq_mask,
    {
        IrqMask {
            int_mask_31_24: (irq_mask / 0x100_0000) as u8,
            int_mask_23_16: ((irq_mask / 0x1_0000) % 0x100) as u8,
            int_mask_15_8: ((irq_mask / 0x100) % 0x100) as u8,
            int_mask_7_0: (irq_mask % 0x100) as u8,
        }
    }

    /// The mask as a 32-bit event word.
    pub open spec fn spec_as_u32(self) -> int {
        word_of(self.int_mask_31_24, self.int_mask_23_16, self.int_mask_15_8, self.int_mask_7_0)
    }

    /// The mask as a 32-bit event word.
    pub fn as_u32(&self) -> (r: u32)
        ensures
            r == self.spec_as_u32(),
    {
        self.int_mask_31_24 as u32 * 0x100_0000 + self.int_mask_23_16 as u32 * 0x1_0000
            + self.int_mask_15_8 as u32 * 0x100 + self.int_mask_7_0 as u32
    }

    /// Register bytes.
    pub open spec fn encode(self) -> Seq<u8> {
        seq![self.int_mask_31_24, self.int_mask_23_16, self.int_mask_15_8, self.int_mask_7_0]
    }

    /// The register held by `bytes`.
    pub open spec fn decode(bytes: Seq<u8>) -> Option<Self> {
        Some(
            IrqMask {
                int_mask_31_24: bytes[0],
                int_mask_23_16: bytes[1],
                int_mask_15_8: bytes[2],
                int_mask_7_0: bytes[3],
            },
        )
    }

    /// Register bytes.
    pub fn into_bytes(&self) -> (r: [u8; 4])
        ensures
            r@ == self.encode(),
    {
        let r = [self.int_mask_31_24, self.int_mask_23_16, self.int_mask_15_8, self.int_mask_7_0];
        assert(r@ =~= self.encode());
        r
    }

    /// The register held by `bytes`.
    pub fn from_bytes(bytes: [u8; 4]) -> (r: Self)
        ensures
            Some(r) == Self::decode(bytes@),
    {
        IrqMask {
            int_mask_31_24: bytes[0],
            int_mask_23_16: bytes[1],
            int_mask_15_8: bytes[2],
            int_mask_7_0: bytes[3],
        }
    }
}

/// `IRQ_STATUS` registers (0xFA to 0xFD): the events that occurred since the last
/// read, most significant byte first. Reading them clears them.
#[derive(Clone, Copy, Debug, PartialEq, Eq, Structural)]
pub struct IrqStatus {
    /// Status bits 31..24.
    pub int_status_31_24: u8,
    /// Status bits 23..16.
    pub int_status_23_16: u8,
    /// Status bits 15..8.
    pub int_status_15_8: u8,
    /// Status bits 7..0.
    pub int_status_7_0: u8,
}

impl IrqStatus {
    /// Address of the register's first byte.
    pub const ADDRESS: u8 = 0xFA;

    /// The status as a 32-bit event word.
    pub open spec fn spec_as_u32(self) -> int {
        word_of(
            self.int_status_31_24,
            self.int_status_23_16,
            self.int_status_15_8,
            self.int_status_7_0,
        )
    }

    /// The status as a 32-bit event word.
    pub fn as_u32(&self) -> (r: u32)
        ensures
            r == self.spec_as_u32(),
    {
        self.int_status_31_24 as u32 * 0x100_0000 + self.int_status_23_16 as u32 * 0x1_0000
            + self.int_status_15_8 as u32 * 0x100 + self.int_status_7_0 as u32
    }

    /// Register bytes.
    pub open spec fn encode(self) -> Seq<u8> {
        seq![self.int_status_31_24, self.int_status_23_16, self.int_status_15_8, self.int_status_7_0]
    }

    /// The register held by `bytes`.
    pub open spec fn decode(bytes: Seq<u8>) -> Option<Self> {
        Some(
            IrqStatus {
                int_status_31_24: bytes[0],
                int_status_23_16: bytes[1],
                int_status_15_8: bytes[2],
                int_status_7_0: bytes[3],
            },
        )
    }

    /// Register bytes.
    pub fn into_bytes(&self) -> (r: [u8; 4])
        ensures
            r@ == self.encode(),
    {
        let r = [
            self.int_status_31_24,
            self.int_status_23_16,
            self.int_status_15_8,
            self.int_status_7_0,
        ];
        assert(r@ =~= self.encode());
        r
    }

    /// The register held by `bytes`.
    pub fn from_bytes(bytes: [u8; 4]) -> (r: Self)
        ensures
            Some(r) == Self::decode(bytes@),
    {
        IrqStatus {
            int_status_31_24: bytes[0],
            int_status_23_16: bytes[1],
            int_status_15_8: bytes[2],
            int_status_7_0: bytes[3],
        }
    }
}

/// `PCKTLEN1` and `PCKTLEN0` registers (0x34, 0x35): packet length, most
/// significant byte first.
#[derive(Clone, Copy, Debug, PartialEq, Eq, Structural)]
pub struct PcktLen {
    /// Length bits 15..8.
    pub pcktlen_msb: u8,
    /// Length bits 7..0.
    pub pcktlen_lsb: u8,
}

impl PcktLen {
    /// Address of the register's first byte.
    pub const ADDRESS: u8 = 0x34;

    /// The register of a packet length.
    pub fn new(packet_length: u16) -> (r: Self)
        ensures
            r.pcktlen_msb * 256 + r.pcktlen_lsb == packet_length,
    {
        PcktLen { pcktlen_msb: (packet_length / 256) as u8, pcktlen_lsb: (packet_length % 256) as u8 }
    }

    /// Register bytes.
    pub open spec fn encode(self) -> Seq<u8> {
        seq![self.pcktlen_msb, self.pcktlen_lsb]
    }

    /// The register held by `bytes`.
    pub open spec fn decode(bytes: Seq<u8>) -> Option<Self> {
        Some(PcktLen { pcktlen_msb: bytes[0], pcktlen_lsb: bytes[1] })
    }

    /// Register bytes.
    pub fn into_bytes(&self) -> (r: [u8; 2])
        ensures
            r@ == self.encode(),
    {
        let r = [self.pcktlen_msb, self.pcktlen_lsb];
        assert(r@ =~= self.encode());
        r
    }

    /// The register held by `bytes`.
    pub fn from_bytes(bytes: [u8; 2]) -> (r: Self)
        ensures
            Some(r) == Self::decode(bytes@),
    {
        PcktLen { pcktlen_msb: bytes[0], pcktlen_lsb: bytes[1] }
    }
}

/// `RX_PCKT_LEN` registers (0xC9, 0xCA): length of the received packet, most
/// significant byte first.
#[derive(Clone, Copy, Debug, PartialEq, Eq, Structural)]
pub struct RxPcktLen {
    /// Length bits 15..8.
    pub rx_pckt_len_1: u8,
    /// Length bits 7..0.
    pub rx_pckt_len_0: u8,
}

impl RxPcktLen {
    /// Address of the register's first byte.
    pub const ADDRESS: u8 = 0xC9;

    /// Number of bytes of the received packet.
    pub fn get_length(self) -> (r: u32)
        ensures
            r == self.rx_pckt_len_1 * 256 + self.rx_pckt_len_0,
    {
        (self.rx_pckt_len_1 as u32) * 256 + self.rx_pckt_len_0 as u32
    }

    /// Register bytes.
    pub open spec fn encode(self) -> Seq<u8> {
        seq![self.rx_pckt_len_1, self.rx_pckt_len_0]
    }

    /// The register held by `bytes`.
    pub open spec fn decode(bytes: Seq<u8>) -> Option<Self> {
        Some(RxPcktLen { rx_pckt_len_1: bytes[0], rx_pckt_len_0: bytes[1] })
    }

    /// Register bytes.
    pub fn into_bytes(&self) -> (r: [u8; 2])
        ensures
            r@ == self.encode(),
    {
        let r = [self.rx_pckt_len_1, self.rx_pckt_len_0];
        assert(r@ =~= self.encode());
        r
    }

    /// The register held by `bytes`.
    pub fn from_bytes(bytes: [u8; 2]) -> (r: Self)
        ensures
            Some(r) == Self::decode(bytes@),
    {
        RxPcktLen { rx_pckt_len_1: bytes[0], rx_pckt_len_0: bytes[1] }
    }
}

/// `FC_OFFSET` registers (0x0E, 0x0F): carrier offset in steps of `fXO / 2^18`,
/// a 12-bit two's complement integer.
#[derive(Clone, Copy, Debug, PartialEq, Eq, Structural)]
pub struct FcOffset {
    /// Reserved (`FC_OFFSET[1]` bits 7..4).
    pub reserved: u8,
    /// Offset bits 11..8 (`FC_OFFSET[1]` bits 3..0).
    pub fc_offset_msb: u8,
    /// Offset bits 7..0 (`FC_OFFSET[0]`).
    pub fc_offset_lsb: u8,
}

impl FcOffset {
    /// Address of the register's first byte.
    pub const ADDRESS: u8 = 0x0E;

    /// The register of an offset, kept to its twelve low bits.
    pub fn new(fc_offset: i16) -> (r: Self)
        ensures
            r.reserved == 0,
            r.fc_offset_msb * 256 + r.fc_offset_lsb == fc_offset as int % 4096,
    {
        let word: u16 = if fc_offset >= 0 {
            (fc_offset as u16) % 4096
        } else {
            (4096 - ((-(fc_offset as i32)) % 4096) as u16) % 4096
        };
        FcOffset { reserved: 0, fc_offset_msb: (word / 256) as u8, fc_offset_lsb: (word % 256) as u8 }
    }

    /// Every field fits its width.
    pub open spec fn wf(self) -> bool {
        self.reserved < 16 && self.fc_offset_msb < 16
    }

    /// Register bytes, each field kept to its width.
    pub open spec fn encode(self) -> Seq<u8> {
        seq![((self.reserved % 16) * 16 + self.fc_offset_msb % 16) as u8, self.fc_offset_lsb]
    }

    /// The register held by `bytes`.
    pub open spec fn decode(bytes: Seq<u8>) -> Option<Self> {
        Some(
            FcOffset {
                reserved: field(bytes[0], 16, 16) as u8,
                fc_offset_msb: field(bytes[0], 1, 16) as u8,
                fc_offset_lsb: bytes[1],
            },
        )
    }

    /// Register bytes, each field kept to its width.
    pub fn into_bytes(&self) -> (r: [u8; 2])
        ensures
            r@ == self.encode(),
    {
        let r = [(self.reserved % 16) * 16 + self.fc_offset_msb % 16, self.fc_offset_lsb];
        assert(r@ =~= self.encode());
        r
    }

    /// The register held by `bytes`.
    pub fn from_bytes(bytes: [u8; 2]) -> (r: Self)
        ensures
            Some(r) == Self::decode(bytes@),
    {
        FcOffset { reserved: bytes[0] / 16, fc_offset_msb: bytes[0] % 16, fc_offset_lsb: bytes[1] }
    }
}

/// `TIMERS` registers (0x53 to 0x58): prescaler and counter of the RX timeout and
/// of the low duty cycle timers.
#[derive(Clone, Copy, Debug, PartialEq, Eq, Structural)]
pub struct Timers {
    /// Prescaler of the RX timeout timer (`TIMERS[5]`).
    pub rx_timeout_prescaler: u8,
    /// Counter of the RX timeout timer (`TIMERS[4]`).
    pub rx_timeout_counter: u8,
    /// Prescaler of the LDC wake-up timer (`TIMERS[3]`).
    pub ldc_prescaler: u8,
    /// Counter of the LDC wake-up timer (`TIMERS[2]`).
    pub ldc_counter: u8,
    /// Prescaler of the LDC reload timer (`TIMERS[1]`).
    pub ldc_reload_prescaler: u8,
    /// Counter of the LDC reload timer (`TIMERS[0]`).
    pub ldc_reload_counter: u8,
}

impl Timers {
    /// Address of the register's first byte.
    pub const ADDRESS: u8 = 0x53;

    /// Register bytes.
    pub open spec fn encode(self) -> Seq<u8> {
        seq![
            self.rx_timeout_prescaler,
            self.rx_timeout_counter,
            self.ldc_prescaler,
            self.ldc_counter,
            self.ldc_reload_prescaler,
            self.ldc_reload_counter,
        ]
    }

    /// The register held by `bytes`.
    pub open spec fn decode(bytes: Seq<u8>) -> Option<Self> {
        Some(
            Timers {
                rx_timeout_prescaler: bytes[0],
                rx_timeout_counter: bytes[1],
                ldc_prescaler: bytes[2],
                ldc_counter: bytes[3],
                ldc_reload_prescaler: bytes[4],
                ldc_reload_counter: bytes[5],
            },
        )
    }

    /// Register bytes.
    pub fn into_bytes(&self) -> (r: [u8; 6])
        ensures
            r@ == self.encode(),
    {
        let r = [
            self.rx_timeout_prescaler,
            self.rx_timeout_counter,
            self.ldc_prescaler,
            self.ldc_counter,
            self.ldc_reload_prescaler,
            self.ldc_reload_counter,
        ];
        assert(r@ =~= self.encode());
        r
    }

    /// The register held by `bytes`.
    pub fn from_bytes(bytes: [u8; 6]) -> (r: Self)
        ensures
            Some(r) == Self::decode(bytes@),
    {
        Timers {
            rx_timeout_prescaler: bytes[0],
            rx_timeout_counter: bytes[1],
            ldc_prescaler: bytes[2],
            ldc_counter: bytes[3],
            ldc_reload_prescaler: bytes[4],
            ldc_reload_counter: bytes[5],
        }
    }
}

/// `LINEAR_FIFO_STATUS[0]` register (0xE7): number of bytes in the RX FIFO.
#[derive(Clone, Copy, Debug, PartialEq, Eq, Structural)]
pub struct LinearFifoStatusRxElements {
    /// Reserved (bit 7).
    pub reserved: bool,
    /// Number of bytes in the RX FIFO, 0 to 96 (bits 6..0).
    pub elem_rxfifo: u8,
}

impl LinearFifoStatusRxElements {
    /// Address of the register's first byte.
    pub const ADDRESS: u8 = 0xE7;

    /// Every field fits its width.
    pub open spec fn wf(self) -> bool {
        self.elem_rxfifo < 128
    }

    /// Register bytes, each field kept to its width.
    pub open spec fn encode(self) -> Seq<u8> {
        seq![(bit(self.reserved) * 128 + self.elem_rxfifo % 128) as u8]
    }

    /// The register held by `bytes`.
    pub open spec fn decode(bytes: Seq<u8>) -> Option<Self> {
        Some(
            LinearFifoStatusRxElements {
                reserved: field(bytes[0], 128, 2) == 1,
                elem_rxfifo: field(bytes[0], 1, 128) as u8,
            },
        )
    }

    /// Register bytes, each field kept to its width.
    pub fn into_bytes(&self) -> (r: [u8; 1])
        ensures
            r@ == self.encode(),
    {
        let top: u8 = if self.reserved {
            128
        } else {
            0
        };
        let r = [top + self.elem_rxfifo % 128];
        assert(r@ =~= self.encode());
        r
    }

    /// The register held by `bytes`.
    pub fn from_bytes(bytes: [u8; 1]) -> (r: Self)
        ensures
            Some(r) == Self::decode(bytes@),
    {
        LinearFifoStatusRxElements { reserved: bytes[0] / 128 == 1, elem_rxfifo: bytes[0] % 128 }
    }
}

/// `PA_POWER[0]` register (0x18): output stage and selected power slot.
#[derive(Clone, Copy, Debug, PartialEq, Eq, Structural)]
pub struct PaPower {
    /// Output stage additional load capacitors (bits 7..6).
    pub additional_load_capacitors: AdditionalLoadCapacitors,
    /// Power ramping enabled (bit 5).
    pub ramp_enable: bool,
    /// Width of a power ramp step (bits 4..3).
    pub ramp_step_width: u8,
    /// Highest slot of a power ramp, or the slot in use (bits 2..0).
    pub level_max_index: PaSlot,
}

impl PaPower {
    /// Address of the register's first byte.
    pub const ADDRESS: u8 = 0x18;

    /// Every field fits its width.
    pub open spec fn wf(self) -> bool {
        self.ramp_step_width < 4
    }

    /// Register bytes, each field kept to its width.
    pub open spec fn encode(self) -> Seq<u8> {
        seq![
            (self.additional_load_capacitors.spec_code() * 64 + bit(self.ramp_enable) * 32
                + (self.ramp_step_width % 4) * 8 + self.level_max_index.spec_code()) as u8,
        ]
    }

    /// The register held by `bytes`.
    pub open spec fn decode(bytes: Seq<u8>) -> Option<Self> {
        match (
            AdditionalLoadCapacitors::spec_from_code(field(bytes[0], 64, 4) as u8),
            PaSlot::spec_from_code(field(bytes[0], 1, 8) as u8),
        ) {
            (Some(caps), Some(slot)) => Some(
                PaPower {
                    additional_load_capacitors: caps,
                    ramp_enable: field(bytes[0], 32, 2) == 1,
                    ramp_step_width: field(bytes[0], 8, 4) as u8,
                    level_max_index: slot,
                },
            ),
            _ => None,
        }
    }

    /// Register bytes, each field kept to its width.
    pub fn into_bytes(&self) -> (r: [u8; 1])
        ensures
            r@ == self.encode(),
    {
        let ramp: u8 = if self.ramp_enable {
            32
        } else {
            0
        };
        let r = [self.additional_load_capacitors.code() * 64 + ramp + (self.ramp_step_width % 4)
            * 8 + self.level_max_index.code()];
        assert(r@ =~= self.encode());
        r
    }

    /// The register held by `bytes`.
    pub fn from_bytes(bytes: [u8; 1]) -> (r: Option<Self>)
        ensures
            r == Self::decode(bytes@),
    {
        match (AdditionalLoadCapacitors::from_code(bytes[0] / 64), PaSlot::from_code(bytes[0] % 8)) {
            (Some(caps), Some(slot)) => Some(
                PaPower {
                    additional_load_capacitors: caps,
                    ramp_enable: (bytes[0] / 32) % 2 == 1,
                    ramp_step_width: (bytes[0] / 8) % 4,
                    level_max_index: slot,
                },
            ),
            _ => None,
        }
    }
}

proof fn lemma_chflt_round_trip(chflt: ChFlt)
    requires
        chflt.wf(),
    ensures
        ChFlt::decode(chflt.encode()) == Some(chflt),
{
}

proof fn lemma_fdev_round_trip(fdev: FreqDev0)
    requires
        fdev.wf(),
    ensures
        FreqDev0::decode(fdev.encode()) == Some(fdev),
{
}

proof fn lemma_modulation_round_trip(modulation: Modulation)
    requires
        modulation.wf(),
    ensures
        Modulation::decode(modulation.encode()) == Some(modulation),
{
}

proof fn lemma_mc_state_round_trip(mc_state: McState)
    requires
        mc_state.wf(),
    ensures
        McState::decode(mc_state.encode()) == Some(mc_state),
{
}

proof fn lemma_irq_mask_round_trip(irq_mask: IrqMask)
    ensures
        IrqMask::decode(irq_mask.encode()) == Some(irq_mask),
{
}

proof fn lemma_irq_status_round_trip(irq_status: IrqStatus)
    ensures
        IrqStatus::decode(irq_status.encode()) == Some(irq_status),
{
}

proof fn lemma_pckt_len_round_trip(pckt_len: PcktLen)
    ensures
        PcktLen::decode(pckt_len.encode()) == Some(pckt_len),
{
}

proof fn lemma_rx_pckt_len_round_trip(rx_pckt_len: RxPcktLen)
    ensures
        RxPcktLen::decode(rx_pckt_len.encode()) == Some(rx_pckt_len),
{
}

proof fn lemma_fc_offset_round_trip(fc_offset: FcOffset)
    requires
        fc_offset.wf(),
    ensures
        FcOffset::decode(fc_offset.encode()) == Some(fc_offset),
{
}

proof fn lemma_timers_round_trip(timers: Timers)
    ensures
        Timers::decode(timers.encode()) == Some(timers),
{
}

proof fn lemma_fifo_round_trip(fifo: LinearFifoStatusRxElements)
    requires
        fifo.wf(),
    ensures
        LinearFifoStatusRxElements::decode(fifo.encode()) == Some(fifo),
{
}

proof fn lemma_pa_power_round_trip(pa_power: PaPower)
    requires
        pa_power.wf(),
    ensures
        PaPower::decode(pa_power.encode()) == Some(pa_power),
{
}


/// `PCKTCTRL4` register (0x30): address and control field lengths.
#[derive(Clone, Copy, Debug, PartialEq, Eq, Structural)]
pub struct PcktCtrl4 {
    /// Reserved (bits 7..5).
    pub reserved: u8,
    /// Length of the address field in bytes (bits 4..3).
    pub address_len: u8,
    /// Length of the control field in bytes (bits 2..0).
    pub control_len: u8,
}

impl PcktCtrl4 {
    /// Address of the register's first byte.
    pub const ADDRESS: u8 = 0x30;

    /// Every field fits its width.
    pub open spec fn wf(self) -> bool {
        self.reserved < 8 && self.address_len < 4 && self.control_len < 8
    }

    /// Register bytes, each field kept to its width.
    pub open spec fn encode(self) -> Seq<u8> {
        seq![((self.reserved % 8) * 32 + (self.address_len % 4) * 8 + self.control_len % 8) as u8]
    }

    /// The register held by `bytes`.
    pub open spec fn decode(bytes: Seq<u8>) -> Option<Self> {
        Some(
            PcktCtrl4 {
                reserved: field(bytes[0], 32, 8) as u8,
                address_len: field(bytes[0], 8, 4) as u8,
                control_len: field(bytes[0], 1, 8) as u8,
            },
        )
    }

    /// Register bytes, each field kept to its width.
    pub fn into_bytes(&self) -> (r: [u8; 1])
        ensures
            r@ == self.encode(),
    {
        let r = [(self.reserved % 8) * 32 + (self.address_len % 4) * 8 + self.control_len % 8];
        assert(r@ =~= self.encode());
        r
    }

    /// The register held by `bytes`.
    pub fn from_bytes(bytes: [u8; 1]) -> (r: Self)
        ensures
            Some(r) == Self::decode(bytes@),
    {
        PcktCtrl4 {
            reserved: bytes[0] / 32,
            address_len: (bytes[0] / 8) % 4,
            control_len: bytes[0] % 8,
        }
    }
}

/// `PCKTCTRL3` register (0x31): packet format, RX mode, width of the length field.
#[derive(Clone, Copy, Debug, PartialEq, Eq, Structural)]
pub struct PcktCtrl3 {
    /// Packet format (bits 7..6).
    pub pckt_frmt: PacketFormat,
    /// RX mode (bits 5..4).
    pub rx_mode: RxMode,
    /// Width of the length field in bits (bits 3..0).
    pub len_wid: u8,
}

impl PcktCtrl3 {
    /// Address of the register's first byte.
    pub const ADDRESS: u8 = 0x31;

    /// The register's value after reset.
    pub fn reset_value() -> (r: Self)
        ensures
            r == (PcktCtrl3 { pckt_frmt: PacketFormat::Basic, rx_mode: RxMode::Normal, len_wid: 7 }),
    {
        PcktCtrl3 { pckt_frmt: PacketFormat::Basic, rx_mode: RxMode::Normal, len_wid: 7 }
    }

    /// Every field fits its width.
    pub open spec fn wf(self) -> bool {
        self.len_wid < 16
    }

    /// Register bytes, each field kept to its width.
    pub open spec fn encode(self) -> Seq<u8> {
        seq![(self.pckt_frmt.spec_code() * 64 + self.rx_mode.spec_code() * 16 + self.len_wid % 16) as u8]
    }

    /// The register held by `bytes`; `None` where a code is unknown.
    pub open spec fn decode(bytes: Seq<u8>) -> Option<Self> {
        match (
            PacketFormat::spec_from_code(field(bytes[0], 64, 4) as u8),
            RxMode::spec_from_code(field(bytes[0], 16, 4) as u8),
        ) {
            (Some(pckt_frmt), Some(rx_mode)) => Some(
                PcktCtrl3 { pckt_frmt, rx_mode, len_wid: field(bytes[0], 1, 16) as u8 },
            ),
            _ => None,
        }
    }

    /// Register bytes, each field kept to its width.
    pub fn into_bytes(&self) -> (r: [u8; 1])
        ensures
            r@ == self.encode(),
    {
        let r = [self.pckt_frmt.code() * 64 + self.rx_mode.code() * 16 + self.len_wid % 16];
        assert(r@ =~= self.encode());
        r
    }

    /// The register held by `bytes`; `None` where a code is unknown.
    pub fn from_bytes(bytes: [u8; 1]) -> (r: Option<Self>)
        ensures
            r == Self::decode(bytes@),
    {
        match (PacketFormat::from_code(bytes[0] / 64), RxMode::from_code((bytes[0] / 16) % 4)) {
            (Some(pckt_frmt), Some(rx_mode)) => Some(
                PcktCtrl3 { pckt_frmt, rx_mode, len_wid: bytes[0] % 16 },
            ),
            _ => None,
        }
    }
}

/// `PCKTCTRL2` register (0x32): preamble and sync lengths, length mode.
#[derive(Clone, Copy, Debug, PartialEq, Eq, Structural)]
pub struct PcktCtrl2 {
    /// Preamble length in bytes minus one (bits 7..3).
    pub preamble_length: u8,
    /// Sync word length in bytes minus one (bits 2..1).
    pub sync_length: u8,
    /// Packet length mode (bit 0).
    pub fix_var_len: PacketLengthMode,
}

impl PcktCtrl2 {
    /// Address of the register's first byte.
    pub const ADDRESS: u8 = 0x32;

    /// Every field fits its width.
    pub open spec fn wf(self) -> bool {
        self.preamble_length < 32 && self.sync_length < 4
    }

    /// Register bytes, each field kept to its width.
    pub open spec fn encode(self) -> Seq<u8> {
        seq![((self.preamble_length % 32) * 8 + (self.sync_length % 4) * 2 + self.fix_var_len.spec_code()) as u8]
    }

    /// The register held by `bytes`.
    pub open spec fn decode(bytes: Seq<u8>) -> Option<Self> {
        match PacketLengthMode::spec_from_code(field(bytes[0], 1, 2) as u8) {
            Some(fix_var_len) => Some(
                PcktCtrl2 {
                    preamble_length: field(bytes[0], 8, 32) as u8,
                    sync_length: field(bytes[0], 2, 4) as u8,
                    fix_var_len,
                },
            ),
            None => None,
        }
    }

    /// Register bytes, each field kept to its width.
    pub fn into_bytes(&self) -> (r: [u8; 1])
        ensures
            r@ == self.encode(),
    {
        let r = [(self.preamble_length % 32) * 8 + (self.sync_length % 4) * 2 + self.fix_var_len.code()];
        assert(r@ =~= self.encode());
        r
    }

    /// The register held by `bytes`.
    pub fn from_bytes(bytes: [u8; 1]) -> (r: Option<Self>)
        ensures
            r == Self::decode(bytes@),
    {
        match PacketLengthMode::from_code(bytes[0] % 2) {
            Some(fix_var_len) => Some(
                PcktCtrl2 { preamble_length: bytes[0] / 8, sync_length: (bytes[0] / 2) % 4, fix_var_len },
            ),
            None => None,
        }
    }
}

/// `PCKTCTRL1` register (0x33): CRC, whitening, TX source, FEC.
#[derive(Clone, Copy, Debug, PartialEq, Eq, Structural)]
pub struct PcktCtrl1 {
    /// CRC polynomial (bits 7..5).
    pub crc_mode: CrcMode,
    /// Data whitening (bit 4).
    pub whit_en: bool,
    /// Source of transmitted data (bits 3..2).
    pub tx_source: TxMode,
    /// Reserved (bit 1).
    pub reserved: bool,
    /// FEC encoding and Viterbi decoding (bit 0).
    pub fec_en: bool,
}

impl PcktCtrl1 {
    /// Address of the register's first byte.
    pub const ADDRESS: u8 = 0x33;

    /// Register bytes.
    pub open spec fn encode(self) -> Seq<u8> {
        seq![
            (self.crc_mode.spec_code() * 32 + bit(self.whit_en) * 16 + self.tx_source.spec_code() * 4
                + bit(self.reserved) * 2 + bit(self.fec_en)) as u8,
        ]
    }

    /// The register held by `bytes`; `None` where a code is unknown.
    pub open spec fn decode(bytes: Seq<u8>) -> Option<Self> {
        match (
            CrcMode::spec_from_code(field(bytes[0], 32, 8) as u8),
            TxMode::spec_from_code(field(bytes[0], 4, 4) as u8),
        ) {
            (Some(crc_mode), Some(tx_source)) => Some(
                PcktCtrl1 {
                    crc_mode,
                    whit_en: field(bytes[0], 16, 2) == 1,
                    tx_source,
                    reserved: field(bytes[0], 2, 2) == 1,
                    fec_en: field(bytes[0], 1, 2) == 1,
                },
            ),
            _ => None,
        }
    }

    /// Register bytes.
    pub fn into_bytes(&self) -> (r: [u8; 1])
        ensures
            r@ == self.encode(),
    {
        let whit: u8 = if self.whit_en {
            16
        } else {
            0
        };
        let reserved: u8 = if self.reserved {
            2
        } else {
            0
        };
        let fec: u8 = if self.fec_en {
            1
        } else {
            0
        };
        let r = [self.crc_mode.code() * 32 + whit + self.tx_source.code() * 4 + reserved + fec];
        assert(r@ =~= self.encode());
        r
    }

    /// The register held by `bytes`; `None` where a code is unknown.
    pub fn from_bytes(bytes: [u8; 1]) -> (r: Option<Self>)
        ensures
            r == Self::decode(bytes@),
    {
        match (CrcMode::from_code(bytes[0] / 32), TxMode::from_code((bytes[0] / 4) % 4)) {
            (Some(crc_mode), Some(tx_source)) => Some(
                PcktCtrl1 {
                    crc_mode,
                    whit_en: (bytes[0] / 16) % 2 == 1,
                    tx_source,
                    reserved: (bytes[0] / 2) % 2 == 1,
                    fec_en: bytes[0] % 2 == 1,
                },
            ),
            _ => None,
        }
    }
}

/// `SYNT3` to `SYNT0` registers (0x08 to 0x0B): charge pump current, the 26-bit
/// synthesizer word and the band, as one 32-bit word, most significant byte first.
#[derive(Clone, Copy, Debug, PartialEq, Eq, Structural)]
pub struct Synt {
    /// Charge pump current (bits 31..29).
    pub wcp: u8,
    /// Synthesizer word of the base frequency (bits 28..3).
    pub synt: u32,
    /// Band (bits 2..0).
    pub band_select: BandSelect,
}

impl Synt {
    /// Address of the register's first byte.
    pub const ADDRESS: u8 = 0x08;

    /// Every field fits its width.
    pub open spec fn wf(self) -> bool {
        self.wcp < 8 && self.synt < 0x400_0000
    }

    /// The register as a 32-bit word.
    pub open spec fn word(self) -> int {
        (self.wcp % 8) * 0x2000_0000 + (self.synt % 0x400_0000) * 8 + self.band_select.spec_value()
    }

    /// Register bytes, each field kept to its width.
    pub open spec fn encode(self) -> Seq<u8> {
        let w = self.word();
        seq![
            (((w / 0x100) / 0x100) / 0x100) as u8,
            (((w / 0x100) / 0x100) % 0x100) as u8,
            ((w / 0x100) % 0x100) as u8,
            (w % 0x100) as u8,
        ]
    }

    /// The register held by `bytes`; `None` where the band code is unknown.
    pub open spec fn decode(bytes: Seq<u8>) -> Option<Self> {
        let w = word_of(bytes[0], bytes[1], bytes[2], bytes[3]);
        match BandSelect::spec_from_value((w % 8) as u8) {
            Some(band_select) => Some(
                Synt { wcp: (w / 0x2000_0000) as u8, synt: ((w / 8) % 0x400_0000) as u32, band_select },
            ),
            None => None,
        }
    }

    /// Register bytes, each field kept to its width.
    pub fn into_bytes(&self) -> (r: [u8; 4])
        ensures
            r@ == self.encode(),
    {
        let word: u32 = (self.wcp % 8) as u32 * 0x2000_0000 + (self.synt % 0x400_0000) * 8
            + self.band_select.value() as u32;
        let r = [
            (((word / 0x100) / 0x100) / 0x100) as u8,
            (((word / 0x100) / 0x100) % 0x100) as u8,
            ((word / 0x100) % 0x100) as u8,
            (word % 0x100) as u8,
        ];
        assert(r@ =~= self.encode());
        r
    }

    /// The register held by `bytes`; `None` where the band code is unknown.
    pub fn from_bytes(bytes: [u8; 4]) -> (r: Option<Self>)
        ensures
            r == Self::decode(bytes@),
    {
        let word: u32 = bytes[0] as u32 * 0x100_0000 + bytes[1] as u32 * 0x1_0000 + bytes[2] as u32
            * 0x100 + bytes[3] as u32;
        match BandSelect::from_value((word % 8) as u8) {
            Some(band_select) => Some(
                Synt { wcp: (word / 0x2000_0000) as u8, synt: (word / 8) % 0x400_0000, band_select },
            ),
            None => None,
        }
    }
}

proof fn lemma_pckt_ctrl4_round_trip(pckt_ctrl4: PcktCtrl4)
    requires
        pckt_ctrl4.wf(),
    ensures
        PcktCtrl4::decode(pckt_ctrl4.encode()) == Some(pckt_ctrl4),
{
}

proof fn lemma_pckt_ctrl3_round_trip(pckt_ctrl3: PcktCtrl3)
    requires
        pckt_ctrl3.wf(),
    ensures
        PcktCtrl3::decode(pckt_ctrl3.encode()) == Some(pckt_ctrl3),
{
}

proof fn lemma_pckt_ctrl2_round_trip(pckt_ctrl2: PcktCtrl2)
    requires
        pckt_ctrl2.wf(),
    ensures
        PcktCtrl2::decode(pckt_ctrl2.encode()) == Some(pckt_ctrl2),
{
}

proof fn lemma_pckt_ctrl1_round_trip(pckt_ctrl1: PcktCtrl1)
    ensures
        PcktCtrl1::decode(pckt_ctrl1.encode()) == Some(pckt_ctrl1),
{
}

proof fn lemma_synt_round_trip(synt: Synt)
    requires
        synt.wf(),
    ensures
        Synt::decode(synt.encode()) == Some(synt),
{
    let w = synt.word();
    let b = synt.encode();
    assert(0 <= w < 0x1_0000_0000);
    let q1 = w / 0x100;
    let q2 = q1 / 0x100;
    assert(w == q1 * 0x100 + b[3]);
    assert(q1 == q2 * 0x100 + b[2]);
    assert(q2 == b[0] * 0x100 + b[1]);
    assert(word_of(b[0], b[1], b[2], b[3]) == w);
    assert(w % 8 == synt.band_select.spec_value());
    assert(w / 0x2000_0000 == synt.wcp);
    assert((w / 8) % 0x400_0000 == synt.synt);
}

proof fn lemma_ch_flt_bytes_round_trip(ch_flt_bytes: Seq<u8>)
    requires
        ch_flt_bytes.len() == 1,
        ChFlt::decode(ch_flt_bytes) is Some,
    ensures
        ChFlt::decode(ch_flt_bytes)->Some_0.encode() == ch_flt_bytes,
{
    assert(ChFlt::decode(ch_flt_bytes)->Some_0.encode() =~= ch_flt_bytes);
}

proof fn lemma_freq_dev0_bytes_round_trip(freq_dev0_bytes: Seq<u8>)
    requires
        freq_dev0_bytes.len() == 1,
        FreqDev0::decode(freq_dev0_bytes) is Some,
    ensures
        FreqDev0::decode(freq_dev0_bytes)->Some_0.encode() == freq_dev0_bytes,
{
    assert(FreqDev0::decode(freq_dev0_bytes)->Some_0.encode() =~= freq_dev0_bytes);
}

proof fn lemma_modulation_bytes_round_trip(modulation_bytes: Seq<u8>)
    requires
        modulation_bytes.len() == 2,
        Modulation::decode(modulation_bytes) is Some,
    ensures
        Modulation::decode(modulation_bytes)->Some_0.encode() == modulation_bytes,
{
    assert(Modulation::decode(modulation_bytes)->Some_0.encode() =~= modulation_bytes);
}

proof fn lemma_mc_state_bytes_round_trip(mc_state_bytes: Seq<u8>)
    requires
        mc_state_bytes.len() == 2,
        McState::decode(mc_state_bytes) is Some,
    ensures
        McState::decode(mc_state_bytes)->Some_0.encode() == mc_state_bytes,
{
    let b0 = mc_state_bytes[0];
    let b1 = mc_state_bytes[1];
    let m = McState::decode(mc_state_bytes)->Some_0;
    assert(b0 == field(b0, 16, 16) * 16 + field(b0, 8, 2) * 8 + field(b0, 4, 2) * 4 + field(b0, 2, 2) * 2
        + field(b0, 1, 2));
    assert(m.state.spec_code() == b1 / 2);
    assert(b1 == (b1 / 2) * 2 + field(b1, 1, 2));
    assert(m.encode() =~= mc_state_bytes);
}

proof fn lemma_irq_mask_bytes_round_trip(irq_mask_bytes: Seq<u8>)
    requires
        irq_mask_bytes.len() == 4,
        IrqMask::decode(irq_mask_bytes) is Some,
    ensures
        IrqMask::decode(irq_mask_bytes)->Some_0.encode() == irq_mask_bytes,
{
    assert(IrqMask::decode(irq_mask_bytes)->Some_0.encode() =~= irq_mask_bytes);
}

proof fn lemma_irq_status_bytes_round_trip(irq_status_bytes: Seq<u8>)
    requires
        irq_status_bytes.len() == 4,
        IrqStatus::decode(irq_status_bytes) is Some,
    ensures
        IrqStatus::decode(irq_status_bytes)->Some_0.encode() == irq_status_bytes,
{
    assert(IrqStatus::decode(irq_status_bytes)->Some_0.encode() =~= irq_status_bytes);
}

proof fn lemma_pckt_len_bytes_round_trip(pckt_len_bytes: Seq<u8>)
    requires
        pckt_len_bytes.len() == 2,
        PcktLen::decode(pckt_len_bytes) is Some,
    ensures
        PcktLen::decode(pckt_len_bytes)->Some_0.encode() == pckt_len_bytes,
{
    assert(PcktLen::decode(pckt_len_bytes)->Some_0.encode() =~= pckt_len_bytes);
}

proof fn lemma_rx_pckt_len_bytes_round_trip(rx_pckt_len_bytes: Seq<u8>)
    requires
        rx_pckt_len_bytes.len() == 2,
        RxPcktLen::decode(rx_pckt_len_bytes) is Some,
    ensures
        RxPcktLen::decode(rx_pckt_len_bytes)->Some_0.encode() == rx_pckt_len_bytes,
{
    assert(RxPcktLen::decode(rx_pckt_len_bytes)->Some_0.encode() =~= rx_pckt_len_bytes);
}

proof fn lemma_fc_offset_bytes_round_trip(fc_offset_bytes: Seq<u8>)
    requires
        fc_offset_bytes.len() == 2,
        FcOffset::decode(fc_offset_bytes) is Some,
    ensures
        FcOffset::decode(fc_offset_bytes)->Some_0.encode() == fc_offset_bytes,
{
    assert(FcOffset::decode(fc_offset_bytes)->Some_0.encode() =~= fc_offset_bytes);
}

proof fn lemma_timers_bytes_round_trip(timers_bytes: Seq<u8>)
    requires
        timers_bytes.len() == 6,
        Timers::decode(timers_bytes) is Some,
    ensures
        Timers::decode(timers_bytes)->Some_0.encode() == timers_bytes,
{
    assert(Timers::decode(timers_bytes)->Some_0.encode() =~= timers_bytes);
}

proof fn lemma_fifo_bytes_round_trip(fifo_bytes: Seq<u8>)
    requires
        fifo_bytes.len() == 1,
        LinearFifoStatusRxElements::decode(fifo_bytes) is Some,
    ensures
        LinearFifoStatusRxElements::decode(fifo_bytes)->Some_0.encode() == fifo_bytes,
{
    assert(LinearFifoStatusRxElements::decode(fifo_bytes)->Some_0.encode() =~= fifo_bytes);
}

proof fn lemma_pa_power_bytes_round_trip(pa_power_bytes: Seq<u8>)
    requires
        pa_power_bytes.len() == 1,
        PaPower::decode(pa_power_bytes) is Some,
    ensures
        PaPower::decode(pa_power_bytes)->Some_0.encode() == pa_power_bytes,
{
    assert(PaPower::decode(pa_power_bytes)->Some_0.encode() =~= pa_power_bytes);
}

proof fn lemma_pckt_ctrl4_bytes_round_trip(pckt_ctrl4_bytes: Seq<u8>)
    requires
        pckt_ctrl4_bytes.len() == 1,
        PcktCtrl4::decode(pckt_ctrl4_bytes) is Some,
    ensures
        PcktCtrl4::decode(pckt_ctrl4_bytes)->Some_0.encode() == pckt_ctrl4_bytes,
{
    assert(PcktCtrl4::decode(pckt_ctrl4_bytes)->Some_0.encode() =~= pckt_ctrl4_bytes);
}

proof fn lemma_pckt_ctrl3_bytes_round_trip(pckt_ctrl3_bytes: Seq<u8>)
    requires
        pckt_ctrl3_bytes.len() == 1,
        PcktCtrl3::decode(pckt_ctrl3_bytes) is Some,
    ensures
        PcktCtrl3::decode(pckt_ctrl3_bytes)->Some_0.encode() == pckt_ctrl3_bytes,
{
    assert(PcktCtrl3::decode(pckt_ctrl3_bytes)->Some_0.encode() =~= pckt_ctrl3_bytes);
}

proof fn lemma_pckt_ctrl2_bytes_round_trip(pckt_ctrl2_bytes: Seq<u8>)
    requires
        pckt_ctrl2_bytes.len() == 1,
        PcktCtrl2::decode(pckt_ctrl2_bytes) is Some,
    ensures
        PcktCtrl2::decode(pckt_ctrl2_bytes)->Some_0.encode() == pckt_ctrl2_bytes,
{
    assert(PcktCtrl2::decode(pckt_ctrl2_bytes)->Some_0.encode() =~= pckt_ctrl2_bytes);
}

proof fn lemma_pckt_ctrl1_bytes_round_trip(pckt_ctrl1_bytes: Seq<u8>)
    requires
        pckt_ctrl1_bytes.len() == 1,
        PcktCtrl1::decode(pckt_ctrl1_bytes) is Some,
    ensures
        PcktCtrl1::decode(pckt_ctrl1_bytes)->Some_0.encode() == pckt_ctrl1_bytes,
{
    assert(PcktCtrl1::decode(pckt_ctrl1_bytes)->Some_0.encode() =~= pckt_ctrl1_bytes);
}

proof fn lemma_synt_bytes_round_trip(synt_bytes: Seq<u8>)
    requires
        synt_bytes.len() == 4,
        Synt::decode(synt_bytes) is Some,
    ensures
        Synt::decode(synt_bytes)->Some_0.encode() == synt_bytes,
{
    let b = synt_bytes;
    let w = word_of(b[0], b[1], b[2], b[3]);
    let v = Synt::decode(b)->Some_0;
    assert(0 <= w < 0x1_0000_0000);
    assert(v.band_select.spec_value() == w % 8);
    assert(w == (w / 0x2000_0000) * 0x2000_0000 + ((w / 8) % 0x400_0000) * 8 + w % 8);
    assert(v.word() == w);
    let q1 = w / 0x100;
    let q2 = q1 / 0x100;
    assert(q1 == b[0] * 0x1_0000 + b[1] * 0x100 + b[2]);
    assert(q2 == b[0] * 0x100 + b[1]);
    assert(v.encode() =~= b);
}

/// Encoding the register value that bytes of the right length decode to gives
/// those bytes back, for every register kind.
pub proof fn lemma_register_bytes_round_trip(
    ch_flt_bytes: Seq<u8>,
    freq_dev0_bytes: Seq<u8>,
    modulation_bytes: Seq<u8>,
    mc_state_bytes: Seq<u8>,
    irq_mask_bytes: Seq<u8>,
    irq_status_bytes: Seq<u8>,
    pckt_len_bytes: Seq<u8>,
    rx_pckt_len_bytes: Seq<u8>,
    fc_offset_bytes: Seq<u8>,
    timers_bytes: Seq<u8>,
    fifo_bytes: Seq<u8>,
    pa_power_bytes: Seq<u8>,
    pckt_ctrl4_bytes: Seq<u8>,
    pckt_ctrl3_bytes: Seq<u8>,
    pckt_ctrl2_bytes: Seq<u8>,
    pckt_ctrl1_bytes: Seq<u8>,
    synt_bytes: Seq<u8>,
)
    ensures
        ch_flt_bytes.len() == 1 && ChFlt::decode(ch_flt_bytes) is Some ==> ChFlt::decode(ch_flt_bytes)->Some_0.encode() == ch_flt_bytes,
        freq_dev0_bytes.len() == 1 && FreqDev0::decode(freq_dev0_bytes) is Some ==> FreqDev0::decode(freq_dev0_bytes)->Some_0.encode() == freq_dev0_bytes,
        modulation_bytes.len() == 2 && Modulation::decode(modulation_bytes) is Some ==> Modulation::decode(modulation_bytes)->Some_0.encode() == modulation_bytes,
        mc_state_bytes.len() == 2 && McState::decode(mc_state_bytes) is Some ==> McState::decode(mc_state_bytes)->Some_0.encode() == mc_state_bytes,
        irq_mask_bytes.len() == 4 && IrqMask::decode(irq_mask_bytes) is Some ==> IrqMask::decode(irq_mask_bytes)->Some_0.encode() == irq_mask_bytes,
        irq_status_bytes.len() == 4 && IrqStatus::decode(irq_status_bytes) is Some ==> IrqStatus::decode(irq_status_bytes)->Some_0.encode() == irq_status_bytes,
        pckt_len_bytes.len() == 2 && PcktLen::decode(pckt_len_bytes) is Some ==> PcktLen::decode(pckt_len_bytes)->Some_0.encode() == pckt_len_bytes,
        rx_pckt_len_bytes.len() == 2 && RxPcktLen::decode(rx_pckt_len_bytes) is Some ==> RxPcktLen::decode(rx_pckt_len_bytes)->Some_0.encode() == rx_pckt_len_bytes,
        fc_offset_bytes.len() == 2 && FcOffset::decode(fc_offset_bytes) is Some ==> FcOffset::decode(fc_offset_bytes)->Some_0.encode() == fc_offset_bytes,
        timers_bytes.len() == 6 && Timers::decode(timers_bytes) is Some ==> Timers::decode(timers_bytes)->Some_0.encode() == timers_bytes,
        fifo_bytes.len() == 1 && LinearFifoStatusRxElements::decode(fifo_bytes) is Some ==> LinearFifoStatusRxElements::decode(fifo_bytes)->Some_0.encode() == fifo_bytes,
        pa_power_bytes.len() == 1 && PaPower::decode(pa_power_bytes) is Some ==> PaPower::decode(pa_power_bytes)->Some_0.encode() == pa_power_bytes,
        pckt_ctrl4_bytes.len() == 1 && PcktCtrl4::decode(pckt_ctrl4_bytes) is Some ==> PcktCtrl4::decode(pckt_ctrl4_bytes)->Some_0.encode() == pckt_ctrl4_bytes,
        pckt_ctrl3_bytes.len() == 1 && PcktCtrl3::decode(pckt_ctrl3_bytes) is Some ==> PcktCtrl3::decode(pckt_ctrl3_bytes)->Some_0.encode() == pckt_ctrl3_bytes,
        pckt_ctrl2_bytes.len() == 1 && PcktCtrl2::decode(pckt_ctrl2_bytes) is Some ==> PcktCtrl2::decode(pckt_ctrl2_bytes)->Some_0.encode() == pckt_ctrl2_bytes,
        pckt_ctrl1_bytes.len() == 1 && PcktCtrl1::decode(pckt_ctrl1_bytes) is Some ==> PcktCtrl1::decode(pckt_ctrl1_bytes)->Some_0.encode() == pckt_ctrl1_bytes,
        synt_bytes.len() == 4 && Synt::decode(synt_bytes) is Some ==> Synt::decode(synt_bytes)->Some_0.encode() == synt_bytes,
{
    if ch_flt_bytes.len() == 1 && ChFlt::decode(ch_flt_bytes) is Some {
        lemma_ch_flt_bytes_round_trip(ch_flt_bytes);
    }
    if freq_dev0_bytes.len() == 1 && FreqDev0::decode(freq_dev0_bytes) is Some {
        lemma_freq_dev0_bytes_round_trip(freq_dev0_bytes);
    }
    if modulation_bytes.len() == 2 && Modulation::decode(modulation_bytes) is Some {
        lemma_modulation_bytes_round_trip(modulation_bytes);
    }
    if mc_state_bytes.len() == 2 && McState::decode(mc_state_bytes) is Some {
        lemma_mc_state_bytes_round_trip(mc_state_bytes);
    }
    if irq_mask_bytes.len() == 4 && IrqMask::decode(irq_mask_bytes) is Some {
        lemma_irq_mask_bytes_round_trip(irq_mask_bytes);
    }
    if irq_status_bytes.len() == 4 && IrqStatus::decode(irq_status_bytes) is Some {
        lemma_irq_status_bytes_round_trip(irq_status_bytes);
    }
    if pckt_len_bytes.len() == 2 && PcktLen::decode(pckt_len_bytes) is Some {
        lemma_pckt_len_bytes_round_trip(pckt_len_bytes);
    }
    if rx_pckt_len_bytes.len() == 2 && RxPcktLen::decode(rx_pckt_len_bytes) is Some {
        lemma_rx_pckt_len_bytes_round_trip(rx_pckt_len_bytes);
    }
    if fc_offset_bytes.len() == 2 && FcOffset::decode(fc_offset_bytes) is Some {
        lemma_fc_offset_bytes_round_trip(fc_offset_bytes);
    }
    if timers_bytes.len() == 6 && Timers::decode(timers_bytes) is Some {
        lemma_timers_bytes_round_trip(timers_bytes);
    }
    if fifo_bytes.len() == 1 && LinearFifoStatusRxElements::decode(fifo_bytes) is Some {
        lemma_fifo_bytes_round_trip(fifo_bytes);
    }
    if pa_power_bytes.len() == 1 && PaPower::decode(pa_power_bytes) is Some {
        lemma_pa_power_bytes_round_trip(pa_power_bytes);
    }
    if pckt_ctrl4_bytes.len() == 1 && PcktCtrl4::decode(pckt_ctrl4_bytes) is Some {
        lemma_pckt_ctrl4_bytes_round_trip(pckt_ctrl4_bytes);
    }
    if pckt_ctrl3_bytes.len() == 1 && PcktCtrl3::decode(pckt_ctrl3_bytes) is Some {
        lemma_pckt_ctrl3_bytes_round_trip(pckt_ctrl3_bytes);
    }
    if pckt_ctrl2_bytes.len() == 1 && PcktCtrl2::decode(pckt_ctrl2_bytes) is Some {
        lemma_pckt_ctrl2_bytes_round_trip(pckt_ctrl2_bytes);
    }
    if pckt_ctrl1_bytes.len() == 1 && PcktCtrl1::decode(pckt_ctrl1_bytes) is Some {
        lemma_pckt_ctrl1_bytes_round_trip(pckt_ctrl1_bytes);
    }
    if synt_bytes.len() == 4 && Synt::decode(synt_bytes) is Some {
        lemma_synt_bytes_round_trip(synt_bytes);
    }
}

/// Decoding the bytes of a register value whose fields fit their widths gives
/// that value back, for every register kind.
pub proof fn lemma_register_round_trip(
    chflt: ChFlt,
    fdev: FreqDev0,
    modulation: Modulation,
    mc_state: McState,
    irq_mask: IrqMask,
    irq_status: IrqStatus,
    pckt_len: PcktLen,
    rx_pckt_len: RxPcktLen,
    fc_offset: FcOffset,
    timers: Timers,
    fifo: LinearFifoStatusRxElements,
    pa_power: PaPower,
    pckt_ctrl4: PcktCtrl4,
    pckt_ctrl3: PcktCtrl3,
    pckt_ctrl2: PcktCtrl2,
    pckt_ctrl1: PcktCtrl1,
    synt: Synt,
)
    requires
        chflt.wf(),
        fdev.wf(),
        modulation.wf(),
        mc_state.wf(),
        fc_offset.wf(),
        fifo.wf(),
        pa_power.wf(),
        pckt_ctrl4.wf(),
        pckt_ctrl3.wf(),
        pckt_ctrl2.wf(),
        synt.wf(),
    ensures
        ChFlt::decode(chflt.encode()) == Some(chflt),
        FreqDev0::decode(fdev.encode()) == Some(fdev),
        Modulation::decode(modulation.encode()) == Some(modulation),
        McState::decode(mc_state.encode()) == Some(mc_state),
        IrqMask::decode(irq_mask.encode()) == Some(irq_mask),
        IrqStatus::decode(irq_status.encode()) == Some(irq_status),
        PcktLen::decode(pckt_len.encode()) == Some(pckt_len),
        RxPcktLen::decode(rx_pckt_len.encode()) == Some(rx_pckt_len),
        FcOffset::decode(fc_offset.encode()) == Some(fc_offset),
        Timers::decode(timers.encode()) == Some(timers),
        LinearFifoStatusRxElements::decode(fifo.encode()) == Some(fifo),
        PaPower::decode(pa_power.encode()) == Some(pa_power),
        PcktCtrl4::decode(pckt_ctrl4.encode()) == Some(pckt_ctrl4),
        PcktCtrl3::decode(pckt_ctrl3.encode()) == Some(pckt_ctrl3),
        PcktCtrl2::decode(pckt_ctrl2.encode()) == Some(pckt_ctrl2),
        PcktCtrl1::decode(pckt_ctrl1.encode()) == Some(pckt_ctrl1),
        Synt::decode(synt.encode()) == Some(synt),
{
    lemma_chflt_round_trip(chflt);
    lemma_fdev_round_trip(fdev);
    lemma_modulation_round_trip(modulation);
    lemma_mc_state_round_trip(mc_state);
    lemma_irq_mask_round_trip(irq_mask);
    lemma_irq_status_round_trip(irq_status);
    lemma_pckt_len_round_trip(pckt_len);
    lemma_rx_pckt_len_round_trip(rx_pckt_len);
    lemma_fc_offset_round_trip(fc_offset);
    lemma_timers_round_trip(timers);
    lemma_fifo_round_trip(fifo);
    lemma_pa_power_round_trip(pa_power);
    lemma_pckt_ctrl4_round_trip(pckt_ctrl4);
    lemma_pckt_ctrl3_round_trip(pckt_ctrl3);
    lemma_pckt_ctrl2_round_trip(pckt_ctrl2);
    lemma_pckt_ctrl1_round_trip(pckt_ctrl1);
    lemma_synt_round_trip(synt);
}

/// Power amplifier slots; slot `n` is programmed by register `PA_POWER[n]`.
#[derive(Clone, Copy, Debug, PartialEq, Eq, Structural)]
pub enum PaSlot {
    Slot1,
    Slot2,
    Slot3,
    Slot4,
    Slot5,
    Slot6,
    Slot7,
    Slot8,
}

impl PaSlot {
    /// Code of the value in its register field.
    pub open spec fn spec_code(self) -> u8 {
        match self {
            PaSlot::Slot1 => 0x00,
            PaSlot::Slot2 => 0x01,
            PaSlot::Slot3 => 0x02,
            PaSlot::Slot4 => 0x03,
            PaSlot::Slot5 => 0x04,
            PaSlot::Slot6 => 0x05,
            PaSlot::Slot7 => 0x06,
            PaSlot::Slot8 => 0x07,
        }
    }

    /// The value whose code is `code`, if any.
    pub open spec fn spec_from_code(code: u8) -> Option<Self> {
        if code == 0x00 {
            Some(PaSlot::Slot1)
        } else if code == 0x01 {
            Some(PaSlot::Slot2)
        } else if code == 0x02 {
            Some(PaSlot::Slot3)
        } else if code == 0x03 {
            Some(PaSlot::Slot4)
        } else if code == 0x04 {
            Some(PaSlot::Slot5)
        } else if code == 0x05 {
            Some(PaSlot::Slot6)
        } else if code == 0x06 {
            Some(PaSlot::Slot7)
        } else if code == 0x07 {
            Some(PaSlot::Slot8)
        } else {
            None
        }
    }

    /// Code of the value in its register field.
    pub fn code(&self) -> (r: u8)
        ensures
            r == self.spec_code(),
    {
        match self {
            PaSlot::Slot1 => 0x00,
            PaSlot::Slot2 => 0x01,
            PaSlot::Slot3 => 0x02,
            PaSlot::Slot4 => 0x03,
            PaSlot::Slot5 => 0x04,
            PaSlot::Slot6 => 0x05,
            PaSlot::Slot7 => 0x06,
            PaSlot::Slot8 => 0x07,
        }
    }

    /// The value whose code is `code`, if any.
    pub fn from_code(code: u8) -> (r: Option<Self>)
        ensures
            r == Self::spec_from_code(code),
    {
        if code == 0x00 {
            Some(PaSlot::Slot1)
        } else if code == 0x01 {
            Some(PaSlot::Slot2)
        } else if code == 0x02 {
            Some(PaSlot::Slot3)
        } else if code == 0x03 {
            Some(PaSlot::Slot4)
        } else if code == 0x04 {
            Some(PaSlot::Slot5)
        } else if code == 0x05 {
            Some(PaSlot::Slot6)
        } else if code == 0x06 {
            Some(PaSlot::Slot7)
        } else if code == 0x07 {
            Some(PaSlot::Slot8)
        } else {
            None
        }
    }
}

/// Additional load capacitors of the output stage.
#[derive(Clone, Copy, Debug, PartialEq, Eq, Structural)]
pub enum AdditionalLoadCapacitors {
    /// 0 pF
    Cap0,
    /// 1.2 pF
    Cap1p2,
    /// 2.4 pF
    Cap2p4,
    /// 3.6 pF
    Cap3p6,
}

impl AdditionalLoadCapacitors {
    /// Code of the value in its register field.
    pub open spec fn spec_code(self) -> u8 {
        match self {
            AdditionalLoadCapacitors::Cap0 => 0x00,
            AdditionalLoadCapacitors::Cap1p2 => 0x01,
            AdditionalLoadCapacitors::Cap2p4 => 0x02,
            AdditionalLoadCapacitors::Cap3p6 => 0x03,
        }
    }

    /// The value whose code is `code`, if any.
    pub open spec fn spec_from_code(code: u8) -> Option<Self> {
        if code == 0x00 {
            Some(AdditionalLoadCapacitors::Cap0)
        } else if code == 0x01 {
            Some(AdditionalLoadCapacitors::Cap1p2)
        } else if code == 0x02 {
            Some(AdditionalLoadCapacitors::Cap2p4)
        } else if code == 0x03 {
            Some(AdditionalLoadCapacitors::Cap3p6)
        } else {
            None
        }
    }

    /// Code of the value in its register field.
    pub fn code(&self) -> (r: u8)
        ensures
            r == self.spec_code(),
    {
        match self {
            AdditionalLoadCapacitors::Cap0 => 0x00,
            AdditionalLoadCapacitors::Cap1p2 => 0x01,
            AdditionalLoadCapacitors::Cap2p4 => 0x02,
            AdditionalLoadCapacitors::Cap3p6 => 0x03,
        }
    }

    /// The value whose code is `code`, if any.
    pub fn from_code(code: u8) -> (r: Option<Self>)
        ensures
            r == Self::spec_from_code(code),
    {
        if code == 0x00 {
            Some(AdditionalLoadCapacitors::Cap0)
        } else if code == 0x01 {
            Some(AdditionalLoadCapacitors::Cap1p2)
        } else if code == 0x02 {
            Some(AdditionalLoadCapacitors::Cap2p4)
        } else if code == 0x03 {
            Some(AdditionalLoadCapacitors::Cap3p6)
        } else {
            None
        }
    }
}

/// Modulation schemes.
#[derive(Clone, Copy, Debug, PartialEq, Eq, Structural)]
pub enum ModulationType {
    /// 2-FSK
    Fsk2,
    /// GFSK
    Gfsk,
    /// ASK/OOK
    AskOok,
    /// MSK
    Msk,
}

impl ModulationType {
    /// Code of the value in its register field.
    pub open spec fn spec_code(self) -> u8 {
        match self {
            ModulationType::Fsk2 => 0x00,
            ModulationType::Gfsk => 0x01,
            ModulationType::AskOok => 0x02,
            ModulationType::Msk => 0x03,
        }
    }

    /// The value whose code is `code`, if any.
    pub open spec fn spec_from_code(code: u8) -> Option<Self> {
        if code == 0x00 {
            Some(ModulationType::Fsk2)
        } else if code == 0x01 {
            Some(ModulationType::Gfsk)
        } else if code == 0x02 {
            Some(ModulationType::AskOok)
        } else if code == 0x03 {
            Some(ModulationType::Msk)
        } else {
            None
        }
    }

    /// Code of the value in its register field.
    pub fn code(&self) -> (r: u8)
        ensures
            r == self.spec_code(),
    {
        match self {
            ModulationType::Fsk2 => 0x00,
            ModulationType::Gfsk => 0x01,
            ModulationType::AskOok => 0x02,
            ModulationType::Msk => 0x03,
        }
    }

    /// The value whose code is `code`, if any.
    pub fn from_code(code: u8) -> (r: Option<Self>)
        ensures
            r == Self::spec_from_code(code),
    {
        if code == 0x00 {
            Some(ModulationType::Fsk2)
        } else if code == 0x01 {
            Some(ModulationType::Gfsk)
        } else if code == 0x02 {
            Some(ModulationType::AskOok)
        } else if code == 0x03 {
            Some(ModulationType::Msk)
        } else {
            None
        }
    }
}

/// CRC polynomials.
#[derive(Clone, Copy, Debug, PartialEq, Eq, Structural)]
pub enum CrcMode {
    /// No CRC
    NoCrc,
    /// 8 bits, polynomial 0x07
    Crc0x07,
    /// 16 bits, polynomial 0x8005
    Crc0x8005,
    /// 16 bits, polynomial 0x1021
    Crc0x1021,
    /// 24 bits, polynomial 0x864CBF
    Crc0x864CBF,
}

impl CrcMode {
    /// Code of the value in its register field.
    pub open spec fn spec_code(self) -> u8 {
        match self {
            CrcMode::NoCrc => 0x00,
            CrcMode::Crc0x07 => 0x01,
            CrcMode::Crc0x8005 => 0x02,
            CrcMode::Crc0x1021 => 0x03,
            CrcMode::Crc0x864CBF => 0x04,
        }
    }

    /// The value whose code is `code`, if any.
    pub open spec fn spec_from_code(code: u8) -> Option<Self> {
        if code == 0x00 {
            Some(CrcMode::NoCrc)
        } else if code == 0x01 {
            Some(CrcMode::Crc0x07)
        } else if code == 0x02 {
            Some(CrcMode::Crc0x8005)
        } else if code == 0x03 {
            Some(CrcMode::Crc0x1021)
        } else if code == 0x04 {
            Some(CrcMode::Crc0x864CBF)
        } else {
            None
        }
    }

    /// Code of the value in its register field.
    pub fn code(&self) -> (r: u8)
        ensures
            r == self.spec_code(),
    {
        match self {
            CrcMode::NoCrc => 0x00,
            CrcMode::Crc0x07 => 0x01,
            CrcMode::Crc0x8005 => 0x02,
            CrcMode::Crc0x1021 => 0x03,
            CrcMode::Crc0x864CBF => 0x04,
        }
    }

    /// The value whose code is `code`, if any.
    pub fn from_code(code: u8) -> (r: Option<Self>)
        ensures
            r == Self::spec_from_code(code),
    {
        if code == 0x00 {
            Some(CrcMode::NoCrc)
        } else if code == 0x01 {
            Some(CrcMode::Crc0x07)
        } else if code == 0x02 {
            Some(CrcMode::Crc0x8005)
        } else if code == 0x03 {
            Some(CrcMode::Crc0x1021)
        } else if code == 0x04 {
            Some(CrcMode::Crc0x864CBF)
        } else {
            None
        }
    }
}

/// Source of transmitted data.
#[derive(Clone, Copy, Debug, PartialEq, Eq, Structural)]
pub enum TxMode {
    /// From the packet handler
    Normal,
    /// Directly from the FIFO
    DirectFIFO,
    /// Directly from a GPIO
    DirectGPIO,
    /// Pseudo-random PN9 sequence
    PN9,
}

impl TxMode {
    /// Code of the value in its register field.
    pub open spec fn spec_code(self) -> u8 {
        match self {
            TxMode::Normal => 0x00,
            TxMode::DirectFIFO => 0x01,
            TxMode::DirectGPIO => 0x02,
            TxMode::PN9 => 0x03,
        }
    }

    /// The value whose code is `code`, if any.
    pub open spec fn spec_from_code(code: u8) -> Option<Self> {
        if code == 0x00 {
            Some(TxMode::Normal)
        } else if code == 0x01 {
            Some(TxMode::DirectFIFO)
        } else if code == 0x02 {
            Some(TxMode::DirectGPIO)
        } else if code == 0x03 {
            Some(TxMode::PN9)
        } else {
            None
        }
    }

    /// Code of the value in its register field.
    pub fn code(&self) -> (r: u8)
        ensures
            r == self.spec_code(),
    {
        match self {
            TxMode::Normal => 0x00,
            TxMode::DirectFIFO => 0x01,
            TxMode::DirectGPIO => 0x02,
            TxMode::PN9 => 0x03,
        }
    }

    /// The value whose code is `code`, if any.
    pub fn from_code(code: u8) -> (r: Option<Self>)
        ensures
            r == Self::spec_from_code(code),
    {
        if code == 0x00 {
            Some(TxMode::Normal)
        } else if code == 0x01 {
            Some(TxMode::DirectFIFO)
        } else if code == 0x02 {
            Some(TxMode::DirectGPIO)
        } else if code == 0x03 {
            Some(TxMode::PN9)
        } else {
            None
        }
    }
}

/// Destination of received data.
#[derive(Clone, Copy, Debug, PartialEq, Eq, Structural)]
pub enum RxMode {
    /// Through the packet handler
    Normal,
    /// Directly into the FIFO
    DirectFIFO,
    /// Directly onto a GPIO
    DirectGPIO,
}

impl RxMode {
    /// Code of the value in its register field.
    pub open spec fn spec_code(self) -> u8 {
        match self {
            RxMode::Normal => 0x00,
            RxMode::DirectFIFO => 0x01,
            RxMode::DirectGPIO => 0x02,
        }
    }

    /// The value whose code is `code`, if any.
    pub open spec fn spec_from_code(code: u8) -> Option<Self> {
        if code == 0x00 {
            Some(RxMode::Normal)
        } else if code == 0x01 {
            Some(RxMode::DirectFIFO)
        } else if code == 0x02 {
            Some(RxMode::DirectGPIO)
        } else {
            None
        }
    }

    /// Code of the value in its register field.
    pub fn code(&self) -> (r: u8)
        ensures
            r == self.spec_code(),
    {
        match self {
            RxMode::Normal => 0x00,
            RxMode::DirectFIFO => 0x01,
            RxMode::DirectGPIO => 0x02,
        }
    }

    /// The value whose code is `code`, if any.
    pub fn from_code(code: u8) -> (r: Option<Self>)
        ensures
            r == Self::spec_from_code(code),
    {
        if code == 0x00 {
            Some(RxMode::Normal)
        } else if code == 0x01 {
            Some(RxMode::DirectFIFO)
        } else if code == 0x02 {
            Some(RxMode::DirectGPIO)
        } else {
            None
        }
    }
}

/// Packet formats.
#[derive(Clone, Copy, Debug, PartialEq, Eq, Structural)]
pub enum PacketFormat {
    /// Basic packets
    Basic,
    /// Wireless M-Bus packets
    WMBus,
    /// STack packets
    STack,
}

impl PacketFormat {
    /// Code of the value in its register field.
    pub open spec fn spec_code(self) -> u8 {
        match self {
            PacketFormat::Basic => 0x00,
            PacketFormat::WMBus => 0x01,
            PacketFormat::STack => 0x02,
        }
    }

    /// The value whose code is `code`, if any.
    pub open spec fn spec_from_code(code: u8) -> Option<Self> {
        if code == 0x00 {
            Some(PacketFormat::Basic)
        } else if code == 0x01 {
            Some(PacketFormat::WMBus)
        } else if code == 0x02 {
            Some(PacketFormat::STack)
        } else {
            None
        }
    }

    /// Code of the value in its register field.
    pub fn code(&self) -> (r: u8)
        ensures
            r == self.spec_code(),
    {
        match self {
            PacketFormat::Basic => 0x00,
            PacketFormat::WMBus => 0x01,
            PacketFormat::STack => 0x02,
        }
    }

    /// The value whose code is `code`, if any.
    pub fn from_code(code: u8) -> (r: Option<Self>)
        ensures
            r == Self::spec_from_code(code),
    {
        if code == 0x00 {
            Some(PacketFormat::Basic)
        } else if code == 0x01 {
            Some(PacketFormat::WMBus)
        } else if code == 0x02 {
            Some(PacketFormat::STack)
        } else {
            None
        }
    }
}

/// Operating states reported by `MC_STATE`.
#[allow(non_camel_case_types)]
#[derive(Clone, Copy, Debug, PartialEq, Eq, Structural)]
pub enum SpiritState {
    STANDBY,
    SLEEP,
    READY,
    LOCK,
    RX,
    TX,
    Invalid,
}

impl SpiritState {
    /// Code of the value in its register field.
    pub open spec fn spec_code(self) -> u8 {
        match self {
            SpiritState::STANDBY => 0x40,
            SpiritState::SLEEP => 0x36,
            SpiritState::READY => 0x03,
            SpiritState::LOCK => 0x0f,
            SpiritState::RX => 0x33,
            SpiritState::TX => 0x5f,
            SpiritState::Invalid => 0x00,
        }
    }

    /// The value whose code is `code`, if any.
    pub open spec fn spec_from_code(code: u8) -> Option<Self> {
        if code == 0x40 {
            Some(SpiritState::STANDBY)
        } else if code == 0x36 {
            Some(SpiritState::SLEEP)
        } else if code == 0x03 {
            Some(SpiritState::READY)
        } else if code == 0x0f {
            Some(SpiritState::LOCK)
        } else if code == 0x33 {
            Some(SpiritState::RX)
        } else if code == 0x5f {
            Some(SpiritState::TX)
        } else if code == 0x00 {
            Some(SpiritState::Invalid)
        } else {
            None
        }
    }

    /// Code of the value in its register field.
    pub fn code(&self) -> (r: u8)
        ensures
            r == self.spec_code(),
    {
        match self {
            SpiritState::STANDBY => 0x40,
            SpiritState::SLEEP => 0x36,
            SpiritState::READY => 0x03,
            SpiritState::LOCK => 0x0f,
            SpiritState::RX => 0x33,
            SpiritState::TX => 0x5f,
            SpiritState::Invalid => 0x00,
        }
    }

    /// The value whose code is `code`, if any.
    pub fn from_code(code: u8) -> (r: Option<Self>)
        ensures
            r == Self::spec_from_code(code),
    {
        if code == 0x40 {
            Some(SpiritState::STANDBY)
        } else if code == 0x36 {
            Some(SpiritState::SLEEP)
        } else if code == 0x03 {
            Some(SpiritState::READY)
        } else if code == 0x0f {
            Some(SpiritState::LOCK)
        } else if code == 0x33 {
            Some(SpiritState::RX)
        } else if code == 0x5f {
            Some(SpiritState::TX)
        } else if code == 0x00 {
            Some(SpiritState::Invalid)
        } else {
            None
        }
    }
}

/// Commands strobed to the chip.
#[allow(non_camel_case_types)]
#[derive(Clone, Copy, Debug, PartialEq, Eq, Structural)]
pub enum SpiritCommand {
    /// Start to transmit
    TX,
    /// Start to receive
    RX,
    /// Go to READY
    READY,
    /// Go to STANDBY
    STANDBY,
    /// Go to SLEEP
    SLEEP,
    /// Go to LOCK with the RX synthesizer setting
    LOCK_RX,
    /// Go to LOCK with the TX synthesizer setting
    LOCK_TX,
    /// Leave TX or RX for READY
    SABORT,
    /// Reload the LDC timer
    LDC_RELOAD,
    /// Reload the packet sequence counter
    SEQUENCE_UPDATE,
    /// Start an encryption
    AES_ENCRYPT,
    /// Start a key derivation
    AES_KEY,
    /// Start a decryption with the current key
    AES_DECRYPT,
    /// Derive the key and decrypt
    AES_KEY_DECRYPT,
    /// Reset
    S_RES,
    /// Empty the RX FIFO
    FLUSH_RX_FIFO,
    /// Empty the TX FIFO
    FLUSH_TX_FIFO,
}

impl SpiritCommand {
    /// Code of the value in its register field.
    pub open spec fn spec_code(self) -> u8 {
        match self {
            SpiritCommand::TX => 0x60,
            SpiritCommand::RX => 0x61,
            SpiritCommand::READY => 0x62,
            SpiritCommand::STANDBY => 0x63,
            SpiritCommand::SLEEP => 0x64,
            SpiritCommand::LOCK_RX => 0x65,
            SpiritCommand::LOCK_TX => 0x66,
            SpiritCommand::SABORT => 0x67,
            SpiritCommand::LDC_RELOAD => 0x68,
            SpiritCommand::SEQUENCE_UPDATE => 0x69,
            SpiritCommand::AES_ENCRYPT => 0x6a,
            SpiritCommand::AES_KEY => 0x6b,
            SpiritCommand::AES_DECRYPT => 0x6c,
            SpiritCommand::AES_KEY_DECRYPT => 0x6d,
            SpiritCommand::S_RES => 0x70,
            SpiritCommand::FLUSH_RX_FIFO => 0x71,
            SpiritCommand::FLUSH_TX_FIFO => 0x72,
        }
    }

    /// The value whose code is `code`, if any.
    pub open spec fn spec_from_code(code: u8) -> Option<Self> {
        if code == 0x60 {
            Some(SpiritCommand::TX)
        } else if code == 0x61 {
            Some(SpiritCommand::RX)
        } else if code == 0x62 {
            Some(SpiritCommand::READY)
        } else if code == 0x63 {
            Some(SpiritCommand::STANDBY)
        } else if code == 0x64 {
            Some(SpiritCommand::SLEEP)
        } else if code == 0x65 {
            Some(SpiritCommand::LOCK_RX)
        } else if code == 0x66 {
            Some(SpiritCommand::LOCK_TX)
        } else if code == 0x67 {
            Some(SpiritCommand::SABORT)
        } else if code == 0x68 {
            Some(SpiritCommand::LDC_RELOAD)
        } else if code == 0x69 {
            Some(SpiritCommand::SEQUENCE_UPDATE)
        } else if code == 0x6a {
            Some(SpiritCommand::AES_ENCRYPT)
        } else if code == 0x6b {
            Some(SpiritCommand::AES_KEY)
        } else if code == 0x6c {
            Some(SpiritCommand::AES_DECRYPT)
        } else if code == 0x6d {
            Some(SpiritCommand::AES_KEY_DECRYPT)
        } else if code == 0x70 {
            Some(SpiritCommand::S_RES)
        } else if code == 0x71 {
            Some(SpiritCommand::FLUSH_RX_FIFO)
        } else if code == 0x72 {
            Some(SpiritCommand::FLUSH_TX_FIFO)
        } else {
            None
        }
    }

    /// Code of the value in its register field.
    pub fn code(&self) -> (r: u8)
        ensures
            r == self.spec_code(),
    {
        match self {
            SpiritCommand::TX => 0x60,
            SpiritCommand::RX => 0x61,
            SpiritCommand::READY => 0x62,
            SpiritCommand::STANDBY => 0x63,
            SpiritCommand::SLEEP => 0x64,
            SpiritCommand::LOCK_RX => 0x65,
            SpiritCommand::LOCK_TX => 0x66,
            SpiritCommand::SABORT => 0x67,
            SpiritCommand::LDC_RELOAD => 0x68,
            SpiritCommand::SEQUENCE_UPDATE => 0x69,
            SpiritCommand::AES_ENCRYPT => 0x6a,
            SpiritCommand::AES_KEY => 0x6b,
            SpiritCommand::AES_DECRYPT => 0x6c,
            SpiritCommand::AES_KEY_DECRYPT => 0x6d,
            SpiritCommand::S_RES => 0x70,
            SpiritCommand::FLUSH_RX_FIFO => 0x71,
            SpiritCommand::FLUSH_TX_FIFO => 0x72,
        }
    }

    /// The value whose code is `code`, if any.
    pub fn from_code(code: u8) -> (r: Option<Self>)
        ensures
            r == Self::spec_from_code(code),
    {
        if code == 0x60 {
            Some(SpiritCommand::TX)
        } else if code == 0x61 {
            Some(SpiritCommand::RX)
        } else if code == 0x62 {
            Some(SpiritCommand::READY)
        } else if code == 0x63 {
            Some(SpiritCommand::STANDBY)
        } else if code == 0x64 {
            Some(SpiritCommand::SLEEP)
        } else if code == 0x65 {
            Some(SpiritCommand::LOCK_RX)
        } else if code == 0x66 {
            Some(SpiritCommand::LOCK_TX)
        } else if code == 0x67 {
            Some(SpiritCommand::SABORT)
        } else if code == 0x68 {
            Some(SpiritCommand::LDC_RELOAD)
        } else if code == 0x69 {
            Some(SpiritCommand::SEQUENCE_UPDATE)
        } else if code == 0x6a {
            Some(SpiritCommand::AES_ENCRYPT)
        } else if code == 0x6b {
            Some(SpiritCommand::AES_KEY)
        } else if code == 0x6c {
            Some(SpiritCommand::AES_DECRYPT)
        } else if code == 0x6d {
            Some(SpiritCommand::AES_KEY_DECRYPT)
        } else if code == 0x70 {
            Some(SpiritCommand::S_RES)
        } else if code == 0x71 {
            Some(SpiritCommand::FLUSH_RX_FIFO)
        } else if code == 0x72 {
            Some(SpiritCommand::FLUSH_TX_FIFO)
        } else {
            None
        }
    }
}

/// Packet length modes.
#[derive(Clone, Copy, Debug, PartialEq, Eq, Structural)]
pub enum PacketLengthMode {
    /// Fixed length
    Fixed,
    /// Variable length, of `LEN_WID` bits
    Variable,
}

impl PacketLengthMode {
    /// Code of the value in its register field.
    pub open spec fn spec_code(self) -> u8 {
        match self {
            PacketLengthMode::Fixed => 0x00,
            PacketLengthMode::Variable => 0x01,
        }
    }

    /// The value whose code is `code`, if any.
    pub open spec fn spec_from_code(code: u8) -> Option<Self> {
        if code == 0x00 {
            Some(PacketLengthMode::Fixed)
        } else if code == 0x01 {
            Some(PacketLengthMode::Variable)
        } else {
            None
        }
    }

    /// Code of the value in its register field.
    pub fn code(&self) -> (r: u8)
        ensures
            r == self.spec_code(),
    {
        match self {
            PacketLengthMode::Fixed => 0x00,
            PacketLengthMode::Variable => 0x01,
        }
    }

    /// The value whose code is `code`, if any.
    pub fn from_code(code: u8) -> (r: Option<Self>)
        ensures
            r == Self::spec_from_code(code),
    {
        if code == 0x00 {
            Some(PacketLengthMode::Fixed)
        } else if code == 0x01 {
            Some(PacketLengthMode::Variable)
        } else {
            None
        }
    }
}

/// Events that the chip reports in `IRQ_STATUS` and that `IRQ_MASK` selects; the code is the event's bit in the 32-bit word.
#[derive(Clone, Copy, Debug, PartialEq, Eq, Structural)]
pub enum InterruptEvent {
    RxDataReady,
    RxDataDiscarded,
    TxDataSent,
    MaxReTxReached,
    CrcError,
    TxFifoError,
    RxFifoError,
    TxFifoAlmostFull,
    TxFifoAlmostEmpty,
    RxFifoAlmostFull,
    RxFifoAlmostEmpty,
    MaxBackoffDuringCCA,
    ValidPreambleDetected,
    SyncWordDetected,
    RssiAboveThreshold,
    WakeUpTimeout,
    Ready,
    StandbyStateSwitching,
    LowBatteryLevel,
    PowerOnReset,
    BrownoutEvent,
    Lock,
    TimerRxTimeout,
    OthersAesEndOfOperation,
}

impl InterruptEvent {
    /// Code of the value in its register field.
    pub open spec fn spec_code(self) -> u32 {
        match self {
            InterruptEvent::RxDataReady => 0x1,
            InterruptEvent::RxDataDiscarded => 0x2,
            InterruptEvent::TxDataSent => 0x4,
            InterruptEvent::MaxReTxReached => 0x8,
            InterruptEvent::CrcError => 0x10,
            InterruptEvent::TxFifoError => 0x20,
            InterruptEvent::RxFifoError => 0x40,
            InterruptEvent::TxFifoAlmostFull => 0x80,
            InterruptEvent::TxFifoAlmostEmpty => 0x100,
            InterruptEvent::RxFifoAlmostFull => 0x200,
            InterruptEvent::RxFifoAlmostEmpty => 0x400,
            InterruptEvent::MaxBackoffDuringCCA => 0x800,
            InterruptEvent::ValidPreambleDetected => 0x1000,
            InterruptEvent::SyncWordDetected => 0x2000,
            InterruptEvent::RssiAboveThreshold => 0x4000,
            InterruptEvent::WakeUpTimeout => 0x8000,
            InterruptEvent::Ready => 0x10000,
            InterruptEvent::StandbyStateSwitching => 0x20000,
            InterruptEvent::LowBatteryLevel => 0x40000,
            InterruptEvent::PowerOnReset => 0x80000,
            InterruptEvent::BrownoutEvent => 0x100000,
            InterruptEvent::Lock => 0x200000,
            InterruptEvent::TimerRxTimeout => 0x20000000,
            InterruptEvent::OthersAesEndOfOperation => 0x40000000,
        }
    }

    /// The value whose code is `code`, if any.
    pub open spec fn spec_from_code(code: u32) -> Option<Self> {
        if code == 0x1 {
            Some(InterruptEvent::RxDataReady)
        } else if code == 0x2 {
            Some(InterruptEvent::RxDataDiscarded)
        } else if code == 0x4 {
            Some(InterruptEvent::TxDataSent)
        } else if code == 0x8 {
            Some(InterruptEvent::MaxReTxReached)
        } else if code == 0x10 {
            Some(InterruptEvent::CrcError)
        } else if code == 0x20 {
            Some(InterruptEvent::TxFifoError)
        } else if code == 0x40 {
            Some(InterruptEvent::RxFifoError)
        } else if code == 0x80 {
            Some(InterruptEvent::TxFifoAlmostFull)
        } else if code == 0x100 {
            Some(InterruptEvent::TxFifoAlmostEmpty)
        } else if code == 0x200 {
            Some(InterruptEvent::RxFifoAlmostFull)
        } else if code == 0x400 {
            Some(InterruptEvent::RxFifoAlmostEmpty)
        } else if code == 0x800 {
            Some(InterruptEvent::MaxBackoffDuringCCA)
        } else if code == 0x1000 {
            Some(InterruptEvent::ValidPreambleDetected)
        } else if code == 0x2000 {
            Some(InterruptEvent::SyncWordDetected)
        } else if code == 0x4000 {
            Some(InterruptEvent::RssiAboveThreshold)
        } else if code == 0x8000 {
            Some(InterruptEvent::WakeUpTimeout)
        } else if code == 0x10000 {
            Some(InterruptEvent::Ready)
        } else if code == 0x20000 {
            Some(InterruptEvent::StandbyStateSwitching)
        } else if code == 0x40000 {
            Some(InterruptEvent::LowBatteryLevel)
        } else if code == 0x80000 {
            Some(InterruptEvent::PowerOnReset)
        } else if code == 0x100000 {
            Some(InterruptEvent::BrownoutEvent)
        } else if code == 0x200000 {
            Some(InterruptEvent::Lock)
        } else if code == 0x20000000 {
            Some(InterruptEvent::TimerRxTimeout)
        } else if code == 0x40000000 {
            Some(InterruptEvent::OthersAesEndOfOperation)
        } else {
            None
        }
    }

    /// Code of the value in its register field.
    pub fn code(&self) -> (r: u32)
        ensures
            r == self.spec_code(),
    {
        match self {
            InterruptEvent::RxDataReady => 0x1,
            InterruptEvent::RxDataDiscarded => 0x2,
            InterruptEvent::TxDataSent => 0x4,
            InterruptEvent::MaxReTxReached => 0x8,
            InterruptEvent::CrcError => 0x10,
            InterruptEvent::TxFifoError => 0x20,
            InterruptEvent::RxFifoError => 0x40,
            InterruptEvent::TxFifoAlmostFull => 0x80,
            InterruptEvent::TxFifoAlmostEmpty => 0x100,
            InterruptEvent::RxFifoAlmostFull => 0x200,
            InterruptEvent::RxFifoAlmostEmpty => 0x400,
            InterruptEvent::MaxBackoffDuringCCA => 0x800,
            InterruptEvent::ValidPreambleDetected => 0x1000,
            InterruptEvent::SyncWordDetected => 0x2000,
            InterruptEvent::RssiAboveThreshold => 0x4000,
            InterruptEvent::WakeUpTimeout => 0x8000,
            InterruptEvent::Ready => 0x10000,
            InterruptEvent::StandbyStateSwitching => 0x20000,
            InterruptEvent::LowBatteryLevel => 0x40000,
            InterruptEvent::PowerOnReset => 0x80000,
            InterruptEvent::BrownoutEvent => 0x100000,
            InterruptEvent::Lock => 0x200000,
            InterruptEvent::TimerRxTimeout => 0x20000000,
            InterruptEvent::OthersAesEndOfOperation => 0x40000000,
        }
    }

    /// The value whose code is `code`, if any.
    pub fn from_code(code: u32) -> (r: Option<Self>)
        ensures
            r == Self::spec_from_code(code),
    {
        if code == 0x1 {
            Some(InterruptEvent::RxDataReady)
        } else if code == 0x2 {
            Some(InterruptEvent::RxDataDiscarded)
        } else if code == 0x4 {
            Some(InterruptEvent::TxDataSent)
        } else if code == 0x8 {
            Some(InterruptEvent::MaxReTxReached)
        } else if code == 0x10 {
            Some(InterruptEvent::CrcError)
        } else if code == 0x20 {
            Some(InterruptEvent::TxFifoError)
        } else if code == 0x40 {
            Some(InterruptEvent::RxFifoError)
        } else if code == 0x80 {
            Some(InterruptEvent::TxFifoAlmostFull)
        } else if code == 0x100 {
            Some(InterruptEvent::TxFifoAlmostEmpty)
        } else if code == 0x200 {
            Some(InterruptEvent::RxFifoAlmostFull)
        } else if code == 0x400 {
            Some(InterruptEvent::RxFifoAlmostEmpty)
        } else if code == 0x800 {
            Some(InterruptEvent::MaxBackoffDuringCCA)
        } else if code == 0x1000 {
            Some(InterruptEvent::ValidPreambleDetected)
        } else if code == 0x2000 {
            Some(InterruptEvent::SyncWordDetected)
        } else if code == 0x4000 {
            Some(InterruptEvent::RssiAboveThreshold)
        } else if code == 0x8000 {
            Some(InterruptEvent::WakeUpTimeout)
        } else if code == 0x10000 {
            Some(InterruptEvent::Ready)
        } else if code == 0x20000 {
            Some(InterruptEvent::StandbyStateSwitching)
        } else if code == 0x40000 {
            Some(InterruptEvent::LowBatteryLevel)
        } else if code == 0x80000 {
            Some(InterruptEvent::PowerOnReset)
        } else if code == 0x100000 {
            Some(InterruptEvent::BrownoutEvent)
        } else if code == 0x200000 {
            Some(InterruptEvent::Lock)
        } else if code == 0x20000000 {
            Some(InterruptEvent::TimerRxTimeout)
        } else if code == 0x40000000 {
            Some(InterruptEvent::OthersAesEndOfOperation)
        } else {
            None
        }
    }
}

impl IrqStatus {
    /// Whether `event` is among the reported events.
    pub fn is_set(&self, event: InterruptEvent) -> (r: bool)
        ensures
            r == event_in(self.spec_as_u32(), event),
    {
        (self.as_u32() / event.code()) % 2 == 1
    }
}

impl IrqMask {
    /// Whether `event` is among the selected events.
    pub fn is_set(&self, event: InterruptEvent) -> (r: bool)
        ensures
            r == event_in(self.spec_as_u32(), event),
    {
        (self.as_u32() / event.code()) % 2 == 1
    }
}

/// Whether the bit of `event` is set in the 32-bit word `word`.
pub open spec fn event_in(word: int, event: InterruptEvent) -> bool {
    (word / event.spec_code() as int) % 2 == 1
}

/// Builder of an interrupt mask, one event at a time.
pub struct IrqMaskBuilder(pub u32);

impl IrqMaskBuilder {
    /// A builder with no event selected.
    pub fn new() -> (r: Self)
        ensures
            r.0 == 0,
    {
        IrqMaskBuilder(0)
    }

    /// Adds `event` to the mask.
    pub fn set(&mut self, event: InterruptEvent) -> (r: &mut Self)
        ensures
            r.0 == old(self).0 | event.spec_code(),
            *final(self) == *final(r),
    {
        self.0 = self.0 | event.code();
        self
    }

    /// The mask register of the selected events.
    pub fn build(&self) -> (r: IrqMask)
        ensures
            r.spec_as_u32() == self.0,
    {
        IrqMask::new(self.0)
    }
}

impl PaSlot {
    /// Address of the `PA_POWER` register that holds the slot's level: 0x17
    /// for the first slot down to 0x10 for the eighth.
    pub open spec fn spec_address(self) -> u8 {
        (0x17 - self.spec_code()) as u8
    }

    /// Address of the `PA_POWER` register that holds the slot's level.
    pub fn address(&self) -> (r: u8)
        ensures
            r == self.spec_address(),
    {
        0x17 - self.code()
    }
}

/// `SYNTH_CONFIG` registers (0x9E, 0x9F).
pub const SYNTH_CONFIG_ADDRESS: u8 = 0x9E;

/// `XO_RCO_TEST` register (0xB4); bit 3 powers the clock divider down.
pub const XO_RCO_TEST_ADDRESS: u8 = 0xB4;

/// `IF_OFFSET_ANA` register (0x07).
pub const IF_OFFSET_ANA_ADDRESS: u8 = 0x07;

/// `IF_OFFSET_DIG` register (0x0D).
pub const IF_OFFSET_DIG_ADDRESS: u8 = 0x0D;

/// `ANA_FUNC_CONF[0]` register (0x01); bit 6 selects a 26 MHz (set) or 24 MHz crystal.
pub const ANA_FUNC_CONF_0_ADDRESS: u8 = 0x01;

/// `CHNUM` register (0x6C): channel number.
pub const CHNUM_ADDRESS: u8 = 0x6C;

/// `CHSPACE` register (0x0C): channel spacing in steps of `fXO / 2^15`.
pub const CHSPACE_ADDRESS: u8 = 0x0C;

/// `AFC2` register (0x1E); bit 7 freezes the AFC on the sync word.
pub const AFC2_ADDRESS: u8 = 0x1E;

/// `RSSI_TH` register (0x22): carrier sense threshold.
pub const RSSI_TH_ADDRESS: u8 = 0x22;

/// `PM_CONFIG` registers (0xA4 to 0xA6).
pub const PM_CONFIG_ADDRESS: u8 = 0xA4;

/// `QI` register (0x3A): SQI threshold (bits 7..6), PQI threshold (bits 5..2),
/// SQI enable (bit 1), PQI enable (bit 0).
pub const QI_ADDRESS: u8 = 0x3A;

/// `PM_CONFIG[1]` register (0xA5).
pub const PM_CONFIG_1_ADDRESS: u8 = 0xA5;

/// `PM_TEST` register (0xB2).
pub const PM_TEST_ADDRESS: u8 = 0xB2;

/// `TEST_SELECT` register (0xA8).
pub const TEST_SELECT_ADDRESS: u8 = 0xA8;

/// `PCKT_FLT_OPTIONS` register (0x4F).
pub const PCKT_FLT_OPTIONS_ADDRESS: u8 = 0x4F;

/// `PROTOCOL` registers (0x50 to 0x52), `PROTOCOL[2]` first.
pub const PROTOCOL_ADDRESS: u8 = 0x50;

/// `PROTOCOL[1]` register (0x51); bit 0 enables automatic packet filtering.
pub const PROTOCOL_1_ADDRESS: u8 = 0x51;

/// `PCKT_FLT_GOALS[2]` register (0x4C): broadcast address, followed by the
/// multicast address and the source address of this node.
pub const PCKT_FLT_GOALS_BROADCAST_ADDRESS: u8 = 0x4C;

/// `SYNC4` register (0x36): fourth byte of the sync word.
pub const SYNC4_ADDRESS: u8 = 0x36;

/// `SYNC3` register (0x37): third byte of the sync word.
pub const SYNC3_ADDRESS: u8 = 0x37;

/// `SYNC2` register (0x38): second byte of the sync word.
pub const SYNC2_ADDRESS: u8 = 0x38;

/// `SYNC1` register (0x39): first byte of the sync word.
pub const SYNC1_ADDRESS: u8 = 0x39;

/// Pseudo-address of the linear FIFO, for loading TX data and draining RX data.
pub const LINEAR_FIFO_ADDRESS: u8 = 0xFF;

/// Capacity of each FIFO in bytes.
pub const MAX_FIFO_LENGTH: usize = 96;

} // verus!
