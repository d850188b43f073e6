//! GPIO configuration registers and the VCO and RCO calibration registers.
use vstd::prelude::*;

use crate::registers::{bit, field};

verus! {

/// Functions of a GPIO used as a digital input.
#[derive(Clone, Copy, Debug, PartialEq, Eq, Structural)]
pub enum DigitalInputMode {
    TxCommand,
    RxCommand,
    TxDataInput,
    ExternalWakeUp,
    ExternalClock,
}

impl DigitalInputMode {
    /// Code of the value in its register field.
    pub open spec fn spec_code(self) -> u8 {
        match self {
            DigitalInputMode::TxCommand => 0x00,
            DigitalInputMode::RxCommand => 0x01,
            DigitalInputMode::TxDataInput => 0x02,
            DigitalInputMode::ExternalWakeUp => 0x03,
            DigitalInputMode::ExternalClock => 0x04,
        }
    }

    /// The value whose code is `code`, if any.
    pub open spec fn spec_from_code(code: u8) -> Option<Self> {
        if code == 0x00 {
            Some(DigitalInputMode::TxCommand)
        } else if code == 0x01 {
            Some(DigitalInputMode::RxCommand)
        } else if code == 0x02 {
            Some(DigitalInputMode::TxDataInput)
        } else if code == 0x03 {
            Some(DigitalInputMode::ExternalWakeUp)
        } else if code == 0x04 {
            Some(DigitalInputMode::ExternalClock)
        } else {
            None
        }
    }

    /// Code of the value in its register field.
    pub fn code(&self) -> (r: u8)
        ensures
            r == self.spec_code(),
    {
        match self {
            DigitalInputMode::TxCommand => 0x00,
            DigitalInputMode::RxCommand => 0x01,
            DigitalInputMode::TxDataInput => 0x02,
            DigitalInputMode::ExternalWakeUp => 0x03,
            DigitalInputMode::ExternalClock => 0x04,
        }
    }

    /// The value whose code is `code`, if any.
    pub fn from_code(code: u8) -> (r: Option<Self>)
        ensures
            r == Self::spec_from_code(code),
    {
        if code == 0x00 {
            Some(DigitalInputMode::TxCommand)
        } else if code == 0x01 {
            Some(DigitalInputMode::RxCommand)
        } else if code == 0x02 {
            Some(DigitalInputMode::TxDataInput)
        } else if code == 0x03 {
            Some(DigitalInputMode::ExternalWakeUp)
        } else if code == 0x04 {
            Some(DigitalInputMode::ExternalClock)
        } else {
            None
        }
    }
}

/// Signals that a GPIO can output.
#[allow(non_camel_case_types)]
#[derive(Clone, Copy, Debug, PartialEq, Eq, Structural)]
pub enum DigitalOutputMode {
    nIRQ,
    PoR,
    WakeUpTimer,
    LowBatteryDetection,
    TxDataInternalClkOutput,
    TxStateIndication,
    TxFifoAlmostEmpty,
    TxFifoAlmostFull,
    RxDataOutput,
    RxClockOutput,
    RxStateIndication,
    RxFifoAlmostFull,
    RxFifoAlmostEmpty,
    AntennaSwitch,
    ValidPreambleDetection,
    SyncWordDetection,
    RssiAboveThreshold,
    McuClock,
    TxRxModeIndicator,
    Vdd,
    Gnd,
    ExternalSMPSEnable,
    SleepOrStandby,
    nSleepAndStandby,
    LockState,
    WaitingForLockDetector,
    WaitingForTimerLDO,
    WaitingForReady2,
    WaitingForTimerPM,
    WaitingForVCOEnd,
    SynthBlockEnable,
    WaitingForRcCalOk1,
}

impl DigitalOutputMode {
    /// Code of the value in its register field.
    pub open spec fn spec_code(self) -> u8 {
        match self {
            DigitalOutputMode::nIRQ => 0x00,
            DigitalOutputMode::PoR => 0x01,
            DigitalOutputMode::WakeUpTimer => 0x02,
            DigitalOutputMode::LowBatteryDetection => 0x03,
            DigitalOutputMode::TxDataInternalClkOutput => 0x04,
            DigitalOutputMode::TxStateIndication => 0x05,
            DigitalOutputMode::TxFifoAlmostEmpty => 0x06,
            DigitalOutputMode::TxFifoAlmostFull => 0x07,
            DigitalOutputMode::RxDataOutput => 0x08,
            DigitalOutputMode::RxClockOutput => 0x09,
            DigitalOutputMode::RxStateIndication => 0x0a,
            DigitalOutputMode::RxFifoAlmostFull => 0x0b,
            DigitalOutputMode::RxFifoAlmostEmpty => 0x0c,
            DigitalOutputMode::AntennaSwitch => 0x0d,
            DigitalOutputMode::ValidPreambleDetection => 0x0e,
            DigitalOutputMode::SyncWordDetection => 0x0f,
            DigitalOutputMode::RssiAboveThreshold => 0x10,
            DigitalOutputMode::McuClock => 0x11,
            DigitalOutputMode::TxRxModeIndicator => 0x12,
            DigitalOutputMode::Vdd => 0x13,
            DigitalOutputMode::Gnd => 0x14,
            DigitalOutputMode::ExternalSMPSEnable => 0x15,
            DigitalOutputMode::SleepOrStandby => 0x16,
            DigitalOutputMode::nSleepAndStandby => 0x17,
            DigitalOutputMode::LockState => 0x18,
            DigitalOutputMode::WaitingForLockDetector => 0x19,
            DigitalOutputMode::WaitingForTimerLDO => 0x1a,
            DigitalOutputMode::WaitingForReady2 => 0x1b,
            DigitalOutputMode::WaitingForTimerPM => 0x1c,
            DigitalOutputMode::WaitingForVCOEnd => 0x1d,
            DigitalOutputMode::SynthBlockEnable => 0x1e,
            DigitalOutputMode::WaitingForRcCalOk1 => 0x1f,
        }
    }

    /// The value whose code is `code`, if any.
    pub open spec fn spec_from_code(code: u8) -> Option<Self> {
        if code == 0x00 {
            Some(DigitalOutputMode::nIRQ)
        } else if code == 0x01 {
            Some(DigitalOutputMode::PoR)
        } else if code == 0x02 {
            Some(DigitalOutputMode::WakeUpTimer)
        } else if code == 0x03 {
            Some(DigitalOutputMode::LowBatteryDetection)
        } else if code == 0x04 {
            Some(DigitalOutputMode::TxDataInternalClkOutput)
        } else if code == 0x05 {
            Some(DigitalOutputMode::TxStateIndication)
        } else if code == 0x06 {
            Some(DigitalOutputMode::TxFifoAlmostEmpty)
        } else if code == 0x07 {
            Some(DigitalOutputMode::TxFifoAlmostFull)
        } else if code == 0x08 {
            Some(DigitalOutputMode::RxDataOutput)
        } else if code == 0x09 {
            Some(DigitalOutputMode::RxClockOutput)
        } else if code == 0x0a {
            Some(DigitalOutputMode::RxStateIndication)
        } else if code == 0x0b {
            Some(DigitalOutputMode::RxFifoAlmostFull)
        } else if code == 0x0c {
            Some(DigitalOutputMode::RxFifoAlmostEmpty)
        } else if code == 0x0d {
            Some(DigitalOutputMode::AntennaSwitch)
        } else if code == 0x0e {
            Some(DigitalOutputMode::ValidPreambleDetection)
        } else if code == 0x0f {
            Some(DigitalOutputMode::SyncWordDetection)
        } else if code == 0x10 {
            Some(DigitalOutputMode::RssiAboveThreshold)
        } else if code == 0x11 {
            Some(DigitalOutputMode::McuClock)
        } else if code == 0x12 {
            Some(DigitalOutputMode::TxRxModeIndicator)
        } else if code == 0x13 {
            Some(DigitalOutputMode::Vdd)
        } else if code == 0x14 {
            Some(DigitalOutputMode::Gnd)
        } else if code == 0x15 {
            Some(DigitalOutputMode::ExternalSMPSEnable)
        } else if code == 0x16 {
            Some(DigitalOutputMode::SleepOrStandby)
        } else if code == 0x17 {
            Some(DigitalOutputMode::nSleepAndStandby)
        } else if code == 0x18 {
            Some(DigitalOutputMode::LockState)
        } else if code == 0x19 {
            Some(DigitalOutputMode::WaitingForLockDetector)
        } else if code == 0x1a {
            Some(DigitalOutputMode::WaitingForTimerLDO)
        } else if code == 0x1b {
            Some(DigitalOutputMode::WaitingForReady2)
        } else if code == 0x1c {
            Some(DigitalOutputMode::WaitingForTimerPM)
        } else if code == 0x1d {
            Some(DigitalOutputMode::WaitingForVCOEnd)
        } else if code == 0x1e {
            Some(DigitalOutputMode::SynthBlockEnable)
        } else if code == 0x1f {
            Some(DigitalOutputMode::WaitingForRcCalOk1)
        } else {
            None
        }
    }

    /// Code of the value in its register field.
    pub fn code(&self) -> (r: u8)
        ensures
            r == self.spec_code(),
    {
        match self {
            DigitalOutputMode::nIRQ => 0x00,
            DigitalOutputMode::PoR => 0x01,
            DigitalOutputMode::WakeUpTimer => 0x02,
            DigitalOutputMode::LowBatteryDetection => 0x03,
            DigitalOutputMode::TxDataInternalClkOutput => 0x04,
            DigitalOutputMode::TxStateIndication => 0x05,
            DigitalOutputMode::TxFifoAlmostEmpty => 0x06,
            DigitalOutputMode::TxFifoAlmostFull => 0x07,
            DigitalOutputMode::RxDataOutput => 0x08,
            DigitalOutputMode::RxClockOutput => 0x09,
            DigitalOutputMode::RxStateIndication => 0x0a,
            DigitalOutputMode::RxFifoAlmostFull => 0x0b,
            DigitalOutputMode::RxFifoAlmostEmpty => 0x0c,
            DigitalOutputMode::AntennaSwitch => 0x0d,
            DigitalOutputMode::ValidPreambleDetection => 0x0e,
            DigitalOutputMode::SyncWordDetection => 0x0f,
            DigitalOutputMode::RssiAboveThreshold => 0x10,
            DigitalOutputMode::McuClock => 0x11,
            DigitalOutputMode::TxRxModeIndicator => 0x12,
            DigitalOutputMode::Vdd => 0x13,
            DigitalOutputMode::Gnd => 0x14,
            DigitalOutputMode::ExternalSMPSEnable => 0x15,
            DigitalOutputMode::SleepOrStandby => 0x16,
            DigitalOutputMode::nSleepAndStandby => 0x17,
            DigitalOutputMode::LockState => 0x18,
            DigitalOutputMode::WaitingForLockDetector => 0x19,
            DigitalOutputMode::WaitingForTimerLDO => 0x1a,
            DigitalOutputMode::WaitingForReady2 => 0x1b,
            DigitalOutputMode::WaitingForTimerPM => 0x1c,
            DigitalOutputMode::WaitingForVCOEnd => 0x1d,
            DigitalOutputMode::SynthBlockEnable => 0x1e,
            DigitalOutputMode::WaitingForRcCalOk1 => 0x1f,
        }
    }

    /// The value whose code is `code`, if any.
    pub fn from_code(code: u8) -> (r: Option<Self>)
        ensures
            r == Self::spec_from_code(code),
    {
        if code == 0x00 {
            Some(DigitalOutputMode::nIRQ)
        } else if code == 0x01 {
            Some(DigitalOutputMode::PoR)
        } else if code == 0x02 {
            Some(DigitalOutputMode::WakeUpTimer)
        } else if code == 0x03 {
            Some(DigitalOutputMode::LowBatteryDetection)
        } else if code == 0x04 {
            Some(DigitalOutputMode::TxDataInternalClkOutput)
        } else if code == 0x05 {
            Some(DigitalOutputMode::TxStateIndication)
        } else if code == 0x06 {
            Some(DigitalOutputMode::TxFifoAlmostEmpty)
        } else if code == 0x07 {
            Some(DigitalOutputMode::TxFifoAlmostFull)
        } else if code == 0x08 {
            Some(DigitalOutputMode::RxDataOutput)
        } else if code == 0x09 {
            Some(DigitalOutputMode::RxClockOutput)
        } else if code == 0x0a {
            Some(DigitalOutputMode::RxStateIndication)
        } else if code == 0x0b {
            Some(DigitalOutputMode::RxFifoAlmostFull)
        } else if code == 0x0c {
            Some(DigitalOutputMode::RxFifoAlmostEmpty)
        } else if code == 0x0d {
            Some(DigitalOutputMode::AntennaSwitch)
        } else if code == 0x0e {
            Some(DigitalOutputMode::ValidPreambleDetection)
        } else if code == 0x0f {
            Some(DigitalOutputMode::SyncWordDetection)
        } else if code == 0x10 {
            Some(DigitalOutputMode::RssiAboveThreshold)
        } else if code == 0x11 {
            Some(DigitalOutputMode::McuClock)
        } else if code == 0x12 {
            Some(DigitalOutputMode::TxRxModeIndicator)
        } else if code == 0x13 {
            Some(DigitalOutputMode::Vdd)
        } else if code == 0x14 {
            Some(DigitalOutputMode::Gnd)
        } else if code == 0x15 {
            Some(DigitalOutputMode::ExternalSMPSEnable)
        } else if code == 0x16 {
            Some(DigitalOutputMode::SleepOrStandby)
        } else if code == 0x17 {
            Some(DigitalOutputMode::nSleepAndStandby)
        } else if code == 0x18 {
            Some(DigitalOutputMode::LockState)
        } else if code == 0x19 {
            Some(DigitalOutputMode::WaitingForLockDetector)
        } else if code == 0x1a {
            Some(DigitalOutputMode::WaitingForTimerLDO)
        } else if code == 0x1b {
            Some(DigitalOutputMode::WaitingForReady2)
        } else if code == 0x1c {
            Some(DigitalOutputMode::WaitingForTimerPM)
        } else if code == 0x1d {
            Some(DigitalOutputMode::WaitingForVCOEnd)
        } else if code == 0x1e {
            Some(DigitalOutputMode::SynthBlockEnable)
        } else if code == 0x1f {
            Some(DigitalOutputMode::WaitingForRcCalOk1)
        } else {
            None
        }
    }
}

/// Function of a GPIO.
#[derive(Clone, Copy, Debug, PartialEq, Eq, Structural)]
pub enum GpioMode {
    /// Analog temperature sensor output (GPIO 0 only).
    Analog,
    /// Digital input.
    DigitalInput(DigitalInputMode),
    /// Low power digital output.
    OutputLowPower(DigitalOutputMode),
    /// High power digital output.
    OutputHighPower(DigitalOutputMode),
}

impl GpioMode {
    /// Mode bits (1..0) and selection bits (7..3) of the mode; the analog mode
    /// selects 1.
    pub open spec fn spec_bits(self) -> (u8, u8) {
        match self {
            GpioMode::Analog => (0, 1),
            GpioMode::DigitalInput(m) => (1, m.spec_code()),
            GpioMode::OutputLowPower(m) => (2, m.spec_code()),
            GpioMode::OutputHighPower(m) => (3, m.spec_code()),
        }
    }

    /// The mode of mode bits `mode` and selection bits `select`, if any.
    pub open spec fn spec_from_bits(mode: u8, select: u8) -> Option<Self> {
        if mode == 0 {
            Some(GpioMode::Analog)
        } else if mode == 1 {
            match DigitalInputMode::spec_from_code(select) {
                Some(m) => Some(GpioMode::DigitalInput(m)),
                None => None,
            }
        } else if mode == 2 {
            match DigitalOutputMode::spec_from_code(select) {
                Some(m) => Some(GpioMode::OutputLowPower(m)),
                None => None,
            }
        } else if mode == 3 {
            match DigitalOutputMode::spec_from_code(select) {
                Some(m) => Some(GpioMode::OutputHighPower(m)),
                None => None,
            }
        } else {
            None
        }
    }

    /// Mode bits and selection bits of the mode.
    pub fn bits(&self) -> (r: (u8, u8))
        ensures
            r == self.spec_bits(),
    {
        match self {
            GpioMode::Analog => (0, 1),
            GpioMode::DigitalInput(m) => (1, m.code()),
            GpioMode::OutputLowPower(m) => (2, m.code()),
            GpioMode::OutputHighPower(m) => (3, m.code()),
        }
    }

    /// The mode of mode bits `mode` and selection bits `select`; `None` where
    /// the selection is unknown for the mode.
    pub fn from_bits(mode: u8, select: u8) -> (r: Option<Self>)
        ensures
            r == Self::spec_from_bits(mode, select),
    {
        if mode == 0 {
            Some(GpioMode::Analog)
        } else if mode == 1 {
            match DigitalInputMode::from_code(select) {
                Some(m) => Some(GpioMode::DigitalInput(m)),
                None => None,
            }
        } else if mode == 2 {
            match DigitalOutputMode::from_code(select) {
                Some(m) => Some(GpioMode::OutputLowPower(m)),
                None => None,
            }
        } else if mode == 3 {
            match DigitalOutputMode::from_code(select) {
                Some(m) => Some(GpioMode::OutputHighPower(m)),
                None => None,
            }
        } else {
            None
        }
    }
}

/// Configuration byte of one GPIO.
#[derive(Clone, Copy, Debug, PartialEq, Eq, Structural)]
pub struct GpioConf {
    /// Reserved (bit 2).
    pub reserved: bool,
    /// Function of the pin.
    pub gpio_mode: GpioMode,
}

impl GpioConf {
    /// A configuration of the pin for `mode`.
    pub fn new(mode: GpioMode) -> (r: Self)
        ensures
            r == (GpioConf { reserved: false, gpio_mode: mode }),
    {
        GpioConf { reserved: false, gpio_mode: mode }
    }

    /// Register bytes.
    pub open spec fn encode(self) -> Seq<u8> {
        let b = self.gpio_mode.spec_bits();
        seq![(b.1 * 8 + bit(self.reserved) * 4 + b.0) as u8]
    }

    /// The configuration held by `bytes`; `None` where the function is unknown.
    pub open spec fn decode(bytes: Seq<u8>) -> Option<Self> {
        match GpioMode::spec_from_bits(field(bytes[0], 1, 4) as u8, field(bytes[0], 8, 32) as u8) {
            Some(gpio_mode) => Some(GpioConf { reserved: field(bytes[0], 4, 2) == 1, gpio_mode }),
            None => None,
        }
    }

    /// Register bytes.
    pub fn into_bytes(&self) -> (r: [u8; 1])
        ensures
            r@ == self.encode(),
    {
        let (mode, select) = self.gpio_mode.bits();
        let reserved: u8 = if self.reserved {
            4
        } else {
            0
        };
        let r = [select * 8 + reserved + mode];
        assert(r@ =~= self.encode());
        r
    }

    /// The configuration held by `bytes`; `None` where the function is unknown.
    pub fn from_bytes(bytes: [u8; 1]) -> (r: Option<Self>)
        ensures
            r == Self::decode(bytes@),
    {
        match GpioMode::from_bits(bytes[0] % 4, bytes[0] / 8) {
            Some(gpio_mode) => Some(GpioConf { reserved: (bytes[0] / 4) % 2 == 1, gpio_mode }),
            None => None,
        }
    }
}

impl Default for GpioConf {
    fn default() -> (r: Self)
        ensures
            r == (GpioConf { reserved: false, gpio_mode: GpioMode::OutputLowPower(DigitalOutputMode::Gnd) }),
    {
        GpioConf { reserved: false, gpio_mode: GpioMode::OutputLowPower(DigitalOutputMode::Gnd) }
    }
}

/// `GPIO0_CONF` register (0x05).
#[derive(Clone, Copy, Debug, PartialEq, Eq, Structural)]
pub struct Gpio0Conf(pub GpioConf);

/// `GPIO1_CONF` register (0x04).
#[derive(Clone, Copy, Debug, PartialEq, Eq, Structural)]
pub struct Gpio1Conf(pub GpioConf);

/// `GPIO2_CONF` register (0x03).
#[derive(Clone, Copy, Debug, PartialEq, Eq, Structural)]
pub struct Gpio2Conf(pub GpioConf);

/// `GPIO3_CONF` register (0x02).
#[derive(Clone, Copy, Debug, PartialEq, Eq, Structural)]
pub struct Gpio3Conf(pub GpioConf);

impl Gpio0Conf {
    /// Address of the register's first byte.
    pub const ADDRESS: u8 = 0x05;

    /// The register's value after reset: power-on reset output.
    pub fn reset_value() -> (r: Self)
        ensures
            r == Gpio0Conf(GpioConf { reserved: false, gpio_mode: GpioMode::OutputLowPower(DigitalOutputMode::PoR) }),
    {
        Gpio0Conf(GpioConf { reserved: false, gpio_mode: GpioMode::OutputLowPower(DigitalOutputMode::PoR) })
    }
}

impl Gpio1Conf {
    /// Address of the register's first byte.
    pub const ADDRESS: u8 = 0x04;
}

impl Gpio2Conf {
    /// Address of the register's first byte.
    pub const ADDRESS: u8 = 0x03;
}

impl Gpio3Conf {
    /// Address of the register's first byte.
    pub const ADDRESS: u8 = 0x02;
}

/// `RCO_VCO_CALIBR_IN` registers (0x6D to 0x6F): calibration words of the RC
/// oscillator and of the VCO.
#[derive(Clone, Copy, Debug, PartialEq, Eq, Structural)]
pub struct RcoVcoCalibrIn {
    /// RWT word of the RCO (`[2]` bits 7..4).
    pub rwt_in: u8,
    /// RFB word bits 4..1 (`[2]` bits 3..0).
    pub rfb_in_msb: u8,
    /// RFB word bit 0 (`[1]` bit 7).
    pub rfb_in_lsb: bool,
    /// VCO calibration word for TX (`[1]` bits 6..0).
    pub vco_calibr_tx: u8,
    /// Reserved (`[0]` bit 7).
    pub reserved: bool,
    /// VCO calibration word for RX (`[0]` bits 6..0).
    pub vco_calibr_rx: u8,
}

impl RcoVcoCalibrIn {
    /// Address of the register's first byte.
    pub const ADDRESS: u8 = 0x6D;

    /// The calibration words; the five bits of `rfb_in` are split over two bytes.
    pub fn new(rwt_in: u8, rfb_in: u8, vco_calibr_tx: u8, vco_calibr_rx: u8) -> (r: Self)
        ensures
            r.rfb_in_msb * 2 + bit(r.rfb_in_lsb) == rfb_in % 32,
            r == (RcoVcoCalibrIn {
                rwt_in,
                rfb_in_msb: ((rfb_in / 2) % 16) as u8,
                rfb_in_lsb: rfb_in % 2 == 1,
                vco_calibr_tx,
                reserved: false,
                vco_calibr_rx,
            }),
    {
        RcoVcoCalibrIn {
            rwt_in,
            rfb_in_msb: (rfb_in / 2) % 16,
            rfb_in_lsb: rfb_in % 2 == 1,
            vco_calibr_tx,
            reserved: false,
            vco_calibr_rx,
        }
    }

    /// Every field fits its width.
    pub open spec fn wf(self) -> bool {
        self.rwt_in < 16 && self.rfb_in_msb < 16 && self.vco_calibr_tx < 128 && self.vco_calibr_rx < 128
    }

    /// Register bytes, each field kept to its width.
    pub open spec fn encode(self) -> Seq<u8> {
        seq![
            ((self.rwt_in % 16) * 16 + self.rfb_in_msb % 16) as u8,
            (bit(self.rfb_in_lsb) * 128 + self.vco_calibr_tx % 128) as u8,
            (bit(self.reserved) * 128 + self.vco_calibr_rx % 128) as u8,
        ]
    }

    /// The register held by `bytes`.
    pub open spec fn decode(bytes: Seq<u8>) -> Option<Self> {
        Some(
            RcoVcoCalibrIn {
                rwt_in: field(bytes[0], 16, 16) as u8,
                rfb_in_msb: field(bytes[0], 1, 16) as u8,
                rfb_in_lsb: field(bytes[1], 128, 2) == 1,
                vco_calibr_tx: field(bytes[1], 1, 128) as u8,
                reserved: field(bytes[2], 128, 2) == 1,
                vco_calibr_rx: field(bytes[2], 1, 128) as u8,
            },
        )
    }

    /// Register bytes, each field kept to its width.
    pub fn into_bytes(&self) -> (r: [u8; 3])
        ensures
            r@ == self.encode(),
    {
        let lsb: u8 = if self.rfb_in_lsb {
            128
        } else {
            0
        };
        let reserved: u8 = if self.reserved {
            128
        } else {
            0
        };
        let r = [
            (self.rwt_in % 16) * 16 + self.rfb_in_msb % 16,
            lsb + self.vco_calibr_tx % 128,
            reserved + self.vco_calibr_rx % 128,
        ];
        assert(r@ =~= self.encode());
        r
    }

    /// The register held by `bytes`.
    pub fn from_bytes(bytes: [u8; 3]) -> (r: Self)
        ensures
            Some(r) == Self::decode(bytes@),
    {
        RcoVcoCalibrIn {
            rwt_in: bytes[0] / 16,
            rfb_in_msb: bytes[0] % 16,
            rfb_in_lsb: bytes[1] / 128 == 1,
            vco_calibr_tx: bytes[1] % 128,
            reserved: bytes[2] / 128 == 1,
            vco_calibr_rx: bytes[2] % 128,
        }
    }
}

/// `RCO_VCO_CALIBR_OUT` registers (0xE4, 0xE5): results of the RCO and VCO
/// calibrations.
#[derive(Clone, Copy, Debug, PartialEq, Eq, Structural)]
pub struct RcoVcoCalibrOut {
    /// RWT word of the RCO (`[1]` bits 7..4).
    pub rwt_out: u8,
    /// RFB word bits 4..1 (`[1]` bits 3..0).
    pub rfb_out_msb: u8,
    /// RFB word bit 0 (`[0]` bit 7).
    pub rfb_out_lsb: bool,
    /// VCO calibration word (`[0]` bits 6..0).
    pub vco_calibr_data: u8,
}

impl RcoVcoCalibrOut {
    /// Address of the register's first byte.
    pub const ADDRESS: u8 = 0xE4;

    /// The five-bit RFB word.
    pub fn rfb(&self) -> (r: u8)
        requires
            self.rfb_out_msb < 16,
        ensures
            r == self.rfb_out_msb * 2 + bit(self.rfb_out_lsb),
    {
        let lsb: u8 = if self.rfb_out_lsb {
            1
        } else {
            0
        };
        self.rfb_out_msb * 2 + lsb
    }

    /// Every field fits its width.
    pub open spec fn wf(self) -> bool {
        self.rwt_out < 16 && self.rfb_out_msb < 16 && self.vco_calibr_data < 128
    }

    /// Register bytes, each field kept to its width.
    pub open spec fn encode(self) -> Seq<u8> {
        seq![
            ((self.rwt_out % 16) * 16 + self.rfb_out_msb % 16) as u8,
            (bit(self.rfb_out_lsb) * 128 + self.vco_calibr_data % 128) as u8,
        ]
    }

    /// The register held by `bytes`.
    pub open spec fn decode(bytes: Seq<u8>) -> Option<Self> {
        Some(
            RcoVcoCalibrOut {
                rwt_out: field(bytes[0], 16, 16) as u8,
                rfb_out_msb: field(bytes[0], 1, 16) as u8,
                rfb_out_lsb: field(bytes[1], 128, 2) == 1,
                vco_calibr_data: field(bytes[1], 1, 128) as u8,
            },
        )
    }

    /// Register bytes, each field kept to its width.
    pub fn into_bytes(&self) -> (r: [u8; 2])
        ensures
            r@ == self.encode(),
    {
        let lsb: u8 = if self.rfb_out_lsb {
            128
        } else {
            0
        };
        let r = [(self.rwt_out % 16) * 16 + self.rfb_out_msb % 16, lsb + self.vco_calibr_data % 128];
        assert(r@ =~= self.encode());
        r
    }

    /// The register held by `bytes`.
    pub fn from_bytes(bytes: [u8; 2]) -> (r: Self)
        ensures
            Some(r) == Self::decode(bytes@),
    {
        RcoVcoCalibrOut {
            rwt_out: bytes[0] / 16,
            rfb_out_msb: bytes[0] % 16,
            rfb_out_lsb: bytes[1] / 128 == 1,
            vco_calibr_data: bytes[1] % 128,
        }
    }
}

/// Decoding the bytes of a GPIO configuration, or of a calibration register
/// whose fields fit their widths, gives that value back.
pub proof fn lemma_gpio_calibration_round_trip(gpio: GpioConf, calibr_in: RcoVcoCalibrIn, calibr_out: RcoVcoCalibrOut)
    requires
        calibr_in.wf(),
        calibr_out.wf(),
    ensures
        GpioConf::decode(gpio.encode()) == Some(gpio),
        RcoVcoCalibrIn::decode(calibr_in.encode()) == Some(calibr_in),
        RcoVcoCalibrOut::decode(calibr_out.encode()) == Some(calibr_out),
{
    lemma_gpio_round_trip(gpio);
    lemma_calibr_in_round_trip(calibr_in);
    lemma_calibr_out_round_trip(calibr_out);
}

/// Encoding the calibration registers that bytes decode to gives those bytes
/// back.
pub proof fn lemma_calibration_bytes_round_trip(in_bytes: Seq<u8>, out_bytes: Seq<u8>)
    ensures
        in_bytes.len() == 3 ==> RcoVcoCalibrIn::decode(in_bytes)->Some_0.encode() == in_bytes,
        out_bytes.len() == 2 ==> RcoVcoCalibrOut::decode(out_bytes)->Some_0.encode() == out_bytes,
{
    if in_bytes.len() == 3 {
        assert(RcoVcoCalibrIn::decode(in_bytes)->Some_0.encode() =~= in_bytes);
    }
    if out_bytes.len() == 2 {
        assert(RcoVcoCalibrOut::decode(out_bytes)->Some_0.encode() =~= out_bytes);
    }
}

proof fn lemma_gpio_round_trip(gpio: GpioConf)
    ensures
        GpioConf::decode(gpio.encode()) == Some(gpio),
{
    let b = gpio.gpio_mode.spec_bits();
    let byte = gpio.encode()[0];
    assert(b.0 < 4 && b.1 < 32);
    assert(field(byte, 1, 4) == b.0);
    assert(field(byte, 8, 32) == b.1);
    assert(field(byte, 4, 2) == bit(gpio.reserved));
    match gpio.gpio_mode {
        GpioMode::Analog => {},
        GpioMode::DigitalInput(m) => {},
        GpioMode::OutputLowPower(m) => {},
        GpioMode::OutputHighPower(m) => {},
    }
}

proof fn lemma_calibr_in_round_trip(calibr_in: RcoVcoCalibrIn)
    requires
        calibr_in.wf(),
    ensures
        RcoVcoCalibrIn::decode(calibr_in.encode()) == Some(calibr_in),
{
}

proof fn lemma_calibr_out_round_trip(calibr_out: RcoVcoCalibrOut)
    requires
        calibr_out.wf(),
    ensures
        RcoVcoCalibrOut::decode(calibr_out.encode()) == Some(calibr_out),
{
}

} // verus!
