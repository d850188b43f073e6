//! Frequency bands of the synthesizer.
use vstd::prelude::*;

verus! {

/// Synthesizer band, from the lowest to the highest.
#[derive(Clone, Copy, Debug, PartialEq, Eq, Structural)]
pub enum BandSelect {
    /// Very low band (169 MHz), band select factor 32.
    VeryLow,
    /// Low band (300 MHz to 348 MHz), band select factor 16.
    Low,
    /// Middle band (387 MHz to 470 MHz), band select factor 12.
    Middle,
    /// High band (779 MHz to 956 MHz), band select factor 6.
    High,
}

/// The band that holds `frequency` Hz, if any.
pub open spec fn band_of(frequency: u32) -> Option<BandSelect> {
    if 149_000_000 <= frequency <= 175_100_000 {
        Some(BandSelect::VeryLow)
    } else if 299_000_000 <= frequency <= 349_100_000 {
        Some(BandSelect::Low)
    } else if 386_000_000 <= frequency <= 471_100_000 {
        Some(BandSelect::Middle)
    } else if 778_000_000 <= frequency <= 957_100_000 {
        Some(BandSelect::High)
    } else {
        None
    }
}

impl BandSelect {
    /// The band of a carrier frequency in Hz; `None` outside every band.
    pub fn from_hz(frequency: u32) -> (r: Option<Self>)
        ensures
            r == band_of(frequency),
    {
        if 149_000_000 <= frequency && frequency <= 175_100_000 {
            Some(BandSelect::VeryLow)
        } else if 299_000_000 <= frequency && frequency <= 349_100_000 {
            Some(BandSelect::Low)
        } else if 386_000_000 <= frequency && frequency <= 471_100_000 {
            Some(BandSelect::Middle)
        } else if 778_000_000 <= frequency && frequency <= 957_100_000 {
            Some(BandSelect::High)
        } else {
            None
        }
    }

    /// Code of the band in the `BS` field of the `SYNT` register.
    pub open spec fn spec_value(self) -> u8 {
        match self {
            BandSelect::VeryLow => 5,
            BandSelect::Low => 4,
            BandSelect::Middle => 3,
            BandSelect::High => 1,
        }
    }

    /// Code of the band in the `BS` field of the `SYNT` register.
    pub fn value(&self) -> (r: u8)
        ensures
            r == self.spec_value(),
    {
        match self {
            BandSelect::VeryLow => 5,
            BandSelect::Low => 4,
            BandSelect::Middle => 3,
            BandSelect::High => 1,
        }
    }

    /// The band whose `BS` code is `code`.
    pub open spec fn spec_from_value(code: u8) -> Option<Self> {
        if code == 5 {
            Some(BandSelect::VeryLow)
        } else if code == 4 {
            Some(BandSelect::Low)
        } else if code == 3 {
            Some(BandSelect::Middle)
        } else if code == 1 {
            Some(BandSelect::High)
        } else {
            None
        }
    }

    /// The band whose `BS` code is `code`.
    pub fn from_value(code: u8) -> (r: Option<Self>)
        ensures
            r == Self::spec_from_value(code),
    {
        match code {
            5 => Some(BandSelect::VeryLow),
            4 => Some(BandSelect::Low),
            3 => Some(BandSelect::Middle),
            1 => Some(BandSelect::High),
            _ => None,
        }
    }

    /// Whether the band lies below the high band.
    pub fn is_below_high(&self) -> (r: bool)
        ensures
            r <==> *self != BandSelect::High,
    {
        match self {
            BandSelect::High => false,
            _ => true,
        }
    }
}

} // verus!
