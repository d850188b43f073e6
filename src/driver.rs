//! The device handle: bring-up sequence, blocking transmit and receive, and
//! interrupt handling, over an abstract bus.
//!
//! Every bus transaction the handle issues is recorded, in order, in the ghost
//! log `ops`; the contracts describe the transactions of each operation there.
use vstd::prelude::*;

use crate::band::{band_of, BandSelect};
use crate::calc::{
    carrier_offset_steps, channel_spacing, channel_spacing_for, compute_rssi_threshold,
    fc_offset_for, if_offset, if_offset_ana_for, if_offset_dig_for, pa_power_from_dbm,
    pd_clkdiv_for, xtal_26mhz_for,
};
use crate::constants::DOUBLE_XTAL_THR;
use crate::registers::{
    AdditionalLoadCapacitors, ChFlt, FcOffset, FreqDev0, InterruptEvent, IrqMask, IrqStatus,
    LinearFifoStatusRxElements, McState, Modulation, ModulationType, PaPower, PaSlot, PcktLen,
    SpiritCommand, SpiritState, Timers, AFC2_ADDRESS, ANA_FUNC_CONF_0_ADDRESS, CHNUM_ADDRESS,
    CHSPACE_ADDRESS, IF_OFFSET_ANA_ADDRESS, IF_OFFSET_DIG_ADDRESS, LINEAR_FIFO_ADDRESS,
    MAX_FIFO_LENGTH, PCKT_FLT_OPTIONS_ADDRESS, PM_CONFIG_1_ADDRESS, PM_TEST_ADDRESS,
    PROTOCOL_ADDRESS, RSSI_TH_ADDRESS, SYNTH_CONFIG_ADDRESS, TEST_SELECT_ADDRESS,
    XO_RCO_TEST_ADDRESS,
};
use crate::{RadioError, RadioResult};

verus! {

/// One bus transaction as the handle saw it.
pub enum BusOp {
    /// Bytes written from `address` on.
    Write { address: u8, data: Seq<u8> },
    /// Bytes read from `address` on.
    Read { address: u8, data: Seq<u8> },
    /// A command strobe.
    Command { command: SpiritCommand },
    /// A pause of `ms` milliseconds.
    Delay { ms: u32 },
    /// The transaction just issued failed with `error`.
    Fault { error: RadioError },
}

/// The bus to the chip and the facts of the board it sits on. Implemented by
/// the platform.
pub trait Spirit1HalBlocking {
    /// Reads `length` bytes from `address` on.
    fn read_raw(&mut self, address: u8, length: usize) -> RadioResult<Vec<u8>>;

    /// Writes `data` from `address` on.
    fn write_raw(&mut self, address: u8, data: &[u8]) -> RadioResult<()>;

    /// Strobes `command`; returns the state the chip reports with it.
    fn write_command(&mut self, command: SpiritCommand) -> RadioResult<McState>;

    /// Frequency of the crystal in Hz.
    fn get_xtal_frequency(&self) -> u32;

    /// Base carrier frequency in Hz.
    fn get_base_frequency(&self) -> u32;

    /// Waits `ms` milliseconds.
    fn delay_ms(&mut self, ms: u32);
}

/// Lowest crystal frequency the conversions handle, in Hz.
pub const MIN_XTAL_FREQUENCY: u32 = 8192;

/// Pause between two polls of the chip's state, in milliseconds.
pub const STATE_POLL_DELAY_MS: u32 = 100;

/// Pause between two polls of the transmit status, in milliseconds.
pub const TX_POLL_DELAY_MS: u32 = 1000;

/// Pause between two polls of the receive status, in milliseconds.
pub const RX_POLL_DELAY_MS: u32 = 1;

/// Handle of one chip: its bus, and the facts of its board, read once.
pub struct Spirit1Driver<H> {
    /// The bus.
    pub hal: H,
    /// Frequency of the crystal in Hz.
    pub xtal_frequency: u32,
    /// Base carrier frequency in Hz.
    pub base_frequency: u32,
    /// Band of the base carrier frequency.
    pub band: BandSelect,
    /// The transactions issued so far.
    pub ops: Ghost<Seq<BusOp>>,
}

/// The transactions issued between two states of the log.
pub open spec fn new_ops(before: Seq<BusOp>, after: Seq<BusOp>) -> Seq<BusOp> {
    after.subrange(before.len() as int, after.len() as int)
}

/// The log `after` continues the log `before`.
pub open spec fn extends(before: Seq<BusOp>, after: Seq<BusOp>) -> bool {
    &&& before.len() <= after.len()
    &&& forall|i: int| 0 <= i < before.len() ==> #[trigger] after[i] == before[i]
}

/// The log grew from `before` to `after` and its last transaction failed
/// with `error`.
pub open spec fn bus_failed(before: Seq<BusOp>, after: Seq<BusOp>, error: RadioError) -> bool {
    after.len() > before.len() && after.last() == (BusOp::Fault { error })
}

/// A read of one byte at `address`, followed by the write of that byte with the
/// bit of weight `unit` set to `value`.
pub open spec fn is_bit_update(read: BusOp, write: BusOp, address: u8, unit: int, value: bool) -> bool {
    match read {
        BusOp::Read { address: a, data } => a == address && data.len() == 1 && write == (BusOp::Write {
            address,
            data: seq![crate::registers::with_bit(data[0], unit, value)],
        }),
        _ => false,
    }
}

/// Polls of `address`: reads of `length` bytes separated by pauses of `ms`,
/// where only the last read satisfies `done`.
pub open spec fn polls_until(
    t: Seq<BusOp>,
    address: u8,
    length: nat,
    ms: u32,
    done: spec_fn(Seq<u8>) -> bool,
) -> bool {
    &&& t.len() % 2 == 1
    &&& forall|i: int|
        0 <= i < t.len() && i % 2 == 0 ==> match #[trigger] t[i] {
            BusOp::Read { address: a, data } => a == address && data.len() == length && (done(data)
                <==> i == t.len() - 1),
            _ => false,
        }
    &&& forall|i: int| 0 <= i < t.len() && i % 2 == 1 ==> #[trigger] t[i] == (BusOp::Delay { ms })
}

/// The state that `MC_STATE` bytes report, if they decode.
pub open spec fn reported_state(data: Seq<u8>) -> Option<SpiritState> {
    match McState::decode(data) {
        Some(s) => Some(s.state),
        None => None,
    }
}

/// Whether `IRQ_STATUS` bytes report `event`.
pub open spec fn reports(data: Seq<u8>, event: InterruptEvent) -> bool {
    crate::registers::event_in(
        crate::registers::word_of(data[0], data[1], data[2], data[3]),
        event,
    )
}

impl<H: Spirit1HalBlocking> Spirit1Driver<H> {
    /// The facts of the board are consistent and within the conversions' reach.
    pub open spec fn wf(&self) -> bool {
        &&& self.xtal_frequency >= MIN_XTAL_FREQUENCY
        &&& band_of(self.base_frequency) == Some(self.band)
    }

    /// A handle of the chip behind `hal`; fails where the crystal is below
    /// `MIN_XTAL_FREQUENCY` or the base frequency lies outside every band.
    pub fn new(hal: H) -> (r: RadioResult<Self>)
        ensures
            r matches Ok(d) ==> d.wf() && d.ops@ == Seq::<BusOp>::empty(),
            r is Err ==> r == Err::<Self, RadioError>(RadioError::ParameterError),
    {
        let xtal_frequency = hal.get_xtal_frequency();
        let base_frequency = hal.get_base_frequency();
        if xtal_frequency < MIN_XTAL_FREQUENCY {
            return Err(RadioError::ParameterError);
        }
        match BandSelect::from_hz(base_frequency) {
            Some(band) => Ok(
                Spirit1Driver {
                    hal,
                    xtal_frequency,
                    base_frequency,
                    band,
                    ops: Ghost(Seq::empty()),
                },
            ),
            None => Err(RadioError::ParameterError),
        }
    }

    /// Whether the facts of the board are consistent and within the
    /// conversions' reach; a handle made by `new` always is.
    pub fn is_well_formed(&self) -> (r: bool)
        ensures
            r == self.wf(),
    {
        if self.xtal_frequency < MIN_XTAL_FREQUENCY {
            return false;
        }
        match BandSelect::from_hz(self.base_frequency) {
            Some(band) => band == self.band,
            None => false,
        }
    }

    /// The facts of the board.
    pub open spec fn facts(&self) -> (u32, u32, BandSelect) {
        (self.xtal_frequency, self.base_frequency, self.band)
    }

    /// Writes `data` from `address` on.
    pub fn write_raw(&mut self, address: u8, data: &[u8]) -> (r: RadioResult<()>)
        ensures
            final(self).facts() == old(self).facts(),
            r is Ok ==> final(self).ops@ == old(self).ops@.push(BusOp::Write { address, data: data@ }),
            r matches Err(e) ==> final(self).ops@ == old(self).ops@.push(
                BusOp::Write { address, data: data@ },
            ).push(BusOp::Fault { error: e }),
    {
        let r = self.hal.write_raw(address, data);
        self.ops = Ghost(self.ops@.push(BusOp::Write { address, data: data@ }));
        if let Err(e) = r {
            self.ops = Ghost(self.ops@.push(BusOp::Fault { error: e }));
        }
        r
    }

    /// Reads `length` bytes from `address` on; a reply of another length fails.
    pub fn read_raw(&mut self, address: u8, length: usize) -> (r: RadioResult<Vec<u8>>)
        ensures
            final(self).facts() == old(self).facts(),
            r matches Ok(v) ==> v@.len() == length && final(self).ops@ == old(self).ops@.push(
                BusOp::Read { address, data: v@ },
            ),
            r matches Err(e) ==> final(self).ops@ == old(self).ops@.push(BusOp::Fault { error: e }),
    {
        match self.hal.read_raw(address, length) {
            Ok(v) => {
                if v.len() == length {
                    self.ops = Ghost(self.ops@.push(BusOp::Read { address, data: v@ }));
                    Ok(v)
                } else {
                    self.ops = Ghost(self.ops@.push(BusOp::Fault { error: RadioError::Spi }));
                    Err(RadioError::Spi)
                }
            },
            Err(e) => {
                self.ops = Ghost(self.ops@.push(BusOp::Fault { error: e }));
                Err(e)
            },
        }
    }

    /// Strobes `command`; returns the state the chip reported with it.
    pub fn write_command(&mut self, command: SpiritCommand) -> (r: RadioResult<McState>)
        ensures
            final(self).facts() == old(self).facts(),
            r is Ok ==> final(self).ops@ == old(self).ops@.push(BusOp::Command { command }),
            r matches Err(e) ==> final(self).ops@ == old(self).ops@.push(BusOp::Command { command }).push(
                BusOp::Fault { error: e },
            ),
    {
        let r = self.hal.write_command(command);
        self.ops = Ghost(self.ops@.push(BusOp::Command { command }));
        if let Err(e) = r {
            self.ops = Ghost(self.ops@.push(BusOp::Fault { error: e }));
        }
        r
    }

    /// Waits `ms` milliseconds.
    pub fn delay_ms(&mut self, ms: u32)
        ensures
            final(self).facts() == old(self).facts(),
            final(self).ops@ == old(self).ops@.push(BusOp::Delay { ms }),
    {
        self.hal.delay_ms(ms);
        self.ops = Ghost(self.ops@.push(BusOp::Delay { ms }));
    }

    /// Reads the byte at `address`.
    fn read_byte(&mut self, address: u8) -> (r: RadioResult<u8>)
        ensures
            final(self).facts() == old(self).facts(),
            r matches Ok(b) ==> final(self).ops@ == old(self).ops@.push(
                BusOp::Read { address, data: seq![b] },
            ),
            r matches Err(e) ==> final(self).ops@ == old(self).ops@.push(BusOp::Fault { error: e }),
    {
        let v = self.read_raw(address, 1)?;
        proof {
            assert(v@ =~= seq![v@[0]]);
        }
        Ok(v[0])
    }

    /// Sets the bit of weight `unit` of the byte at `address` to `value`,
    /// leaving the other bits as read.
    pub fn update_bit(&mut self, address: u8, unit: u8, value: bool) -> (r: RadioResult<()>)
        requires
            unit == 1 || unit == 2 || unit == 4 || unit == 8 || unit == 16 || unit == 32 || unit
                == 64 || unit == 128,
        ensures
            final(self).facts() == old(self).facts(),
            extends(old(self).ops@, final(self).ops@),
            r is Ok ==> final(self).ops@.len() == old(self).ops@.len() + 2 && is_bit_update(
                final(self).ops@[old(self).ops@.len() as int],
                final(self).ops@[old(self).ops@.len() + 1int],
                address,
                unit as int,
                value,
            ),
            r matches Err(e) ==> bus_failed(old(self).ops@, final(self).ops@, e),
    {
        let b = self.read_byte(address)?;
        let updated = crate::registers::set_bit(b, unit, value);
        let data = [updated];
        let r = self.write_raw(address, &data);
        proof {
            assert(data@ =~= seq![updated]);
        }
        r
    }
}

/// A read of the `PA_POWER[0]` byte, followed by its write with the load
/// capacitor field set to `caps`.
pub open spec fn is_load_caps_update(read: BusOp, write: BusOp, caps: AdditionalLoadCapacitors) -> bool {
    match read {
        BusOp::Read { address, data } => address == PaPower::ADDRESS && data.len() == 1 && write == (
        BusOp::Write {
            address: PaPower::ADDRESS,
            data: seq![(data[0] % 64 + caps.spec_code() * 64) as u8],
        }),
        _ => false,
    }
}

/// Load capacitors of the output stage for transmitting in `band`.
pub open spec fn tx_load_caps(band: BandSelect) -> AdditionalLoadCapacitors {
    if band == BandSelect::High {
        AdditionalLoadCapacitors::Cap0
    } else {
        AdditionalLoadCapacitors::Cap3p6
    }
}

/// Number of payload bytes that fit the TX FIFO.
pub open spec fn tx_length(payload_len: nat) -> nat {
    if payload_len > 96 {
        96
    } else {
        payload_len
    }
}

/// Transactions that prepare a transmission of `payload` in `band`: flush the
/// TX FIFO, load the bytes that fit, set the packet length, set the load
/// capacitors, two calibration writes, and the TX strobe.
pub open spec fn tx_setup(t: Seq<BusOp>, payload: Seq<u8>, band: BandSelect) -> bool {
    let n = tx_length(payload.len());
    &&& t.len() == 8
    &&& t[0] == (BusOp::Command { command: SpiritCommand::FLUSH_TX_FIFO })
    &&& t[1] == (BusOp::Write { address: LINEAR_FIFO_ADDRESS, data: payload.subrange(0, n as int) })
    &&& t[2] == (BusOp::Write { address: PcktLen::ADDRESS, data: seq![(n / 256) as u8, (n % 256) as u8] })
    &&& is_load_caps_update(t[3], t[4], tx_load_caps(band))
    &&& t[5] == (BusOp::Write { address: 0xA9, data: seq![0x11u8] })
    &&& t[6] == (BusOp::Write { address: PM_CONFIG_1_ADDRESS, data: seq![0x20u8] })
    &&& t[7] == (BusOp::Command { command: SpiritCommand::TX })
}

/// Transactions of a transmission of `payload` in `band`: the preparation,
/// then polls of `IRQ_STATUS` until it reports the data sent.
pub open spec fn tx_trace(t: Seq<BusOp>, payload: Seq<u8>, band: BandSelect) -> bool {
    &&& t.len() >= 9
    &&& tx_setup(t.subrange(0, 8), payload, band)
    &&& polls_until(
        t.subrange(8, t.len() as int),
        IrqStatus::ADDRESS,
        4,
        TX_POLL_DELAY_MS,
        tx_sent(),
    )
}

/// `IRQ_STATUS` bytes that report the data sent.
pub open spec fn tx_sent() -> spec_fn(Seq<u8>) -> bool {
    |d: Seq<u8>| reports(d, InterruptEvent::TxDataSent)
}

/// `MC_STATE` bytes that report `state`.
pub open spec fn state_reached(state: SpiritState) -> spec_fn(Seq<u8>) -> bool {
    |d: Seq<u8>| reported_state(d) == Some(state)
}

/// Transactions that arm the receiver: a power management trim, the load
/// capacitors cleared, the RX strobe.
pub open spec fn is_rx_strobe(t: Seq<BusOp>) -> bool {
    &&& t.len() == 4
    &&& t[0] == (BusOp::Write { address: PM_CONFIG_1_ADDRESS, data: seq![0x98u8] })
    &&& is_load_caps_update(t[1], t[2], AdditionalLoadCapacitors::Cap0)
    &&& t[3] == (BusOp::Command { command: SpiritCommand::RX })
}

/// A read of `IRQ_STATUS`.
pub open spec fn is_status_read(op: BusOp) -> bool {
    op matches BusOp::Read { address, data } && address == IrqStatus::ADDRESS && data.len() == 4
}

/// The data of a read.
pub open spec fn read_data(op: BusOp) -> Seq<u8> {
    match op {
        BusOp::Read { data, .. } => data,
        _ => Seq::empty(),
    }
}

/// Whether `IRQ_STATUS` bytes report a discarded packet or an RX timeout.
pub open spec fn reports_rx_restart(d: Seq<u8>) -> bool {
    reports(d, InterruptEvent::RxDataDiscarded) || reports(d, InterruptEvent::TimerRxTimeout)
}

/// Polls of `IRQ_STATUS` that did not report received data, each followed by a
/// new RX strobe where it reported a discarded packet or an RX timeout, and by a
/// pause.
pub open spec fn rx_waits(t: Seq<BusOp>) -> bool
    decreases t.len(),
{
    if t.len() == 0 {
        true
    } else if t.len() >= 2 && t.last() == (BusOp::Delay { ms: RX_POLL_DELAY_MS }) {
        let plain = t[t.len() - 2];
        let armed = t[t.len() - 6];
        if t.len() >= 6 && is_status_read(armed) && !reports(read_data(armed), InterruptEvent::RxDataReady)
            && reports_rx_restart(read_data(armed)) && is_rx_strobe(t.subrange(t.len() - 5, t.len() - 1)) {
            rx_waits(t.subrange(0, t.len() - 6))
        } else if is_status_read(plain) && !reports(read_data(plain), InterruptEvent::RxDataReady)
            && !reports_rx_restart(read_data(plain)) {
            rx_waits(t.subrange(0, t.len() - 2))
        } else {
            false
        }
    } else {
        false
    }
}

/// Number of `IRQ_STATUS` polls in waits that satisfy `rx_waits`.
pub open spec fn rx_status_reads(t: Seq<BusOp>) -> nat
    decreases t.len(),
{
    if t.len() >= 6 && is_rx_strobe(t.subrange(t.len() - 5, t.len() - 1)) {
        1 + rx_status_reads(t.subrange(0, t.len() - 6))
    } else if t.len() >= 2 {
        1 + rx_status_reads(t.subrange(0, t.len() - 2))
    } else {
        0
    }
}

/// Transactions of a reception that gave up: the RX strobe, then `max_polls`
/// polls of `IRQ_STATUS`, none reporting received data.
pub open spec fn rx_timed_out(t: Seq<BusOp>, max_polls: u32) -> bool {
    &&& t.len() >= 4
    &&& is_rx_strobe(t.subrange(0, 4))
    &&& rx_waits(t.subrange(4, t.len() as int))
    &&& rx_status_reads(t.subrange(4, t.len() as int)) == max_polls
}

/// Transactions of a reception whose RX FIFO count exceeds the FIFO: the RX
/// strobe, polls of `IRQ_STATUS` until it reports received data, then a count
/// read above 96.
pub open spec fn rx_count_too_large(t: Seq<BusOp>) -> bool {
    &&& t.len() >= 6
    &&& is_rx_strobe(t.subrange(0, 4))
    &&& rx_waits(t.subrange(4, t.len() - 2))
    &&& is_status_read(t[t.len() - 2])
    &&& reports(read_data(t[t.len() - 2]), InterruptEvent::RxDataReady)
    &&& t.last() matches BusOp::Read { address, data } && address
        == LinearFifoStatusRxElements::ADDRESS && data.len() == 1 && data[0] % 128 > 96
}

/// Transactions of a reception: the RX strobe, polls of `IRQ_STATUS` until it
/// reports received data, then the read of the RX FIFO count and of that many
/// bytes of the FIFO.
pub open spec fn rx_trace(t: Seq<BusOp>, received: Seq<u8>) -> bool {
    &&& t.len() >= 7
    &&& is_rx_strobe(t.subrange(0, 4))
    &&& rx_waits(t.subrange(4, t.len() - 3))
    &&& is_status_read(t[t.len() - 3])
    &&& reports(read_data(t[t.len() - 3]), InterruptEvent::RxDataReady)
    &&& t[t.len() - 2] matches BusOp::Read { address, data } && address
        == LinearFifoStatusRxElements::ADDRESS && data.len() == 1 && data[0] % 128 == received.len()
    &&& t[t.len() - 1] == (BusOp::Read { address: LINEAR_FIFO_ADDRESS, data: received })
}

proof fn lemma_new_ops_push(a: Seq<BusOp>, b: Seq<BusOp>, op: BusOp)
    requires
        extends(a, b),
    ensures
        new_ops(a, b.push(op)) == new_ops(a, b).push(op),
        extends(a, b.push(op)),
{
    assert(new_ops(a, b.push(op)) =~= new_ops(a, b).push(op));
}

proof fn lemma_new_ops_split(a: Seq<BusOp>, b: Seq<BusOp>, c: Seq<BusOp>)
    requires
        extends(a, b),
        extends(b, c),
    ensures
        new_ops(a, c) == new_ops(a, b) + new_ops(b, c),
        extends(a, c),
{
    assert(new_ops(a, c) =~= new_ops(a, b) + new_ops(b, c));
}

/// Polls of `address` that have not yet seen `done`: reads of `length` bytes,
/// each followed by a pause of `ms`.
pub open spec fn pending_polls(
    t: Seq<BusOp>,
    address: u8,
    length: nat,
    ms: u32,
    done: spec_fn(Seq<u8>) -> bool,
) -> bool {
    &&& t.len() % 2 == 0
    &&& forall|i: int|
        0 <= i < t.len() && i % 2 == 0 ==> match #[trigger] t[i] {
            BusOp::Read { address: a, data } => a == address && data.len() == length && !done(data),
            _ => false,
        }
    &&& forall|i: int| 0 <= i < t.len() && i % 2 == 1 ==> #[trigger] t[i] == (BusOp::Delay { ms })
}

proof fn lemma_pending_extend(
    t: Seq<BusOp>,
    address: u8,
    length: nat,
    ms: u32,
    done: spec_fn(Seq<u8>) -> bool,
    data: Seq<u8>,
)
    requires
        pending_polls(t, address, length, ms, done),
        data.len() == length,
        !done(data),
    ensures
        pending_polls(t.push(BusOp::Read { address, data }).push(BusOp::Delay { ms }), address, length, ms, done),
{
    let u = t.push(BusOp::Read { address, data }).push(BusOp::Delay { ms });
    assert forall|i: int| 0 <= i < u.len() && i % 2 == 0 implies match #[trigger] u[i] {
        BusOp::Read { address: a, data } => a == address && data.len() == length && !done(data),
        _ => false,
    } by {
        if i < t.len() {
            assert(u[i] == t[i]);
        }
    }
    assert forall|i: int| 0 <= i < u.len() && i % 2 == 1 implies #[trigger] u[i] == (BusOp::Delay { ms }) by {
        if i < t.len() {
            assert(u[i] == t[i]);
        }
    }
}

proof fn lemma_polls_finish(
    t: Seq<BusOp>,
    address: u8,
    length: nat,
    ms: u32,
    done: spec_fn(Seq<u8>) -> bool,
    data: Seq<u8>,
)
    requires
        pending_polls(t, address, length, ms, done),
        data.len() == length,
        done(data),
    ensures
        polls_until(t.push(BusOp::Read { address, data }), address, length, ms, done),
{
    let u = t.push(BusOp::Read { address, data });
    assert forall|i: int| 0 <= i < u.len() && i % 2 == 0 implies match #[trigger] u[i] {
        BusOp::Read { address: a, data } => a == address && data.len() == length && (done(data) <==> i
            == u.len() - 1),
        _ => false,
    } by {
        if i < t.len() {
            assert(u[i] == t[i]);
        }
    }
    assert forall|i: int| 0 <= i < u.len() && i % 2 == 1 implies #[trigger] u[i] == (BusOp::Delay { ms }) by {
        assert(u[i] == t[i]);
    }
}

impl<H: Spirit1HalBlocking> Spirit1Driver<H> {
    /// Reads `IRQ_STATUS`, which clears it.
    fn read_irq_status(&mut self) -> (r: RadioResult<IrqStatus>)
        ensures
            final(self).facts() == old(self).facts(),
            r matches Ok(s) ==> final(self).ops@ == old(self).ops@.push(
                BusOp::Read { address: IrqStatus::ADDRESS, data: s.encode() },
            ),
            r matches Err(e) ==> final(self).ops@ == old(self).ops@.push(BusOp::Fault { error: e }),
    {
        let v = self.read_raw(IrqStatus::ADDRESS, 4)?;
        let s = IrqStatus::from_bytes([v[0], v[1], v[2], v[3]]);
        proof {
            assert(v@ =~= s.encode());
        }
        Ok(s)
    }

    /// Sets the load capacitor field of `PA_POWER[0]`, leaving its other fields.
    fn set_load_caps(&mut self, caps: AdditionalLoadCapacitors) -> (r: RadioResult<()>)
        ensures
            final(self).facts() == old(self).facts(),
            extends(old(self).ops@, final(self).ops@),
            r is Ok ==> final(self).ops@.len() == old(self).ops@.len() + 2 && is_load_caps_update(
                final(self).ops@[old(self).ops@.len() as int],
                final(self).ops@[old(self).ops@.len() + 1int],
                caps,
            ),
            r matches Err(e) ==> bus_failed(old(self).ops@, final(self).ops@, e),
    {
        let b = self.read_byte(PaPower::ADDRESS)?;
        let data = [b % 64 + caps.code() * 64];
        let r = self.write_raw(PaPower::ADDRESS, &data);
        proof {
            assert(data@ =~= seq![(b % 64 + caps.spec_code() * 64) as u8]);
        }
        r
    }

    /// Polls `MC_STATE` until it reports `state`, pausing between polls; fails
    /// with `Timeout` after `max_polls` reads without it, with `ParameterError`
    /// at a read that does not decode, and with the bus error at a failed read.
    pub fn wait_for_state(&mut self, state: SpiritState, max_polls: u32) -> (r: RadioResult<()>)
        ensures
            final(self).facts() == old(self).facts(),
            extends(old(self).ops@, final(self).ops@),
            r is Ok ==> polls_until(
                new_ops(old(self).ops@, final(self).ops@),
                McState::ADDRESS,
                2,
                STATE_POLL_DELAY_MS,
                state_reached(state),
            ),
            r matches Err(e) ==> bus_failed(old(self).ops@, final(self).ops@, e) || (e
                == RadioError::Timeout && state_wait_timed_out(
                new_ops(old(self).ops@, final(self).ops@),
                state,
                max_polls,
            )) || (e == RadioError::ParameterError && state_wait_undecodable(
                new_ops(old(self).ops@, final(self).ops@),
                state,
            )),
    {
        let ghost start = self.ops@;
        let mut polls: u32 = 0;
        while polls < max_polls
            invariant
                self.facts() == old(self).facts(),
                start == old(self).ops@,
                extends(start, self.ops@),
                new_ops(start, self.ops@).len() == 2 * polls,
                polls <= max_polls,
                pending_polls(
                    new_ops(start, self.ops@),
                    McState::ADDRESS,
                    2,
                    STATE_POLL_DELAY_MS,
                    state_reached(state),
                ),
            decreases max_polls - polls,
        {
            let ghost before = self.ops@;
            let v = self.read_raw(McState::ADDRESS, 2)?;
            proof {
                lemma_new_ops_push(start, before, BusOp::Read { address: McState::ADDRESS, data: v@ });
            }
            let bytes = [v[0], v[1]];
            assert(bytes@ =~= v@);
            match McState::from_bytes(bytes) {
                None => {
                    proof {
                        assert(new_ops(start, self.ops@).drop_last() =~= new_ops(start, before));
                    }
                    return Err(RadioError::ParameterError);
                },
                Some(s) => {
                    if s.state == state {
                        proof {
                            lemma_polls_finish(
                                new_ops(start, before),
                                McState::ADDRESS,
                                2,
                                STATE_POLL_DELAY_MS,
                                state_reached(state),
                                v@,
                            );
                        }
                        return Ok(());
                    }
                },
            }
            let ghost middle = self.ops@;
            self.delay_ms(STATE_POLL_DELAY_MS);
            proof {
                lemma_pending_extend(
                    new_ops(start, before),
                    McState::ADDRESS,
                    2,
                    STATE_POLL_DELAY_MS,
                    state_reached(state),
                    v@,
                );
                assert(new_ops(start, self.ops@) =~= new_ops(start, before).push(
                    BusOp::Read { address: McState::ADDRESS, data: v@ },
                ).push(BusOp::Delay { ms: STATE_POLL_DELAY_MS }));
            }
            polls += 1;
        }
        Err(RadioError::Timeout)
    }
}

/// Polls of `MC_STATE` that gave up: `max_polls` reads that did not report
/// `state`, each followed by a pause.
pub open spec fn state_wait_timed_out(t: Seq<BusOp>, state: SpiritState, max_polls: u32) -> bool {
    &&& t.len() == 2 * max_polls
    &&& pending_polls(t, McState::ADDRESS, 2, STATE_POLL_DELAY_MS, state_reached(state))
}

/// Polls of `MC_STATE` that ended on a read that does not decode.
pub open spec fn state_wait_undecodable(t: Seq<BusOp>, state: SpiritState) -> bool {
    &&& t.len() % 2 == 1
    &&& pending_polls(t.drop_last(), McState::ADDRESS, 2, STATE_POLL_DELAY_MS, state_reached(state))
    &&& t.last() matches BusOp::Read { address, data } && address == McState::ADDRESS && data.len()
        == 2 && reported_state(data) is None
}

impl<H: Spirit1HalBlocking> Spirit1Driver<H> {
    /// Transmits `buf`, cut to the 96 bytes of the TX FIFO, and polls
    /// `IRQ_STATUS` until it reports the data sent; fails with `Timeout` after
    /// `max_polls` reads without it. Returns the number of bytes sent.
    pub fn tx_blocking(&mut self, buf: &[u8], max_polls: u32) -> (r: RadioResult<usize>)
        ensures
            final(self).facts() == old(self).facts(),
            extends(old(self).ops@, final(self).ops@),
            r matches Ok(n) ==> n == tx_length(buf@.len()) && tx_trace(
                new_ops(old(self).ops@, final(self).ops@),
                buf@,
                old(self).band,
            ),
            r matches Err(e) ==> bus_failed(old(self).ops@, final(self).ops@, e) || (e
                == RadioError::Timeout && ({
                let t = new_ops(old(self).ops@, final(self).ops@);
                &&& t.len() == 8 + 2 * max_polls
                &&& tx_setup(t.subrange(0, 8), buf@, old(self).band)
                &&& pending_polls(
                    t.subrange(8, t.len() as int),
                    IrqStatus::ADDRESS,
                    4,
                    TX_POLL_DELAY_MS,
                    tx_sent(),
                )
            })),
    {
        let ghost start = self.ops@;
        self.write_command(SpiritCommand::FLUSH_TX_FIFO)?;
        let tx_len: usize = if buf.len() > MAX_FIFO_LENGTH {
            MAX_FIFO_LENGTH
        } else {
            buf.len()
        };
        let mut payload: Vec<u8> = Vec::new();
        let mut i: usize = 0;
        while i < tx_len
            invariant
                i <= tx_len,
                tx_len <= buf@.len(),
                payload@ == buf@.subrange(0, i as int),
            decreases tx_len - i,
        {
            payload.push(buf[i]);
            i += 1;
            assert(payload@ =~= buf@.subrange(0, i as int));
        }
        self.write_raw(LINEAR_FIFO_ADDRESS, payload.as_slice())?;
        let length = PcktLen::new(tx_len as u16).into_bytes();
        self.write_raw(PcktLen::ADDRESS, &length)?;
        let ghost before_caps = self.ops@;
        let caps = if self.band.is_below_high() {
            AdditionalLoadCapacitors::Cap3p6
        } else {
            AdditionalLoadCapacitors::Cap0
        };
        self.set_load_caps(caps)?;
        let ghost after_caps = self.ops@;
        // Enables the VCO_L buffer.
        let vco = [0x11u8];
        self.write_raw(0xA9, &vco)?;
        let trim = [0x20u8];
        self.write_raw(PM_CONFIG_1_ADDRESS, &trim)?;
        self.write_command(SpiritCommand::TX)?;
        let ghost armed = self.ops@;
        proof {
            assert(before_caps.len() == start.len() + 3);
            let t = new_ops(start, armed);
            assert(after_caps =~= before_caps + new_ops(before_caps, after_caps));
            assert(t.len() == 8);
            assert(length@ =~= seq![(tx_len / 256) as u8, (tx_len % 256) as u8]);
            assert(vco@ =~= seq![0x11u8]);
            assert(trim@ =~= seq![0x20u8]);
            assert(t[3] == after_caps[before_caps.len() as int]);
            assert(t[4] == after_caps[before_caps.len() + 1int]);
            assert(payload@ == buf@.subrange(0, tx_len as int));
            assert(tx_setup(t, buf@, old(self).band));
        }
        let ghost sent = tx_sent();
        let mut polls: u32 = 0;
        while polls < max_polls
            invariant
                self.facts() == old(self).facts(),
                start == old(self).ops@,
                extends(start, armed),
                extends(armed, self.ops@),
                tx_setup(new_ops(start, armed), buf@, old(self).band),
                tx_len == tx_length(buf@.len()),
                sent == tx_sent(),
                pending_polls(new_ops(armed, self.ops@), IrqStatus::ADDRESS, 4, TX_POLL_DELAY_MS, sent),
                new_ops(armed, self.ops@).len() == 2 * polls,
                polls <= max_polls,
            decreases max_polls - polls,
        {
            let ghost before = self.ops@;
            let status = self.read_irq_status()?;
            if status.is_set(InterruptEvent::TxDataSent) {
                proof {
                    lemma_new_ops_push(armed, before, BusOp::Read { address: IrqStatus::ADDRESS, data: status.encode() });
                    lemma_polls_finish(new_ops(armed, before), IrqStatus::ADDRESS, 4, TX_POLL_DELAY_MS, sent, status.encode());
                    lemma_new_ops_split(start, armed, self.ops@);
                    let t = new_ops(start, self.ops@);
                    assert(t.subrange(8, t.len() as int) =~= new_ops(armed, self.ops@));
                    assert(t.subrange(0, 8) =~= new_ops(start, armed));
                }
                return Ok(tx_len);
            }
            self.delay_ms(TX_POLL_DELAY_MS);
            proof {
                lemma_pending_extend(new_ops(armed, before), IrqStatus::ADDRESS, 4, TX_POLL_DELAY_MS, sent, status.encode());
                assert(new_ops(armed, self.ops@) =~= new_ops(armed, before).push(
                    BusOp::Read { address: IrqStatus::ADDRESS, data: status.encode() },
                ).push(BusOp::Delay { ms: TX_POLL_DELAY_MS }));
            }
            polls += 1;
        }
        proof {
            lemma_new_ops_split(start, armed, self.ops@);
            let t = new_ops(start, self.ops@);
            assert(t.subrange(8, t.len() as int) =~= new_ops(armed, self.ops@));
            assert(t.subrange(0, 8) =~= new_ops(start, armed));
        }
        Err(RadioError::Timeout)
    }
}

proof fn lemma_rx_waits_plain(w: Seq<BusOp>, read: BusOp)
    requires
        rx_waits(w),
        is_status_read(read),
        !reports(read_data(read), InterruptEvent::RxDataReady),
        !reports_rx_restart(read_data(read)),
    ensures
        rx_waits(w.push(read).push(BusOp::Delay { ms: RX_POLL_DELAY_MS })),
        rx_status_reads(w.push(read).push(BusOp::Delay { ms: RX_POLL_DELAY_MS })) == rx_status_reads(w)
            + 1,
{
    let t = w.push(read).push(BusOp::Delay { ms: RX_POLL_DELAY_MS });
    assert(t.subrange(0, t.len() - 2) =~= w);
    assert(t[t.len() - 2] == read);
    if t.len() >= 6 {
        assert(t.subrange(t.len() - 5, t.len() - 1)[3] == read);
    }
}

proof fn lemma_rx_waits_armed(w: Seq<BusOp>, read: BusOp, strobe: Seq<BusOp>)
    requires
        rx_waits(w),
        is_status_read(read),
        !reports(read_data(read), InterruptEvent::RxDataReady),
        reports_rx_restart(read_data(read)),
        is_rx_strobe(strobe),
    ensures
        rx_waits(w.push(read) + strobe.push(BusOp::Delay { ms: RX_POLL_DELAY_MS })),
        rx_status_reads(w.push(read) + strobe.push(BusOp::Delay { ms: RX_POLL_DELAY_MS }))
            == rx_status_reads(w) + 1,
{
    let t = w.push(read) + strobe.push(BusOp::Delay { ms: RX_POLL_DELAY_MS });
    assert(t.subrange(0, t.len() - 6) =~= w);
    assert(t[t.len() - 6] == read);
    assert(t.subrange(t.len() - 5, t.len() - 1) =~= strobe);
}

impl<H: Spirit1HalBlocking> Spirit1Driver<H> {
    /// Arms the receiver: a power management trim, the load capacitors cleared,
    /// the RX strobe.
    fn strobe_rx(&mut self) -> (r: RadioResult<()>)
        ensures
            final(self).facts() == old(self).facts(),
            extends(old(self).ops@, final(self).ops@),
            r is Ok ==> is_rx_strobe(new_ops(old(self).ops@, final(self).ops@)),
            r matches Err(e) ==> bus_failed(old(self).ops@, final(self).ops@, e),
    {
        let ghost start = self.ops@;
        let trim = [0x98u8];
        self.write_raw(PM_CONFIG_1_ADDRESS, &trim)?;
        let ghost before_caps = self.ops@;
        self.set_load_caps(AdditionalLoadCapacitors::Cap0)?;
        let ghost after_caps = self.ops@;
        let r = match self.write_command(SpiritCommand::RX) {
            Ok(_) => Ok(()),
            Err(e) => Err(e),
        };
        proof {
            if r is Ok {
                let t = new_ops(start, self.ops@);
                assert(trim@ =~= seq![0x98u8]);
                assert(t.len() == 4);
                assert(t[1] == after_caps[before_caps.len() as int]);
                assert(t[2] == after_caps[before_caps.len() + 1int]);
            }
        }
        r
    }

    /// Arms the receiver and polls `IRQ_STATUS` until it reports received data,
    /// arming it again after each discarded packet or RX timeout; fails with
    /// `Timeout` after `max_polls` reads without received data. Then reads the
    /// number of bytes in the RX FIFO and drains them into `buffer`; fails with
    /// `ParameterError` where the chip reports more than the FIFO holds. Returns
    /// the number of bytes received.
    pub fn rx_blocking(&mut self, buffer: &mut [u8; 96], max_polls: u32) -> (r: RadioResult<usize>)
        ensures
            final(self).facts() == old(self).facts(),
            extends(old(self).ops@, final(self).ops@),
            r matches Ok(n) ==> n <= 96 && rx_trace(
                new_ops(old(self).ops@, final(self).ops@),
                final(buffer)@.subrange(0, n as int),
            ) && final(buffer)@.subrange(n as int, 96) == old(buffer)@.subrange(n as int, 96),
            r matches Err(e) ==> bus_failed(old(self).ops@, final(self).ops@, e) || (e
                == RadioError::Timeout && rx_timed_out(
                new_ops(old(self).ops@, final(self).ops@),
                max_polls,
            )) || (e == RadioError::ParameterError && rx_count_too_large(
                new_ops(old(self).ops@, final(self).ops@),
            )),
    {
        let ghost start = self.ops@;
        self.strobe_rx()?;
        let ghost armed = self.ops@;
        proof {
            assert(new_ops(armed, self.ops@) =~= Seq::<BusOp>::empty());
        }
        let mut polls: u32 = 0;
        let mut ready = false;
        while polls < max_polls && !ready
            invariant
                self.facts() == old(self).facts(),
                start == old(self).ops@,
                extends(start, armed),
                extends(armed, self.ops@),
                is_rx_strobe(new_ops(start, armed)),
                polls <= max_polls,
                !ready ==> rx_waits(new_ops(armed, self.ops@)),
                !ready ==> rx_status_reads(new_ops(armed, self.ops@)) == polls,
                ready ==> new_ops(armed, self.ops@).len() >= 1 && rx_waits(
                    new_ops(armed, self.ops@).drop_last(),
                ) && is_status_read(new_ops(armed, self.ops@).last()) && reports(
                    read_data(new_ops(armed, self.ops@).last()),
                    InterruptEvent::RxDataReady,
                ),
            decreases max_polls - polls,
        {
            let ghost before = self.ops@;
            let status = self.read_irq_status()?;
            let ghost read = BusOp::Read { address: IrqStatus::ADDRESS, data: status.encode() };
            proof {
                lemma_new_ops_push(armed, before, read);
            }
            if status.is_set(InterruptEvent::RxDataReady) {
                ready = true;
                proof {
                    assert(new_ops(armed, self.ops@).drop_last() =~= new_ops(armed, before));
                }
            } else {
                let ghost after_read = self.ops@;
                if status.is_set(InterruptEvent::RxDataDiscarded) || status.is_set(
                    InterruptEvent::TimerRxTimeout,
                ) {
                    self.strobe_rx()?;
                    let ghost after_strobe = self.ops@;
                    self.delay_ms(RX_POLL_DELAY_MS);
                    proof {
                        lemma_rx_waits_armed(new_ops(armed, before), read, new_ops(after_read, after_strobe));
                        assert(new_ops(armed, self.ops@) =~= new_ops(armed, before).push(read) + new_ops(
                            after_read,
                            after_strobe,
                        ).push(BusOp::Delay { ms: RX_POLL_DELAY_MS }));
                    }
                } else {
                    self.delay_ms(RX_POLL_DELAY_MS);
                    proof {
                        lemma_rx_waits_plain(new_ops(armed, before), read);
                        assert(new_ops(armed, self.ops@) =~= new_ops(armed, before).push(read).push(
                            BusOp::Delay { ms: RX_POLL_DELAY_MS },
                        ));
                    }
                }
            }
            polls += 1;
        }
        if !ready {
            proof {
                lemma_new_ops_split(start, armed, self.ops@);
                let t = new_ops(start, self.ops@);
                assert(t.subrange(0, 4) =~= new_ops(start, armed));
                assert(t.subrange(4, t.len() as int) =~= new_ops(armed, self.ops@));
            }
            return Err(RadioError::Timeout);
        }
        let ghost polled = self.ops@;
        let count = self.read_byte(LinearFifoStatusRxElements::ADDRESS)?;
        let elements = LinearFifoStatusRxElements::from_bytes([count]).elem_rxfifo as usize;
        if elements > MAX_FIFO_LENGTH {
            proof {
                lemma_new_ops_split(start, armed, polled);
                let t = new_ops(start, self.ops@);
                assert(t.subrange(0, 4) =~= new_ops(start, armed));
                assert(t.subrange(4, t.len() - 2) =~= new_ops(armed, polled).drop_last());
                assert(t[t.len() - 2] == new_ops(armed, polled).last());
                assert(t.last() == (BusOp::Read { address: LinearFifoStatusRxElements::ADDRESS, data: seq![count] }));
            }
            return Err(RadioError::ParameterError);
        }
        let data = self.read_raw(LINEAR_FIFO_ADDRESS, elements)?;
        let mut i: usize = 0;
        while i < elements
            invariant
                i <= elements <= 96,
                data@.len() == elements,
                forall|j: int| 0 <= j < i ==> buffer@[j] == data@[j],
                forall|j: int| i <= j < 96 ==> buffer@[j] == old(buffer)@[j],
            decreases elements - i,
        {
            buffer[i] = data[i];
            i += 1;
        }
        proof {
            let t = new_ops(start, self.ops@);
            assert(buffer@.subrange(0, elements as int) =~= data@);
            assert(buffer@.subrange(elements as int, 96) =~= old(buffer)@.subrange(elements as int, 96));
            lemma_new_ops_split(start, armed, polled);
            assert(t.subrange(0, 4) =~= new_ops(start, armed));
            assert(t.subrange(4, t.len() - 3) =~= new_ops(armed, polled).drop_last());
            assert(t[t.len() - 3] == new_ops(armed, polled).last());
        }
        Ok(elements)
    }
}

/// Main radio parameters.
#[derive(Clone, Copy, Debug, PartialEq, Eq, Structural)]
pub struct RadioInitOpts {
    /// Offset of the crystal in ppm, to compensate its inaccuracy.
    pub xtal_offset_ppm: i16,
    /// Channel spacing in Hz, in steps of `fXO / 2^15`.
    pub channel_space: u32,
    /// Channel number; times the spacing, added to the base frequency.
    pub channel_number: u8,
    /// Modulation.
    pub modulation_select: ModulationType,
    /// Data rate in bps.
    pub data_rate: u32,
    /// Frequency deviation in Hz.
    pub frequency_deviation: u32,
    /// Channel filter bandwidth in Hz.
    pub bandwidth: u32,
}

impl Default for RadioInitOpts {
    fn default() -> (r: Self)
        ensures
            r == (RadioInitOpts {
                xtal_offset_ppm: 0,
                channel_space: 20_000,
                channel_number: 0,
                modulation_select: ModulationType::Fsk2,
                data_rate: 38_400,
                frequency_deviation: 20_000,
                bandwidth: 1_005_000,
            }),
    {
        RadioInitOpts {
            xtal_offset_ppm: 0,
            channel_space: 20_000,
            channel_number: 0,
            modulation_select: ModulationType::Fsk2,
            data_rate: 38_400,
            frequency_deviation: 20_000,
            bandwidth: 1_005_000,
        }
    }
}

/// Transactions that prepare the clock: the synthesizer split time workaround,
/// STANDBY, the clock divider, READY.
pub open spec fn init_clock_trace(t: Seq<BusOp>, xtal_frequency: u32) -> bool {
    &&& t.len() == 5
    &&& t[0] == (BusOp::Write { address: SYNTH_CONFIG_ADDRESS, data: seq![0x5Bu8, 0xA0u8] })
    &&& t[1] == (BusOp::Command { command: SpiritCommand::STANDBY })
    &&& is_bit_update(t[2], t[3], XO_RCO_TEST_ADDRESS, 8, pd_clkdiv_for(xtal_frequency))
    &&& t[4] == (BusOp::Command { command: SpiritCommand::READY })
}

/// The `FDEV0` register read as `read`, with the deviation of `opts`.
pub open spec fn fdev_register_for(read: BusOp, opts: RadioInitOpts, xtal_frequency: u32) -> FreqDev0 {
    let b = read_data(read)[0];
    let setting = crate::calc::fdev_setting(opts.frequency_deviation, xtal_frequency);
    FreqDev0 {
        fdev_e: setting.1 as u8,
        clock_rec_algo_sel: crate::registers::field(b, 8, 2) == 1,
        fdev_m: setting.0 as u8,
    }
}

/// The `MOD1` and `MOD0` registers of `opts`.
pub open spec fn modulation_register_for(opts: RadioInitOpts, xtal_frequency: u32) -> Modulation {
    let setting = crate::calc::data_rate_setting(
        opts.data_rate,
        pd_clkdiv_for(xtal_frequency),
        xtal_frequency,
    );
    Modulation {
        datarate_m: setting.0 as u8,
        cw: false,
        bt_sel: false,
        mod_type: opts.modulation_select,
        datarate_e: setting.1 as u8,
    }
}

/// The `CHFLT` register of `opts`.
pub open spec fn channel_filter_register_for(opts: RadioInitOpts, xtal_frequency: u32) -> ChFlt {
    let index = crate::calc::channel_filter_index(
        opts.bandwidth,
        pd_clkdiv_for(xtal_frequency),
        xtal_frequency,
    );
    ChFlt { chflt_m: (index % 9) as u8, chflt_e: (index / 9) as u8 }
}

/// The `FC_OFFSET` registers of `opts`.
pub open spec fn fc_offset_register_for(opts: RadioInitOpts, base_frequency: u32, xtal_frequency: u32) -> FcOffset {
    let word = fc_offset_for(opts.xtal_offset_ppm, base_frequency, xtal_frequency) % 4096;
    FcOffset { reserved: 0, fc_offset_msb: (word / 256) as u8, fc_offset_lsb: (word % 256) as u8 }
}

/// Transactions that program the radio once READY: the IF offsets, the crystal
/// selection, channel number and spacing, carrier offset, modulation and data
/// rate, frequency deviation, channel filter, the AFC freeze on sync, and the
/// IQ correction values.
pub open spec fn init_radio_trace(t: Seq<BusOp>, opts: RadioInitOpts, base_frequency: u32, xtal_frequency: u32) -> bool {
    &&& t.len() == 17
    &&& is_bit_update(t[0], t[1], IF_OFFSET_DIG_ADDRESS, 2, false)
    &&& t[2] matches BusOp::Read { address, data } && address == FreqDev0::ADDRESS && data.len() == 1
    &&& t[3] == (BusOp::Write {
        address: IF_OFFSET_ANA_ADDRESS,
        data: seq![if_offset_ana_for(xtal_frequency) as u8],
    })
    &&& is_bit_update(t[4], t[5], ANA_FUNC_CONF_0_ADDRESS, 64, xtal_26mhz_for(xtal_frequency))
    &&& t[6] == (BusOp::Write { address: CHNUM_ADDRESS, data: seq![opts.channel_number] })
    &&& t[7] == (BusOp::Write {
        address: CHSPACE_ADDRESS,
        data: seq![channel_spacing_for(opts.channel_space, xtal_frequency) as u8],
    })
    &&& t[8] == (BusOp::Write {
        address: FcOffset::ADDRESS,
        data: fc_offset_register_for(opts, base_frequency, xtal_frequency).encode(),
    })
    &&& t[9] == (BusOp::Write {
        address: IF_OFFSET_DIG_ADDRESS,
        data: seq![if_offset_dig_for(xtal_frequency) as u8],
    })
    &&& t[10] == (BusOp::Write {
        address: Modulation::ADDRESS,
        data: modulation_register_for(opts, xtal_frequency).encode(),
    })
    &&& t[11] == (BusOp::Write {
        address: FreqDev0::ADDRESS,
        data: fdev_register_for(t[2], opts, xtal_frequency).encode(),
    })
    &&& t[12] == (BusOp::Write {
        address: ChFlt::ADDRESS,
        data: channel_filter_register_for(opts, xtal_frequency).encode(),
    })
    &&& is_bit_update(t[13], t[14], AFC2_ADDRESS, 128, true)
    &&& t[15] == (BusOp::Write { address: 0x99, data: seq![0x80u8, 0xE3u8] })
    &&& t[16] == (BusOp::Write { address: 0xBC, data: seq![0x22u8] })
}

/// Transactions of the bring-up: the clock preparation, polls of `MC_STATE`
/// until READY, then the radio programming.
pub open spec fn init_trace(t: Seq<BusOp>, opts: RadioInitOpts, base_frequency: u32, xtal_frequency: u32) -> bool {
    &&& t.len() >= 23
    &&& init_clock_trace(t.subrange(0, 5), xtal_frequency)
    &&& polls_until(
        t.subrange(5, t.len() - 17),
        McState::ADDRESS,
        2,
        STATE_POLL_DELAY_MS,
        state_reached(SpiritState::READY),
    )
    &&& init_radio_trace(t.subrange(t.len() - 17, t.len() as int), opts, base_frequency, xtal_frequency)
}

impl<H: Spirit1HalBlocking> Spirit1Driver<H> {
    /// Prepares the clock: the synthesizer split time workaround, STANDBY, the
    /// clock divider for the crystal, READY.
    fn init_clock(&mut self) -> (r: RadioResult<()>)
        ensures
            final(self).facts() == old(self).facts(),
            extends(old(self).ops@, final(self).ops@),
            r is Ok ==> init_clock_trace(new_ops(old(self).ops@, final(self).ops@), old(self).xtal_frequency),
            r matches Err(e) ==> bus_failed(old(self).ops@, final(self).ops@, e),
    {
        let ghost start = self.ops@;
        // Reset value of SYNTH_CONFIG with SEL_TSPLIT set.
        let synth = [0x5Bu8, 0xA0u8];
        self.write_raw(SYNTH_CONFIG_ADDRESS, &synth)?;
        self.write_command(SpiritCommand::STANDBY)?;
        let ghost before_divider = self.ops@;
        let pd_clkdiv = self.xtal_frequency < DOUBLE_XTAL_THR;
        self.update_bit(XO_RCO_TEST_ADDRESS, 8, pd_clkdiv)?;
        let ghost after_divider = self.ops@;
        let r = match self.write_command(SpiritCommand::READY) {
            Ok(_) => Ok(()),
            Err(e) => Err(e),
        };
        proof {
            if r is Ok {
                let t = new_ops(start, self.ops@);
                assert(synth@ =~= seq![0x5Bu8, 0xA0u8]);
                assert(t.len() == 5);
                assert(t[2] == after_divider[before_divider.len() as int]);
                assert(t[3] == after_divider[before_divider.len() + 1int]);
            }
        }
        r
    }

    /// Programs the radio once READY.
    #[verifier::rlimit(60)]
    #[verifier::spinoff_prover]
    fn init_radio(&mut self, opts: &RadioInitOpts) -> (r: RadioResult<()>)
        requires
            old(self).wf(),
        ensures
            final(self).facts() == old(self).facts(),
            extends(old(self).ops@, final(self).ops@),
            r is Ok ==> init_radio_trace(
                new_ops(old(self).ops@, final(self).ops@),
                *opts,
                old(self).base_frequency,
                old(self).xtal_frequency,
            ),
            r matches Err(e) ==> bus_failed(old(self).ops@, final(self).ops@, e),
    {
        let ghost s0 = self.ops@;
        let xtal = self.xtal_frequency;
        let pd_clkdiv = xtal < DOUBLE_XTAL_THR;
        // Second order DEM algorithm.
        self.update_bit(IF_OFFSET_DIG_ADDRESS, 2, false)?;
        let ghost s2 = self.ops@;
        let fdev_byte = self.read_byte(FreqDev0::ADDRESS)?;
        let ana = [if_offset(xtal, 4096)];
        self.write_raw(IF_OFFSET_ANA_ADDRESS, &ana)?;
        let ghost s4 = self.ops@;
        let effective = if xtal > DOUBLE_XTAL_THR {
            xtal / 2
        } else {
            xtal
        };
        self.update_bit(ANA_FUNC_CONF_0_ADDRESS, 64, effective >= 25_000_000)?;
        let ghost s6 = self.ops@;
        let channel = [opts.channel_number];
        self.write_raw(CHNUM_ADDRESS, &channel)?;
        let spacing = [channel_spacing(opts.channel_space, xtal)];
        self.write_raw(CHSPACE_ADDRESS, &spacing)?;
        let fc_offset = FcOffset::new(carrier_offset_steps(opts.xtal_offset_ppm, self.base_frequency, xtal));
        let fc_bytes = fc_offset.into_bytes();
        self.write_raw(FcOffset::ADDRESS, &fc_bytes)?;
        let dig = [
            if xtal < DOUBLE_XTAL_THR {
                if_offset(xtal, 4096)
            } else {
                if_offset(xtal, 8192)
            },
        ];
        self.write_raw(IF_OFFSET_DIG_ADDRESS, &dig)?;
        let (m, e) = Modulation::calculate_data_rate(opts.data_rate, pd_clkdiv, xtal);
        let modulation = Modulation::new(false, opts.modulation_select, e, m).into_bytes();
        self.write_raw(Modulation::ADDRESS, &modulation)?;
        let (fdev_m, fdev_e) = FreqDev0::calculate_fdev(opts.frequency_deviation, xtal);
        let fdev_read = FreqDev0::from_bytes([fdev_byte]);
        let fdev = FreqDev0 { fdev_e, clock_rec_algo_sel: fdev_read.clock_rec_algo_sel, fdev_m }.into_bytes();
        self.write_raw(FreqDev0::ADDRESS, &fdev)?;
        let filter = ChFlt::calculate(opts.bandwidth, pd_clkdiv, xtal).into_bytes();
        self.write_raw(ChFlt::ADDRESS, &filter)?;
        let ghost s13 = self.ops@;
        // Freeze the AFC on the sync word.
        self.update_bit(AFC2_ADDRESS, 128, true)?;
        let ghost s15 = self.ops@;
        // IQ correction values.
        let iqc = [0x80u8, 0xE3u8];
        self.write_raw(0x99, &iqc)?;
        let iqc_gain = [0x22u8];
        let r = self.write_raw(0xBC, &iqc_gain);
        proof {
            if r is Ok {
                let t = new_ops(s0, self.ops@);
                assert(t.len() == 17);
                assert(t[0] == s2[s0.len() as int]);
                assert(t[1] == s2[s0.len() + 1int]);
                assert(t[4] == s6[s4.len() as int]);
                assert(t[5] == s6[s4.len() + 1int]);
                assert(t[13] == s15[s13.len() as int]);
                assert(t[14] == s15[s13.len() + 1int]);
                assert(ana@ =~= seq![if_offset_ana_for(xtal) as u8]);
                assert(channel@ =~= seq![opts.channel_number]);
                assert(spacing@ =~= seq![channel_spacing_for(opts.channel_space, xtal) as u8]);
                assert(dig@ =~= seq![if_offset_dig_for(xtal) as u8]);
                assert(iqc@ =~= seq![0x80u8, 0xE3u8]);
                assert(iqc_gain@ =~= seq![0x22u8]);
                assert(fc_offset == fc_offset_register_for(*opts, self.base_frequency, xtal));
                assert(read_data(t[2]) =~= seq![fdev_byte]);
            }
        }
        r
    }

    /// Brings the chip from power-up to a configured READY state: prepares the
    /// clock, waits for READY (at most `max_polls` polls), then programs the
    /// radio with `opts`. Any failing transaction ends the sequence.
    pub fn init(&mut self, opts: RadioInitOpts, max_polls: u32) -> (r: RadioResult<()>)
        requires
            old(self).wf(),
        ensures
            final(self).facts() == old(self).facts(),
            extends(old(self).ops@, final(self).ops@),
            r is Ok ==> init_trace(
                new_ops(old(self).ops@, final(self).ops@),
                opts,
                old(self).base_frequency,
                old(self).xtal_frequency,
            ),
            r matches Err(e) ==> bus_failed(old(self).ops@, final(self).ops@, e) || (e
                == RadioError::Timeout && ({
                let t = new_ops(old(self).ops@, final(self).ops@);
                &&& t.len() >= 5
                &&& init_clock_trace(t.subrange(0, 5), old(self).xtal_frequency)
                &&& state_wait_timed_out(t.subrange(5, t.len() as int), SpiritState::READY, max_polls)
            })) || (e == RadioError::ParameterError && ({
                let t = new_ops(old(self).ops@, final(self).ops@);
                &&& t.len() >= 5
                &&& init_clock_trace(t.subrange(0, 5), old(self).xtal_frequency)
                &&& state_wait_undecodable(t.subrange(5, t.len() as int), SpiritState::READY)
            })),
    {
        let ghost s0 = self.ops@;
        self.init_clock()?;
        let ghost s1 = self.ops@;
        let waited = self.wait_for_state(SpiritState::READY, max_polls);
        if let Err(e) = waited {
            proof {
                lemma_new_ops_split(s0, s1, self.ops@);
                let t = new_ops(s0, self.ops@);
                assert(t.subrange(0, 5) =~= new_ops(s0, s1));
                assert(t.subrange(5, t.len() as int) =~= new_ops(s1, self.ops@));
            }
            return Err(e);
        }
        let ghost s2 = self.ops@;
        let r = self.init_radio(&opts);
        proof {
            if r is Ok {
                lemma_new_ops_split(s0, s1, s2);
                lemma_new_ops_split(s0, s2, self.ops@);
                let t = new_ops(s0, self.ops@);
                assert(t.subrange(0, 5) =~= new_ops(s0, s1));
                assert(t.subrange(5, t.len() - 17) =~= new_ops(s1, s2));
                assert(t.subrange(t.len() - 17, t.len() as int) =~= new_ops(s2, self.ops@));
            }
        }
        r
    }
}

/// Conditions under which the RX timeout timer stops.
#[derive(Clone, Copy, Debug, PartialEq, Eq, Structural)]
pub enum RxTimeoutStopCondition {
    /// The timer never stops
    NoTimeoutStop,
    /// PQI above threshold
    PqiAboveThreshold,
    /// SQI above threshold
    SqiAboveThreshold,
    /// Both SQI and PQI above threshold
    SqiAndPqiAboveThreshold,
    /// RSSI above threshold
    RssiAboveThreshold,
    /// Both RSSI and PQI above threshold
    RssiAndPqiAboveThreshold,
    /// Both RSSI and SQI above threshold
    RssiAndSqiAboveThreshold,
    /// RSSI, SQI and PQI all above threshold
    AllAboveThreshold,
    /// The timer always stops (reset value)
    TimeoutAlwaysStopped,
    /// SQI or PQI above threshold
    SqiOrPqiAboveThreshold,
    /// RSSI or PQI above threshold
    RssiOrPqiAboveThreshold,
    /// RSSI or SQI above threshold
    RssiOrSqiAboveThreshold,
    /// Any of RSSI, SQI and PQI above threshold
    AnyAboveThreshold,
}

impl RxTimeoutStopCondition {
    /// Code of the value in its register field.
    pub open spec fn spec_code(self) -> u8 {
        match self {
            RxTimeoutStopCondition::NoTimeoutStop => 0x00,
            RxTimeoutStopCondition::PqiAboveThreshold => 0x01,
            RxTimeoutStopCondition::SqiAboveThreshold => 0x02,
            RxTimeoutStopCondition::SqiAndPqiAboveThreshold => 0x03,
            RxTimeoutStopCondition::RssiAboveThreshold => 0x04,
            RxTimeoutStopCondition::RssiAndPqiAboveThreshold => 0x05,
            RxTimeoutStopCondition::RssiAndSqiAboveThreshold => 0x06,
            RxTimeoutStopCondition::AllAboveThreshold => 0x07,
            RxTimeoutStopCondition::TimeoutAlwaysStopped => 0x08,
            RxTimeoutStopCondition::SqiOrPqiAboveThreshold => 0x0b,
            RxTimeoutStopCondition::RssiOrPqiAboveThreshold => 0x0d,
            RxTimeoutStopCondition::RssiOrSqiAboveThreshold => 0x0e,
            RxTimeoutStopCondition::AnyAboveThreshold => 0x0f,
        }
    }

    /// The value whose code is `code`, if any.
    pub open spec fn spec_from_code(code: u8) -> Option<Self> {
        if code == 0x00 {
            Some(RxTimeoutStopCondition::NoTimeoutStop)
        } else if code == 0x01 {
            Some(RxTimeoutStopCondition::PqiAboveThreshold)
        } else if code == 0x02 {
            Some(RxTimeoutStopCondition::SqiAboveThreshold)
        } else if code == 0x03 {
            Some(RxTimeoutStopCondition::SqiAndPqiAboveThreshold)
        } else if code == 0x04 {
            Some(RxTimeoutStopCondition::RssiAboveThreshold)
        } else if code == 0x05 {
            Some(RxTimeoutStopCondition::RssiAndPqiAboveThreshold)
        } else if code == 0x06 {
            Some(RxTimeoutStopCondition::RssiAndSqiAboveThreshold)
        } else if code == 0x07 {
            Some(RxTimeoutStopCondition::AllAboveThreshold)
        } else if code == 0x08 {
            Some(RxTimeoutStopCondition::TimeoutAlwaysStopped)
        } else if code == 0x0b {
            Some(RxTimeoutStopCondition::SqiOrPqiAboveThreshold)
        } else if code == 0x0d {
            Some(RxTimeoutStopCondition::RssiOrPqiAboveThreshold)
        } else if code == 0x0e {
            Some(RxTimeoutStopCondition::RssiOrSqiAboveThreshold)
        } else if code == 0x0f {
            Some(RxTimeoutStopCondition::AnyAboveThreshold)
        } else {
            None
        }
    }

    /// Code of the value in its register field.
    pub fn code(&self) -> (r: u8)
        ensures
            r == self.spec_code(),
    {
        match self {
            RxTimeoutStopCondition::NoTimeoutStop => 0x00,
            RxTimeoutStopCondition::PqiAboveThreshold => 0x01,
            RxTimeoutStopCondition::SqiAboveThreshold => 0x02,
            RxTimeoutStopCondition::SqiAndPqiAboveThreshold => 0x03,
            RxTimeoutStopCondition::RssiAboveThreshold => 0x04,
            RxTimeoutStopCondition::RssiAndPqiAboveThreshold => 0x05,
            RxTimeoutStopCondition::RssiAndSqiAboveThreshold => 0x06,
            RxTimeoutStopCondition::AllAboveThreshold => 0x07,
            RxTimeoutStopCondition::TimeoutAlwaysStopped => 0x08,
            RxTimeoutStopCondition::SqiOrPqiAboveThreshold => 0x0b,
            RxTimeoutStopCondition::RssiOrPqiAboveThreshold => 0x0d,
            RxTimeoutStopCondition::RssiOrSqiAboveThreshold => 0x0e,
            RxTimeoutStopCondition::AnyAboveThreshold => 0x0f,
        }
    }

    /// The value whose code is `code`, if any.
    pub fn from_code(code: u8) -> (r: Option<Self>)
        ensures
            r == Self::spec_from_code(code),
    {
        if code == 0x00 {
            Some(RxTimeoutStopCondition::NoTimeoutStop)
        } else if code == 0x01 {
            Some(RxTimeoutStopCondition::PqiAboveThreshold)
        } else if code == 0x02 {
            Some(RxTimeoutStopCondition::SqiAboveThreshold)
        } else if code == 0x03 {
            Some(RxTimeoutStopCondition::SqiAndPqiAboveThreshold)
        } else if code == 0x04 {
            Some(RxTimeoutStopCondition::RssiAboveThreshold)
        } else if code == 0x05 {
            Some(RxTimeoutStopCondition::RssiAndPqiAboveThreshold)
        } else if code == 0x06 {
            Some(RxTimeoutStopCondition::RssiAndSqiAboveThreshold)
        } else if code == 0x07 {
            Some(RxTimeoutStopCondition::AllAboveThreshold)
        } else if code == 0x08 {
            Some(RxTimeoutStopCondition::TimeoutAlwaysStopped)
        } else if code == 0x0b {
            Some(RxTimeoutStopCondition::SqiOrPqiAboveThreshold)
        } else if code == 0x0d {
            Some(RxTimeoutStopCondition::RssiOrPqiAboveThreshold)
        } else if code == 0x0e {
            Some(RxTimeoutStopCondition::RssiOrSqiAboveThreshold)
        } else if code == 0x0f {
            Some(RxTimeoutStopCondition::AnyAboveThreshold)
        } else {
            None
        }
    }
}

/// Transactions of a write of `data` from `address` on that succeeded, in a
/// log that grew from `before` to `after`.
pub open spec fn wrote(before: Seq<BusOp>, after: Seq<BusOp>, address: u8, data: Seq<u8>) -> bool {
    after == before.push(BusOp::Write { address, data })
}

impl<H: Spirit1HalBlocking> Spirit1Driver<H> {
    /// Avoids the extra current drawn in SLEEP and STANDBY; to be called after
    /// leaving SHUTDOWN. Enters the test mode, writes the trigger, pauses one
    /// millisecond to let it settle, and leaves the test mode.
    pub fn management_wa_extra_current(&mut self) -> (r: RadioResult<()>)
        ensures
            final(self).facts() == old(self).facts(),
            extends(old(self).ops@, final(self).ops@),
            r is Ok ==> new_ops(old(self).ops@, final(self).ops@) == seq![
                BusOp::Write { address: PM_TEST_ADDRESS, data: seq![0xCAu8] },
                BusOp::Write { address: TEST_SELECT_ADDRESS, data: seq![0x04u8] },
                BusOp::Delay { ms: 1 },
                BusOp::Write { address: TEST_SELECT_ADDRESS, data: seq![0x00u8] },
            ],
            r matches Err(e) ==> bus_failed(old(self).ops@, final(self).ops@, e),
    {
        let ghost start = self.ops@;
        let enter = [0xCAu8];
        self.write_raw(PM_TEST_ADDRESS, &enter)?;
        let trigger = [0x04u8];
        self.write_raw(TEST_SELECT_ADDRESS, &trigger)?;
        self.delay_ms(1);
        let leave = [0x00u8];
        let r = self.write_raw(TEST_SELECT_ADDRESS, &leave);
        proof {
            assert(enter@ =~= seq![0xCAu8]);
            assert(trigger@ =~= seq![0x04u8]);
            assert(leave@ =~= seq![0x00u8]);
            if r is Ok {
                assert(new_ops(start, self.ops@) =~= seq![
                    BusOp::Write { address: PM_TEST_ADDRESS, data: seq![0xCAu8] },
                    BusOp::Write { address: TEST_SELECT_ADDRESS, data: seq![0x04u8] },
                    BusOp::Delay { ms: 1 },
                    BusOp::Write { address: TEST_SELECT_ADDRESS, data: seq![0x00u8] },
                ]);
            }
        }
        r
    }

    /// Polls `MC_STATE` until it reports READY; see `wait_for_state`.
    pub fn wait_for_ready(&mut self, max_polls: u32) -> (r: RadioResult<()>)
        ensures
            final(self).facts() == old(self).facts(),
            extends(old(self).ops@, final(self).ops@),
            r is Ok ==> polls_until(
                new_ops(old(self).ops@, final(self).ops@),
                McState::ADDRESS,
                2,
                STATE_POLL_DELAY_MS,
                state_reached(SpiritState::READY),
            ),
            r matches Err(e) ==> bus_failed(old(self).ops@, final(self).ops@, e) || (e
                == RadioError::Timeout && state_wait_timed_out(
                new_ops(old(self).ops@, final(self).ops@),
                SpiritState::READY,
                max_polls,
            )) || (e == RadioError::ParameterError && state_wait_undecodable(
                new_ops(old(self).ops@, final(self).ops@),
                SpiritState::READY,
            )),
    {
        self.wait_for_state(SpiritState::READY, max_polls)
    }

    /// Sets the carrier sense threshold to `dbm` dBm (clamped to `-130 ..= 2`).
    pub fn set_rssi_threshold(&mut self, dbm: i32) -> (r: RadioResult<()>)
        ensures
            final(self).facts() == old(self).facts(),
            extends(old(self).ops@, final(self).ops@),
            r is Ok ==> wrote(
                old(self).ops@,
                final(self).ops@,
                RSSI_TH_ADDRESS,
                seq![crate::calc::rssi_threshold_of(dbm) as u8],
            ),
            r matches Err(e) ==> bus_failed(old(self).ops@, final(self).ops@, e),
    {
        let data = [compute_rssi_threshold(dbm)];
        let r = self.write_raw(RSSI_TH_ADDRESS, &data);
        proof {
            assert(data@ =~= seq![crate::calc::rssi_threshold_of(dbm) as u8]);
        }
        r
    }

    /// Sets the counter and prescaler of the RX timeout timer, leaving the
    /// other timers as read.
    pub fn set_rx_timeout(&mut self, timeout_counter: u8, timeout_prescaler: u8) -> (r: RadioResult<()>)
        ensures
            final(self).facts() == old(self).facts(),
            extends(old(self).ops@, final(self).ops@),
            r is Ok ==> ({
                let t = new_ops(old(self).ops@, final(self).ops@);
                &&& t.len() == 2
                &&& t[0] matches BusOp::Read { address, data } && address == Timers::ADDRESS
                    && data.len() == 6
                &&& t[1] == (BusOp::Write {
                    address: Timers::ADDRESS,
                    data: read_data(t[0]).update(0, timeout_prescaler).update(1, timeout_counter),
                })
            }),
            r matches Err(e) ==> bus_failed(old(self).ops@, final(self).ops@, e),
    {
        let ghost start = self.ops@;
        let v = self.read_raw(Timers::ADDRESS, 6)?;
        let mut timers = Timers::from_bytes([v[0], v[1], v[2], v[3], v[4], v[5]]);
        timers.rx_timeout_counter = timeout_counter;
        timers.rx_timeout_prescaler = timeout_prescaler;
        let bytes = timers.into_bytes();
        let r = self.write_raw(Timers::ADDRESS, &bytes);
        proof {
            assert(bytes@ =~= v@.update(0, timeout_prescaler).update(1, timeout_counter));
            if r is Ok {
                assert(new_ops(start, self.ops@) =~= seq![
                    BusOp::Read { address: Timers::ADDRESS, data: v@ },
                    BusOp::Write { address: Timers::ADDRESS, data: bytes@ },
                ]);
            }
        }
        r
    }

    /// Selects the conditions that stop the RX timeout timer: the AND/OR
    /// selection of `PCKT_FLT_OPTIONS` (bit 6) takes bit 3 of the condition's
    /// code, the CS, SQI and PQI masks of `PROTOCOL[2]` (bits 7..5) take its
    /// bits 2..0.
    pub fn set_rx_timeout_stop_condition(&mut self, stop_condition: RxTimeoutStopCondition) -> (r:
        RadioResult<()>)
        ensures
            final(self).facts() == old(self).facts(),
            extends(old(self).ops@, final(self).ops@),
            r is Ok ==> ({
                let t = new_ops(old(self).ops@, final(self).ops@);
                &&& t.len() == 4
                &&& is_bit_update(
                    t[0],
                    t[1],
                    PCKT_FLT_OPTIONS_ADDRESS,
                    64,
                    stop_condition.spec_code() >= 8,
                )
                &&& t[2] matches BusOp::Read { address, data } && address == PROTOCOL_ADDRESS
                    && data.len() == 1
                &&& t[3] == (BusOp::Write {
                    address: PROTOCOL_ADDRESS,
                    data: seq![(read_data(t[2])[0] % 32 + (stop_condition.spec_code() % 8) * 32) as u8],
                })
            }),
            r matches Err(e) ==> bus_failed(old(self).ops@, final(self).ops@, e),
    {
        let ghost start = self.ops@;
        let code = stop_condition.code();
        self.update_bit(PCKT_FLT_OPTIONS_ADDRESS, 64, code >= 8)?;
        let ghost middle = self.ops@;
        let protocol = self.read_byte(PROTOCOL_ADDRESS)?;
        let data = [protocol % 32 + (code % 8) * 32];
        let r = self.write_raw(PROTOCOL_ADDRESS, &data);
        proof {
            if r is Ok {
                let t = new_ops(start, self.ops@);
                assert(t[0] == middle[start.len() as int]);
                assert(t[1] == middle[start.len() + 1int]);
                assert(data@ =~= seq![(protocol % 32 + (code % 8) * 32) as u8]);
                assert(read_data(t[2]) =~= seq![protocol]);
            }
        }
        r
    }

    /// Programs the level of power amplifier slot `slot` for `dbm` dBm at the
    /// base frequency; fails with `ParameterError`, before any transaction,
    /// outside `-31 ..= 12` dBm.
    pub fn set_pa_power_level(&mut self, slot: PaSlot, dbm: i32) -> (r: RadioResult<()>)
        requires
            old(self).wf(),
        ensures
            final(self).facts() == old(self).facts(),
            extends(old(self).ops@, final(self).ops@),
            (dbm < -31 || dbm > 12) ==> r == Err::<(), RadioError>(RadioError::ParameterError)
                && final(self).ops@ == old(self).ops@,
            r is Ok ==> wrote(
                old(self).ops@,
                final(self).ops@,
                slot.spec_address(),
                seq![crate::calc::pa_register_value(crate::calc::pa_row(old(self).base_frequency), dbm as int) as u8],
            ),
            !(dbm < -31 || dbm > 12) ==> (r matches Err(e) ==> bus_failed(old(self).ops@, final(self).ops@, e)),
    {
        match pa_power_from_dbm(slot, dbm, self.base_frequency) {
            None => Err(RadioError::ParameterError),
            Some(level) => {
                let data = [level];
                let r = self.write_raw(slot.address(), &data);
                proof {
                    assert(data@ =~= seq![level]);
                }
                r
            },
        }
    }

    /// Selects the power amplifier slot in use, leaving the other fields of
    /// `PA_POWER[0]` as read.
    pub fn set_pa_slot(&mut self, slot: PaSlot) -> (r: RadioResult<()>)
        ensures
            final(self).facts() == old(self).facts(),
            extends(old(self).ops@, final(self).ops@),
            r is Ok ==> ({
                let t = new_ops(old(self).ops@, final(self).ops@);
                &&& t.len() == 2
                &&& t[0] matches BusOp::Read { address, data } && address == PaPower::ADDRESS
                    && data.len() == 1
                &&& t[1] == (BusOp::Write {
                    address: PaPower::ADDRESS,
                    data: seq![(read_data(t[0])[0] / 8 * 8 + slot.spec_code()) as u8],
                })
            }),
            r matches Err(e) ==> bus_failed(old(self).ops@, final(self).ops@, e),
    {
        let ghost start = self.ops@;
        let b = self.read_byte(PaPower::ADDRESS)?;
        let data = [b / 8 * 8 + slot.code()];
        let r = self.write_raw(PaPower::ADDRESS, &data);
        proof {
            assert(data@ =~= seq![(b / 8 * 8 + slot.spec_code()) as u8]);
            if r is Ok {
                assert(new_ops(start, self.ops@) =~= seq![
                    BusOp::Read { address: PaPower::ADDRESS, data: seq![b] },
                    BusOp::Write { address: PaPower::ADDRESS, data: data@ },
                ]);
            }
        }
        r
    }

    /// Disables every interrupt source.
    pub fn irq_silence(&mut self) -> (r: RadioResult<()>)
        ensures
            final(self).facts() == old(self).facts(),
            extends(old(self).ops@, final(self).ops@),
            r is Ok ==> wrote(old(self).ops@, final(self).ops@, IrqMask::ADDRESS, seq![0u8, 0u8, 0u8, 0u8]),
            r matches Err(e) ==> bus_failed(old(self).ops@, final(self).ops@, e),
    {
        let bytes = IrqMask::new(0).into_bytes();
        let r = self.write_raw(IrqMask::ADDRESS, &bytes);
        proof {
            assert(bytes@ =~= seq![0u8, 0u8, 0u8, 0u8]);
        }
        r
    }

    /// Selects the events that raise the interrupt line.
    pub fn write_irq_mask(&mut self, mask: IrqMask) -> (r: RadioResult<()>)
        ensures
            final(self).facts() == old(self).facts(),
            extends(old(self).ops@, final(self).ops@),
            r is Ok ==> wrote(old(self).ops@, final(self).ops@, IrqMask::ADDRESS, mask.encode()),
            r matches Err(e) ==> bus_failed(old(self).ops@, final(self).ops@, e),
    {
        let bytes = mask.into_bytes();
        self.write_raw(IrqMask::ADDRESS, &bytes)
    }

    /// Clears the pending interrupts by reading `IRQ_STATUS`, whose bits reset
    /// on reading; the value is dropped.
    pub fn irq_clear(&mut self) -> (r: RadioResult<()>)
        ensures
            final(self).facts() == old(self).facts(),
            extends(old(self).ops@, final(self).ops@),
            r is Ok ==> ({
                let t = new_ops(old(self).ops@, final(self).ops@);
                t.len() == 1 && is_status_read(t[0])
            }),
            r matches Err(e) ==> bus_failed(old(self).ops@, final(self).ops@, e),
    {
        let ghost start = self.ops@;
        let _status = self.read_irq_status()?;
        proof {
            assert(new_ops(start, self.ops@) =~= seq![self.ops@.last()]);
        }
        Ok(())
    }
}

} // verus!
