//! Conversion of physical radio parameters into register values.
use vstd::prelude::*;

use crate::band::{band_of, BandSelect};
use crate::constants::{DOUBLE_XTAL_THR, FBASE_DIVIDER, PPM_FACTOR};
use crate::registers::{ChFlt, FreqDev0, Modulation, PaSlot};

verus! {

/// Distance between two integers.
pub open spec fn dist(a: int, b: int) -> int {
    if a >= b {
        a - b
    } else {
        b - a
    }
}

/// Channel filter bandwidths, in units of 100 Hz, for a 26 MHz digital clock;
/// entry `9 * e + m` belongs to mantissa `m` and exponent `e`.
pub open spec fn bandwidth_table() -> Seq<u16> {
    seq![
        8001u16, 7951, 7684, 7368, 7051, 6709, 6423, 5867, 5414, 4509, 4259, 4032, 3808, 3621,
        3417, 3254, 2945, 2703, 2247, 2124, 2011, 1900, 1807, 1706, 1624, 1471, 1350, 1123, 1062,
        1005, 950, 903, 853, 812, 735, 675, 561, 530, 502, 474, 451, 426, 406, 367, 337, 280, 265,
        251, 237, 226, 213, 203, 184, 169, 140, 133, 126, 119, 113, 106, 101, 92, 84, 70, 66, 63,
        59, 56, 53, 51, 46, 42, 35, 33, 31, 30, 28, 27, 25, 23, 21, 18, 17, 16, 15, 14, 13, 13, 12,
        11,
    ]
}

/// Number of entries of the channel filter table.
pub const BANDWIDTH_TABLE_LEN: usize = 90;

/// A requested bandwidth in Hz, brought to the table's unit (100 Hz) and to its
/// 26 MHz reference clock. The digital clock is the crystal, or half of it
/// while the clock divider is on (`pd_clkdiv` false).
pub open spec fn normalized_bandwidth(bandwidth: u32, pd_clkdiv: bool, xtal_frequency: u32) -> int {
    let divider: int = if pd_clkdiv { 1 } else { 2 };
    (bandwidth * 260_000 * divider) / (xtal_frequency as int)
}

/// Distance of table entry `i` to the normalized target `t`.
pub open spec fn table_dist(t: int, i: int) -> int {
    dist(t, bandwidth_table()[i] as int)
}

/// Entry `i` is nearest to `t`, and the first of the entries that are.
pub open spec fn is_nearest_entry(t: int, i: int) -> bool {
    &&& 0 <= i < 90
    &&& forall|j: int| 0 <= j < 90 ==> #[trigger] table_dist(t, j) >= table_dist(t, i)
    &&& forall|j: int| 0 <= j < i ==> #[trigger] table_dist(t, j) > table_dist(t, i)
}

/// The first entry among the first `n` that lies nearest to `t`.
pub open spec fn nearest_upto(t: int, n: nat) -> int
    decreases n,
{
    if n <= 1 {
        0
    } else {
        let p = nearest_upto(t, (n - 1) as nat);
        if table_dist(t, n - 1) < table_dist(t, p) {
            n - 1
        } else {
            p
        }
    }
}

/// The table index that the channel filter calculation selects.
pub open spec fn channel_filter_index(bandwidth: u32, pd_clkdiv: bool, xtal_frequency: u32) -> int {
    nearest_upto(normalized_bandwidth(bandwidth, pd_clkdiv, xtal_frequency), 90)
}

proof fn lemma_table_adjacent()
    ensures
        bandwidth_table().len() == 90,
        forall|i: int| 0 <= i < 89 ==> #[trigger] bandwidth_table()[i] >= bandwidth_table()[i + 1],
{
}

proof fn lemma_table_descending(i: int, j: int)
    requires
        0 <= i <= j < 90,
    ensures
        bandwidth_table()[i] >= bandwidth_table()[j],
    decreases j - i,
{
    lemma_table_adjacent();
    if i < j {
        lemma_table_descending(i + 1, j);
        assert(bandwidth_table()[i] >= bandwidth_table()[i + 1]);
    }
}

proof fn lemma_nearest_upto(t: int, n: nat)
    requires
        1 <= n <= 90,
    ensures
        0 <= nearest_upto(t, n) < n,
        forall|j: int| 0 <= j < n ==> #[trigger] table_dist(t, j) >= table_dist(t, nearest_upto(t, n)),
        forall|j: int|
            0 <= j < nearest_upto(t, n) ==> #[trigger] table_dist(t, j) > table_dist(t, nearest_upto(t, n)),
    decreases n,
{
    if n > 1 {
        lemma_nearest_upto(t, (n - 1) as nat);
    }
}

proof fn lemma_nearest_unique(t: int, i: int, k: int)
    requires
        is_nearest_entry(t, i),
        is_nearest_entry(t, k),
    ensures
        i == k,
{
    if i < k {
        assert(table_dist(t, i) > table_dist(t, k));
        assert(table_dist(t, i) <= table_dist(t, k));
    } else if k < i {
        assert(table_dist(t, k) > table_dist(t, i));
        assert(table_dist(t, k) <= table_dist(t, i));
    }
}

/// The selected entry is the nearest one, and the first of the nearest.
pub proof fn lemma_channel_filter_index_is_nearest(t: int)
    ensures
        is_nearest_entry(t, nearest_upto(t, 90)),
{
    lemma_nearest_upto(t, 90);
}

/// Entry `i` of the channel filter table.
fn bandwidth_entry(i: usize) -> (r: u16)
    requires
        i < 90,
    ensures
        r == bandwidth_table()[i as int],
{
    let table: [u16; 90] = [
        8001, 7951, 7684, 7368, 7051, 6709, 6423, 5867, 5414, 4509, 4259, 4032, 3808, 3621, 3417,
        3254, 2945, 2703, 2247, 2124, 2011, 1900, 1807, 1706, 1624, 1471, 1350, 1123, 1062, 1005,
        950, 903, 853, 812, 735, 675, 561, 530, 502, 474, 451, 426, 406, 367, 337, 280, 265, 251,
        237, 226, 213, 203, 184, 169, 140, 133, 126, 119, 113, 106, 101, 92, 84, 70, 66, 63, 59,
        56, 53, 51, 46, 42, 35, 33, 31, 30, 28, 27, 25, 23, 21, 18, 17, 16, 15, 14, 13, 13, 12, 11,
    ];
    assert(table@ =~= bandwidth_table());
    table[i]
}

impl ChFlt {
    /// The channel filter setting nearest to `bandwidth` Hz. The table is searched
    /// from its narrow end until the distance to the target stops shrinking; the
    /// index found gives mantissa `index % 9` and exponent `index / 9`.
    pub fn calculate(bandwidth: u32, pd_clkdiv: bool, xtal_frequency: u32) -> (r: Self)
        requires
            xtal_frequency > 0,
        ensures
            r.chflt_m == channel_filter_index(bandwidth, pd_clkdiv, xtal_frequency) % 9,
            r.chflt_e == channel_filter_index(bandwidth, pd_clkdiv, xtal_frequency) / 9,
            0 <= channel_filter_index(bandwidth, pd_clkdiv, xtal_frequency) < 90,
    {
        let divider: u64 = if pd_clkdiv { 1 } else { 2 };
        let target: u64 = (bandwidth as u64 * 260_000 * divider) / (xtal_frequency as u64);
        let ghost t = target as int;
        assert(t == normalized_bandwidth(bandwidth, pd_clkdiv, xtal_frequency));
        let mut step: usize = 0;
        let mut last_delta: u64 = u64::MAX;
        let mut moved_away = false;
        while step < BANDWIDTH_TABLE_LEN && !moved_away
            invariant
                t == target as int,
                step <= 90,
                step == 0 ==> last_delta == u64::MAX && !moved_away,
                step > 0 ==> last_delta == table_dist(t, 90 - step),
                moved_away ==> step < 90 && table_dist(t, 89 - step) > last_delta,
                forall|j: int| 90 - step <= j < 90 ==> #[trigger] table_dist(t, j) >= last_delta,
            decreases 90 - step + (if moved_away { 0int } else { 1int }),
        {
            let entry = bandwidth_entry(89 - step) as u64;
            let delta: u64 = if target >= entry {
                target - entry
            } else {
                entry - target
            };
            assert(delta == table_dist(t, 89 - step));
            if delta > last_delta {
                moved_away = true;
            } else {
                last_delta = delta;
                step += 1;
            }
        }
        // `step` counts the entries that did not move away from the target; the
        // last of them is the nearest.
        let index: usize = 90 - step;
        proof {
            let c = index as int;
            if moved_away {
                assert forall|j: int| 0 <= j < c implies #[trigger] table_dist(t, j) > table_dist(t, c) by {
                    lemma_table_descending(j, c - 1);
                    lemma_table_descending(c - 1, c);
                }
            }
            lemma_channel_filter_index_is_nearest(t);
            lemma_nearest_unique(t, c, nearest_upto(t, 90));
        }
        ChFlt { chflt_m: (index % 9) as u8, chflt_e: (index / 9) as u8 }
    }
}

/// A narrower requested bandwidth never selects a wider filter: the table index
/// (nine times the exponent plus the mantissa) does not decrease as the requested
/// bandwidth decreases, and it always lies inside the table.
pub proof fn lemma_channel_filter_monotonic(
    narrow: u32,
    wide: u32,
    pd_clkdiv: bool,
    xtal_frequency: u32,
)
    requires
        narrow <= wide,
        xtal_frequency > 0,
    ensures
        0 <= channel_filter_index(wide, pd_clkdiv, xtal_frequency)
            <= channel_filter_index(narrow, pd_clkdiv, xtal_frequency) < 90,
        bandwidth_table()[channel_filter_index(narrow, pd_clkdiv, xtal_frequency)]
            <= bandwidth_table()[channel_filter_index(wide, pd_clkdiv, xtal_frequency)],
{
    let divider: int = if pd_clkdiv { 1 } else { 2 };
    let t1 = normalized_bandwidth(narrow, pd_clkdiv, xtal_frequency);
    let t2 = normalized_bandwidth(wide, pd_clkdiv, xtal_frequency);
    assert(narrow * 260_000 * divider <= wide * 260_000 * divider) by (nonlinear_arith)
        requires
            narrow <= wide,
            divider >= 1,
    ;
    vstd::arithmetic::div_mod::lemma_div_is_ordered(
        narrow * 260_000 * divider,
        wide * 260_000 * divider,
        xtal_frequency as int,
    );
    assert(t1 <= t2);
    lemma_channel_filter_index_is_nearest(t1);
    lemma_channel_filter_index_is_nearest(t2);
    let i1 = nearest_upto(t1, 90);
    let i2 = nearest_upto(t2, 90);
    if i1 < i2 {
        lemma_table_descending(i1, i2);
        assert(table_dist(t1, i1) <= table_dist(t1, i2));
        assert(table_dist(t2, i1) > table_dist(t2, i2));
    }
    lemma_table_descending(i2, i1);
}

/// 2 to the power `n`.
pub open spec fn exp2(n: nat) -> nat
    decreases n,
{
    if n == 0 {
        1
    } else {
        2 * exp2((n - 1) as nat)
    }
}

/// Frequency deviation threshold of exponent `e`: `fXO / 2^18 * 7.5 * 2^e` Hz,
/// rounded down.
pub open spec fn fdev_threshold(xtal_frequency: u32, e: nat) -> int {
    (xtal_frequency * 15 * exp2(e)) / 0x80000
}

/// Frequency deviation of mantissa `m` and exponent `e`:
/// `fXO / 2^18 * (8 + m) / 2 * 2^e` Hz, rounded down.
pub open spec fn fdev_of(xtal_frequency: u32, m: nat, e: nat) -> int {
    (xtal_frequency * (8 + m) * exp2(e)) / 0x80000
}

/// The first exponent from `e` on, up to 9, whose threshold exceeds the deviation.
pub open spec fn fdev_exponent_from(frequency_deviation: u32, xtal_frequency: u32, e: nat) -> nat
    decreases 9 - e,
{
    if e >= 9 || frequency_deviation < fdev_threshold(xtal_frequency, e) {
        e
    } else {
        fdev_exponent_from(frequency_deviation, xtal_frequency, e + 1)
    }
}

/// The first mantissa from `m` on, up to 7, whose deviation exceeds the requested one.
pub open spec fn fdev_mantissa_from(
    frequency_deviation: u32,
    xtal_frequency: u32,
    e: nat,
    m: nat,
) -> nat
    decreases 7 - m,
{
    if m >= 7 || frequency_deviation < fdev_of(xtal_frequency, m, e) {
        m
    } else {
        fdev_mantissa_from(frequency_deviation, xtal_frequency, e, m + 1)
    }
}

/// Mantissa and exponent of a frequency deviation: the exponent is the first whose
/// threshold exceeds the deviation, the mantissa the first whose deviation exceeds
/// it, or the one before where that one lies strictly closer.
pub open spec fn fdev_setting(frequency_deviation: u32, xtal_frequency: u32) -> (int, int) {
    let e = fdev_exponent_from(frequency_deviation, xtal_frequency, 0);
    let m = fdev_mantissa_from(frequency_deviation, xtal_frequency, e, 0);
    let above = fdev_of(xtal_frequency, m, e) - frequency_deviation;
    if m > 0 && frequency_deviation - fdev_of(xtal_frequency, (m - 1) as nat, e) < above {
        (m - 1, e as int)
    } else {
        (m as int, e as int)
    }
}

proof fn lemma_exp2_monotonic(a: nat, b: nat)
    requires
        a <= b,
    ensures
        1 <= exp2(a) <= exp2(b),
    decreases b,
{
    if b > 0 {
        if a < b {
            lemma_exp2_monotonic(a, (b - 1) as nat);
        } else {
            lemma_exp2_monotonic((a - 1) as nat, (b - 1) as nat);
        }
    }
}

proof fn lemma_exp2_values()
    ensures
        exp2(8) == 256,
        exp2(9) == 512,
        exp2(15) == 32768,
{
    reveal_with_fuel(exp2, 16);
}

proof fn lemma_fdev_of_monotonic(xtal_frequency: u32, m1: nat, m2: nat, e: nat)
    requires
        m1 <= m2,
    ensures
        fdev_of(xtal_frequency, m1, e) <= fdev_of(xtal_frequency, m2, e),
{
    let x = xtal_frequency as int;
    let p = exp2(e) as int;
    assert(x * (8 + m1) * p <= x * (8 + m2) * p) by (nonlinear_arith)
        requires
            m1 <= m2,
            x >= 0,
            p >= 0,
    ;
    vstd::arithmetic::div_mod::lemma_div_is_ordered(x * (8 + m1) * p, x * (8 + m2) * p, 0x80000);
}

proof fn lemma_fdev_mantissa_from(frequency_deviation: u32, xtal_frequency: u32, e: nat, m: nat)
    requires
        m <= 7,
    ensures
        m <= fdev_mantissa_from(frequency_deviation, xtal_frequency, e, m) <= 7,
        forall|k: nat|
            m <= k < fdev_mantissa_from(frequency_deviation, xtal_frequency, e, m)
                ==> frequency_deviation >= #[trigger] fdev_of(xtal_frequency, k, e),
        fdev_mantissa_from(frequency_deviation, xtal_frequency, e, m) < 7 ==> frequency_deviation
            < fdev_of(xtal_frequency, fdev_mantissa_from(frequency_deviation, xtal_frequency, e, m), e),
    decreases 7 - m,
{
    if m < 7 && frequency_deviation >= fdev_of(xtal_frequency, m, e) {
        lemma_fdev_mantissa_from(frequency_deviation, xtal_frequency, e, m + 1);
    }
}

/// Within the selected exponent, the selected mantissa gives the deviation
/// nearest to the requested one.
pub proof fn lemma_fdev_mantissa_nearest(frequency_deviation: u32, xtal_frequency: u32)
    ensures
        0 <= fdev_setting(frequency_deviation, xtal_frequency).0 < 8,
        forall|m: nat|
            m < 8 ==> dist(
                frequency_deviation as int,
                fdev_of(
                    xtal_frequency,
                    fdev_setting(frequency_deviation, xtal_frequency).0 as nat,
                    fdev_setting(frequency_deviation, xtal_frequency).1 as nat,
                ),
            ) <= dist(
                frequency_deviation as int,
                #[trigger] fdev_of(
                    xtal_frequency,
                    m,
                    fdev_setting(frequency_deviation, xtal_frequency).1 as nat,
                ),
            ),
{
    let f = frequency_deviation as int;
    let e = fdev_exponent_from(frequency_deviation, xtal_frequency, 0);
    let r = fdev_mantissa_from(frequency_deviation, xtal_frequency, e, 0);
    lemma_fdev_mantissa_from(frequency_deviation, xtal_frequency, e, 0);
    let chosen = fdev_setting(frequency_deviation, xtal_frequency).0;
    let b_r = fdev_of(xtal_frequency, r, e);
    if r > 0 {
        assert(f >= fdev_of(xtal_frequency, (r - 1) as nat, e));
    }
    if f >= b_r {
        assert(r == 7);
        assert(chosen == 7);
    }
    assert forall|m: nat| m < 8 implies dist(f, fdev_of(xtal_frequency, chosen as nat, e)) <= dist(
        f,
        #[trigger] fdev_of(xtal_frequency, m, e),
    ) by {
        if m < r {
            lemma_fdev_of_monotonic(xtal_frequency, m, (r - 1) as nat, e);
            lemma_fdev_of_monotonic(xtal_frequency, (r - 1) as nat, r, e);
        } else {
            lemma_fdev_of_monotonic(xtal_frequency, r, m, e);
        }
        if r > 0 {
            lemma_fdev_of_monotonic(xtal_frequency, (r - 1) as nat, r, e);
        }
    }
}

impl FreqDev0 {
    /// Mantissa and exponent, in that order, whose frequency deviation lies nearest
    /// to `frequency_deviation` Hz.
    pub fn calculate_fdev(frequency_deviation: u32, xtal_frequency: u32) -> (r: (u8, u8))
        ensures
            (r.0 as int, r.1 as int) == fdev_setting(frequency_deviation, xtal_frequency),
            r.0 < 8,
            r.1 < 10,
    {
        let x = xtal_frequency as u64;
        let f = frequency_deviation as u64;
        let mut e: u64 = 0;
        let mut scale: u64 = 1;
        proof {
            lemma_exp2_values();
        }
        while e < 9 && f >= (x * 15 * scale) / 0x80000
            invariant
                e <= 9,
                scale == exp2(e as nat),
                scale <= 512,
                x <= 0xffff_ffff,
                x * 15 * scale <= 0xffff_ffff * 15 * 512,
                x == xtal_frequency,
                f == frequency_deviation,
                fdev_exponent_from(frequency_deviation, xtal_frequency, e as nat)
                    == fdev_exponent_from(frequency_deviation, xtal_frequency, 0),
            decreases 9 - e,
        {
            proof {
                lemma_exp2_values();
                lemma_exp2_monotonic(e as nat, 8);
            }
            e += 1;
            scale = scale * 2;
            assert(x * 15 * scale <= 0xffff_ffff * 15 * 512) by (nonlinear_arith)
                requires
                    x <= 0xffff_ffff,
                    scale <= 512,
            ;
        }
        let ghost ge = e as nat;
        let mut m: u64 = 0;
        let mut previous: u64 = 0;
        assert(x * 8 * scale <= 0xffff_ffff * 8 * 512) by (nonlinear_arith)
            requires
                x <= 0xffff_ffff,
                scale <= 512,
        ;
        let mut current: u64 = (x * 8 * scale) / 0x80000;
        while m < 7 && f >= current
            invariant
                m <= 7,
                e <= 9,
                ge == e,
                scale == exp2(ge),
                scale <= 512,
                x == xtal_frequency,
                x <= 0xffff_ffff,
                f == frequency_deviation,
                current == fdev_of(xtal_frequency, m as nat, ge),
                previous <= f,
                m > 0 ==> previous == fdev_of(xtal_frequency, (m - 1) as nat, ge),
                fdev_mantissa_from(frequency_deviation, xtal_frequency, ge, m as nat)
                    == fdev_mantissa_from(frequency_deviation, xtal_frequency, ge, 0),
            decreases 7 - m,
        {
            m += 1;
            previous = current;
            assert(x * (8 + m) <= 0xffff_ffff * 15 && x * (8 + m) * scale <= 0xffff_ffff * 15 * 512)
                by (nonlinear_arith)
                requires
                    x <= 0xffff_ffff,
                    scale <= 512,
                    m <= 7,
            ;
            let product: u64 = x * (8 + m) * scale;
            current = product / 0x80000;
        }
        // The candidate below the deviation wins where it lies strictly closer.
        if m > 0 && f - previous < (if current > f { current - f } else { 0 }) {
            m -= 1;
        }
        (m as u8, e as u8)
    }
}

/// Divider of the digital clock: 2 while the clock divider is on.
pub open spec fn clock_divider(pd_clkdiv: bool) -> int {
    if pd_clkdiv {
        1
    } else {
        2
    }
}

/// Distance between the data rate of mantissa `m` and exponent `e`,
/// `fdig * (256 + m) * 2^e / 2^28`, and the requested rate, scaled by
/// `2^28` times the clock divider so that it stays an integer.
pub open spec fn data_rate_error(
    data_rate: u32,
    pd_clkdiv: bool,
    xtal_frequency: u32,
    m: int,
    e: nat,
) -> int {
    dist(xtal_frequency * (256 + m) * exp2(e), data_rate * clock_divider(pd_clkdiv) * 0x1000_0000)
}

/// Mantissa `m` and exponent `e` give the data rate nearest to `data_rate`, and
/// no setting before them (lower exponent, or equal exponent and lower mantissa)
/// gives one as near.
pub open spec fn is_best_data_rate(data_rate: u32, pd_clkdiv: bool, xtal_frequency: u32, m: int, e: int) -> bool {
    &&& 0 <= m < 256
    &&& 0 <= e < 16
    &&& forall|m2: int, e2: nat|
        0 <= m2 < 256 && e2 < 16 ==> #[trigger] data_rate_error(data_rate, pd_clkdiv, xtal_frequency, m2, e2)
            >= data_rate_error(data_rate, pd_clkdiv, xtal_frequency, m, e as nat)
    &&& forall|m2: int, e2: nat|
        0 <= m2 < 256 && e2 < 16 && 256 * e2 + m2 < 256 * e + m ==> #[trigger] data_rate_error(
            data_rate,
            pd_clkdiv,
            xtal_frequency,
            m2,
            e2,
        ) > data_rate_error(data_rate, pd_clkdiv, xtal_frequency, m, e as nat)
}

/// Mantissa and exponent, in that order, of the data rate setting.
pub open spec fn data_rate_setting(data_rate: u32, pd_clkdiv: bool, xtal_frequency: u32) -> (int, int) {
    choose|p: (int, int)| is_best_data_rate(data_rate, pd_clkdiv, xtal_frequency, p.0, p.1)
}

proof fn lemma_best_data_rate_unique(
    data_rate: u32,
    pd_clkdiv: bool,
    xtal_frequency: u32,
    m: int,
    e: int,
    m2: int,
    e2: int,
)
    requires
        is_best_data_rate(data_rate, pd_clkdiv, xtal_frequency, m, e),
        is_best_data_rate(data_rate, pd_clkdiv, xtal_frequency, m2, e2),
    ensures
        m == m2 && e == e2,
{
    let a = data_rate_error(data_rate, pd_clkdiv, xtal_frequency, m, e as nat);
    let b = data_rate_error(data_rate, pd_clkdiv, xtal_frequency, m2, e2 as nat);
    if 256 * e2 + m2 < 256 * e + m {
        assert(b > a);
        assert(b <= a);
    } else if 256 * e + m < 256 * e2 + m2 {
        assert(a > b);
        assert(a <= b);
    }
}

impl Modulation {
    /// Mantissa and exponent, in that order, of the data rate nearest to
    /// `data_rate` bps; among equally near settings, the one with the lowest
    /// exponent and then the lowest mantissa.
    pub fn calculate_data_rate(data_rate: u32, pd_clkdiv: bool, xtal_frequency: u32) -> (r: (
        u8,
        u8,
    ))
        ensures
            (r.0 as int, r.1 as int) == data_rate_setting(data_rate, pd_clkdiv, xtal_frequency),
            r.1 < 16,
            forall|m: int, e: nat|
                0 <= m < 256 && e < 16 ==> #[trigger] data_rate_error(
                    data_rate,
                    pd_clkdiv,
                    xtal_frequency,
                    m,
                    e,
                ) >= data_rate_error(data_rate, pd_clkdiv, xtal_frequency, r.0 as int, r.1 as nat),
            forall|m: int, e: nat|
                0 <= m < 256 && e < 16 && 256 * e + m < 256 * r.1 + r.0 ==> #[trigger] data_rate_error(
                    data_rate,
                    pd_clkdiv,
                    xtal_frequency,
                    m,
                    e,
                ) > data_rate_error(data_rate, pd_clkdiv, xtal_frequency, r.0 as int, r.1 as nat),
    {
        let divider: u64 = if pd_clkdiv { 1 } else { 2 };
        let goal: u64 = data_rate as u64 * divider * 0x1000_0000;
        let x = xtal_frequency as u64;
        let mut best_m: u64 = 0;
        let mut best_e: u64 = 0;
        let mut best_err: u64 = if x * 256 >= goal {
            x * 256 - goal
        } else {
            goal - x * 256
        };
        proof {
            lemma_exp2_values();
            assert(exp2(0) == 1);
        }
        let mut e: u64 = 0;
        let mut scale: u64 = 1;
        while e < 16
            invariant
                e <= 16,
                e < 16 ==> scale == exp2(e as nat) && scale <= 32768,
                x == xtal_frequency,
                goal == data_rate * clock_divider(pd_clkdiv) * 0x1000_0000,
                best_m < 256,
                best_e < 16,
                256 * best_e + best_m <= 256 * e,
                best_err == data_rate_error(
                    data_rate,
                    pd_clkdiv,
                    xtal_frequency,
                    best_m as int,
                    best_e as nat,
                ),
                forall|m: int, e2: nat|
                    0 <= m < 256 && e2 < e ==> #[trigger] data_rate_error(
                        data_rate,
                        pd_clkdiv,
                        xtal_frequency,
                        m,
                        e2,
                    ) >= best_err,
                forall|m: int, e2: nat|
                    0 <= m < 256 && e2 < e && 256 * e2 + m < 256 * best_e + best_m
                        ==> #[trigger] data_rate_error(data_rate, pd_clkdiv, xtal_frequency, m, e2)
                        > best_err,
            decreases 16 - e,
        {
            let mut m: u64 = 0;
            while m < 256
                invariant
                    m <= 256,
                    e < 16,
                    scale == exp2(e as nat),
                    scale <= 32768,
                    x == xtal_frequency,
                    goal == data_rate * clock_divider(pd_clkdiv) * 0x1000_0000,
                    best_m < 256,
                    best_e < 16,
                    256 * best_e + best_m <= 256 * e + m,
                    best_err == data_rate_error(
                        data_rate,
                        pd_clkdiv,
                        xtal_frequency,
                        best_m as int,
                        best_e as nat,
                    ),
                    forall|m2: int, e2: nat|
                        0 <= m2 < 256 && (e2 < e || (e2 == e && m2 < m)) ==> #[trigger] data_rate_error(
                            data_rate,
                            pd_clkdiv,
                            xtal_frequency,
                            m2,
                            e2,
                        ) >= best_err,
                    forall|m2: int, e2: nat|
                        0 <= m2 < 256 && (e2 < e || (e2 == e && m2 < m)) && 256 * e2 + m2 < 256
                            * best_e + best_m ==> #[trigger] data_rate_error(
                            data_rate,
                            pd_clkdiv,
                            xtal_frequency,
                            m2,
                            e2,
                        ) > best_err,
                decreases 256 - m,
            {
                assert(x * (256 + m) <= 0xffff_ffff * 511 && x * (256 + m) * scale <= 0xffff_ffff
                    * 511 * 32768) by (nonlinear_arith)
                    requires
                        x <= 0xffff_ffff,
                        m < 256,
                        scale <= 32768,
                ;
                let value: u64 = x * (256 + m) * scale;
                let error: u64 = if value >= goal {
                    value - goal
                } else {
                    goal - value
                };
                if error < best_err {
                    best_err = error;
                    best_m = m;
                    best_e = e;
                }
                m += 1;
            }
            e += 1;
            if e < 16 {
                proof {
                    lemma_exp2_values();
                    lemma_exp2_monotonic(e as nat, 15);
                }
                scale = scale * 2;
            }
        }
        proof {
            let p = (best_m as int, best_e as int);
            assert(is_best_data_rate(data_rate, pd_clkdiv, xtal_frequency, p.0, p.1));
            let q = data_rate_setting(data_rate, pd_clkdiv, xtal_frequency);
            lemma_best_data_rate_unique(data_rate, pd_clkdiv, xtal_frequency, p.0, p.1, q.0, q.1);
        }
        (best_m as u8, best_e as u8)
    }
}

/// The crystal frequency that clocks the timers: halved above the double crystal
/// threshold.
pub open spec fn timer_xtal(xtal_frequency: u32) -> int {
    if xtal_frequency > DOUBLE_XTAL_THR {
        (xtal_frequency / 2) as int
    } else {
        xtal_frequency as int
    }
}

/// Timer cycles (of 1210 crystal periods, per millisecond) in `timeout_ms`.
pub open spec fn rx_timeout_cycles(timeout_ms: u32, xtal_frequency: u32) -> int {
    timeout_ms * timer_xtal(xtal_frequency) / 1_210_000
}

/// Distance in milliseconds between the timeout that `counter` and `prescaler`
/// give and the one requested.
pub open spec fn rx_timeout_error(timeout_ms: u32, xtal_frequency: u32, counter: int, prescaler: int) -> int {
    dist(counter * prescaler * 1_210_000 / timer_xtal(xtal_frequency), timeout_ms as int)
}

/// Counter and prescaler register values, in that order, of an RX timeout.
/// Beyond the timer's reach both saturate at 255. Otherwise the prescaler is
/// the cycle count over 255, at least 2 so that its field is never zero and no
/// division by zero occurs for short timeouts; the counter the cycle count over the
/// prescaler, moved up by one where that lies strictly nearer; the prescaler
/// field holds the prescaler minus one, and the counter field the counter minus
/// one, at least 1 and at most 255.
pub open spec fn rx_timeout_setting(timeout_ms: u32, xtal_frequency: u32) -> (int, int) {
    let n = rx_timeout_cycles(timeout_ms, xtal_frequency);
    if n / 255 > 253 {
        (255, 255)
    } else {
        let prescaler = if n / 255 < 2 {
            2
        } else {
            n / 255
        };
        let counter = n / prescaler;
        let rounded = if counter < 255 && rx_timeout_error(
            timeout_ms,
            xtal_frequency,
            counter + 1,
            prescaler,
        ) < rx_timeout_error(timeout_ms, xtal_frequency, counter, prescaler) {
            counter + 1
        } else {
            counter
        };
        let field = if rounded > 1 {
            rounded - 1
        } else {
            1
        };
        (
            if field > 255 {
                255
            } else {
                field
            },
            prescaler - 1,
        )
    }
}

/// Counter and prescaler, in that order, of the RX timeout timer for a timeout
/// of `timeout_ms` milliseconds.
pub fn calculate_rx_timeout(timeout_ms: u32, xtal_frequency: u32) -> (r: (u8, u8))
    requires
        xtal_frequency > 0,
    ensures
        (r.0 as int, r.1 as int) == rx_timeout_setting(timeout_ms, xtal_frequency),
        r.0 >= 1,
        rx_timeout_cycles(timeout_ms, xtal_frequency) / 255 <= 253 ==> r.1 != 0,
{
    let xtal: u64 = if xtal_frequency > DOUBLE_XTAL_THR {
        (xtal_frequency / 2) as u64
    } else {
        xtal_frequency as u64
    };
    assert(xtal == timer_xtal(xtal_frequency));
    let ms = timeout_ms as u64;
    assert(ms * xtal <= 0xffff_ffff * 0xffff_ffff) by (nonlinear_arith)
        requires
            ms <= 0xffff_ffff,
            xtal <= 0xffff_ffff,
    ;
    let n: u64 = ms * xtal / 1_210_000;
    if n / 255 > 253 {
        return (255, 255);
    }
    let prescaler: u64 = if n / 255 < 2 {
        2
    } else {
        n / 255
    };
    let mut counter: u64 = n / prescaler;
    assert(counter <= n) by {
        vstd::arithmetic::div_mod::lemma_div_is_ordered_by_denominator(n as int, 1, prescaler as int);
    }
    assert(counter * prescaler <= 64770 * 253 && (counter + 1) * prescaler <= 64770 * 253)
        by (nonlinear_arith)
        requires
            counter <= n,
            n < 254 * 255,
            prescaler <= 253,
    ;
    if counter < 255 {
        let closest = counter * prescaler * 1_210_000 / xtal;
        let error: u64 = if closest >= ms {
            closest - ms
        } else {
            ms - closest
        };
        let above = (counter + 1) * prescaler * 1_210_000 / xtal;
        let error_above: u64 = if above >= ms {
            above - ms
        } else {
            ms - above
        };
        if error_above < error {
            counter += 1;
        }
    }
    let field: u64 = if counter > 1 {
        counter - 1
    } else {
        1
    };
    let counter_field: u8 = if field > 255 {
        255
    } else {
        field as u8
    };
    (counter_field, (prescaler - 1) as u8)
}

/// The counter field of an RX timeout is never below one, and outside the
/// saturating branch the prescaler field is never zero.
pub proof fn lemma_rx_timeout_fields(timeout_ms: u32, xtal_frequency: u32)
    ensures
        rx_timeout_setting(timeout_ms, xtal_frequency).0 >= 1,
        rx_timeout_cycles(timeout_ms, xtal_frequency) / 255 <= 253 ==> rx_timeout_setting(
            timeout_ms,
            xtal_frequency,
        ).1 != 0,
{
}

/// Clamp of a threshold in dBm to the range `-130 ..= 2`.
pub open spec fn rssi_clamp(dbm: i32) -> int {
    if dbm < -130 {
        -130
    } else if dbm > 2 {
        2
    } else {
        dbm as int
    }
}

/// Register value of an RSSI threshold: `2 * (dBm + 130)` in half-dB steps from
/// -130 dBm, the dBm clamped to `-130 ..= 2`, kept to eight bits.
pub open spec fn rssi_threshold_of(dbm: i32) -> int {
    (2 * (rssi_clamp(dbm) + 130)) % 256
}

/// The `RSSI_TH` register value of a threshold of `dbm` dBm.
pub fn compute_rssi_threshold(dbm: i32) -> (r: u8)
    ensures
        r == rssi_threshold_of(dbm),
{
    let clamped: i32 = if dbm < -130 {
        -130
    } else if dbm > 2 {
        2
    } else {
        dbm
    };
    let doubled: i32 = 2 * (clamped + 130);
    if doubled >= 256 {
        (doubled - 256) as u8
    } else {
        doubled as u8
    }
}

/// A threshold outside `-130 ..= 2` dBm gives the value of the nearer bound.
pub proof fn lemma_rssi_threshold_saturates(dbm: i32)
    ensures
        dbm < -130 ==> rssi_threshold_of(dbm) == rssi_threshold_of(-130i32),
        dbm > 2 ==> rssi_threshold_of(dbm) == rssi_threshold_of(2i32),
{
}

/// The clamped threshold grows with the requested one, and so does the
/// register value up to -3 dBm; from -2 dBm on the eight-bit value wraps.
pub proof fn lemma_rssi_threshold_monotonic(low: i32, high: i32)
    requires
        low <= high,
    ensures
        rssi_clamp(low) <= rssi_clamp(high),
        high <= -3 ==> rssi_threshold_of(low) <= rssi_threshold_of(high),
{
}

/// Coefficients of the power amplifier curves, in hundredths, five rows of
/// six: `m` and `q` of the up, middle and low segments of `reg = m * dBm + q`.
/// Rows: high band from 900 MHz, high band below 900 MHz, middle, low and very
/// low band.
pub open spec fn pa_factors() -> Seq<i32> {
    seq![
        -211i32, 2566, -211i32, 2566, -200i32, 3128,
        -204i32, 2345, -204i32, 2345, -195i32, 2766,
        -348i32, 3845, -189i32, 2766, -192i32, 3020,
        -327i32, 3543, -180i32, 2631, -189i32, 2961,
        -418i32, 5066, -180i32, 3004, -186i32, 3222,
    ]
}

/// Row of the power amplifier coefficients for a base frequency that lies in a band.
pub open spec fn pa_row(base_frequency: u32) -> int {
    match band_of(base_frequency) {
        Some(BandSelect::High) => if base_frequency < 900_000_000 {
            1
        } else {
            0
        },
        Some(BandSelect::Middle) => 2,
        Some(BandSelect::Low) => 3,
        _ => 4,
    }
}

/// Coefficient `k` of row `row`.
pub open spec fn pa_factor(row: int, k: int) -> int {
    pa_factors()[6 * row + k] as int
}

/// Segment of the curve for `dbm`: 0 (up) where the middle line gives less than
/// 13 at a positive power, 2 (low) where it gives more than 40 at a power of at
/// most zero, else 1 (middle).
pub open spec fn pa_segment(row: int, dbm: int) -> int {
    let mid = pa_factor(row, 2) * dbm + pa_factor(row, 3);
    if dbm > 0 && mid < 1300 {
        0
    } else if dbm <= 0 && mid > 4000 {
        2
    } else {
        1
    }
}

/// Register value of `dbm` on row `row`: the segment's line, clamped to
/// `1 ..= 90` and rounded toward zero.
pub open spec fn pa_register_value(row: int, dbm: int) -> int {
    let j = pa_segment(row, dbm);
    let v = pa_factor(row, 2 * j) * dbm + pa_factor(row, 2 * j + 1);
    let clamped = if v > 9000 {
        9000
    } else if v < 100 {
        100
    } else {
        v
    };
    clamped / 100
}

/// The power amplifier register value for `dbm` dBm at the carrier
/// `base_frequency` Hz; `None` outside `-31 ..= 12` dBm or outside every band.
/// The slot that will hold the value does not change it.
pub fn pa_power_from_dbm(slot: PaSlot, dbm: i32, base_frequency: u32) -> (r: Option<u8>)
    ensures
        r is None <==> (dbm < -31 || dbm > 12 || band_of(base_frequency) is None),
        r matches Some(v) ==> v == pa_register_value(pa_row(base_frequency), dbm as int),
        r matches Some(v) ==> 1 <= v <= 90,
{
    if dbm < -31 || dbm > 12 {
        return None;
    }
    let row: usize = match BandSelect::from_hz(base_frequency) {
        Some(BandSelect::High) => if base_frequency < 900_000_000 {
            1
        } else {
            0
        },
        Some(BandSelect::Middle) => 2,
        Some(BandSelect::Low) => 3,
        Some(BandSelect::VeryLow) => 4,
        None => {
            return None;
        },
    };
    let factors: [i32; 30] = [
        -211, 2566, -211, 2566, -200, 3128,
        -204, 2345, -204, 2345, -195, 2766,
        -348, 3845, -189, 2766, -192, 3020,
        -327, 3543, -180, 2631, -189, 2961,
        -418, 5066, -180, 3004, -186, 3222,
    ];
    assert(factors@ =~= pa_factors());
    assert(row == pa_row(base_frequency));
    assert(forall|i: int| 0 <= i < 30 ==> -500 <= #[trigger] pa_factors()[i] <= 6000);
    let slope = factors[6 * row + 2];
    assert(-200000 <= slope * dbm <= 200000) by (nonlinear_arith)
        requires
            -500 <= slope <= 6000,
            -31 <= dbm <= 12,
    ;
    let middle = slope * dbm + factors[6 * row + 3];
    let segment: usize = if dbm > 0 && middle < 1300 {
        0
    } else if dbm <= 0 && middle > 4000 {
        2
    } else {
        1
    };
    let slope = factors[6 * row + 2 * segment];
    assert(-200000 <= slope * dbm <= 200000) by (nonlinear_arith)
        requires
            -500 <= slope <= 6000,
            -31 <= dbm <= 12,
    ;
    let value = slope * dbm + factors[6 * row + 2 * segment + 1];
    let clamped: i32 = if value > 9000 {
        9000
    } else if value < 100 {
        100
    } else {
        value
    };
    Some((clamped / 100) as u8)
}

/// Whatever the band row, a power in `-31 ..= 12` dBm gives a register value in
/// `1 ..= 90`.
pub proof fn lemma_pa_power_in_range(row: int, dbm: int)
    requires
        0 <= row < 5,
        -31 <= dbm <= 12,
    ensures
        1 <= pa_register_value(row, dbm) <= 90,
{
}

/// Whether the clock divider is powered down: crystals below the double
/// crystal threshold clock the digital part directly.
pub open spec fn pd_clkdiv_for(xtal_frequency: u32) -> bool {
    xtal_frequency < DOUBLE_XTAL_THR
}

/// Offset of the carrier in Hz for a crystal offset of `ppm`.
pub open spec fn frequency_offset(ppm: i16, base_frequency: u32) -> int {
    crate::constants::trunc_div(ppm * base_frequency, PPM_FACTOR as int)
}

/// `FC_OFFSET` value: the carrier offset in steps of `fXO / 2^18`, clamped to
/// the twelve-bit signed range.
pub open spec fn fc_offset_for(ppm: i16, base_frequency: u32, xtal_frequency: u32) -> int {
    let steps = crate::constants::trunc_div(
        frequency_offset(ppm, base_frequency) * FBASE_DIVIDER,
        xtal_frequency as int,
    );
    if steps < -2048 {
        -2048
    } else if steps > 2047 {
        2047
    } else {
        steps
    }
}

/// `CHSPACE` value: the spacing in steps of `fXO / 2^15`, plus one, at most 255.
pub open spec fn channel_spacing_for(channel_space: u32, xtal_frequency: u32) -> int {
    let steps = channel_space * 512 / (xtal_frequency / 64) as int + 1;
    if steps > 255 {
        255
    } else {
        steps
    }
}

/// IF offset `3 * 480140 / (fXO / unit) - 64`, rounded toward zero and kept to
/// `0 ..= 255`.
pub open spec fn if_offset_for(xtal_frequency: u32, unit: int) -> int {
    let v = 1440420int / ((xtal_frequency as int) / unit) - 64;
    if v < 0 {
        0
    } else if v > 255 {
        255
    } else {
        v
    }
}

/// `IF_OFFSET_ANA` value.
pub open spec fn if_offset_ana_for(xtal_frequency: u32) -> int {
    if_offset_for(xtal_frequency, 4096)
}

/// `IF_OFFSET_DIG` value: the analog one, or, through the clock divider, the
/// offset of the halved clock.
pub open spec fn if_offset_dig_for(xtal_frequency: u32) -> int {
    if xtal_frequency < DOUBLE_XTAL_THR {
        if_offset_ana_for(xtal_frequency)
    } else {
        if_offset_for(xtal_frequency, 8192)
    }
}

/// Whether the crystal counts as a 26 MHz one (rather than 24 MHz): the
/// effective crystal, halved above the double crystal threshold, is at least
/// 25 MHz.
pub open spec fn xtal_26mhz_for(xtal_frequency: u32) -> bool {
    let effective = if xtal_frequency > DOUBLE_XTAL_THR {
        xtal_frequency / 2
    } else {
        xtal_frequency
    };
    effective >= 25_000_000
}

/// The `FC_OFFSET` value of a crystal offset of `ppm`.
pub fn carrier_offset_steps(ppm: i16, base_frequency: u32, xtal_frequency: u32) -> (r: i16)
    requires
        xtal_frequency > 0,
    ensures
        r == fc_offset_for(ppm, base_frequency, xtal_frequency),
{
    assert(-0x8000 * 0xffff_ffff <= ppm * base_frequency <= 0x7fff * 0xffff_ffff) by (nonlinear_arith)
        requires
            -0x8000 <= ppm <= 0x7fff,
            0 <= base_frequency <= 0xffff_ffff,
    ;
    let product: i64 = ppm as i64 * base_frequency as i64;
    let offset: i64 = if product >= 0 {
        product / (PPM_FACTOR as i64)
    } else {
        -((-product) / (PPM_FACTOR as i64))
    };
    assert(offset == frequency_offset(ppm, base_frequency));
    assert(FBASE_DIVIDER == 262_144);
    let scaled: i64 = offset * 262_144;
    let xtal = xtal_frequency as i64;
    let steps: i64 = if scaled >= 0 {
        scaled / xtal
    } else {
        -((-scaled) / xtal)
    };
    assert(-(0x8000 * 0xffff_ffff / 1_000_000 * 262144) <= scaled <= 0x8000 * 0xffff_ffff / 1_000_000 * 262144);
    if steps < -2048 {
        -2048
    } else if steps > 2047 {
        2047
    } else {
        steps as i16
    }
}

/// The `CHSPACE` value of a channel spacing of `channel_space` Hz.
pub fn channel_spacing(channel_space: u32, xtal_frequency: u32) -> (r: u8)
    requires
        xtal_frequency >= 64,
    ensures
        r == channel_spacing_for(channel_space, xtal_frequency),
{
    let steps: u64 = (channel_space as u64 * 512) / ((xtal_frequency / 64) as u64) + 1;
    if steps > 255 {
        255
    } else {
        steps as u8
    }
}

/// The IF offset of the clock `xtal_frequency / unit`.
pub fn if_offset(xtal_frequency: u32, unit: u32) -> (r: u8)
    requires
        unit > 0,
        xtal_frequency / unit > 0,
    ensures
        r == if_offset_for(xtal_frequency, unit as int),
{
    let v: u32 = 1440420 / (xtal_frequency / unit);
    if v < 64 {
        0
    } else if v - 64 > 255 {
        255
    } else {
        (v - 64) as u8
    }
}

} // verus!
