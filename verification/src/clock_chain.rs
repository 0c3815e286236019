//! Works out the RX and TX clock chain for a sample rate.
use vstd::prelude::*;

use crate::clocks::Ad9361Clock;
use crate::dig_tune::DigTuneFlags;
use crate::engine::{Engine, EngineView, flow, Flow};
use crate::error::Ad9361Error;
use crate::link::{Fault, update};
use crate::math::flag;
use crate::monitor::RssiConfiguration;
use crate::ports::AuxAdcConfig;
use crate::registers::{
    RX_ENABLE_FILTER_CONTROL, RX_FIR_ENABLE_DECIMATION, TX_ENABLE_FILTER_CONTROL,
    TX_FIR_ENABLE_INTERPOLATION,
};
use crate::state::FirState;
use crate::units::HertzU32;
use crate::{
    MAX_ADC_CLK, MAX_BASEBAND_RATE, MAX_BBPLL_FREQ, MAX_DAC_CLK, MAX_RX_HB1, MAX_RX_HB2, MAX_RX_HB3,
    MAX_TX_HB1, MAX_TX_HB2, MAX_TX_HB3, MIN_BBPLL_FREQ,
};

verus! {

/// Lowest ADC rate in Hz.
pub const MIN_ADC_CLK: u64 = 25_000_000;

/// BBPLL rate and the rates along the RX or TX datapath.
///
/// RX: `bbpll -> converter (ADC) -> hb3 (R2) -> hb2 (R1) -> hb1 (CLKRF) -> sample`.
/// TX: `bbpll -> converter (DAC) -> hb3 (T2) -> hb2 (T1) -> hb1 (CLKTF) -> sample`.
///
/// The chip only has certain dividers, so not every combination works. `Ad9361Config::new`
/// checks the limits. [`Self::default_rx`] and [`Self::default_tx`] are for 30.72 MSPS.
#[derive(Debug, Clone, Copy, PartialEq, Eq, Structural)]
pub struct PathClocks {
    pub bbpll: HertzU32,
    /// ADC (RX) / DAC (TX)
    pub converter: HertzU32,
    /// R2 (RX) / T2 (TX)
    pub hb3: HertzU32,
    /// R1 (RX) / T1 (TX)
    pub hb2: HertzU32,
    /// CLKRF (RX) / CLKTF (TX)
    pub hb1: HertzU32,
    /// sample rate
    pub sample: HertzU32,
}

impl PathClocks {
    /// RX path for 30.72 MSPS.
    #[verifier::allow_in_spec]
    pub fn default_rx() -> Self
        returns
            (PathClocks {
                bbpll: HertzU32 { raw: 983_040_000 },
                converter: HertzU32 { raw: 245_760_000 },
                hb3: HertzU32 { raw: 122_880_000 },
                hb2: HertzU32 { raw: 61_440_000 },
                hb1: HertzU32 { raw: 30_720_000 },
                sample: HertzU32 { raw: 30_720_000 },
            }),
    {
        PathClocks {
            bbpll: HertzU32 { raw: 983_040_000 },
            converter: HertzU32 { raw: 245_760_000 },
            hb3: HertzU32 { raw: 122_880_000 },
            hb2: HertzU32 { raw: 61_440_000 },
            hb1: HertzU32 { raw: 30_720_000 },
            sample: HertzU32 { raw: 30_720_000 },
        }
    }

    /// TX path for 30.72 MSPS.
    #[verifier::allow_in_spec]
    pub fn default_tx() -> Self
        returns
            (PathClocks {
                bbpll: HertzU32 { raw: 983_040_000 },
                converter: HertzU32 { raw: 122_880_000 },
                hb3: HertzU32 { raw: 122_880_000 },
                hb2: HertzU32 { raw: 61_440_000 },
                hb1: HertzU32 { raw: 30_720_000 },
                sample: HertzU32 { raw: 30_720_000 },
            }),
    {
        PathClocks {
            bbpll: HertzU32 { raw: 983_040_000 },
            converter: HertzU32 { raw: 122_880_000 },
            hb3: HertzU32 { raw: 122_880_000 },
            hb2: HertzU32 { raw: 61_440_000 },
            hb1: HertzU32 { raw: 30_720_000 },
            sample: HertzU32 { raw: 30_720_000 },
        }
    }

    /// Every rate of an RX path is one the chip can do.
    #[verifier::allow_in_spec]
    pub fn within_rx_limits(&self) -> bool
        returns
            self.bbpll.raw <= MAX_BBPLL_FREQ && self.converter.raw <= MAX_ADC_CLK && self.hb3.raw
                <= MAX_RX_HB3 && self.hb2.raw <= MAX_RX_HB2 && self.hb1.raw <= MAX_RX_HB1
                && self.sample.raw <= MAX_BASEBAND_RATE,
    {
        self.bbpll.raw <= MAX_BBPLL_FREQ && self.converter.raw <= MAX_ADC_CLK && self.hb3.raw
            <= MAX_RX_HB3 && self.hb2.raw <= MAX_RX_HB2 && self.hb1.raw <= MAX_RX_HB1
            && self.sample.raw <= MAX_BASEBAND_RATE
    }

    /// Every rate of a TX path is one the chip can do.
    #[verifier::allow_in_spec]
    pub fn within_tx_limits(&self) -> bool
        returns
            self.bbpll.raw <= MAX_BBPLL_FREQ && self.converter.raw <= MAX_DAC_CLK && self.hb3.raw
                <= MAX_TX_HB3 && self.hb2.raw <= MAX_TX_HB2 && self.hb1.raw <= MAX_TX_HB1
                && self.sample.raw <= MAX_BASEBAND_RATE,
    {
        self.bbpll.raw <= MAX_BBPLL_FREQ && self.converter.raw <= MAX_DAC_CLK && self.hb3.raw
            <= MAX_TX_HB3 && self.hb2.raw <= MAX_TX_HB2 && self.hb1.raw <= MAX_TX_HB1
            && self.sample.raw <= MAX_BASEBAND_RATE
    }
}

/// Rate of DATA_CLK: the RX samples of all channels, I and Q, on one or two edges.
pub open spec fn data_clock(rx: PathClocks, rx2tx2: bool, lvds_mode: bool) -> int {
    rx.sample.raw * (if rx2tx2 {
        4int
    } else {
        2
    }) / (if lvds_mode {
        1int
    } else {
        2
    })
}

/// Less than 4 Hz apart.
pub open spec fn near(rate: int, data_clk: int) -> bool {
    -4 < rate - data_clk < 4
}

/// One of the clocks the chip can send as DATA_CLK: the ADC clock divided by 1, 2 or 3, or the R2
/// clock divided by 2, 4, 8 or 16.
pub open spec fn data_clock_available(rx: PathClocks, data_clk: int) -> bool {
    let adc = rx.converter.raw as int;
    let r2 = rx.hb3.raw as int;
    ||| near(adc, data_clk)
    ||| near(adc / 2, data_clk)
    ||| near(adc / 3, data_clk)
    ||| near(r2 / 2, data_clk)
    ||| near(r2 / 4, data_clk)
    ||| near(r2 / 8, data_clk)
    ||| near(r2 / 16, data_clk)
}

/// Path clocks within the limits, and one of them matches DATA_CLK.
pub open spec fn valid_clock_chain(
    rx: PathClocks,
    tx: PathClocks,
    rx2tx2: bool,
    lvds_mode: bool,
) -> bool {
    let data_clk = data_clock(rx, rx2tx2, lvds_mode);
    &&& lvds_mode || data_clk <= MAX_BASEBAND_RATE
    &&& rx.within_rx_limits()
    &&& tx.within_tx_limits()
    &&& data_clock_available(rx, data_clk)
}

fn is_near(rate: u64, data_clk: u64) -> (b: bool)
    ensures
        b == near(rate as int, data_clk as int),
{
    if rate >= data_clk {
        rate - data_clk < 4
    } else {
        data_clk - rate < 4
    }
}

/// Checks path clocks against the chip's limits and DATA_CLK.
pub fn validate_trx_clock_chain(
    rx: &PathClocks,
    tx: &PathClocks,
    rx2tx2: bool,
    lvds_mode: bool,
) -> (r: Result<(), Fault>)
    ensures
        r is Ok <==> valid_clock_chain(*rx, *tx, rx2tx2, lvds_mode),
        r matches Err(error) ==> error == Fault::InvalidRate,
{
    let sample: u64 = rx.sample.raw as u64;
    let data_clk: u64 = if rx2tx2 && lvds_mode {
        4 * sample
    } else if rx2tx2 || lvds_mode {
        2 * sample
    } else {
        sample
    };
    assert(data_clk == data_clock(*rx, rx2tx2, lvds_mode));

    if !lvds_mode && data_clk > MAX_BASEBAND_RATE as u64 {
        return Err(Ad9361Error::InvalidRate);
    }
    if !rx.within_rx_limits() || !tx.within_tx_limits() {
        return Err(Ad9361Error::InvalidRate);
    }
    let adc: u64 = rx.converter.raw as u64;
    let r2: u64 = rx.hb3.raw as u64;
    if is_near(adc, data_clk) || is_near(adc / 2, data_clk) || is_near(adc / 3, data_clk)
        || is_near(r2 / 2, data_clk) || is_near(r2 / 4, data_clk) || is_near(r2 / 8, data_clk)
        || is_near(r2 / 16, data_clk) {
        Ok(())
    } else {
        Err(Ad9361Error::InvalidRate)
    }
}

/// Total divider off the converter clock, and how it is made up of the R2/T2, R1/T1 and
/// CLKRF/CLKTF dividers.
pub const CLK_DIVIDERS: [[u64; 4]; 7] = [
    [12, 3, 2, 2],
    [8, 2, 2, 2],
    [6, 3, 1, 2],
    [4, 2, 2, 1],
    [3, 3, 1, 1],
    [2, 2, 1, 1],
    [1, 1, 1, 1],
];

/// The rates a clock chain is made for.
pub struct ChainRates {
    /// rate at the RX decimators' end, CLKRF
    pub clkrf: u64,
    /// rate at the TX interpolators' start, CLKTF
    pub clktf: u64,
    /// RX sample rate times RX FIR decimation, without the doubling of the RX rate
    pub rx_fir: u64,
}

impl ChainRates {
    pub open spec fn wf(self) -> bool {
        &&& 0 < self.clkrf <= 0x4000_0000
        &&& 0 < self.clktf <= 0x4000_0000
        &&& self.rx_fir <= 0x4000_0000
    }

    /// ADC rate with the dividers in row `i`.
    pub open spec fn adc(self, i: int) -> int {
        self.clkrf * CLK_DIVIDERS[i][0]
    }

    /// Whether the ADC can run with the dividers in row `i`.
    pub open spec fn adc_fits(self, i: int) -> bool {
        MIN_ADC_CLK <= self.adc(i) <= MAX_ADC_CLK
    }

    /// First row from `from` on with which the ADC can run. 7 if there is none.
    pub open spec fn first_fit(self, from: int) -> int
        decreases 7 - from,
    {
        if from >= 7 {
            7
        } else if self.adc_fits(from) {
            from
        } else {
            self.first_fit(from + 1)
        }
    }

    /// CLKRF over CLKTF, or, negative, CLKTF over CLKRF. Rounded down.
    pub open spec fn ratio(self) -> int {
        if self.clktf > self.clkrf {
            -(self.clktf as int / self.clkrf as int)
        } else {
            self.clkrf as int / self.clktf as int
        }
    }

    /// Where the TX row is looked for with RX row `i`. Outside 0..=6 the row is not used.
    pub open spec fn nominal_tx_row(self, i: int) -> int {
        let shift = if self.ratio() == 1 {
            0
        } else {
            self.ratio()
        };
        if self.adc(i) <= MAX_DAC_CLK {
            i - shift
        } else if i == 4 && self.ratio() >= 0 {
            7
        } else if i == 5 && self.ratio() >= 0 {
            i + 1 - shift
        } else {
            i + 2 - shift
        }
    }

    /// First row from `from` on that takes a DAC rate down to CLKTF. 7 if there is none.
    pub open spec fn row_for(self, dac: int, from: int) -> int
        decreases 7 - from,
    {
        if from >= 7 {
            7
        } else if dac == self.clktf * CLK_DIVIDERS[from][0] {
            from
        } else {
            self.row_for(dac, from + 1)
        }
    }

    /// TX row that goes with RX row `i`: the one that takes the DAC rate down to CLKTF. 7 if there
    /// is none.
    pub open spec fn tx_row(self, i: int) -> int {
        if 0 <= self.nominal_tx_row(i) <= 6 {
            self.row_for(self.dac(i), 0)
        } else {
            7
        }
    }

    /// RX and TX rows for a rate governor: where no TX row goes with the RX row, the next governor
    /// is tried. A governor of 1 falls back to 0 at rates too low for the ADC, and nothing is
    /// tried after that.
    pub open spec fn rows(self, gov: int) -> Option<(int, int)>
        decreases 8 - gov,
    {
        let low = gov == 1 && self.rx_fir * 8 < MIN_ADC_CLK;
        let start = if low {
            0
        } else {
            gov
        };
        let rx_row = self.first_fit(start);
        if rx_row < 7 && self.tx_row(rx_row) < 7 {
            Some((rx_row, self.tx_row(rx_row)))
        } else if gov < 7 && !low {
            self.rows(gov + 1)
        } else {
            None
        }
    }

    /// DAC rate that goes with RX row `i`: the one of the ADC, or half of it where that is too
    /// much for the DAC.
    pub open spec fn dac(self, i: int) -> int {
        if self.adc(i) <= MAX_DAC_CLK {
            self.adc(i)
        } else {
            self.adc(i) / 2
        }
    }
}

/// Highest BBPLL rate that is a power of two, 64 at most, times the ADC rate.
pub open spec fn bbpll_for(adc: int) -> int {
    if adc * 64 <= MAX_BBPLL_FREQ {
        adc * 64
    } else if adc * 32 <= MAX_BBPLL_FREQ {
        adc * 32
    } else if adc * 16 <= MAX_BBPLL_FREQ {
        adc * 16
    } else if adc * 8 <= MAX_BBPLL_FREQ {
        adc * 8
    } else if adc * 4 <= MAX_BBPLL_FREQ {
        adc * 4
    } else {
        adc * 2
    }
}

/// The path from a converter rate through the dividers of a row.
pub open spec fn divided_path(bbpll: int, converter: int, row: int, fir: int) -> PathClocks {
    let d = CLK_DIVIDERS[row];
    let hb3 = converter / d[1] as int;
    let hb2 = hb3 / d[2] as int;
    let hb1 = hb2 / d[3] as int;
    PathClocks {
        bbpll: HertzU32 { raw: bbpll as u32 },
        converter: HertzU32 { raw: converter as u32 },
        hb3: HertzU32 { raw: hb3 as u32 },
        hb2: HertzU32 { raw: hb2 as u32 },
        hb1: HertzU32 { raw: hb1 as u32 },
        sample: HertzU32 { raw: (hb1 / fir) as u32 },
    }
}

/// RX and TX path clocks for a TX sample rate.
pub open spec fn clock_chain(
    rate: u32,
    gov: u32,
    rx_fir: u32,
    tx_fir: u32,
    rx_doubled: bool,
) -> Option<(PathClocks, PathClocks)> {
    if rate == 0 || rate > MAX_BASEBAND_RATE {
        None
    } else {
        let rates = chain_rates(rate, rx_fir, tx_fir, rx_doubled);
        match rates.rows(gov as int) {
            None => None,
            Some((rx_row, tx_row)) => {
                let adc = rates.adc(rx_row);
                Some(
                    (
                        divided_path(bbpll_for(adc), adc, rx_row, rx_fir as int),
                        divided_path(bbpll_for(adc), rates.dac(rx_row), tx_row, tx_fir as int),
                    ),
                )
            },
        }
    }
}

/// The rates a chain for a TX sample rate has to make.
pub open spec fn chain_rates(rate: u32, rx_fir: u32, tx_fir: u32, rx_doubled: bool) -> ChainRates {
    ChainRates {
        clkrf: (rate * rx_fir * (if rx_doubled {
            2int
        } else {
            1
        })) as u64,
        clktf: (rate * tx_fir) as u64,
        rx_fir: (rate * rx_fir) as u64,
    }
}

impl ChainRates {
    /// The rows never grow past the table.
    proof fn lemma_first_fit(self, from: int)
        requires
            0 <= from,
        ensures
            from < 7 ==> from <= self.first_fit(from) <= 7,
            from >= 7 ==> self.first_fit(from) == 7,
            self.first_fit(from) < 7 ==> self.adc_fits(self.first_fit(from)),
        decreases 7 - from,
    {
        if from < 7 {
            self.lemma_first_fit(from + 1);
        }
    }

    /// A row that was found takes the DAC rate down to CLKTF.
    proof fn lemma_row_for(self, dac: int, from: int)
        requires
            0 <= from,
        ensures
            from < 7 ==> from <= self.row_for(dac, from) <= 7,
            self.row_for(dac, from) < 7 ==> dac == self.clktf * CLK_DIVIDERS[self.row_for(
                dac,
                from,
            )][0],
        decreases 7 - from,
    {
        if from < 7 {
            self.lemma_row_for(dac, from + 1);
        }
    }

    /// RX and TX rows that were found are rows of the table, the ADC can run with them, and the TX
    /// row takes the DAC rate down to CLKTF.
    proof fn lemma_rows(self, gov: int)
        requires
            0 <= gov,
        ensures
            self.rows(gov) matches Some((rx_row, tx_row)) ==> {
                &&& 0 <= rx_row <= 6
                &&& tx_row == self.tx_row(rx_row)
                &&& 0 <= tx_row <= 6
                &&& self.adc_fits(rx_row)
                &&& self.dac(rx_row) == self.clktf * CLK_DIVIDERS[tx_row][0]
            },
        decreases 8 - gov,
    {
        self.lemma_first_fit(0);
        self.lemma_first_fit(gov);
        if let Some((rx_row, tx_row)) = self.rows(gov) {
            self.lemma_row_for(self.dac(rx_row), 0);
        }
        if gov < 7 {
            self.lemma_rows(gov + 1);
        }
    }

    fn find_fit(&self, from: usize) -> (row: usize)
        requires
            self.wf(),
            from <= 7,
        ensures
            row == self.first_fit(from as int),
            row <= 7,
    {
        let mut i: usize = from;
        while i < 7
            invariant
                self.wf(),
                i <= 7,
                self.first_fit(i as int) == self.first_fit(from as int),
            ensures
                i <= 7,
                i == self.first_fit(from as int),
            decreases 7 - i,
        {
            let divider: u64 = CLK_DIVIDERS[i][0];
            proof {
                lemma_divider_sizes(i as int);
                assert(self.clkrf * divider <= 0x4000_0000 * 12) by (nonlinear_arith)
                    requires
                        self.clkrf <= 0x4000_0000,
                        divider <= 12,
                ;
            }
            let adc: u64 = self.clkrf * divider;
            if adc >= MIN_ADC_CLK && adc <= MAX_ADC_CLK as u64 {
                break ;
            }
            i = i + 1;
        }
        i
    }

    fn find_row(&self, dac: u64) -> (row: usize)
        requires
            self.wf(),
        ensures
            row == self.row_for(dac as int, 0),
            row <= 7,
    {
        let mut j: usize = 0;
        while j < 7
            invariant
                self.wf(),
                j <= 7,
                self.row_for(dac as int, j as int) == self.row_for(dac as int, 0),
            ensures
                j <= 7,
                j == self.row_for(dac as int, 0),
            decreases 7 - j,
        {
            let divider: u64 = CLK_DIVIDERS[j][0];
            proof {
                lemma_divider_sizes(j as int);
                assert(self.clktf * divider <= 0x4000_0000 * 12) by (nonlinear_arith)
                    requires
                        self.clktf <= 0x4000_0000,
                        divider <= 12,
                ;
            }
            if dac == self.clktf * divider {
                break ;
            }
            j = j + 1;
        }
        j
    }

    fn find_tx_row(&self, i: usize) -> (row: usize)
        requires
            self.wf(),
            i < 7,
        ensures
            row == self.tx_row(i as int),
            row <= 7,
    {
        let divider: u64 = CLK_DIVIDERS[i][0];
        proof {
            lemma_divider_sizes(i as int);
            assert(self.clkrf * divider <= 0x4000_0000 * 12) by (nonlinear_arith)
                requires
                    self.clkrf <= 0x4000_0000,
                    divider <= 12,
            ;
        }
        let adc: u64 = self.clkrf * divider;
        let ratio: i64 = if self.clktf > self.clkrf {
            proof {
                assert(0 <= self.clktf as int / self.clkrf as int <= self.clktf)
                    by (nonlinear_arith)
                    requires
                        self.clkrf >= 1,
                        self.clktf >= 0,
                ;
            }
            -((self.clktf / self.clkrf) as i64)
        } else {
            proof {
                assert(0 <= self.clkrf as int / self.clktf as int <= self.clkrf)
                    by (nonlinear_arith)
                    requires
                        self.clktf >= 1,
                        self.clkrf >= 0,
                ;
            }
            (self.clkrf / self.clktf) as i64
        };
        let shift: i64 = if ratio == 1 {
            0
        } else {
            ratio
        };
        let nominal: i64 = if adc <= MAX_DAC_CLK as u64 {
            i as i64 - shift
        } else if i == 4 && ratio >= 0 {
            // 3/2 != 1
            7
        } else if i == 5 && ratio >= 0 {
            i as i64 + 1 - shift
        } else {
            i as i64 + 2 - shift
        };
        if nominal < 0 || nominal > 6 {
            return 7;
        }
        self.find_row(
            if adc <= MAX_DAC_CLK as u64 {
                adc
            } else {
                adc / 2
            },
        )
    }

    fn find_rows(&self, rate_gov: u32) -> (rows: Option<(usize, usize)>)
        requires
            self.wf(),
        ensures
            match rows {
                None => self.rows(rate_gov as int) is None,
                Some((rx_row, tx_row)) => self.rows(rate_gov as int) == Some(
                    (rx_row as int, tx_row as int),
                ) && rx_row <= 6 && tx_row <= 6,
            },
    {
        let mut gov: u32 = rate_gov;
        loop
            invariant
                self.wf(),
                gov >= rate_gov,
                self.rows(gov as int) == self.rows(rate_gov as int),
            decreases 8 - gov,
        {
            proof {
                self.lemma_first_fit(gov as int);
                self.lemma_first_fit(0);
            }
            let low = gov == 1 && self.rx_fir * 8 < MIN_ADC_CLK;
            let start: u32 = if low {
                0
            } else if gov > 7 {
                7
            } else {
                gov
            };
            let rx_row: usize = self.find_fit(start as usize);
            if rx_row < 7 {
                let tx_row: usize = self.find_tx_row(rx_row);
                if tx_row < 7 {
                    return Some((rx_row, tx_row));
                }
            }
            if gov < 7 && !low {
                gov = gov + 1;
                continue ;
            }
            return None;
        }
    }
}

/// The rows of the divider table hold small numbers.
pub(crate) proof fn lemma_divider_sizes(i: int)
    requires
        0 <= i <= 6,
    ensures
        1 <= CLK_DIVIDERS[i][0] <= 12,
        1 <= CLK_DIVIDERS[i][1] <= 3,
        1 <= CLK_DIVIDERS[i][2] <= 2,
        1 <= CLK_DIVIDERS[i][3] <= 2,
{
    assert(CLK_DIVIDERS@ == seq![
        [12u64, 3, 2, 2],
        [8u64, 2, 2, 2],
        [6u64, 3, 1, 2],
        [4u64, 2, 2, 1],
        [3u64, 3, 1, 1],
        [2u64, 2, 1, 1],
        [1u64, 1, 1, 1],
    ]);
}

/// RX and TX path clocks for a TX sample rate, with the FIR factors given. `rate_gov` 0 is the
/// highest oversampling, 1 the nominal one.
pub fn rf_clock_chain(
    tx_sample_rate: HertzU32,
    rate_gov: u32,
    rx_fir: u32,
    tx_fir: u32,
    rx_doubled: bool,
) -> (chain: Option<(PathClocks, PathClocks)>)
    requires
        1 <= rx_fir <= 4,
        1 <= tx_fir <= 4,
    ensures
        chain == clock_chain(tx_sample_rate.raw, rate_gov, rx_fir, tx_fir, rx_doubled),
        chain matches Some((rx, tx)) ==> ends_at(
            rx,
            tx,
            tx_sample_rate.raw,
            rx_fir,
            tx_fir,
            rx_doubled,
        ),
{
    proof {
        law_clock_chain(tx_sample_rate.raw, rate_gov, rx_fir, tx_fir, rx_doubled);
    }
    let rate: u64 = tx_sample_rate.raw as u64;
    if rate > MAX_BASEBAND_RATE as u64 || rate == 0 {
        return None;
    }
    proof {
        assert(0 < rate * rx_fir <= 0x2000_0000 && 0 < rate * tx_fir <= 0x2000_0000)
            by (nonlinear_arith)
            requires
                0 < rate <= 61_440_000,
                1 <= rx_fir <= 4,
                1 <= tx_fir <= 4,
        ;
    }
    let rx_rate: u64 = rate * rx_fir as u64;
    let rates = ChainRates {
        clkrf: if rx_doubled {
            rx_rate * 2
        } else {
            rx_rate
        },
        clktf: rate * tx_fir as u64,
        rx_fir: rx_rate,
    };
    assert(rates == chain_rates(tx_sample_rate.raw, rx_fir, tx_fir, rx_doubled));
    match rates.find_rows(rate_gov) {
        None => None,
        Some((rx_row, tx_row)) => {
            proof {
                rates.lemma_rows(rate_gov as int);
                lemma_divider_sizes(rx_row as int);
            }
            let adc: u64 = rates.clkrf * CLK_DIVIDERS[rx_row][0];
            let dac: u64 = if adc <= MAX_DAC_CLK as u64 {
                adc
            } else {
                adc / 2
            };
            let bbpll: u64 = pick_bbpll(adc);
            Some((pick_path(bbpll, adc, rx_row, rx_fir), pick_path(bbpll, dac, tx_row, tx_fir)))
        },
    }
}

fn pick_bbpll(adc: u64) -> (bbpll: u64)
    requires
        adc <= MAX_ADC_CLK,
    ensures
        bbpll == bbpll_for(adc as int),
{
    let mut multiple: u64 = 64;
    while adc * multiple > MAX_BBPLL_FREQ as u64 && multiple > 2
        invariant
            adc <= MAX_ADC_CLK,
            multiple == 64 || multiple == 32 || multiple == 16 || multiple == 8 || multiple == 4
                || multiple == 2,
            multiple <= 32 ==> adc * 64 > MAX_BBPLL_FREQ,
            multiple <= 16 ==> adc * 32 > MAX_BBPLL_FREQ,
            multiple <= 8 ==> adc * 16 > MAX_BBPLL_FREQ,
            multiple <= 4 ==> adc * 8 > MAX_BBPLL_FREQ,
            multiple <= 2 ==> adc * 4 > MAX_BBPLL_FREQ,
        decreases multiple,
    {
        multiple = multiple / 2;
    }
    adc * multiple
}

fn pick_path(bbpll: u64, converter: u64, row: usize, fir: u32) -> (path: PathClocks)
    requires
        row <= 6,
        fir >= 1,
    ensures
        path == divided_path(bbpll as int, converter as int, row as int, fir as int),
{
    proof {
        lemma_divider_sizes(row as int);
    }
    let hb3: u64 = converter / CLK_DIVIDERS[row][1];
    let hb2: u64 = hb3 / CLK_DIVIDERS[row][2];
    let hb1: u64 = hb2 / CLK_DIVIDERS[row][3];
    PathClocks {
        bbpll: HertzU32 { raw: bbpll as u32 },
        converter: HertzU32 { raw: converter as u32 },
        hb3: HertzU32 { raw: hb3 as u32 },
        hb2: HertzU32 { raw: hb2 as u32 },
        hb1: HertzU32 { raw: hb1 as u32 },
        sample: HertzU32 { raw: (hb1 / fir as u64) as u32 },
    }
}

proof fn lemma_divider_table()
    ensures
        CLK_DIVIDERS@ == seq![
            [12u64, 3, 2, 2],
            [8u64, 2, 2, 2],
            [6u64, 3, 1, 2],
            [4u64, 2, 2, 1],
            [3u64, 3, 1, 1],
            [2u64, 2, 1, 1],
            [1u64, 1, 1, 1],
        ],
{
}

/// The dividers of a row take a converter rate of `clk` times the row's total down to exactly
/// `clk`, and the FIR takes `rate` times its factor down to exactly `rate`.
proof fn lemma_row_divides(clk: int, row: int, rate: int, fir: int)
    requires
        0 <= clk,
        0 <= row <= 6,
        0 < fir,
        clk == rate * fir,
    ensures
        (clk * CLK_DIVIDERS[row][0]) / CLK_DIVIDERS[row][1] as int / CLK_DIVIDERS[row][2] as int
            / CLK_DIVIDERS[row][3] as int == clk,
        clk / fir == rate,
{
    lemma_divider_table();
    let total = CLK_DIVIDERS[row][0] as int;
    let (d1, d2, d3) = (
        CLK_DIVIDERS[row][1] as int,
        CLK_DIVIDERS[row][2] as int,
        CLK_DIVIDERS[row][3] as int,
    );
    assert(total == d1 * (d2 * d3)) by {
        assert(d2 == 1 ==> d2 * d3 == d3) by (nonlinear_arith);
        assert(d2 == 2 ==> d2 * d3 == 2 * d3) by (nonlinear_arith);
        let rest = d2 * d3;
        assert(d1 == 1 ==> d1 * rest == rest) by (nonlinear_arith);
        assert(d1 == 2 ==> d1 * rest == 2 * rest) by (nonlinear_arith);
        assert(d1 == 3 ==> d1 * rest == 3 * rest) by (nonlinear_arith);
    }
    assert(clk * total == d1 * (d2 * (d3 * clk))) by (nonlinear_arith)
        requires
            total == d1 * (d2 * d3),
    ;
    vstd::arithmetic::div_mod::lemma_div_multiples_vanish(d2 * (d3 * clk), d1);
    vstd::arithmetic::div_mod::lemma_div_multiples_vanish(d3 * clk, d2);
    vstd::arithmetic::div_mod::lemma_div_multiples_vanish(clk, d3);
    vstd::arithmetic::div_mod::lemma_div_multiples_vanish(rate, fir);
    vstd::arithmetic::mul::lemma_mul_is_commutative(rate, fir);
}

/// A path that was divided down by a row follows it.
proof fn lemma_path_follows_row(bbpll: int, converter: int, row: int, fir: u32)
    requires
        0 <= converter <= u32::MAX,
        0 <= row <= 6,
        fir > 0,
    ensures
        follows_row(divided_path(bbpll, converter, row, fir as int), row, fir),
{
    lemma_divider_sizes(row);
    let d = CLK_DIVIDERS[row];
    let hb3 = converter / d[1] as int;
    let hb2 = hb3 / d[2] as int;
    let hb1 = hb2 / d[3] as int;
    assert forall|a: int, b: int| a >= 0 && b >= 1 implies 0 <= #[trigger] (a / b) <= a by {
        vstd::arithmetic::div_mod::lemma_div_pos_is_pos(a, b);
        vstd::arithmetic::div_mod::lemma_div_is_ordered_by_denominator(a, 1, b);
    }
}

/// What the chain's rates are made of.
proof fn lemma_chain_rates(rate: u32, rx_fir: u32, tx_fir: u32, rx_doubled: bool)
    requires
        0 < rate <= MAX_BASEBAND_RATE,
        1 <= rx_fir <= 4,
        1 <= tx_fir <= 4,
    ensures
        ({
            let rates = chain_rates(rate, rx_fir, tx_fir, rx_doubled);
            let rx_rate = rate * (if rx_doubled {
                2int
            } else {
                1
            });
            &&& rates.clkrf == rx_rate * rx_fir
            &&& rates.clktf == rate * tx_fir
            &&& 0 < rates.clkrf <= 0x4000_0000
            &&& 0 < rates.clktf <= 0x4000_0000
        }),
{
    assert(0 < rate * rx_fir <= 0x2000_0000 && 0 < rate * tx_fir <= 0x2000_0000)
        by (nonlinear_arith)
        requires
            0 < rate <= 61_440_000,
            1 <= rx_fir <= 4,
            1 <= tx_fir <= 4,
    ;
    assert((rate * 2) * rx_fir == (rate * rx_fir) * 2) by (nonlinear_arith);
}

/// Whether a clock chain ends at the sample rates it was made for, and the FIRs' other ends are at
/// these rates times their factors.
pub open spec fn ends_at(
    rx: PathClocks,
    tx: PathClocks,
    rate: u32,
    rx_fir: u32,
    tx_fir: u32,
    rx_doubled: bool,
) -> bool {
    &&& tx.sample.raw == rate
    &&& rx.sample.raw == rate * (if rx_doubled {
        2int
    } else {
        1
    })
    &&& rx.hb1.raw == rx.sample.raw * rx_fir
    &&& tx.hb1.raw == tx.sample.raw * tx_fir
}

/// Whether the clocks of a path come one off the other by the dividers of a row.
pub open spec fn follows_row(path: PathClocks, row: int, fir: u32) -> bool {
    &&& 0 <= row <= 6
    &&& path.hb3.raw == path.converter.raw / CLK_DIVIDERS[row][1] as u32
    &&& path.hb2.raw == path.hb3.raw / CLK_DIVIDERS[row][2] as u32
    &&& path.hb1.raw == path.hb2.raw / CLK_DIVIDERS[row][3] as u32
    &&& path.sample.raw == path.hb1.raw / fir
}

/// The clock chain for a rate, where there is one: all clocks come off one BBPLL rate within the
/// BBPLL's limits, which is a multiple of the ADC rate, and the ADC and DAC rates are within
/// theirs. From there on each path goes by the dividers of one row. The TX chain ends at exactly the requested rate. So does the RX chain, or at exactly
/// twice that where RX runs at twice the TX rate. CLKRF and CLKTF are these rates times what the
/// FIRs make of them.
pub proof fn law_clock_chain(rate: u32, gov: u32, rx_fir: u32, tx_fir: u32, rx_doubled: bool)
    requires
        1 <= rx_fir <= 4,
        1 <= tx_fir <= 4,
    ensures
        clock_chain(rate, gov, rx_fir, tx_fir, rx_doubled) matches Some((rx, tx)) ==> {
            &&& rx.bbpll == tx.bbpll
            &&& MIN_BBPLL_FREQ <= rx.bbpll.raw <= MAX_BBPLL_FREQ
            &&& rx.bbpll.raw % rx.converter.raw == 0
            &&& MIN_ADC_CLK <= rx.converter.raw <= MAX_ADC_CLK
            &&& tx.converter.raw <= MAX_DAC_CLK
            &&& tx.converter == rx.converter || tx.converter.raw == rx.converter.raw / 2
            &&& exists|row: int| #[trigger] follows_row(rx, row, rx_fir)
            &&& exists|row: int| #[trigger] follows_row(tx, row, tx_fir)
            &&& ends_at(rx, tx, rate, rx_fir, tx_fir, rx_doubled)
        },
{
    if clock_chain(rate, gov, rx_fir, tx_fir, rx_doubled) is Some {
        let rates = chain_rates(rate, rx_fir, tx_fir, rx_doubled);
        lemma_chain_rates(rate, rx_fir, tx_fir, rx_doubled);
        rates.lemma_rows(gov as int);
        let (rx_row, tx_row) = rates.rows(gov as int)->0;
        let rx_rate = rate * (if rx_doubled {
            2int
        } else {
            1
        });
        lemma_row_divides(rates.clkrf as int, rx_row, rx_rate, rx_fir as int);
        lemma_row_divides(rates.clktf as int, tx_row, rate as int, tx_fir as int);
        let (rx, tx) = clock_chain(rate, gov, rx_fir, tx_fir, rx_doubled)->0;
        lemma_divider_sizes(rx_row);
        lemma_divider_sizes(tx_row);
        lemma_path_follows_row(
            bbpll_for(rates.adc(rx_row)),
            rates.adc(rx_row),
            rx_row,
            rx_fir,
        );
        lemma_path_follows_row(
            bbpll_for(rates.adc(rx_row)),
            rates.dac(rx_row),
            tx_row,
            tx_fir,
        );
        let adc = rates.adc(rx_row);
        assert(adc % adc == 0 && (2 * adc) % adc == 0 && (4 * adc) % adc == 0 && (8 * adc) % adc
            == 0 && (16 * adc) % adc == 0 && (32 * adc) % adc == 0 && (64 * adc) % adc == 0) by {
            vstd::arithmetic::div_mod::lemma_mod_multiples_basic(1, adc);
            vstd::arithmetic::div_mod::lemma_mod_multiples_basic(2, adc);
            vstd::arithmetic::div_mod::lemma_mod_multiples_basic(4, adc);
            vstd::arithmetic::div_mod::lemma_mod_multiples_basic(8, adc);
            vstd::arithmetic::div_mod::lemma_mod_multiples_basic(16, adc);
            vstd::arithmetic::div_mod::lemma_mod_multiples_basic(32, adc);
            vstd::arithmetic::div_mod::lemma_mod_multiples_basic(64, adc);
        }
    }
}

impl EngineView {
    /// Clock chain for a TX sample rate with the current filters.
    pub open spec fn chain_for(self, freq: HertzU32, rate_gov: u32) -> Option<
        (PathClocks, PathClocks),
    > {
        clock_chain(
            freq.raw,
            rate_gov,
            self.state.v.fir.rx_decimation(),
            self.state.v.fir.tx_interpolation(),
            self.state.v.mode.pp_conf3.fdd_rx_rate_2tx_rate,
        )
    }

    /// Sets the clocks along both datapaths, from the converters down.
    #[verifier::opaque]
    pub open spec fn set_path_rates(self, rx: PathClocks, tx: PathClocks) -> Flow {
        self.set_clock_rate(Ad9361Clock::Adc, rx.converter).set_clock_rate(
            Ad9361Clock::Dac,
            tx.converter,
        ).set_clock_rate(Ad9361Clock::R2, rx.hb3).set_clock_rate(
            Ad9361Clock::T2,
            tx.hb3,
        ).set_clock_rate(Ad9361Clock::R1, rx.hb2).set_clock_rate(
            Ad9361Clock::T1,
            tx.hb2,
        ).set_clock_rate(Ad9361Clock::ClkRf, rx.hb1).set_clock_rate(
            Ad9361Clock::ClkTf,
            tx.hb1,
        ).set_clock_rate(Ad9361Clock::RxSampl, rx.sample).set_clock_rate(
            Ad9361Clock::TxSampl,
            tx.sample,
        )
    }

    /// Enables or bypasses the FIRs that don't change a rate.
    #[verifier::opaque]
    pub open spec fn refresh_unit_firs(self) -> Flow {
        let fir = self.state.v.fir;
        let rx = if fir.rx_decimation() == 1 {
            self.run(
                [
                    update(
                        RX_ENABLE_FILTER_CONTROL,
                        RX_FIR_ENABLE_DECIMATION,
                        flag(!fir.rx_bypassed(), 1),
                    ),
                ]@,
            )
        } else {
            self.start()
        };
        if fir.tx_interpolation() == 1 {
            rx.run(
                [
                    update(
                        TX_ENABLE_FILTER_CONTROL,
                        TX_FIR_ENABLE_INTERPOLATION,
                        flag(!fir.tx_bypassed(), 1),
                    ),
                ]@,
            )
        } else {
            rx
        }
    }

    /// Sets the BBPLL and the datapath clocks, if they are within the limits. No digital interface
    /// tuning.
    #[verifier::opaque]
    pub open spec fn apply_trx_clock_chain(self, rx: PathClocks, tx: PathClocks) -> Flow {
        let mode = self.state.v.mode;
        if !valid_clock_chain(rx, tx, mode.rx2tx2, mode.lvds_mode) {
            self.fail(Ad9361Error::InvalidRate)
        } else {
            self.set_bbpll_rate(rx.bbpll).set_path_rates(rx, tx).refresh_unit_firs()
        }
    }

    /// Sets the BBPLL and the datapath clocks. Tunes the digital interface if a FIR is on, since
    /// that shifts its timing, and carries on whatever came of that. Then refreshes what depends
    /// on the rates.
    #[verifier::opaque]
    pub open spec fn set_trx_clock_chain(self, rx: PathClocks, tx: PathClocks) -> Flow {
        let applied = self.apply_trx_clock_chain(rx, tx);
        if applied.err is Some {
            applied
        } else {
            let st = applied.e.state.v;
            if !st.tune.dig_interface_tune_fir_disable && !(st.fir.tx_bypassed()
                && st.fir.rx_bypassed()) {
                applied.e.dig_tune(
                    HertzU32 { raw: 0 },
                    DigTuneFlags { restore_default: false, skip_store_result: true },
                ).e.bb_clk_change_handler()
            } else {
                applied.e.bb_clk_change_handler()
            }
        }
    }

    /// Refreshes everything that depends on the baseband rates. No retuning.
    #[verifier::opaque]
    pub open spec fn bb_clk_update(self) -> Flow {
        let cal = self.state.v.cal;
        self.gc_update().rssi_setup(cal.rssi_ctrl, true).auxadc_setup(cal.auxadc_config)
    }

    /// [`Self::bb_clk_update`], then a retune where that is wanted.
    #[verifier::opaque]
    pub open spec fn bb_clk_change_handler(self) -> Flow {
        let updated = self.bb_clk_update();
        if self.state.v.tune.bb_clk_change_dig_tune_en {
            updated.dig_tune(HertzU32 { raw: 0 }, DigTuneFlags { restore_default: true, skip_store_result: false })
        } else {
            updated
        }
    }

    /// Works out the clock chain for a TX sample rate and sets it.
    #[verifier::opaque]
    pub open spec fn set_trx_clock_chain_freq(self, freq: HertzU32) -> Flow {
        match self.chain_for(freq, self.state.v.clk.rate_governor) {
            None => self.fail(Ad9361Error::InvalidRate),
            Some(chain) => self.set_trx_clock_chain(chain.0, chain.1),
        }
    }

    /// The same without digital interface tuning.
    #[verifier::opaque]
    pub open spec fn set_trx_clock_chain_freq_no_tune(self, freq: HertzU32) -> Flow {
        match self.chain_for(freq, self.state.v.clk.rate_governor) {
            None => self.fail(Ad9361Error::InvalidRate),
            Some(chain) => self.apply_trx_clock_chain(chain.0, chain.1).bb_clk_update(),
        }
    }
}

/// The same steps, after others.
impl Flow {
    pub open spec fn set_path_rates(self, rx: PathClocks, tx: PathClocks) -> Flow {
        if self.err is Some {
            self
        } else {
            self.e.set_path_rates(rx, tx)
        }
    }

    pub open spec fn refresh_unit_firs(self) -> Flow {
        if self.err is Some {
            self
        } else {
            self.e.refresh_unit_firs()
        }
    }

    pub open spec fn apply_trx_clock_chain(self, rx: PathClocks, tx: PathClocks) -> Flow {
        if self.err is Some {
            self
        } else {
            self.e.apply_trx_clock_chain(rx, tx)
        }
    }

    pub open spec fn set_trx_clock_chain(self, rx: PathClocks, tx: PathClocks) -> Flow {
        if self.err is Some {
            self
        } else {
            self.e.set_trx_clock_chain(rx, tx)
        }
    }

    pub open spec fn bb_clk_update(self) -> Flow {
        if self.err is Some {
            self
        } else {
            self.e.bb_clk_update()
        }
    }

    pub open spec fn bb_clk_change_handler(self) -> Flow {
        if self.err is Some {
            self
        } else {
            self.e.bb_clk_change_handler()
        }
    }

    pub open spec fn set_trx_clock_chain_freq(self, freq: HertzU32) -> Flow {
        if self.err is Some {
            self
        } else {
            self.e.set_trx_clock_chain_freq(freq)
        }
    }

    pub open spec fn set_trx_clock_chain_freq_no_tune(self, freq: HertzU32) -> Flow {
        if self.err is Some {
            self
        } else {
            self.e.set_trx_clock_chain_freq_no_tune(freq)
        }
    }
}

/// Clocks beyond the limits, or a rate that no chain makes, are refused before anything is sent.
pub proof fn law_bad_clocks_send_nothing(
    e: EngineView,
    rx: PathClocks,
    tx: PathClocks,
    freq: HertzU32,
)
    ensures
        !valid_clock_chain(rx, tx, e.state.v.mode.rx2tx2, e.state.v.mode.lvds_mode)
            ==> e.set_trx_clock_chain(rx, tx) == e.fail(Ad9361Error::InvalidRate),
        e.chain_for(freq, e.state.v.clk.rate_governor) is None ==> e.set_trx_clock_chain_freq(freq)
            == e.fail(Ad9361Error::InvalidRate),
{
    reveal(EngineView::set_trx_clock_chain);
    reveal(EngineView::apply_trx_clock_chain);
    reveal(EngineView::set_trx_clock_chain_freq);
}

impl<'a> Engine<'a> {
    /// RX and TX path clocks for a TX sample rate. `rate_gov` 0 = highest oversampling,
    /// 1 = nominal.
    pub fn calculate_rf_clock_chain(&self, tx_sample_rate: HertzU32, rate_gov: u32) -> (r: Result<
        (PathClocks, PathClocks),
        Fault,
    >)
        ensures
            match self@.chain_for(tx_sample_rate, rate_gov) {
                Some(chain) => r == Ok::<(PathClocks, PathClocks), Fault>(chain),
                None => r == Err::<(PathClocks, PathClocks), Fault>(Ad9361Error::InvalidRate),
            },
            r matches Ok((rx, tx)) ==> ends_at(
                rx,
                tx,
                tx_sample_rate.raw,
                self@.state.v.fir.rx_decimation(),
                self@.state.v.fir.tx_interpolation(),
                self@.state.v.mode.pp_conf3.fdd_rx_rate_2tx_rate,
            ),
    {
        match rf_clock_chain(
            tx_sample_rate,
            rate_gov,
            self.state.v.fir.rx_decimation(),
            self.state.v.fir.tx_interpolation(),
            self.state.v.mode.pp_conf3.fdd_rx_rate_2tx_rate,
        ) {
            Some(chain) => Ok(chain),
            None => Err(Ad9361Error::InvalidRate),
        }
    }

    fn set_path_rates(&mut self, rx: &PathClocks, tx: &PathClocks) -> (r: Result<(), Fault>)
        ensures
            flow(final(self)@, r) == old(self)@.set_path_rates(*rx, *tx),
    {
        reveal(EngineView::set_path_rates);
        self.set_clock_rate(Ad9361Clock::Adc, rx.converter)?;
        self.set_clock_rate(Ad9361Clock::Dac, tx.converter)?;
        self.set_clock_rate(Ad9361Clock::R2, rx.hb3)?;
        self.set_clock_rate(Ad9361Clock::T2, tx.hb3)?;
        self.set_clock_rate(Ad9361Clock::R1, rx.hb2)?;
        self.set_clock_rate(Ad9361Clock::T1, tx.hb2)?;
        self.set_clock_rate(Ad9361Clock::ClkRf, rx.hb1)?;
        self.set_clock_rate(Ad9361Clock::ClkTf, tx.hb1)?;
        self.set_clock_rate(Ad9361Clock::RxSampl, rx.sample)?;
        self.set_clock_rate(Ad9361Clock::TxSampl, tx.sample)
    }

    fn refresh_unit_firs(&mut self) -> (r: Result<(), Fault>)
        ensures
            flow(final(self)@, r) == old(self)@.refresh_unit_firs(),
    {
        reveal(EngineView::refresh_unit_firs);
        let fir: FirState = self.state.v.fir;
        // the rates don't change when such a FIR gets enabled or bypassed, so nothing would flip
        // it for us
        if fir.rx_decimation() == 1 {
            self.run(&[
                update(
                    RX_ENABLE_FILTER_CONTROL,
                    RX_FIR_ENABLE_DECIMATION,
                    flag(!fir.rx_bypassed(), 1),
                ),
            ])?;
        }
        if fir.tx_interpolation() == 1 {
            self.run(&[
                update(
                    TX_ENABLE_FILTER_CONTROL,
                    TX_FIR_ENABLE_INTERPOLATION,
                    flag(!fir.tx_bypassed(), 1),
                ),
            ])?;
        }
        Ok(())
    }

    /// Sets BBPLL and datapath clocks, no digital interface tuning.
    pub fn apply_trx_clock_chain(&mut self, rx: &PathClocks, tx: &PathClocks) -> (r: Result<
        (),
        Fault,
    >)
        ensures
            flow(final(self)@, r) == old(self)@.apply_trx_clock_chain(*rx, *tx),
    {
        reveal(EngineView::apply_trx_clock_chain);
        validate_trx_clock_chain(rx, tx, self.state.v.mode.rx2tx2, self.state.v.mode.lvds_mode)?;
        self.set_bbpll_rate(rx.bbpll)?;
        self.set_path_rates(rx, tx)?;
        self.refresh_unit_firs()
    }

    /// Sets BBPLL and datapath clocks.
    pub fn set_trx_clock_chain(&mut self, rx: &PathClocks, tx: &PathClocks) -> (r: Result<
        (),
        Fault,
    >)
        ensures
            flow(final(self)@, r) == old(self)@.set_trx_clock_chain(*rx, *tx),
    {
        reveal(EngineView::set_trx_clock_chain);
        self.apply_trx_clock_chain(rx, tx)?;

        // An enabled FIR shifts the interface timing. Usually harmless, but at 61.44 MSPS it breaks
        // some setups, so tune whenever a FIR is on. The rates are set either way, so a failed
        // tuning is no reason to stop.
        if !self.state.v.tune.dig_interface_tune_fir_disable && !(
        self.state.v.fir.tx_bypassed() && self.state.v.fir.rx_bypassed()) {
            let _ = self.dig_tune(
                HertzU32 { raw: 0 },
                DigTuneFlags { restore_default: false, skip_store_result: true },
            );
        }
        self.bb_clk_change_handler()
    }

    /// Refreshes everything that depends on the baseband rates. No retuning.
    pub fn bb_clk_update(&mut self) -> (r: Result<(), Fault>)
        ensures
            flow(final(self)@, r) == old(self)@.bb_clk_update(),
    {
        reveal(EngineView::bb_clk_update);
        let rssi: RssiConfiguration = self.state.v.cal.rssi_ctrl;
        let auxadc: AuxAdcConfig = self.state.v.cal.auxadc_config;
        self.gc_update()?;
        self.rssi_setup(&rssi, true)?;
        self.auxadc_setup(&auxadc)
    }

    /// Call after any BBPLL or datapath clock change.
    pub fn bb_clk_change_handler(&mut self) -> (r: Result<(), Fault>)
        ensures
            flow(final(self)@, r) == old(self)@.bb_clk_change_handler(),
    {
        reveal(EngineView::bb_clk_change_handler);
        let retune: bool = self.state.v.tune.bb_clk_change_dig_tune_en;
        self.bb_clk_update()?;
        // retune so DATA_CLK timing survives sample rate switches
        if retune {
            self.dig_tune(HertzU32 { raw: 0 }, DigTuneFlags { restore_default: true, skip_store_result: false })?;
        }
        Ok(())
    }

    /// Sets the clock chain for a TX sample rate.
    pub fn set_trx_clock_chain_freq(&mut self, freq: HertzU32) -> (r: Result<(), Fault>)
        ensures
            flow(final(self)@, r) == old(self)@.set_trx_clock_chain_freq(freq),
    {
        reveal(EngineView::set_trx_clock_chain_freq);
        let (rx, tx) = self.calculate_rf_clock_chain(freq, self.state.v.clk.rate_governor)?;
        self.set_trx_clock_chain(&rx, &tx)
    }

    /// Same but skips the digital interface tuning. The tuning calls this one itself.
    pub fn set_trx_clock_chain_freq_no_tune(&mut self, freq: HertzU32) -> (r: Result<(), Fault>)
        ensures
            flow(final(self)@, r) == old(self)@.set_trx_clock_chain_freq_no_tune(freq),
    {
        reveal(EngineView::set_trx_clock_chain_freq_no_tune);
        let (rx, tx) = self.calculate_rf_clock_chain(freq, self.state.v.clk.rate_governor)?;
        self.apply_trx_clock_chain(&rx, &tx)?;
        self.bb_clk_update()
    }
}

} // verus!
