//! Signal on the relative strength index rebounding against two stacked
//! moving averages: a pullback trigger inside an established trend.

use vstd::prelude::*;
use crate::cmp::sgt_at;
use crate::cmp::slt_at;
use crate::cross::cross_over_val_spec;
use crate::cross::cross_under_val_spec;
use crate::math::add_sat;
use crate::math::exec_add_sat;
use crate::math::exec_sub_sat;
use crate::math::sub_sat;
use crate::price::OHLCVSeries;
use crate::rsi::rsi;
use crate::rsi::rsi_spec;
use crate::series::Series;
use crate::smoothing::smooth_spec;
use crate::smoothing::valid_period;
use crate::smoothing::Smooth;

verus! {

/// The overbought barrier the threshold narrows from above.
pub const RSI_UPPER_BARRIER: i64 = 85;

/// The oversold barrier the threshold widens from below.
pub const RSI_LOWER_BARRIER: i64 = 15;

pub open spec fn rsi2ma_long_spec(c: Seq<i64>, ms: Seq<i64>, ml: Seq<i64>, r: Seq<i64>, lower: i64) -> Seq<bool> {
    Seq::new(
        c.len(),
        |i: int|
            sgt_at(c[i], ms[i]) && sgt_at(c[i], ml[i]) && sgt_at(ms[i], ml[i])
                && cross_under_val_spec(r, lower)[i],
    )
}

pub open spec fn rsi2ma_short_spec(c: Seq<i64>, ms: Seq<i64>, ml: Seq<i64>, r: Seq<i64>, upper: i64) -> Seq<bool> {
    Seq::new(
        c.len(),
        |i: int|
            slt_at(c[i], ms[i]) && slt_at(c[i], ml[i]) && slt_at(ms[i], ml[i])
                && cross_over_val_spec(r, upper)[i],
    )
}

pub struct RSI2MASignal {
    pub smooth_type: Smooth,
    pub rsi_period: usize,
    pub threshold: i64,
    pub ma: Smooth,
    pub short_period: usize,
    pub long_period: usize,
}

impl RSI2MASignal {
    pub fn new(
        smooth_type: Smooth,
        rsi_period: usize,
        threshold: i64,
        ma: Smooth,
        short_period: usize,
        long_period: usize,
    ) -> (r: RSI2MASignal)
        ensures
            r.smooth_type == smooth_type,
            r.rsi_period == rsi_period,
            r.threshold == threshold,
            r.ma == ma,
            r.short_period == short_period,
            r.long_period == long_period,
    {
        RSI2MASignal { smooth_type, rsi_period, threshold, ma, short_period, long_period }
    }

    /// The longest of the three periods the signal is built from.
    pub fn lookback(&self) -> (n: usize)
        ensures
            n >= self.short_period && n >= self.long_period && n >= self.rsi_period,
            n == self.short_period || n == self.long_period || n == self.rsi_period,
    {
        let adj_lookback = if self.short_period >= self.long_period {
            self.short_period
        } else {
            self.long_period
        };
        if adj_lookback >= self.rsi_period {
            adj_lookback
        } else {
            self.rsi_period
        }
    }

    /// Long: price strictly above both averages, averages stacked upward,
    /// and the index dipping under the widened oversold barrier. Short is
    /// the mirror against the narrowed overbought barrier.
    pub fn generate(&self, data: &OHLCVSeries) -> (r: (Series<bool>, Series<bool>))
        requires
            data.wf(),
            valid_period(self.smooth_type, self.rsi_period as int, data.len()),
            valid_period(self.ma, self.short_period as int, data.len()),
            valid_period(self.ma, self.long_period as int, data.len()),
        ensures
            r.0@ == rsi2ma_long_spec(
                data.close@,
                smooth_spec(data.close@, self.ma, self.short_period as int),
                smooth_spec(data.close@, self.ma, self.long_period as int),
                rsi_spec(data.close@, self.smooth_type, self.rsi_period as int),
                add_sat(RSI_LOWER_BARRIER, self.threshold),
            ),
            r.1@ == rsi2ma_short_spec(
                data.close@,
                smooth_spec(data.close@, self.ma, self.short_period as int),
                smooth_spec(data.close@, self.ma, self.long_period as int),
                rsi_spec(data.close@, self.smooth_type, self.rsi_period as int),
                sub_sat(RSI_UPPER_BARRIER, self.threshold),
            ),
    {
        let rsi_line = rsi(&data.close, self.smooth_type, self.rsi_period);
        let ma_short = data.close.smooth(self.ma, self.short_period);
        let ma_long = data.close.smooth(self.ma, self.long_period);
        let lower_barrier = exec_add_sat(RSI_LOWER_BARRIER, self.threshold);
        let upper_barrier = exec_sub_sat(RSI_UPPER_BARRIER, self.threshold);

        let long_signal = data.close.sgt(&ma_short).and(&data.close.sgt(&ma_long)).and(
            &ma_short.sgt(&ma_long),
        ).and(&rsi_line.cross_under_val(lower_barrier));
        let short_signal = data.close.slt(&ma_short).and(&data.close.slt(&ma_long)).and(
            &ma_short.slt(&ma_long),
        ).and(&rsi_line.cross_over_val(upper_barrier));

        assert(long_signal@ =~= rsi2ma_long_spec(
            data.close@,
            smooth_spec(data.close@, self.ma, self.short_period as int),
            smooth_spec(data.close@, self.ma, self.long_period as int),
            rsi_spec(data.close@, self.smooth_type, self.rsi_period as int),
            add_sat(RSI_LOWER_BARRIER, self.threshold),
        ));
        assert(short_signal@ =~= rsi2ma_short_spec(
            data.close@,
            smooth_spec(data.close@, self.ma, self.short_period as int),
            smooth_spec(data.close@, self.ma, self.long_period as int),
            rsi_spec(data.close@, self.smooth_type, self.rsi_period as int),
            sub_sat(RSI_UPPER_BARRIER, self.threshold),
        ));
        (long_signal, short_signal)
    }
}

} // verus!
