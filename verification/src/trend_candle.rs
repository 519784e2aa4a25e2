//! Signal on a chosen trend candlestick pattern: the bullish mask is the
//! long trigger and the bearish mask the short trigger.

use vstd::prelude::*;
use crate::price::OHLCVSeries;
use crate::series::Series;

verus! {

/// The closed set of candlestick patterns the signal can be configured
/// with.
#[derive(Clone, Copy, Debug, PartialEq, Eq, Structural)]
pub enum TrendCandleType {
    Barrier,
    Piercing,
    Slingshot,
    Tasuki,
    ThreeOneTwo,
}

/// Bars of history that cover the deepest pattern lookback comfortably.
pub const DEFAULT_LOOKBACK: usize = 13;

pub open spec fn candle_bullish_spec(
    candle: TrendCandleType,
    o: Seq<i64>,
    h: Seq<i64>,
    l: Seq<i64>,
    c: Seq<i64>,
) -> Seq<bool> {
    match candle {
        TrendCandleType::Barrier => crate::barrier::bullish_spec(o, l, c),
        TrendCandleType::Piercing => crate::piercing::bullish_spec(o, c),
        TrendCandleType::Slingshot => crate::slingshot::bullish_spec(o, h, l, c),
        TrendCandleType::Tasuki => crate::tasuki::bullish_spec(o, c),
        TrendCandleType::ThreeOneTwo => crate::three_one_two::bullish_spec(o, h, l, c),
    }
}

pub open spec fn candle_bearish_spec(
    candle: TrendCandleType,
    o: Seq<i64>,
    h: Seq<i64>,
    l: Seq<i64>,
    c: Seq<i64>,
) -> Seq<bool> {
    match candle {
        TrendCandleType::Barrier => crate::barrier::bearish_spec(o, h, c),
        TrendCandleType::Piercing => crate::piercing::bearish_spec(o, c),
        TrendCandleType::Slingshot => crate::slingshot::bearish_spec(o, h, l, c),
        TrendCandleType::Tasuki => crate::tasuki::bearish_spec(o, c),
        TrendCandleType::ThreeOneTwo => crate::three_one_two::bearish_spec(o, h, l, c),
    }
}

pub struct TrendCandleSignal {
    pub candle: TrendCandleType,
}

impl TrendCandleSignal {
    pub fn new(candle: TrendCandleType) -> (r: TrendCandleSignal)
        ensures
            r.candle == candle,
    {
        TrendCandleSignal { candle }
    }

    pub fn lookback(&self) -> (n: usize)
        ensures
            n == DEFAULT_LOOKBACK,
    {
        DEFAULT_LOOKBACK
    }

    /// The long and short triggers: the configured pattern's bullish and
    /// bearish masks over the batch.
    pub fn generate(&self, data: &OHLCVSeries) -> (r: (Series<bool>, Series<bool>))
        requires
            data.wf(),
        ensures
            r.0@ == candle_bullish_spec(self.candle, data.open@, data.high@, data.low@, data.close@),
            r.1@ == candle_bearish_spec(self.candle, data.open@, data.high@, data.low@, data.close@),
    {
        match self.candle {
            TrendCandleType::Barrier => (
                crate::barrier::bullish(&data.open, &data.low, &data.close),
                crate::barrier::bearish(&data.open, &data.high, &data.close),
            ),
            TrendCandleType::Piercing => (
                Series::from_vec(crate::piercing::bullish(&data.open, &data.close)),
                Series::from_vec(crate::piercing::bearish(&data.open, &data.close)),
            ),
            TrendCandleType::Slingshot => (
                crate::slingshot::bullish(&data.open, &data.high, &data.low, &data.close),
                crate::slingshot::bearish(&data.open, &data.high, &data.low, &data.close),
            ),
            TrendCandleType::Tasuki => (
                Series::from_vec(crate::tasuki::bullish(&data.open, &data.close)),
                Series::from_vec(crate::tasuki::bearish(&data.open, &data.close)),
            ),
            TrendCandleType::ThreeOneTwo => (
                crate::three_one_two::bullish(&data.open, &data.high, &data.low, &data.close),
                crate::three_one_two::bearish(&data.open, &data.high, &data.low, &data.close),
            ),
        }
    }
}

} // verus!
