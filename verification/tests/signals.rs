use ta_core::apo_flip::APOFlipSignal;
use ta_core::barrier;
use ta_core::bop::BOPFilter;
use ta_core::cc_flip::CCFlipSignal;
use ta_core::ce_flip::CEFlipSignal;
use ta_core::di_flip::DIFlipSignal;
use ta_core::macd_flip::MACDFlipSignal;
use ta_core::piercing;
use ta_core::price::OHLCVSeries;
use ta_core::quadruple::QuadrupleSignal;
use ta_core::rsi_two_ma::RSI2MASignal;
use ta_core::series::Series;
use ta_core::slingshot;
use ta_core::smoothing::Smooth;
use ta_core::stc_flip::STCFlipSignal;
use ta_core::tasuki;
use ta_core::three_one_two;
use ta_core::trend_candle::TrendCandleSignal;
use ta_core::trend_candle::TrendCandleType;
use ta_core::tsi_cross::TSICrossSignal;

fn s(v: Vec<i64>) -> Series<i64> {
    Series::from_vec(v)
}

fn flat_data(close: Vec<i64>) -> OHLCVSeries {
    let n = close.len();
    OHLCVSeries {
        open: Series::from_vec(close.clone()),
        high: Series::from_vec(close.clone()),
        low: Series::from_vec(close.clone()),
        close: Series::from_vec(close),
        volume: Series::fill(1, n),
    }
}

#[test]
fn test_piercing_bullish() {
    let open = s(vec![8, 8, 8, 8, 8]);
    let close = s(vec![4, 5, 4, 3, 4]);
    let expected = vec![false, false, false, false, false];

    assert_eq!(piercing::bullish(&open, &close), expected);
}

#[test]
fn test_piercing_bearish() {
    let open = s(vec![8, 8, 8, 8, 8]);
    let close = s(vec![4, 5, 4, 3, 4]);
    let expected = vec![false, false, false, false, false];

    assert_eq!(piercing::bearish(&open, &close), expected);
}

#[test]
fn test_tasuki_bullish() {
    let open = s(vec![8, 8, 8, 8, 8]);
    let close = s(vec![4, 5, 4, 3, 4]);
    let expected = vec![false, false, false, false, false];

    assert_eq!(tasuki::bullish(&open, &close), expected);
}

#[test]
fn test_tasuki_bearish() {
    let open = s(vec![8, 8, 8, 8, 8]);
    let close = s(vec![4, 5, 4, 3, 4]);
    let expected = vec![false, false, false, false, false];

    assert_eq!(tasuki::bearish(&open, &close), expected);
}

#[test]
fn test_barrier_bullish() {
    let open = s(vec![8, 6, 8, 6, 8]);
    let low = s(vec![8, 6, 8, 6, 8]);
    let close = s(vec![9, 7, 9, 7, 9]);
    let expected = vec![false, false, false, false, false];

    assert_eq!(barrier::bullish(&open, &low, &close).to_vec(), expected);
}

#[test]
fn test_barrier_bearish() {
    let open = s(vec![8, 6, 8, 6, 8]);
    let high = s(vec![8, 6, 8, 6, 8]);
    let close = s(vec![7, 5, 7, 5, 7]);
    let expected = vec![false, false, false, false, false];

    assert_eq!(barrier::bearish(&open, &high, &close).to_vec(), expected);
}

#[test]
fn test_sligshot_bullish() {
    let open = s(vec![8, 6, 8, 6, 8]);
    let high = s(vec![9, 7, 9, 7, 9]);
    let low = s(vec![8, 6, 8, 6, 8]);
    let close = s(vec![9, 7, 9, 7, 9]);
    let expected = vec![false, false, false, false, false];

    assert_eq!(slingshot::bullish(&open, &high, &low, &close).to_vec(), expected);
}

#[test]
fn test_sligshot_bearish() {
    let open = s(vec![8, 6, 8, 6, 8]);
    let high = s(vec![8, 6, 8, 6, 8]);
    let low = s(vec![7, 5, 7, 5, 7]);
    let close = s(vec![7, 5, 7, 5, 7]);
    let expected = vec![false, false, false, false, false];

    assert_eq!(slingshot::bearish(&open, &high, &low, &close).to_vec(), expected);
}

#[test]
fn test_three_one_two_bullish() {
    let open = s(vec![8, 6, 8, 6, 8]);
    let high = s(vec![9, 7, 9, 7, 9]);
    let low = s(vec![8, 6, 8, 6, 8]);
    let close = s(vec![9, 7, 9, 7, 9]);
    let expected = vec![false, false, false, false, false];

    assert_eq!(three_one_two::bullish(&open, &high, &low, &close).to_vec(), expected);
}

#[test]
fn test_three_one_two_bearish() {
    let open = s(vec![8, 6, 8, 6, 8]);
    let high = s(vec![8, 6, 8, 6, 8]);
    let low = s(vec![7, 5, 7, 5, 7]);
    let close = s(vec![7, 5, 7, 5, 7]);
    let expected = vec![false, false, false, false, false];

    assert_eq!(three_one_two::bearish(&open, &high, &low, &close).to_vec(), expected);
}

#[test]
fn test_bop_filter() {
    let filter = BOPFilter::new(5);
    assert_eq!(filter.lookback(), 5);

    let oscillator = s(vec![0, 3, -2, 1]);
    let (bullish, bearish) = filter.apply(&oscillator);
    assert_eq!(bullish.to_vec(), vec![false, true, false, true]);
    assert_eq!(bearish.to_vec(), vec![false, false, true, false]);
}

#[test]
fn test_apo_flip() {
    let signal = APOFlipSignal::new(3, 7);
    assert_eq!(signal.lookback(), 7);

    let apo = s(vec![-1, 2, 3, -4]);
    let (long, short) = signal.generate(&apo);
    assert_eq!(long.to_vec(), vec![false, true, false, false]);
    assert_eq!(short.to_vec(), vec![false, false, false, true]);
}

#[test]
fn test_cc_flip() {
    let signal = CCFlipSignal::new(4, 9, Smooth::WMA, 6);
    assert_eq!(signal.lookback(), 9);

    let cc = s(vec![0, -2, 5, 5]);
    let (long, short) = signal.generate(&cc);
    assert_eq!(long.to_vec(), vec![false, false, true, false]);
    assert_eq!(short.to_vec(), vec![false, true, false, false]);
}

#[test]
fn test_di_flip() {
    let signal = DIFlipSignal::new(Smooth::SMMA, 11);
    assert_eq!(signal.lookback(), 11);

    let di = s(vec![2, -1, -3, 4]);
    let (long, short) = signal.generate(&di);
    assert_eq!(long.to_vec(), vec![false, false, false, true]);
    assert_eq!(short.to_vec(), vec![false, true, false, false]);
}

#[test]
fn test_ce_flip() {
    let signal = CEFlipSignal::new(22, 14, 3);
    assert_eq!(signal.lookback(), 22);

    let direction = s(vec![1, -1, 1, 1, -1]);
    let (long, short) = signal.generate(&direction);
    assert_eq!(long.to_vec(), vec![false, false, true, false, false]);
    assert_eq!(short.to_vec(), vec![false, true, false, false, true]);
}

#[test]
fn test_stc_flip() {
    let signal = STCFlipSignal::new(Smooth::EMA, 23, 50, 10, 3, 3);
    assert_eq!(signal.lookback(), 50);

    let stc = s(vec![20, 30, 80, 70]);
    let (long, short) = signal.generate(&stc);
    assert_eq!(long.to_vec(), vec![false, true, false, false]);
    assert_eq!(short.to_vec(), vec![false, false, false, true]);
}

#[test]
fn test_tsi_cross() {
    let signal = TSICrossSignal::new(Smooth::EMA, 13, 25, 13);
    assert_eq!(signal.lookback(), 25);

    // signal line with period 1 follows the index exactly, so nothing crosses
    let short_signal = TSICrossSignal::new(Smooth::EMA, 2, 2, 1);
    let tsi = s(vec![1, 5, 2, 6]);
    let (long, short) = short_signal.generate(&tsi);
    assert_eq!(long.to_vec(), vec![false, false, false, false]);
    assert_eq!(short.to_vec(), vec![false, false, false, false]);
}

#[test]
fn test_macd_flip() {
    let signal = MACDFlipSignal::new(Smooth::EMA, 3, 5, 4);
    assert_eq!(signal.lookback(), 5);

    let scale: i64 = 1_000_000;
    let closes: Vec<i64> = vec![2, 4, 6, 8, 10, 9, 8, 7, 6, 5].into_iter().map(|v| v * scale).collect();
    let data = flat_data(closes);
    let (long, short) = signal.generate(&data);
    // the fixture's MACD line starts at zero, rises, and turns negative once
    assert_eq!(
        long.to_vec(),
        vec![false, true, false, false, false, false, false, false, false, false]
    );
    assert_eq!(
        short.to_vec(),
        vec![false, false, false, false, false, false, false, false, true, false]
    );
}

#[test]
fn test_quadruple() {
    let signal = QuadrupleSignal::new(Smooth::SMA, 2);
    assert_eq!(signal.lookback(), 2);

    let n = 6;
    let data = OHLCVSeries {
        open: Series::fill(10, n),
        high: Series::from_vec(vec![11, 11, 11, 11, 11, 11]),
        low: Series::from_vec(vec![1, 1, 1, 1, 1, 1]),
        close: Series::from_vec(vec![10, 10, 10, 10, 10, 10]),
        volume: Series::fill(1, n),
    };
    // the average of a flat close sits on it, so the straddle never holds
    let (long, short) = signal.generate(&data);
    assert_eq!(long.to_vec(), vec![false; 6]);
    assert_eq!(short.to_vec(), vec![false; 6]);
}

#[test]
fn test_quadruple_fires_on_straddle() {
    let signal = QuadrupleSignal::new(Smooth::SMA, 2);
    let n = 6;
    let data = OHLCVSeries {
        open: Series::fill(10, n),
        high: Series::fill(100, n),
        low: Series::fill(1, n),
        close: Series::from_vec(vec![2, 4, 8, 16, 32, 64]),
        volume: Series::fill(1, n),
    };
    // ma = [2, 3, 6, 12, 24, 48]: the close holds above it from the second
    // bar on, so the fourth straddling bar completes the pattern
    let (long, short) = signal.generate(&data);
    assert_eq!(long.to_vec(), vec![false, false, false, false, true, true]);
    assert_eq!(short.to_vec(), vec![false; 6]);
}

#[test]
fn test_rsi_two_ma() {
    let signal = RSI2MASignal::new(Smooth::SMMA, 2, 5, Smooth::SMA, 2, 3);
    assert_eq!(signal.lookback(), 3);

    let data = flat_data(vec![10, 20, 15, 25, 30]);
    let (long, short) = signal.generate(&data);
    // the index never dips under the widened oversold barrier, and the one
    // rebound over the narrowed overbought barrier comes while the close
    // sits above its averages, so neither side completes
    assert_eq!(long.to_vec(), vec![false; 5]);
    assert_eq!(short.to_vec(), vec![false; 5]);
}

#[test]
fn test_trend_candle_dispatch() {
    let signal = TrendCandleSignal::new(TrendCandleType::Piercing);
    assert_eq!(signal.lookback(), 13);

    let data = flat_data(vec![4, 5, 4, 3, 4]);
    let (long, short) = signal.generate(&data);
    assert_eq!(long.to_vec(), vec![false; 5]);
    assert_eq!(short.to_vec(), vec![false; 5]);

    let barrier_signal = TrendCandleSignal::new(TrendCandleType::Barrier);
    let (blong, bshort) = barrier_signal.generate(&data);
    assert_eq!(blong.to_vec(), vec![false; 5]);
    assert_eq!(bshort.to_vec(), vec![false; 5]);
}
