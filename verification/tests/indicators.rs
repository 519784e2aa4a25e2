use ta_core::dema::dema;
use ta_core::dpo::dpo;
use ta_core::hma::hma;
use ta_core::kjs::kjs;
use ta_core::macd::macd;
use ta_core::price::Price;
use ta_core::price::OHLCVSeries;
use ta_core::price::tr;
use ta_core::price::atr;
use ta_core::rsi::rsi;
use ta_core::series::Series;
use ta_core::smoothing::Smooth;
use ta_core::stoch::stoch;
use ta_core::stochosc::stochosc;
use ta_core::tema::tema;

fn s(v: Vec<i64>) -> Series<i64> {
    Series::from_vec(v)
}

fn scaled(values: &[f64], scale: f64) -> Series<i64> {
    let mut out: Vec<i64> = Vec::new();
    for v in values {
        out.push((v * scale).round() as i64);
    }
    Series::from_vec(out)
}

fn assert_close(result: &[i64], expected: &[f64], scale: f64, epsilon: f64) {
    assert_eq!(result.len(), expected.len());
    for i in 0..result.len() {
        let got = result[i] as f64 / scale;
        assert!(
            (got - expected[i]).abs() < epsilon,
            "at position {}: {} != {}",
            i,
            got,
            expected[i]
        );
    }
}

#[test]
fn test_macd() {
    let scale = 1_000_000.0;
    let source = scaled(&[2.0, 4.0, 6.0, 8.0, 10.0, 9.0, 8.0, 7.0, 6.0, 5.0], scale);
    let expected_macd_line = [
        0.0, 0.33333, 0.72222, 1.0648, 1.334877, 1.035751, 0.596751, 0.184292, -0.150576,
        -0.403769,
    ];
    let expected_signal_line = [
        0.0, 0.13333, 0.36888, 0.6472, 0.9223, 0.9676, 0.8193, 0.5653, 0.2789, 0.0058,
    ];
    let expected_histogram = [
        0.0, 0.1999, 0.3533, 0.4175, 0.4125, 0.068, -0.2222, -0.381, -0.4295, -0.4096,
    ];

    let (macd_line, signal_line, histogram) = macd(&source, Smooth::EMA, 3, 5, 4);

    assert_close(&macd_line.to_vec(), &expected_macd_line, scale, 0.001);
    assert_close(&signal_line.to_vec(), &expected_signal_line, scale, 0.001);
    assert_close(&histogram.to_vec(), &expected_histogram, scale, 0.001);
}

#[test]
fn test_stoch() {
    let high = s(vec![6, 6, 6, 6, 6]);
    let low = s(vec![2, 2, 2, 2, 2]);
    let close = s(vec![4, 5, 4, 3, 4]);

    let result = stoch(&high, &low, &close, 3).to_vec();

    assert_eq!(result, vec![50, 75, 50, 25, 50]);
}

#[test]
fn test_stochosc() {
    let high = s(vec![6, 6, 6, 6, 6]);
    let low = s(vec![2, 2, 2, 2, 2]);
    let close = s(vec![4, 5, 4, 3, 4]);

    let (k, d) = stochosc(&close, &high, &low, Smooth::SMA, 3, 3, 3);

    assert_eq!(k.to_vec(), vec![50, 62, 58, 50, 41]);
    assert_eq!(d.to_vec(), vec![50, 56, 56, 56, 49]);
}

#[test]
fn test_dema() {
    let source = s(vec![16, 32, 48, 64, 80]);
    assert_eq!(dema(&source, 3).to_vec(), vec![16, 28, 44, 61, 78]);
}

#[test]
fn test_tema() {
    let source = s(vec![32, 64, 96, 128, 160]);
    assert_eq!(tema(&source, 3).to_vec(), vec![32, 60, 94, 128, 161]);
}

#[test]
fn test_kjs() {
    let scale = 20_000.0;
    let high = scaled(&[2.0859, 2.0881, 2.0889, 2.0896, 2.0896, 2.0907], scale);
    let low = scaled(&[2.0846, 2.0846, 2.0881, 2.0886, 2.0865, 2.0875], scale);
    let expected: Vec<i64> = vec![41705, 41727, 41735, 41742, 41761, 41772];

    assert_eq!(kjs(&high, &low, 3).to_vec(), expected);
}

#[test]
fn test_dpo() {
    let scale = 30_000.0;
    let source = scaled(
        &[2.0846, 2.0881, 2.0889, 2.0896, 2.0875, 2.0904, 2.0909],
        scale,
    );
    // the first two positions subtract the shift placeholder
    let expected: Vec<i64> = vec![62538, 62643, 129, 98, 9, 46, 67];

    assert_eq!(dpo(&source, Smooth::SMA, 3).to_vec(), expected);
}

#[test]
fn test_hma_on_linear_input() {
    let source = s(vec![6000, 12000, 18000, 24000, 30000]);
    assert_eq!(hma(&source, 3).to_vec(), vec![0, 20000, 22666, 26000, 32000]);
}

#[test]
fn test_rsi_saturates_at_full_scale_without_losses() {
    let source = s(vec![10, 20, 15, 25, 30]);
    // smoothed losses stay zero until the first drop has been absorbed
    assert_eq!(rsi(&source, Smooth::SMMA, 2).to_vec(), vec![100, 100, 50, 86, 100]);
}

#[test]
fn test_true_range_widens_over_gaps() {
    let high = s(vec![10, 12, 11]);
    let low = s(vec![8, 9, 10]);
    let close = s(vec![9, 11, 10]);
    // [0]: 10-8; [1]: max(3, |12-9|, |9-9|); [2]: max(1, |11-11|, |10-11|)
    assert_eq!(tr(&high, &low, &close).to_vec(), vec![2, 3, 1]);
}

#[test]
fn test_atr_smooths_true_range() {
    let high = s(vec![10, 12, 11]);
    let low = s(vec![8, 9, 10]);
    let close = s(vec![9, 11, 10]);
    assert_eq!(atr(&high, &low, &close, Smooth::SMA, 2).to_vec(), vec![2, 2, 2]);
}

#[test]
fn test_price_lines() {
    let data = OHLCVSeries {
        open: s(vec![4, 8]),
        high: s(vec![10, 12]),
        low: s(vec![2, 4]),
        close: s(vec![6, 8]),
        volume: s(vec![100, 200]),
    };
    assert_eq!(data.hl2().to_vec(), vec![6, 8]);
    assert_eq!(data.hlc3().to_vec(), vec![6, 8]);
    assert_eq!(data.hlcc4().to_vec(), vec![6, 8]);
    assert_eq!(data.ohlc4().to_vec(), vec![5, 8]);
    assert_eq!(data.tr().to_vec(), vec![8, 8]);
    assert_eq!(data.atr(2, Smooth::SMMA).to_vec(), vec![0, 8]);
}
