use ta_core::series::Series;
use ta_core::select::select;
use ta_core::smoothing::Smooth;

fn s(v: Vec<i64>) -> Series<i64> {
    Series::from_vec(v)
}

#[test]
fn test_series_round_trip() {
    let values: Vec<i64> = vec![3, -1, 4, 1, -5, 9, 2, 6];
    let series = Series::from_vec(values.clone());
    assert_eq!(series.len(), 8);
    let back: Vec<i64> = series.to_vec();
    assert_eq!(back, values);
}

#[test]
fn test_from_slice_round_trip() {
    let values: [i64; 4] = [9, -8, 7, 0];
    let series = Series::from_slice(&values);
    assert_eq!(series.to_vec(), vec![9, -8, 7, 0]);
}

#[test]
fn test_zero_length_series() {
    let a = s(vec![]);
    let b = s(vec![]);
    assert_eq!(a.len(), 0);
    assert_eq!(a.add(&b).to_vec(), Vec::<i64>::new());
    assert_eq!(a.shift(3).to_vec(), Vec::<i64>::new());
    assert_eq!(a.cross_over(&b).to_vec(), Vec::<bool>::new());
}

#[test]
fn test_ema_period_one_follows_input() {
    let a = s(vec![i64::MAX, i64::MIN, 5]);
    assert_eq!(a.smooth(Smooth::EMA, 1).to_vec(), vec![i64::MAX, i64::MIN, 5]);
}

#[test]
fn test_fill_and_empty() {
    let filled = Series::fill(7i64, 4);
    assert_eq!(filled.to_vec(), vec![7, 7, 7, 7]);
    let zeroes = Series::<i64>::empty(3);
    assert_eq!(zeroes.to_vec(), vec![0, 0, 0]);
    let falses = Series::<bool>::empty(2);
    assert_eq!(falses.to_vec(), vec![false, false]);
}

#[test]
fn test_elementwise_arithmetic() {
    let a = s(vec![1, 2, 3, 4]);
    let b = s(vec![10, -20, 30, -40]);
    assert_eq!(a.add(&b).to_vec(), vec![11, -18, 33, -36]);
    assert_eq!(a.sub(&b).to_vec(), vec![-9, 22, -27, 44]);
    assert_eq!(a.mul(&b).to_vec(), vec![10, -40, 90, -160]);
    assert_eq!(b.div(&a).to_vec(), vec![10, -10, 10, -10]);
    assert_eq!(b.negate().to_vec(), vec![-10, 20, -30, 40]);
}

#[test]
fn test_scalar_arithmetic() {
    let a = s(vec![6, -9, 12]);
    assert_eq!(a.add_val(2).to_vec(), vec![8, -7, 14]);
    assert_eq!(a.sub_val(2).to_vec(), vec![4, -11, 10]);
    assert_eq!(a.rsub_val(0).to_vec(), vec![-6, 9, -12]);
    assert_eq!(a.mul_val(-2).to_vec(), vec![-12, 18, -24]);
    assert_eq!(a.div_val(3).to_vec(), vec![2, -3, 4]);
    assert_eq!(a.rdiv_val(36).to_vec(), vec![6, -4, 3]);
}

#[test]
fn test_division_truncates_toward_zero() {
    let a = s(vec![7, -7, 7, -7]);
    let b = s(vec![2, 2, -2, -2]);
    assert_eq!(a.div(&b).to_vec(), vec![3, -3, -3, 3]);
}

#[test]
fn test_division_by_zero_policy() {
    let a = s(vec![5, -5, 0]);
    let b = s(vec![0, 0, 0]);
    assert_eq!(a.div(&b).to_vec(), vec![i64::MAX, i64::MIN, 0]);
}

#[test]
fn test_saturating_extremes() {
    let a = s(vec![i64::MAX, i64::MIN]);
    assert_eq!(a.add_val(1).to_vec(), vec![i64::MAX, i64::MIN + 1]);
    assert_eq!(a.sub_val(1).to_vec(), vec![i64::MAX - 1, i64::MIN]);
    assert_eq!(a.mul_val(2).to_vec(), vec![i64::MAX, i64::MIN]);
    assert_eq!(a.negate().to_vec(), vec![-i64::MAX, i64::MAX]);
}

#[test]
fn test_shift_fills_placeholder() {
    let a = s(vec![1, 2, 3, 4, 5]);
    assert_eq!(a.shift(2).to_vec(), vec![0, 0, 1, 2, 3]);
    assert_eq!(a.shift(0).to_vec(), vec![1, 2, 3, 4, 5]);
    assert_eq!(a.shift(9).to_vec(), vec![0, 0, 0, 0, 0]);
}

#[test]
fn test_shift_composes_additively() {
    let a = s(vec![4, 8, 15, 16, 23, 42]);
    let twice = a.shift(2).shift(1).to_vec();
    let once = a.shift(3).to_vec();
    assert_eq!(twice, once);
}

#[test]
fn test_change() {
    let a = s(vec![10, 13, 11, 16]);
    assert_eq!(a.change(1).to_vec(), vec![0, 3, -2, 5]);
    assert_eq!(a.change(2).to_vec(), vec![0, 0, 1, 3]);
}

#[test]
fn test_highest_lowest() {
    let a = s(vec![3, 1, 4, 1, 5]);
    assert_eq!(a.highest(2).to_vec(), vec![3, 3, 4, 4, 5]);
    assert_eq!(a.lowest(2).to_vec(), vec![3, 1, 1, 1, 1]);
    assert_eq!(a.highest(1).to_vec(), vec![3, 1, 4, 1, 5]);
    assert_eq!(a.lowest(5).to_vec(), vec![3, 1, 1, 1, 1]);
}

#[test]
fn test_clamps() {
    let a = s(vec![-3, 0, 3]);
    assert_eq!(a.max_val(0).to_vec(), vec![0, 0, 3]);
    assert_eq!(a.min_val(0).to_vec(), vec![-3, 0, 0]);
}

#[test]
fn test_comparisons() {
    let a = s(vec![1, 2, 3]);
    let b = s(vec![2, 2, 2]);
    assert_eq!(a.gt(&b).to_vec(), vec![false, false, true]);
    assert_eq!(a.gte(&b).to_vec(), vec![false, true, true]);
    assert_eq!(a.lt(&b).to_vec(), vec![true, false, false]);
    assert_eq!(a.lte(&b).to_vec(), vec![true, true, false]);
    assert_eq!(a.eq(&b).to_vec(), vec![false, true, false]);
    assert_eq!(a.gt_val(1).to_vec(), vec![false, true, true]);
    assert_eq!(a.lt_val(3).to_vec(), vec![true, true, false]);
    assert_eq!(a.gte_val(2).to_vec(), vec![false, true, true]);
    assert_eq!(a.lte_val(2).to_vec(), vec![true, true, false]);
    assert_eq!(a.eq_val(2).to_vec(), vec![false, true, false]);
}

#[test]
fn test_strict_comparisons_ignore_placeholder() {
    let a = s(vec![0, 5, 5, -1]);
    let b = s(vec![-1, 0, 4, -2]);
    // positions where either side is still the placeholder never fire
    assert_eq!(a.sgt(&b).to_vec(), vec![false, false, true, true]);
    assert_eq!(b.slt(&a).to_vec(), vec![false, false, true, true]);
    assert_eq!(a.seq(&s(vec![0, 5, 4, -1])).to_vec(), vec![false, true, false, true]);
    assert_eq!(a.sgt_val(-2).to_vec(), vec![false, true, true, true]);
    assert_eq!(a.slt_val(6).to_vec(), vec![false, true, true, true]);
    assert_eq!(a.seq_val(5).to_vec(), vec![false, true, true, false]);
    assert_eq!(a.seq_val(0).to_vec(), vec![false, false, false, false]);
}

#[test]
fn test_boolean_algebra() {
    let a = Series::from_vec(vec![true, true, false, false]);
    let b = Series::from_vec(vec![true, false, true, false]);
    assert_eq!(a.and(&b).to_vec(), vec![true, false, false, false]);
    assert_eq!(a.or(&b).to_vec(), vec![true, true, true, false]);
    assert_eq!(a.not().to_vec(), vec![false, false, true, true]);
}

#[test]
fn test_cross_over_fires_on_transition_only() {
    let a = s(vec![1, 3, 4, 1, 5]);
    let b = s(vec![2, 2, 2, 2, 2]);
    assert_eq!(a.cross_over(&b).to_vec(), vec![false, true, false, false, true]);
    assert_eq!(a.cross_under(&b).to_vec(), vec![false, false, false, true, false]);
    assert_eq!(a.cross_over_val(2).to_vec(), vec![false, true, false, false, true]);
    assert_eq!(a.cross_under_val(2).to_vec(), vec![false, false, false, true, false]);
}

#[test]
fn test_cross_events_are_exclusive() {
    let a = s(vec![1, 5, 1, 5, 1, 5]);
    let b = s(vec![3, 3, 3, 3, 3, 3]);
    let over = a.cross_over(&b).to_vec();
    let under = a.cross_under(&b).to_vec();
    assert!(!over[0] && !under[0]);
    for i in 0..over.len() {
        assert!(!(over[i] && under[i]));
    }
}

#[test]
fn test_select() {
    let mask = Series::from_vec(vec![true, false, true]);
    let a = s(vec![1, 2, 3]);
    let b = s(vec![-1, -2, -3]);
    assert_eq!(select(&mask, &a, &b).to_vec(), vec![1, -2, 3]);
}

#[test]
fn test_sma_seeds_partial_windows() {
    let a = s(vec![10, 20, 30, 40]);
    assert_eq!(a.smooth(Smooth::SMA, 2).to_vec(), vec![10, 15, 25, 35]);
    assert_eq!(a.smooth(Smooth::SMA, 4).to_vec(), vec![10, 15, 20, 25]);
}

#[test]
fn test_ema_seeds_with_first_sample() {
    let a = s(vec![16, 32, 48, 64, 80]);
    // alpha = 2 / 4 with period 3
    assert_eq!(a.smooth(Smooth::EMA, 3).to_vec(), vec![16, 24, 36, 50, 65]);
}

#[test]
fn test_smma_seeds_with_simple_average() {
    let a = s(vec![2, 4, 6, 8]);
    assert_eq!(a.smooth(Smooth::SMMA, 2).to_vec(), vec![0, 3, 4, 6]);
}

#[test]
fn test_wma_weights_newest_heaviest() {
    let a = s(vec![1, 2, 3]);
    assert_eq!(a.smooth(Smooth::WMA, 2).to_vec(), vec![0, 1, 2]);
    let b = s(vec![6, 12, 18]);
    assert_eq!(b.smooth(Smooth::WMA, 3).to_vec(), vec![0, 0, 14]);
}

#[test]
fn test_hma_composition() {
    let a = s(vec![6000, 12000, 18000, 24000, 30000]);
    assert_eq!(a.smooth(Smooth::HMA, 3).to_vec(), vec![0, 20000, 22666, 26000, 32000]);
}

#[test]
fn test_smoothing_constant_input_stays_on_it() {
    let a = s(vec![40, 40, 40, 40, 40, 40]);
    assert_eq!(a.smooth(Smooth::EMA, 3).to_vec(), vec![40, 40, 40, 40, 40, 40]);
    assert_eq!(a.smooth(Smooth::SMMA, 3).to_vec(), vec![0, 0, 40, 40, 40, 40]);
}
