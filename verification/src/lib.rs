//! A time-series computation engine for technical analysis: an ordered,
//! index-aligned sequence type over integer (fixed-point) or boolean scalars,
//! with elementwise arithmetic, rolling-window reducers, recursive smoothing,
//! comparison and boolean algebra, cross-event detection and conditional
//! selection. Every transform is a pure batch function from input series to a
//! freshly allocated output series.

pub mod apo_flip;
pub mod barrier;
pub mod bitwise;
pub mod bop;
pub mod cc_flip;
pub mod ce_flip;
pub mod cmp;
pub mod cross;
pub mod dema;
pub mod di_flip;
pub mod dpo;
pub mod extremum;
pub mod hma;
pub mod kjs;
pub mod macd;
pub mod macd_flip;
pub mod math;
pub mod ops;
pub mod piercing;
pub mod price;
pub mod quadruple;
pub mod rsi;
pub mod rsi_two_ma;
pub mod select;
pub mod series;
pub mod shift;
pub mod slingshot;
pub mod smoothing;
pub mod stc_flip;
pub mod stoch;
pub mod stochosc;
pub mod tasuki;
pub mod tema;
pub mod three_one_two;
pub mod trend_candle;
pub mod tsi_cross;

pub use math::add_sat;
pub use math::div_sat;
pub use math::mul_sat;
pub use math::neg_sat;
pub use math::sat64;
pub use math::sub_sat;
pub use math::tdiv;
pub use series::Series;
pub use smoothing::Smooth;
