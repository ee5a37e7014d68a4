//! Moving-average indicators over candlestick series, and a bar-by-bar
//! analysis of a short and a long exponential average.
//!
//! Every engine is generic over the number type of the prices, see
//! [`scalar::Scalar`]. Each output series is as long as its input and carries
//! the undefined value wherever the indicator has not warmed up.
pub mod analysis;
pub mod classify;
pub mod ema;
pub mod fixed;
pub mod hull;
pub mod laws;
pub mod macd;
pub mod propagation;
pub mod scalar;
pub mod series;
pub mod sma;
pub mod wma;

pub use crate::analysis::{analyze_ema, AnalysisError, EmaAnalysis};
pub use crate::ema::ema;
pub use crate::fixed::Fixed;
pub use crate::hull::{ehma, hma};
pub use crate::macd::{macd, MacdResult};
pub use crate::scalar::Scalar;
pub use crate::series::{Candle, ValueAtTime};
pub use crate::sma::sma;
pub use crate::wma::wma;
