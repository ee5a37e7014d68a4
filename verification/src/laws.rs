//! Every engine is a function of its input: whatever two runs on the same
//! input return, they return the same. For a number type that is verified
//! against [`Scalar`] this holds down to the last bit; for one that is not,
//! it holds as far as its operations keep the trait's contract.
use vstd::prelude::*;
use crate::scalar::Scalar;
use crate::series::{Candle, ValueAtTime};
use crate::sma::sma;
use crate::ema::ema;
use crate::wma::wma;
use crate::hull::{hma, ehma};
use crate::macd::{macd, MacdResult};
use crate::analysis::{analyze_ema, EmaAnalysis, AnalysisError};

verus! {

/// Two runs of `sma` on the same input give the same series.
pub proof fn lemma_sma_repeatable<S: Scalar>(
    candles: &[Candle<S>],
    period: usize,
    first: Vec<ValueAtTime<S>>,
    second: Vec<ValueAtTime<S>>,
)
    requires
        call_ensures(sma::<S>, (candles, period), first),
        call_ensures(sma::<S>, (candles, period), second),
    ensures
        first@ == second@,
{
}

/// Two runs of `ema` on the same input give the same series.
pub proof fn lemma_ema_repeatable<S: Scalar>(
    candles: &[Candle<S>],
    period: usize,
    first: Vec<ValueAtTime<S>>,
    second: Vec<ValueAtTime<S>>,
)
    requires
        call_ensures(ema::<S>, (candles, period), first),
        call_ensures(ema::<S>, (candles, period), second),
    ensures
        first@ == second@,
{
}

/// Two runs of `wma` on the same input give the same series.
pub proof fn lemma_wma_repeatable<S: Scalar>(
    candles: &[Candle<S>],
    period: usize,
    first: Vec<ValueAtTime<S>>,
    second: Vec<ValueAtTime<S>>,
)
    requires
        call_ensures(wma::<S>, (candles, period), first),
        call_ensures(wma::<S>, (candles, period), second),
    ensures
        first@ == second@,
{
}

/// Two runs of `hma` on the same input give the same series.
pub proof fn lemma_hma_repeatable<S: Scalar>(
    candles: &[Candle<S>],
    period: usize,
    first: Vec<ValueAtTime<S>>,
    second: Vec<ValueAtTime<S>>,
)
    requires
        call_ensures(hma::<S>, (candles, period), first),
        call_ensures(hma::<S>, (candles, period), second),
    ensures
        first@ == second@,
{
}

/// Two runs of `ehma` on the same input give the same series.
pub proof fn lemma_ehma_repeatable<S: Scalar>(
    candles: &[Candle<S>],
    period: usize,
    first: Vec<ValueAtTime<S>>,
    second: Vec<ValueAtTime<S>>,
)
    requires
        call_ensures(ehma::<S>, (candles, period), first),
        call_ensures(ehma::<S>, (candles, period), second),
    ensures
        first@ == second@,
{
}

/// Two runs of `macd` on the same input give the same three series.
pub proof fn lemma_macd_repeatable<S: Scalar>(
    candles: &[Candle<S>],
    fast: usize,
    slow: usize,
    signal_p: usize,
    first: MacdResult<S>,
    second: MacdResult<S>,
)
    requires
        call_ensures(macd::<S>, (candles, fast, slow, signal_p), first),
        call_ensures(macd::<S>, (candles, fast, slow, signal_p), second),
    ensures
        first.macd@ == second.macd@,
        first.signal@ == second.signal@,
        first.histogram@ == second.histogram@,
{
}

/// Two runs of `analyze_ema` on the same input both fail, or both succeed
/// with the same records.
pub proof fn lemma_analysis_repeatable<S: Scalar>(
    candles: &[Candle<S>],
    short_p: usize,
    long_p: usize,
    first: Result<Vec<EmaAnalysis<S>>, AnalysisError>,
    second: Result<Vec<EmaAnalysis<S>>, AnalysisError>,
)
    requires
        call_ensures(analyze_ema::<S>, (candles, short_p, long_p), first),
        call_ensures(analyze_ema::<S>, (candles, short_p, long_p), second),
    ensures
        match (first, second) {
            (Ok(a), Ok(b)) => a@ == b@,
            (Err(a), Err(b)) => a == b,
            _ => false,
        },
{
}

} // verus!
