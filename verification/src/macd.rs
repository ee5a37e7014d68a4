//! Moving average convergence/divergence: the gap between a fast and a slow
//! exponential average, its own exponential average, and what lies between.
use vstd::prelude::*;
use crate::scalar::Scalar;
use crate::series::{
    Candle, ValueAtTime, closes, stamped, paired_len, extract_values, wrap_output, with_closes,
    lemma_closes_of_reclosed, lemma_values_of_stamped,
};
use crate::ema::{ema_series, ema};

verus! {

/// The three series of the indicator, each with one entry for each candle.
pub struct MacdResult<S> {
    pub macd: Vec<ValueAtTime<S>>,
    pub signal: Vec<ValueAtTime<S>>,
    pub histogram: Vec<ValueAtTime<S>>,
}

/// `a[i] - b[i]` for each position that both series have.
pub open spec fn difference<S: Scalar>(a: Seq<S>, b: Seq<S>) -> Seq<S> {
    Seq::new(paired_len(a.len(), b.len()), |i: int| a[i].minus_spec(b[i]))
}

/// The fast exponential average less the slow one.
pub open spec fn macd_line<S: Scalar>(values: Seq<S>, fast: nat, slow: nat) -> Seq<S> {
    difference(ema_series(values, fast), ema_series(values, slow))
}

/// The exponential average of the line over `signal`.
pub open spec fn signal_line<S: Scalar>(values: Seq<S>, fast: nat, slow: nat, signal: nat) -> Seq<
    S,
> {
    ema_series(macd_line(values, fast, slow), signal)
}

/// The line less its signal.
pub open spec fn histogram<S: Scalar>(values: Seq<S>, fast: nat, slow: nat, signal: nat) -> Seq<
    S,
> {
    difference(macd_line(values, fast, slow), signal_line(values, fast, slow, signal))
}

/// Computes `a[i] - b[i]` for each position that both series have.
pub fn subtract<S: Scalar>(a: &[S], b: &[S]) -> (out: Vec<S>)
    ensures
        out@ == difference(a@, b@),
{
    let n = if a.len() <= b.len() {
        a.len()
    } else {
        b.len()
    };
    let mut out: Vec<S> = Vec::new();
    let mut i: usize = 0;
    while i < n
        invariant
            i <= n,
            n == paired_len(a@.len(), b@.len()),
            out@.len() == i,
            forall|j: int| 0 <= j < i ==> out@[j] == difference(a@, b@)[j],
        decreases n - i,
    {
        out.push(a[i].minus(b[i]));
        i += 1;
    }
    assert(out@ =~= difference(a@, b@));
    out
}

/// The indicator over the closing prices.
///
/// The line is the exponential average over `fast` less the one over `slow`.
/// The signal is the exponential average over `signal_p` of the line, which
/// takes the place of the closes in a copy of the candles. The histogram is
/// the line less the signal. Where an average is undefined, whatever the
/// number type makes of the undefined value in a subtraction stands.
pub fn macd<S: Scalar>(candles: &[Candle<S>], fast: usize, slow: usize, signal_p: usize) -> (out:
    MacdResult<S>)
    ensures
        out.macd@ == stamped(candles@, macd_line(closes(candles@), fast as nat, slow as nat)),
        out.signal@ == stamped(
            candles@,
            signal_line(closes(candles@), fast as nat, slow as nat, signal_p as nat),
        ),
        out.histogram@ == stamped(
            candles@,
            histogram(closes(candles@), fast as nat, slow as nat, signal_p as nat),
        ),
        out.macd@.len() == candles@.len(),
        out.signal@.len() == candles@.len(),
        out.histogram@.len() == candles@.len(),
        forall|i: int|
            0 <= i < candles@.len() ==> out.histogram@[i].value == out.macd@[i].value.minus_spec(
                out.signal@[i].value,
            ),
{
    let fast_series = ema(candles, fast);
    let slow_series = ema(candles, slow);
    let ema_fast = extract_values(fast_series.as_slice());
    let ema_slow = extract_values(slow_series.as_slice());
    let line = subtract(ema_fast.as_slice(), ema_slow.as_slice());
    let temp = with_closes(candles, line.as_slice());
    let signal_series = ema(temp.as_slice(), signal_p);
    let signal = extract_values(signal_series.as_slice());
    let hist = subtract(line.as_slice(), signal.as_slice());
    proof {
        let prices = closes(candles@);
        lemma_values_of_stamped(candles@, ema_series(prices, fast as nat));
        lemma_values_of_stamped(candles@, ema_series(prices, slow as nat));
        assert(line@ == macd_line(prices, fast as nat, slow as nat));
        lemma_closes_of_reclosed(candles@, line@);
        lemma_values_of_stamped(temp@, ema_series(line@, signal_p as nat));
        assert(signal@ == signal_line(prices, fast as nat, slow as nat, signal_p as nat));
    }
    MacdResult {
        macd: wrap_output(candles, line),
        signal: wrap_output(candles, signal),
        histogram: wrap_output(candles, hist),
    }
}

} // verus!
