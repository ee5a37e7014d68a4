//! Candles, time-stamped values, and the passage between a candle series and
//! a bare series of numbers.
use vstd::prelude::*;

verus! {

/// One bar of price data.
#[derive(Debug)]
pub struct Candle<S> {
    pub time: u64,
    pub open: S,
    pub high: S,
    pub low: S,
    pub close: S,
}

/// The value of an indicator at the time of one bar.
#[derive(Debug)]
pub struct ValueAtTime<S> {
    pub time: u64,
    pub value: S,
}

impl<S: Copy> Clone for Candle<S> {
    fn clone(&self) -> (r: Self)
        ensures
            r == *self,
    {
        *self
    }
}

impl<S: Copy> Copy for Candle<S> {

}

impl<S: Copy> Clone for ValueAtTime<S> {
    fn clone(&self) -> (r: Self)
        ensures
            r == *self,
    {
        *self
    }
}

impl<S: Copy> Copy for ValueAtTime<S> {

}

/// The closing prices of a candle series, bar by bar.
pub open spec fn closes<S>(candles: Seq<Candle<S>>) -> Seq<S> {
    Seq::new(candles.len(), |i: int| candles[i].close)
}

/// The values of a time-stamped series, without the times.
pub open spec fn values_of<S>(series: Seq<ValueAtTime<S>>) -> Seq<S> {
    Seq::new(series.len(), |i: int| series[i].value)
}

/// The number of bars for which both series have an entry.
pub open spec fn paired_len(a: nat, b: nat) -> nat {
    if a <= b {
        a
    } else {
        b
    }
}

/// `values` paired with the times of `candles`, as far as both reach.
pub open spec fn stamped<S>(candles: Seq<Candle<S>>, values: Seq<S>) -> Seq<ValueAtTime<S>> {
    Seq::new(
        paired_len(candles.len(), values.len()),
        |i: int| ValueAtTime { time: candles[i].time, value: values[i] },
    )
}

/// `candles` with each closing price replaced by the entry of `values` at
/// the same position, as far as both reach. Time, open, high and low stay.
pub open spec fn reclosed<S>(candles: Seq<Candle<S>>, values: Seq<S>) -> Seq<Candle<S>> {
    Seq::new(
        paired_len(candles.len(), values.len()),
        |i: int|
            Candle {
                time: candles[i].time,
                open: candles[i].open,
                high: candles[i].high,
                low: candles[i].low,
                close: values[i],
            },
    )
}

/// The closing price of every candle, in order.
pub fn extract_close<S: Copy>(candles: &[Candle<S>]) -> (out: Vec<S>)
    ensures
        out@ == closes(candles@),
{
    let mut out: Vec<S> = Vec::new();
    let mut i: usize = 0;
    while i < candles.len()
        invariant
            i <= candles.len(),
            out@ == closes(candles@.take(i as int)),
        decreases candles.len() - i,
    {
        out.push(candles[i].close);
        assert(out@ =~= closes(candles@.take(i + 1)));
        i += 1;
    }
    assert(candles@.take(i as int) =~= candles@);
    out
}

/// The value of every entry of a time-stamped series, in order.
pub fn extract_values<S: Copy>(series: &[ValueAtTime<S>]) -> (out: Vec<S>)
    ensures
        out@ == values_of(series@),
{
    let mut out: Vec<S> = Vec::new();
    let mut i: usize = 0;
    while i < series.len()
        invariant
            i <= series.len(),
            out@ == values_of(series@.take(i as int)),
        decreases series.len() - i,
    {
        out.push(series[i].value);
        assert(out@ =~= values_of(series@.take(i + 1)));
        i += 1;
    }
    assert(series@.take(i as int) =~= series@);
    out
}

/// Pairs each value with the time of the candle at the same position. The
/// result ends where the shorter of the two inputs ends.
pub fn wrap_output<S: Copy>(candles: &[Candle<S>], values: Vec<S>) -> (out: Vec<ValueAtTime<S>>)
    ensures
        out@ == stamped(candles@, values@),
{
    let n = if candles.len() <= values.len() {
        candles.len()
    } else {
        values.len()
    };
    let mut out: Vec<ValueAtTime<S>> = Vec::new();
    let mut i: usize = 0;
    while i < n
        invariant
            i <= n,
            n == paired_len(candles@.len(), values@.len()),
            out@.len() == i,
            forall|j: int| 0 <= j < i ==> out@[j] == stamped(candles@, values@)[j],
        decreases n - i,
    {
        out.push(ValueAtTime { time: candles[i].time, value: values[i] });
        i += 1;
    }
    assert(out@ =~= stamped(candles@, values@));
    out
}

/// Builds the candle series that a downstream engine reads when it is fed a
/// derived series in place of the closing prices: each candle keeps its time,
/// open, high and low, and takes its close from `values`.
pub fn with_closes<S: Copy>(candles: &[Candle<S>], values: &[S]) -> (out: Vec<Candle<S>>)
    ensures
        out@ == reclosed(candles@, values@),
{
    let n = if candles.len() <= values.len() {
        candles.len()
    } else {
        values.len()
    };
    let mut out: Vec<Candle<S>> = Vec::new();
    let mut i: usize = 0;
    while i < n
        invariant
            i <= n,
            n == paired_len(candles@.len(), values@.len()),
            out@.len() == i,
            forall|j: int| 0 <= j < i ==> out@[j] == reclosed(candles@, values@)[j],
        decreases n - i,
    {
        let c = candles[i];
        out.push(Candle { time: c.time, open: c.open, high: c.high, low: c.low, close: values[i] });
        i += 1;
    }
    assert(out@ =~= reclosed(candles@, values@));
    out
}

/// Replacing the closes and reading them back gives the replacement, when
/// there is one value for each candle.
pub proof fn lemma_closes_of_reclosed<S>(candles: Seq<Candle<S>>, values: Seq<S>)
    requires
        candles.len() == values.len(),
    ensures
        closes(reclosed(candles, values)) == values,
{
    assert(closes(reclosed(candles, values)) =~= values);
}

/// Stamping a series and dropping the times again gives the series back, when
/// there is one value for each candle.
pub proof fn lemma_values_of_stamped<S>(candles: Seq<Candle<S>>, values: Seq<S>)
    requires
        candles.len() == values.len(),
    ensures
        values_of(stamped(candles, values)) == values,
{
    assert(values_of(stamped(candles, values)) =~= values);
}

} // verus!
