//! How an undefined value spreads through the averages, for a number type
//! whose undefined value absorbs every operation.
use vstd::prelude::*;
use crate::scalar::Scalar;
use crate::fixed::Fixed;
use crate::sma::{window_ends_at, window_sum, sma_at};
use crate::wma::{weighted_sum, wma_at, wma_series};
use crate::ema::{ema_at, ema_series};
use crate::hull::{hull_difference, hma_series, rounded_sqrt};
use crate::macd::{difference, macd_line, signal_line, histogram};

verus! {

/// Whether every operation with an undefined operand gives the undefined
/// value, and no comparison with it holds.
pub open spec fn undefined_absorbs<S: Scalar>() -> bool {
    let u = S::undefined_spec();
    &&& forall|a: S| #[trigger] u.plus_spec(a) == u
    &&& forall|a: S| #[trigger] a.plus_spec(u) == u
    &&& forall|a: S| #[trigger] u.minus_spec(a) == u
    &&& forall|a: S| #[trigger] a.minus_spec(u) == u
    &&& forall|a: S| #[trigger] u.times_spec(a) == u
    &&& forall|a: S| #[trigger] a.times_spec(u) == u
    &&& forall|a: S| #[trigger] u.over_spec(a) == u
    &&& forall|a: S| #[trigger] a.over_spec(u) == u
    &&& forall|a: S| !#[trigger] u.less_spec(a)
    &&& forall|a: S| !#[trigger] a.less_spec(u)
}

/// The undefined fixed-point number absorbs.
pub proof fn lemma_fixed_absorbs()
    ensures
        undefined_absorbs::<Fixed>(),
{
}

/// A sum over a window that holds an undefined value is undefined.
pub proof fn lemma_window_sum_undefined<S: Scalar>(values: Seq<S>, lo: int, hi: int, at: int)
    requires
        undefined_absorbs::<S>(),
        lo <= at < hi,
        values[at] == S::undefined_spec(),
    ensures
        window_sum(values, lo, hi) == S::undefined_spec(),
    decreases hi - lo,
{
    if hi - lo > 1 && at < hi - 1 {
        lemma_window_sum_undefined(values, lo, hi - 1, at);
    }
}

/// The simple moving average is undefined wherever its window holds an
/// undefined value.
pub proof fn lemma_sma_undefined<S: Scalar>(values: Seq<S>, period: nat, i: int, at: int)
    requires
        undefined_absorbs::<S>(),
        window_ends_at(period, i),
        i + 1 - period <= at <= i,
        values[at] == S::undefined_spec(),
    ensures
        sma_at(values, period, i) == S::undefined_spec(),
{
    lemma_window_sum_undefined(values, i + 1 - period, i + 1, at);
}

/// A weighted sum is undefined once it has taken in an undefined value.
pub proof fn lemma_weighted_sum_undefined<S: Scalar>(
    values: Seq<S>,
    period: nat,
    i: int,
    terms: nat,
    at: int,
)
    requires
        undefined_absorbs::<S>(),
        i + 1 - terms <= at <= i,
        values[at] == S::undefined_spec(),
    ensures
        weighted_sum(values, period, i, terms) == S::undefined_spec(),
    decreases terms,
{
    if at > i + 1 - terms {
        lemma_weighted_sum_undefined(values, period, i, (terms - 1) as nat, at);
    }
}

/// The weighted moving average is undefined wherever its window holds an
/// undefined value.
pub proof fn lemma_wma_undefined<S: Scalar>(values: Seq<S>, period: nat, i: int, at: int)
    requires
        undefined_absorbs::<S>(),
        window_ends_at(period, i),
        i + 1 - period <= at <= i,
        values[at] == S::undefined_spec(),
    ensures
        wma_at(values, period, i) == S::undefined_spec(),
{
    lemma_weighted_sum_undefined(values, period, i, period, at);
}

/// The exponential moving average is undefined from the first undefined
/// value on: it never recovers.
pub proof fn lemma_ema_undefined<S: Scalar>(values: Seq<S>, period: nat, i: int, at: int)
    requires
        undefined_absorbs::<S>(),
        0 <= at <= i,
        values[at] == S::undefined_spec(),
    ensures
        ema_at(values, period, i) == S::undefined_spec(),
    decreases i,
{
    if window_ends_at(period, i) {
        if i + 1 == period {
            lemma_window_sum_undefined(values, 0, period as int, at);
        } else if at < i {
            lemma_ema_undefined(values, period, i - 1, at);
        }
    }
}

/// A difference of two series is undefined wherever either is.
pub proof fn lemma_difference_undefined<S: Scalar>(a: Seq<S>, b: Seq<S>, i: int)
    requires
        undefined_absorbs::<S>(),
        0 <= i < a.len(),
        i < b.len(),
        a[i] == S::undefined_spec() || b[i] == S::undefined_spec(),
    ensures
        difference(a, b)[i] == S::undefined_spec(),
{
}

/// The Hull moving average is undefined until the slow window and then the
/// smoothing window have filled: before position `period + root - 2`, where
/// `root` is the rounded square root of `period`.
pub proof fn lemma_hma_warm_up<S: Scalar>(values: Seq<S>, period: nat, i: int)
    requires
        undefined_absorbs::<S>(),
        0 <= i < values.len(),
        i + 2 < period + rounded_sqrt(period),
    ensures
        hma_series(values, period)[i] == S::undefined_spec(),
{
    if period >= 2 {
        let root = rounded_sqrt(period);
        let diff = hull_difference(wma_series(values, period / 2), wma_series(values, period));
        if window_ends_at(root, i) {
            let at = i + 1 - root;
            assert(wma_series(values, period)[at] == S::undefined_spec());
            assert(diff[at] == S::undefined_spec());
            lemma_wma_undefined(diff, root, i, at);
        }
    }
}

/// The Hull average of the exponential average is undefined until the
/// window of the exponential average, then the slow window and then the
/// smoothing window have filled: before position `2 * period + root - 3`.
pub proof fn lemma_ehma_warm_up<S: Scalar>(values: Seq<S>, period: nat, i: int)
    requires
        undefined_absorbs::<S>(),
        0 <= i < values.len(),
        i + 3 < 2 * period + rounded_sqrt(period),
    ensures
        hma_series(ema_series(values, period), period)[i] == S::undefined_spec(),
{
    if period >= 2 {
        let root = rounded_sqrt(period);
        let smooth = ema_series(values, period);
        let slow = wma_series(smooth, period);
        let diff = hull_difference(wma_series(smooth, period / 2), slow);
        if window_ends_at(root, i) {
            let at = i + 1 - root;
            assert(slow[at] == S::undefined_spec()) by {
                if window_ends_at(period, at) {
                    let first = at + 1 - period;
                    assert(smooth[first] == S::undefined_spec());
                    lemma_wma_undefined(smooth, period, at, first);
                }
            }
            assert(diff[at] == S::undefined_spec());
            lemma_wma_undefined(diff, root, i, at);
        }
    }
}

/// Unless both the fast and the slow period are one, the line starts with an
/// undefined value, and so the signal and the histogram are undefined at
/// every position: the signal is an exponential average, and that never
/// recovers.
pub proof fn lemma_macd_signal_undefined<S: Scalar>(
    values: Seq<S>,
    fast: nat,
    slow: nat,
    signal: nat,
    i: int,
)
    requires
        undefined_absorbs::<S>(),
        fast != 1 || slow != 1,
        0 <= i < values.len(),
    ensures
        signal_line(values, fast, slow, signal)[i] == S::undefined_spec(),
        histogram(values, fast, slow, signal)[i] == S::undefined_spec(),
{
    let line = macd_line(values, fast, slow);
    assert(line[0] == S::undefined_spec());
    lemma_ema_undefined(line, signal, i, 0);
}

} // verus!
