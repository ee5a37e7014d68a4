//! The bar-by-bar analysis of a short and a long exponential average: slopes,
//! turns, crosses, and how far back the last of each lies.
use vstd::prelude::*;
use crate::scalar::Scalar;
use crate::series::{Candle, closes, stamped};
use crate::ema::{ema, ema_series};
use crate::classify::{
    CandleColor, SlopeDirection, TurnType, CandlePosition, CrossType, EmaOrder, color_of,
    direction_of, turn_of, position_of, order_of, cross_of, candle_color, slope, slope_direction,
    turn_type, ema_position, ema_above, cross_type, back_turn,
};

verus! {

/// The fewest candles that can be analysed: a record needs the bar before
/// and the bar after, and the first record is that of the third bar.
pub const MIN_BARS: usize = 4;

/// Why an analysis was not made.
#[derive(Clone, Copy, Debug, PartialEq, Eq, Structural)]
pub enum AnalysisError {
    /// The series has fewer than [`MIN_BARS`] candles.
    InsufficientData,
}

/// What the analysis says of one bar.
pub struct EmaAnalysis<S> {
    pub time_candle: u64,
    pub color_candle: CandleColor,
    pub ema_short_value: S,
    pub ema_short_slope_value: S,
    pub ema_short_slope_direction: SlopeDirection,
    pub is_ema_short_turn_type: TurnType,
    pub short_distance_from_last_turn: usize,
    pub position_short: CandlePosition,
    pub ema_long_value: S,
    pub ema_long_slope_value: S,
    pub ema_long_slope_direction: SlopeDirection,
    pub is_ema_long_turn_type: TurnType,
    pub long_distance_from_last_turn: usize,
    pub position_long: CandlePosition,
    pub is_ema_cut_type: CrossType,
    pub distance_from_cut_point: usize,
    pub previous_color_back1: CandleColor,
    pub previous_color_back3: CandleColor,
    pub is_ema_short_turn_type_back1: TurnType,
    pub is_ema_short_turn_type_back2: TurnType,
    pub is_ema_short_turn_type_back3: TurnType,
    pub is_ema_short_turn_type_back4: TurnType,
    pub ema_above: EmaOrder,
    pub ema_above_diff: S,
}

/// The turn of a series at bar `i`, read from its two neighbours.
pub open spec fn turn_at<S: Scalar>(series: Seq<S>, i: int) -> TurnType {
    turn_of(series[i - 1], series[i], series[i + 1])
}

/// The cross of the two series from bar `i - 1` to bar `i`.
pub open spec fn cross_at<S: Scalar>(short: Seq<S>, long: Seq<S>, i: int) -> CrossType {
    cross_of(short[i - 1], long[i - 1], short[i], long[i])
}

/// The last bar among the analysed bars up to `i` (the third bar is the
/// first of them) at which the series turns; bar zero if there is none.
pub open spec fn last_turn<S: Scalar>(series: Seq<S>, i: int) -> int
    decreases i,
{
    if i < 2 {
        0
    } else if turn_at(series, i) != TurnType::NoTurn {
        i
    } else {
        last_turn(series, i - 1)
    }
}

/// The last bar among the analysed bars up to `i` at which the two series
/// cross; bar zero if there is none.
pub open spec fn last_cross<S: Scalar>(short: Seq<S>, long: Seq<S>, i: int) -> int
    decreases i,
{
    if i < 2 {
        0
    } else if cross_at(short, long, i) != CrossType::NoCross {
        i
    } else {
        last_cross(short, long, i - 1)
    }
}

/// The turn of the short average `back` bars before bar `i`, as the
/// analysis of bar `i` reports it: no turn where that bar was not analysed
/// or lies before the start of the series.
pub open spec fn turn_back<S: Scalar>(short: Seq<S>, i: int, back: int) -> TurnType {
    if i - back >= 2 {
        turn_at(short, i - back)
    } else {
        TurnType::NoTurn
    }
}

/// The color of the bar `back` bars before bar `i`, unknown where that lies
/// before the start of the series.
pub open spec fn color_back<S: Scalar>(candles: Seq<Candle<S>>, i: int, back: int) -> CandleColor {
    if i >= back {
        color_of(candles[i - back])
    } else {
        CandleColor::Unknown
    }
}

/// The record of bar `i`, given the candles and the two averages.
pub open spec fn analysis_at<S: Scalar>(
    candles: Seq<Candle<S>>,
    short: Seq<S>,
    long: Seq<S>,
    i: int,
) -> EmaAnalysis<S> {
    EmaAnalysis {
        time_candle: candles[i].time,
        color_candle: color_of(candles[i]),
        ema_short_value: short[i],
        ema_short_slope_value: short[i].minus_spec(short[i - 1]),
        ema_short_slope_direction: direction_of(short[i].minus_spec(short[i - 1])),
        is_ema_short_turn_type: turn_at(short, i),
        short_distance_from_last_turn: (i - last_turn(short, i)) as usize,
        position_short: position_of(candles[i], short[i]),
        ema_long_value: long[i],
        ema_long_slope_value: long[i].minus_spec(long[i - 1]),
        ema_long_slope_direction: direction_of(long[i].minus_spec(long[i - 1])),
        is_ema_long_turn_type: turn_at(long, i),
        long_distance_from_last_turn: (i - last_turn(long, i)) as usize,
        position_long: position_of(candles[i], long[i]),
        is_ema_cut_type: cross_at(short, long, i),
        distance_from_cut_point: (i - last_cross(short, long, i)) as usize,
        previous_color_back1: color_of(candles[i - 1]),
        previous_color_back3: color_back(candles, i, 3),
        is_ema_short_turn_type_back1: turn_back(short, i, 1),
        is_ema_short_turn_type_back2: turn_back(short, i, 2),
        is_ema_short_turn_type_back3: turn_back(short, i, 3),
        is_ema_short_turn_type_back4: turn_back(short, i, 4),
        ema_above: order_of(short[i], long[i]),
        ema_above_diff: short[i].minus_spec(long[i]),
    }
}

/// The analysis of a candle series: one record for each bar from the third
/// to the last but one, in order. Empty if there are fewer than four bars.
pub open spec fn analysis_series<S: Scalar>(
    candles: Seq<Candle<S>>,
    short_p: nat,
    long_p: nat,
) -> Seq<EmaAnalysis<S>> {
    if candles.len() < MIN_BARS {
        Seq::empty()
    } else {
        Seq::new(
            (candles.len() - 3) as nat,
            |k: int|
                analysis_at(
                    candles,
                    ema_series(closes(candles), short_p),
                    ema_series(closes(candles), long_p),
                    k + 2,
                ),
        )
    }
}

/// The last turn up to bar `i` is a bar from zero to `i`.
pub proof fn lemma_last_turn_bounds<S: Scalar>(series: Seq<S>, i: int)
    requires
        0 <= i,
    ensures
        0 <= last_turn(series, i) <= i,
    decreases i,
{
    if i >= 2 {
        lemma_last_turn_bounds(series, i - 1);
    }
}

/// The last cross up to bar `i` is a bar from zero to `i`.
pub proof fn lemma_last_cross_bounds<S: Scalar>(short: Seq<S>, long: Seq<S>, i: int)
    requires
        0 <= i,
    ensures
        0 <= last_cross(short, long, i) <= i,
    decreases i,
{
    if i >= 2 {
        lemma_last_cross_bounds(short, long, i - 1);
    }
}

/// A record that reports a turn of the short average reports the distance
/// zero from the last turn of the short average, and likewise for the long
/// average.
pub proof fn lemma_turn_has_distance_zero<S: Scalar>(
    candles: Seq<Candle<S>>,
    short_p: nat,
    long_p: nat,
    k: int,
)
    requires
        0 <= k < analysis_series(candles, short_p, long_p).len(),
    ensures
        ({
            let record = analysis_series(candles, short_p, long_p)[k];
            &&& record.is_ema_short_turn_type != TurnType::NoTurn
                ==> record.short_distance_from_last_turn == 0
            &&& record.is_ema_long_turn_type != TurnType::NoTurn
                ==> record.long_distance_from_last_turn == 0
        }),
{
}

/// A record that reports a cross reports the distance zero from the last
/// cross.
pub proof fn lemma_cross_has_distance_zero<S: Scalar>(
    candles: Seq<Candle<S>>,
    short_p: nat,
    long_p: nat,
    k: int,
)
    requires
        0 <= k < analysis_series(candles, short_p, long_p).len(),
    ensures
        ({
            let record = analysis_series(candles, short_p, long_p)[k];
            record.is_ema_cut_type != CrossType::NoCross ==> record.distance_from_cut_point == 0
        }),
{
}

/// A table with one entry for each of `len` bars, none of them a turn.
pub fn no_turns(len: usize) -> (out: Vec<TurnType>)
    ensures
        out@.len() == len,
        forall|j: int| 0 <= j < len ==> out@[j] == TurnType::NoTurn,
{
    let mut out: Vec<TurnType> = Vec::new();
    let mut i: usize = 0;
    while i < len
        invariant
            i <= len,
            out@.len() == i,
            forall|j: int| 0 <= j < i ==> out@[j] == TurnType::NoTurn,
        decreases len - i,
    {
        out.push(TurnType::NoTurn);
        i += 1;
    }
    out
}

/// Analyses the candles against their exponential averages over `short_p`
/// and `long_p`.
///
/// With fewer than [`MIN_BARS`] candles there is nothing to analyse and the
/// call fails. Otherwise there is one record for each bar from the third to
/// the last but one, in order of time. The series is walked once; the last
/// turn of each average, the last cross and the turns of the short average
/// so far are carried along, so that a bar which is itself a turn or a cross
/// reports the distance zero.
pub fn analyze_ema<S: Scalar>(candles: &[Candle<S>], short_p: usize, long_p: usize) -> (r: Result<
    Vec<EmaAnalysis<S>>,
    AnalysisError,
>)
    ensures
        match r {
            Ok(out) => {
                &&& candles@.len() >= MIN_BARS
                &&& out@ == analysis_series(candles@, short_p as nat, long_p as nat)
                &&& out@.len() == candles@.len() - 3
                &&& forall|k: int|
                    0 <= k < out@.len() ==> out@[k].time_candle == candles@[k + 2].time
                &&& forall|k: int|
                    0 <= k < out@.len() && out@[k].is_ema_short_turn_type != TurnType::NoTurn
                        ==> out@[k].short_distance_from_last_turn == 0
                &&& forall|k: int|
                    0 <= k < out@.len() && out@[k].is_ema_long_turn_type != TurnType::NoTurn
                        ==> out@[k].long_distance_from_last_turn == 0
                &&& forall|k: int|
                    0 <= k < out@.len() && out@[k].is_ema_cut_type != CrossType::NoCross
                        ==> out@[k].distance_from_cut_point == 0
            },
            Err(e) => candles@.len() < MIN_BARS && e == AnalysisError::InsufficientData,
        },
{
    let n = candles.len();
    if n < MIN_BARS {
        return Err(AnalysisError::InsufficientData);
    }
    let ema_short = ema(candles, short_p);
    let ema_long = ema(candles, long_p);
    let ghost es = ema_series(closes(candles@), short_p as nat);
    let ghost el = ema_series(closes(candles@), long_p as nat);

    let mut out: Vec<EmaAnalysis<S>> = Vec::new();
    let mut last_turn_short: usize = 0;
    let mut last_turn_long: usize = 0;
    let mut last_cut: usize = 0;
    let mut short_turn_list = no_turns(n);

    let mut i: usize = 2;
    while i < n - 1
        invariant
            2 <= i <= n - 1,
            n == candles@.len(),
            es.len() == n,
            el.len() == n,
            ema_short@ == stamped(candles@, es),
            ema_long@ == stamped(candles@, el),
            out@.len() == i - 2,
            forall|k: int| 0 <= k < i - 2 ==> out@[k] == analysis_at(candles@, es, el, k + 2),
            last_turn_short == last_turn(es, i - 1),
            last_turn_long == last_turn(el, i - 1),
            last_cut == last_cross(es, el, i - 1),
            last_turn_short < i,
            last_turn_long < i,
            last_cut < i,
            short_turn_list@.len() == n,
            forall|j: int|
                0 <= j < n ==> short_turn_list@[j] == (if 2 <= j < i {
                    turn_at(es, j)
                } else {
                    TurnType::NoTurn
                }),
        decreases n - i,
    {
        let c = candles[i];
        let short_prev = ema_short[i - 1].value;
        let short_now = ema_short[i].value;
        let short_next = ema_short[i + 1].value;
        let long_prev = ema_long[i - 1].value;
        let long_now = ema_long[i].value;
        let long_next = ema_long[i + 1].value;

        let slope_short = slope(short_prev, short_now);
        let slope_long = slope(long_prev, long_now);

        let turn_s = turn_type(short_prev, short_now, short_next);
        short_turn_list.set(i, turn_s);
        if turn_s != TurnType::NoTurn {
            last_turn_short = i;
        }
        let turn_l = turn_type(long_prev, long_now, long_next);
        if turn_l != TurnType::NoTurn {
            last_turn_long = i;
        }
        let cut = cross_type(short_prev, long_prev, short_now, long_now);
        if cut != CrossType::NoCross {
            last_cut = i;
        }
        let record = EmaAnalysis {
            time_candle: c.time,
            color_candle: candle_color(&c),
            ema_short_value: short_now,
            ema_short_slope_value: slope_short,
            ema_short_slope_direction: slope_direction(slope_short),
            is_ema_short_turn_type: turn_s,
            short_distance_from_last_turn: i - last_turn_short,
            position_short: ema_position(&c, short_now),
            ema_long_value: long_now,
            ema_long_slope_value: slope_long,
            ema_long_slope_direction: slope_direction(slope_long),
            is_ema_long_turn_type: turn_l,
            long_distance_from_last_turn: i - last_turn_long,
            position_long: ema_position(&c, long_now),
            is_ema_cut_type: cut,
            distance_from_cut_point: i - last_cut,
            previous_color_back1: candle_color(&candles[i - 1]),
            previous_color_back3: if i >= 3 {
                candle_color(&candles[i - 3])
            } else {
                CandleColor::Unknown
            },
            is_ema_short_turn_type_back1: back_turn(short_turn_list.as_slice(), i, 1),
            is_ema_short_turn_type_back2: back_turn(short_turn_list.as_slice(), i, 2),
            is_ema_short_turn_type_back3: back_turn(short_turn_list.as_slice(), i, 3),
            is_ema_short_turn_type_back4: back_turn(short_turn_list.as_slice(), i, 4),
            ema_above: ema_above(short_now, long_now),
            ema_above_diff: short_now.minus(long_now),
        };
        assert(record == analysis_at(candles@, es, el, i as int));
        out.push(record);
        i += 1;
    }
    proof {
        assert(out@ =~= analysis_series(candles@, short_p as nat, long_p as nat));
        assert forall|k: int| 0 <= k < out@.len() implies (out@[k].is_ema_short_turn_type
            != TurnType::NoTurn ==> out@[k].short_distance_from_last_turn == 0) && (
        out@[k].is_ema_long_turn_type != TurnType::NoTurn
            ==> out@[k].long_distance_from_last_turn == 0) && (out@[k].is_ema_cut_type
            != CrossType::NoCross ==> out@[k].distance_from_cut_point == 0) by {
            lemma_turn_has_distance_zero(candles@, short_p as nat, long_p as nat, k);
            lemma_cross_has_distance_zero(candles@, short_p as nat, long_p as nat, k);
        }
    }
    Ok(out)
}

} // verus!
