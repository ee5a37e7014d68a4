use indicators::analysis::{analyze_ema, no_turns, AnalysisError, EmaAnalysis, MIN_BARS};
use indicators::classify::{
    back_turn, candle_color, cross_type, ema_above, ema_position, slope, slope_direction,
    turn_type, CandleColor, CandlePosition, CrossType, EmaOrder, SlopeDirection, TurnType,
};
use indicators::ema::ema;
use indicators::scalar::Scalar;
use indicators::series::Candle;

/// IEEE double precision as the number type of the engines.
#[derive(Clone, Copy, Debug)]
struct Real(f64);

impl Scalar for Real {
    fn undefined_spec() -> Self {
        Real(f64::NAN)
    }

    fn from_count_spec(n: u128) -> Self {
        Real(n as f64)
    }

    fn plus_spec(self, rhs: Self) -> Self {
        Real(self.0 + rhs.0)
    }

    fn minus_spec(self, rhs: Self) -> Self {
        Real(self.0 - rhs.0)
    }

    fn times_spec(self, rhs: Self) -> Self {
        Real(self.0 * rhs.0)
    }

    fn over_spec(self, rhs: Self) -> Self {
        Real(self.0 / rhs.0)
    }

    fn less_spec(self, rhs: Self) -> bool {
        self.0 < rhs.0
    }

    fn undefined() -> Self {
        Real(f64::NAN)
    }

    fn from_count(n: u128) -> Self {
        Real(n as f64)
    }

    fn plus(self, rhs: Self) -> Self {
        Real(self.0 + rhs.0)
    }

    fn minus(self, rhs: Self) -> Self {
        Real(self.0 - rhs.0)
    }

    fn times(self, rhs: Self) -> Self {
        Real(self.0 * rhs.0)
    }

    fn over(self, rhs: Self) -> Self {
        Real(self.0 / rhs.0)
    }

    fn less(self, rhs: Self) -> bool {
        self.0 < rhs.0
    }
}

fn bar(time: u64, open: f64, high: f64, low: f64, close: f64) -> Candle<Real> {
    Candle { time, open: Real(open), high: Real(high), low: Real(low), close: Real(close) }
}

/// Bars that open at their close and reach a tenth above and below it.
fn narrow_bars(closes: &[f64]) -> Vec<Candle<Real>> {
    closes
        .iter()
        .enumerate()
        .map(|(i, c)| bar(10 * (i as u64 + 1), *c, *c + 0.1, *c - 0.1, *c))
        .collect()
}

fn wave() -> Vec<Candle<Real>> {
    narrow_bars(&[5.0, 4.0, 3.0, 4.0, 5.0, 6.0, 5.0, 4.0, 5.0, 6.0])
}

fn analysed(candles: &[Candle<Real>], short: usize, long: usize) -> Vec<EmaAnalysis<Real>> {
    match analyze_ema(candles, short, long) {
        Ok(records) => records,
        Err(e) => panic!("no analysis: {:?}", e),
    }
}

#[test]
fn fewer_than_four_bars_are_not_analysed() {
    assert_eq!(MIN_BARS, 4);
    for len in 0usize..4 {
        let closes: Vec<f64> = (0..len).map(|i| i as f64).collect();
        let candles = narrow_bars(&closes);
        assert!(matches!(analyze_ema(&candles, 1, 2), Err(AnalysisError::InsufficientData)));
    }
}

#[test]
fn four_bars_give_one_record() {
    let candles = narrow_bars(&[1.0, 2.0, 3.0, 4.0]);
    let records = analysed(&candles, 1, 2);
    assert_eq!(records.len(), 1);
    assert_eq!(records[0].time_candle, 30);
}

#[test]
fn records_run_from_the_third_bar_to_the_last_but_one() {
    let candles = wave();
    let records = analysed(&candles, 1, 2);
    assert_eq!(records.len(), 7);
    for (k, r) in records.iter().enumerate() {
        assert_eq!(r.time_candle, 10 * (k as u64 + 3));
    }
}

#[test]
fn colors_look_back_one_and_three_bars() {
    let candles = vec![
        bar(1, 1.0, 2.5, 0.5, 2.0),
        bar(2, 2.0, 2.5, 0.5, 1.0),
        bar(3, 1.0, 2.5, 0.5, 2.0),
        bar(4, 2.0, 3.5, 1.5, 3.0),
        bar(5, 3.0, 3.5, 1.5, 2.0),
    ];
    let records = analysed(&candles, 2, 3);
    assert_eq!(records.len(), 2);
    assert_eq!(records[0].time_candle, 3);
    assert_eq!(records[0].color_candle, CandleColor::Green);
    assert_eq!(records[0].previous_color_back1, CandleColor::Red);
    assert_eq!(records[0].previous_color_back3, CandleColor::Unknown);
    assert_eq!(records[1].time_candle, 4);
    assert_eq!(records[1].color_candle, CandleColor::Green);
    assert_eq!(records[1].previous_color_back1, CandleColor::Green);
    assert_eq!(records[1].previous_color_back3, CandleColor::Green);
}

#[test]
fn a_bar_that_closes_at_its_open_is_equal() {
    let candles = narrow_bars(&[1.0, 2.0, 3.0, 4.0, 5.0]);
    let records = analysed(&candles, 1, 2);
    assert_eq!(records[0].color_candle, CandleColor::Equal);
    assert_eq!(records[0].previous_color_back1, CandleColor::Equal);
    assert_eq!(records[1].previous_color_back3, CandleColor::Equal);
}

#[test]
fn short_turns_and_their_distances() {
    let records = analysed(&wave(), 1, 2);
    let turns: Vec<TurnType> = records.iter().map(|r| r.is_ema_short_turn_type).collect();
    let distances: Vec<usize> = records.iter().map(|r| r.short_distance_from_last_turn).collect();
    assert_eq!(
        turns,
        vec![
            TurnType::TurnUp,
            TurnType::NoTurn,
            TurnType::NoTurn,
            TurnType::TurnDown,
            TurnType::NoTurn,
            TurnType::TurnUp,
            TurnType::NoTurn,
        ]
    );
    assert_eq!(distances, vec![0, 1, 2, 0, 1, 0, 1]);
}

#[test]
fn long_turns_and_their_distances() {
    let records = analysed(&wave(), 1, 2);
    let turns: Vec<TurnType> = records.iter().map(|r| r.is_ema_long_turn_type).collect();
    let distances: Vec<usize> = records.iter().map(|r| r.long_distance_from_last_turn).collect();
    assert_eq!(
        turns,
        vec![
            TurnType::TurnUp,
            TurnType::NoTurn,
            TurnType::NoTurn,
            TurnType::TurnDown,
            TurnType::NoTurn,
            TurnType::TurnUp,
            TurnType::NoTurn,
        ]
    );
    assert_eq!(distances, vec![0, 1, 2, 0, 1, 0, 1]);
}

#[test]
fn crosses_and_their_distances() {
    let records = analysed(&wave(), 1, 2);
    let cuts: Vec<CrossType> = records.iter().map(|r| r.is_ema_cut_type).collect();
    let distances: Vec<usize> = records.iter().map(|r| r.distance_from_cut_point).collect();
    assert_eq!(
        cuts,
        vec![
            CrossType::NoCross,
            CrossType::GoldenCross,
            CrossType::NoCross,
            CrossType::NoCross,
            CrossType::DeathCross,
            CrossType::NoCross,
            CrossType::GoldenCross,
        ]
    );
    assert_eq!(distances, vec![2, 0, 1, 2, 0, 1, 0]);
}

#[test]
fn without_a_turn_or_a_cross_the_distance_is_the_bar_index() {
    let candles = narrow_bars(&[1.0, 2.0, 3.0, 4.0, 5.0, 6.0]);
    let records = analysed(&candles, 1, 2);
    assert_eq!(records.len(), 3);
    for (k, r) in records.iter().enumerate() {
        assert_eq!(r.is_ema_short_turn_type, TurnType::NoTurn);
        assert_eq!(r.is_ema_long_turn_type, TurnType::NoTurn);
        assert_eq!(r.is_ema_cut_type, CrossType::NoCross);
        assert_eq!(r.short_distance_from_last_turn, k + 2);
        assert_eq!(r.long_distance_from_last_turn, k + 2);
        assert_eq!(r.distance_from_cut_point, k + 2);
    }
}

#[test]
fn a_turn_or_a_cross_is_at_distance_zero_from_itself() {
    let closes = [7.0, 3.0, 9.0, 1.0, 8.0, 8.0, 2.0, 6.0, 5.0, 9.5, 4.0, 4.5, 10.0, 1.5];
    let candles = narrow_bars(&closes);
    for (short, long) in [(1usize, 2usize), (2, 3), (1, 4), (3, 2)] {
        for r in analysed(&candles, short, long) {
            if r.is_ema_short_turn_type != TurnType::NoTurn {
                assert_eq!(r.short_distance_from_last_turn, 0);
            }
            if r.is_ema_long_turn_type != TurnType::NoTurn {
                assert_eq!(r.long_distance_from_last_turn, 0);
            }
            if r.is_ema_cut_type != CrossType::NoCross {
                assert_eq!(r.distance_from_cut_point, 0);
            }
        }
    }
}

#[test]
fn short_turns_are_looked_back_up_to_four_bars() {
    let records = analysed(&wave(), 1, 2);
    let first = &records[0];
    assert_eq!(first.is_ema_short_turn_type_back1, TurnType::NoTurn);
    assert_eq!(first.is_ema_short_turn_type_back2, TurnType::NoTurn);
    assert_eq!(first.is_ema_short_turn_type_back3, TurnType::NoTurn);
    assert_eq!(first.is_ema_short_turn_type_back4, TurnType::NoTurn);
    let second = &records[1];
    assert_eq!(second.is_ema_short_turn_type_back1, TurnType::TurnUp);
    assert_eq!(second.is_ema_short_turn_type_back2, TurnType::NoTurn);
    assert_eq!(second.is_ema_short_turn_type_back3, TurnType::NoTurn);
    assert_eq!(second.is_ema_short_turn_type_back4, TurnType::NoTurn);
    let fifth = &records[4];
    assert_eq!(fifth.is_ema_short_turn_type_back1, TurnType::TurnDown);
    assert_eq!(fifth.is_ema_short_turn_type_back2, TurnType::NoTurn);
    assert_eq!(fifth.is_ema_short_turn_type_back3, TurnType::NoTurn);
    assert_eq!(fifth.is_ema_short_turn_type_back4, TurnType::TurnUp);
    let last = &records[6];
    assert_eq!(last.is_ema_short_turn_type_back1, TurnType::TurnUp);
    assert_eq!(last.is_ema_short_turn_type_back2, TurnType::NoTurn);
    assert_eq!(last.is_ema_short_turn_type_back3, TurnType::TurnDown);
    assert_eq!(last.is_ema_short_turn_type_back4, TurnType::NoTurn);
}

#[test]
fn values_slopes_and_differences_are_reported() {
    let candles = wave();
    let short = ema(&candles, 1);
    let long = ema(&candles, 2);
    let records = analysed(&candles, 1, 2);
    for (k, r) in records.iter().enumerate() {
        let i = k + 2;
        assert_eq!(r.ema_short_value.0, short[i].value.0);
        assert_eq!(r.ema_long_value.0, long[i].value.0);
        assert_eq!(r.ema_short_slope_value.0, short[i].value.0 - short[i - 1].value.0);
        assert_eq!(r.ema_long_slope_value.0, long[i].value.0 - long[i - 1].value.0);
        assert_eq!(r.ema_above_diff.0, short[i].value.0 - long[i].value.0);
    }
    assert_eq!(records[0].ema_short_value.0, 3.0);
    assert_eq!(records[0].ema_short_slope_value.0, -1.0);
    assert_eq!(records[0].ema_long_value.0, 3.0 * (2.0 / 3.0) + 4.5 * (1.0 - 2.0 / 3.0));
}

#[test]
fn slope_directions_orders_and_positions_are_reported() {
    let records = analysed(&wave(), 1, 2);
    assert_eq!(records[0].ema_short_slope_direction, SlopeDirection::Down);
    assert_eq!(records[1].ema_short_slope_direction, SlopeDirection::Up);
    assert_eq!(records[0].ema_long_slope_direction, SlopeDirection::Down);
    assert_eq!(records[1].ema_long_slope_direction, SlopeDirection::Up);
    assert_eq!(records[0].ema_above, EmaOrder::LongAbove);
    assert_eq!(records[1].ema_above, EmaOrder::ShortAbove);
    assert_eq!(records[0].position_short, CandlePosition::InsideCandle);
    assert_eq!(records[0].position_long, CandlePosition::AboveCandle);
    assert_eq!(records[1].position_long, CandlePosition::BelowCandle);
}

#[test]
fn undefined_averages_give_the_neutral_labels() {
    let candles = narrow_bars(&[1.0, 2.0, 3.0, 4.0, 5.0]);
    let records = analysed(&candles, 0, 9);
    assert_eq!(records.len(), 2);
    for (k, r) in records.iter().enumerate() {
        assert!(r.ema_short_value.0.is_nan());
        assert!(r.ema_long_value.0.is_nan());
        assert!(r.ema_short_slope_value.0.is_nan());
        assert!(r.ema_above_diff.0.is_nan());
        assert_eq!(r.ema_short_slope_direction, SlopeDirection::Parallel);
        assert_eq!(r.ema_long_slope_direction, SlopeDirection::Parallel);
        assert_eq!(r.is_ema_short_turn_type, TurnType::NoTurn);
        assert_eq!(r.is_ema_long_turn_type, TurnType::NoTurn);
        assert_eq!(r.is_ema_cut_type, CrossType::NoCross);
        assert_eq!(r.position_short, CandlePosition::InsideCandle);
        assert_eq!(r.position_long, CandlePosition::InsideCandle);
        assert_eq!(r.ema_above, EmaOrder::Equal);
        assert_eq!(r.short_distance_from_last_turn, k + 2);
    }
}

#[test]
fn analysis_is_the_same_on_every_run() {
    let candles = wave();
    let a = analysed(&candles, 2, 3);
    let b = analysed(&candles, 2, 3);
    assert_eq!(a.len(), b.len());
    for (x, y) in a.iter().zip(b.iter()) {
        assert_eq!(x.time_candle, y.time_candle);
        assert_eq!(x.ema_short_value.0.to_bits(), y.ema_short_value.0.to_bits());
        assert_eq!(x.ema_long_value.0.to_bits(), y.ema_long_value.0.to_bits());
        assert_eq!(x.ema_above_diff.0.to_bits(), y.ema_above_diff.0.to_bits());
        assert_eq!(x.is_ema_short_turn_type, y.is_ema_short_turn_type);
        assert_eq!(x.is_ema_cut_type, y.is_ema_cut_type);
        assert_eq!(x.distance_from_cut_point, y.distance_from_cut_point);
        assert_eq!(x.short_distance_from_last_turn, y.short_distance_from_last_turn);
    }
}

#[test]
fn turn_type_reads_both_neighbours() {
    assert_eq!(turn_type(Real(2.0), Real(1.0), Real(3.0)), TurnType::TurnUp);
    assert_eq!(turn_type(Real(1.0), Real(2.0), Real(1.5)), TurnType::TurnDown);
    assert_eq!(turn_type(Real(1.0), Real(2.0), Real(3.0)), TurnType::NoTurn);
    assert_eq!(turn_type(Real(3.0), Real(2.0), Real(1.0)), TurnType::NoTurn);
    assert_eq!(turn_type(Real(2.0), Real(2.0), Real(3.0)), TurnType::NoTurn);
    assert_eq!(turn_type(Real(3.0), Real(2.0), Real(2.0)), TurnType::NoTurn);
    assert_eq!(turn_type(Real(f64::NAN), Real(2.0), Real(3.0)), TurnType::NoTurn);
}

#[test]
fn slope_is_the_step_and_its_direction_the_sign() {
    assert_eq!(slope(Real(2.0), Real(5.0)).0, 3.0);
    assert_eq!(slope(Real(5.0), Real(2.0)).0, -3.0);
    assert_eq!(slope_direction(Real(0.25)), SlopeDirection::Up);
    assert_eq!(slope_direction(Real(-0.25)), SlopeDirection::Down);
    assert_eq!(slope_direction(Real(0.0)), SlopeDirection::Parallel);
    assert_eq!(slope_direction(Real(-0.0)), SlopeDirection::Parallel);
    assert_eq!(slope_direction(Real(f64::NAN)), SlopeDirection::Parallel);
}

#[test]
fn ema_position_is_strict_at_the_edges() {
    let c = bar(1, 5.0, 6.0, 4.0, 5.5);
    assert_eq!(ema_position(&c, Real(6.5)), CandlePosition::AboveCandle);
    assert_eq!(ema_position(&c, Real(6.0)), CandlePosition::InsideCandle);
    assert_eq!(ema_position(&c, Real(5.0)), CandlePosition::InsideCandle);
    assert_eq!(ema_position(&c, Real(4.0)), CandlePosition::InsideCandle);
    assert_eq!(ema_position(&c, Real(3.5)), CandlePosition::BelowCandle);
    assert_eq!(ema_position(&c, Real(f64::NAN)), CandlePosition::InsideCandle);
}

#[test]
fn ema_above_names_the_greater_average() {
    assert_eq!(ema_above(Real(2.0), Real(1.0)), EmaOrder::ShortAbove);
    assert_eq!(ema_above(Real(1.0), Real(2.0)), EmaOrder::LongAbove);
    assert_eq!(ema_above(Real(2.0), Real(2.0)), EmaOrder::Equal);
    assert_eq!(ema_above(Real(f64::NAN), Real(2.0)), EmaOrder::Equal);
}

#[test]
fn cross_type_needs_a_strict_change_of_sides() {
    assert_eq!(cross_type(Real(1.0), Real(2.0), Real(3.0), Real(2.5)), CrossType::GoldenCross);
    assert_eq!(cross_type(Real(3.0), Real(2.0), Real(1.0), Real(1.5)), CrossType::DeathCross);
    assert_eq!(cross_type(Real(2.0), Real(2.0), Real(3.0), Real(2.5)), CrossType::NoCross);
    assert_eq!(cross_type(Real(1.0), Real(2.0), Real(2.5), Real(2.5)), CrossType::NoCross);
    assert_eq!(cross_type(Real(1.0), Real(2.0), Real(1.5), Real(2.5)), CrossType::NoCross);
    assert_eq!(cross_type(Real(f64::NAN), Real(2.0), Real(3.0), Real(2.5)), CrossType::NoCross);
}

#[test]
fn candle_color_compares_close_with_open() {
    assert_eq!(candle_color(&bar(1, 1.0, 3.0, 0.0, 2.0)), CandleColor::Green);
    assert_eq!(candle_color(&bar(1, 2.0, 3.0, 0.0, 1.0)), CandleColor::Red);
    assert_eq!(candle_color(&bar(1, 2.0, 3.0, 0.0, 2.0)), CandleColor::Equal);
}

#[test]
fn back_turn_reads_the_table_or_reports_no_turn() {
    let list = vec![TurnType::TurnUp, TurnType::NoTurn, TurnType::TurnDown, TurnType::TurnUp];
    assert_eq!(back_turn(&list, 3, 1), TurnType::TurnDown);
    assert_eq!(back_turn(&list, 3, 3), TurnType::TurnUp);
    assert_eq!(back_turn(&list, 3, 0), TurnType::TurnUp);
    assert_eq!(back_turn(&list, 2, 2), TurnType::TurnUp);
    assert_eq!(back_turn(&list, 2, 3), TurnType::NoTurn);
    assert_eq!(back_turn(&list, 0, 1), TurnType::NoTurn);
}

#[test]
fn no_turns_is_a_table_without_turns() {
    let table = no_turns(3);
    assert_eq!(table, vec![TurnType::NoTurn, TurnType::NoTurn, TurnType::NoTurn]);
    assert!(no_turns(0).is_empty());
}

#[test]
fn labels_are_the_reported_names() {
    assert_eq!(CandleColor::Green.label(), "Green");
    assert_eq!(CandleColor::Red.label(), "Red");
    assert_eq!(CandleColor::Equal.label(), "Equal");
    assert_eq!(CandleColor::Unknown.label(), "Unknown");
    assert_eq!(SlopeDirection::Up.label(), "Up");
    assert_eq!(SlopeDirection::Down.label(), "Down");
    assert_eq!(SlopeDirection::Parallel.label(), "Parallel");
    assert_eq!(TurnType::TurnUp.label(), "TurnUp");
    assert_eq!(TurnType::TurnDown.label(), "TurnDown");
    assert_eq!(TurnType::NoTurn.label(), "None");
    assert_eq!(CandlePosition::AboveCandle.label(), "AboveCandle");
    assert_eq!(CandlePosition::BelowCandle.label(), "BelowCandle");
    assert_eq!(CandlePosition::InsideCandle.label(), "InsideCandle");
    assert_eq!(CrossType::GoldenCross.label(), "GoldenCross");
    assert_eq!(CrossType::DeathCross.label(), "DeathCross");
    assert_eq!(CrossType::NoCross.label(), "None");
    assert_eq!(EmaOrder::ShortAbove.label(), "ShortAbove");
    assert_eq!(EmaOrder::LongAbove.label(), "LongAbove");
    assert_eq!(EmaOrder::Equal.label(), "Equal");
}
