//! The labels of the analysis, and the comparisons that give them.
use vstd::prelude::*;
use crate::scalar::Scalar;
use crate::series::Candle;

verus! {

/// How a bar closed against its open. `Unknown` stands for a bar that lies
/// before the start of the series.
#[derive(Clone, Copy, Debug, PartialEq, Eq, Structural)]
pub enum CandleColor {
    Green,
    Red,
    Equal,
    Unknown,
}

/// The sign of a slope.
#[derive(Clone, Copy, Debug, PartialEq, Eq, Structural)]
pub enum SlopeDirection {
    Up,
    Down,
    Parallel,
}

/// Whether an average has a local extremum at a bar: `TurnUp` at a local
/// minimum, `TurnDown` at a local maximum.
#[derive(Clone, Copy, Debug, PartialEq, Eq, Structural)]
pub enum TurnType {
    TurnUp,
    TurnDown,
    NoTurn,
}

/// Where an average lies against the range of a bar.
#[derive(Clone, Copy, Debug, PartialEq, Eq, Structural)]
pub enum CandlePosition {
    AboveCandle,
    BelowCandle,
    InsideCandle,
}

/// Whether the short average crossed the long one between two bars:
/// `GoldenCross` from below to above, `DeathCross` from above to below.
#[derive(Clone, Copy, Debug, PartialEq, Eq, Structural)]
pub enum CrossType {
    GoldenCross,
    DeathCross,
    NoCross,
}

/// Which of the two averages is the greater at a bar.
#[derive(Clone, Copy, Debug, PartialEq, Eq, Structural)]
pub enum EmaOrder {
    ShortAbove,
    LongAbove,
    Equal,
}

impl CandleColor {
    pub open spec fn label_spec(self) -> Seq<char> {
        match self {
            CandleColor::Green => "Green"@,
            CandleColor::Red => "Red"@,
            CandleColor::Equal => "Equal"@,
            CandleColor::Unknown => "Unknown"@,
        }
    }

    /// The label under which the color is reported.
    pub fn label(self) -> (s: &'static str)
        ensures
            s@ == self.label_spec(),
    {
        match self {
            CandleColor::Green => "Green",
            CandleColor::Red => "Red",
            CandleColor::Equal => "Equal",
            CandleColor::Unknown => "Unknown",
        }
    }
}

impl SlopeDirection {
    pub open spec fn label_spec(self) -> Seq<char> {
        match self {
            SlopeDirection::Up => "Up"@,
            SlopeDirection::Down => "Down"@,
            SlopeDirection::Parallel => "Parallel"@,
        }
    }

    /// The label under which the direction is reported.
    pub fn label(self) -> (s: &'static str)
        ensures
            s@ == self.label_spec(),
    {
        match self {
            SlopeDirection::Up => "Up",
            SlopeDirection::Down => "Down",
            SlopeDirection::Parallel => "Parallel",
        }
    }
}

impl TurnType {
    pub open spec fn label_spec(self) -> Seq<char> {
        match self {
            TurnType::TurnUp => "TurnUp"@,
            TurnType::TurnDown => "TurnDown"@,
            TurnType::NoTurn => "None"@,
        }
    }

    /// The label under which the turn is reported.
    pub fn label(self) -> (s: &'static str)
        ensures
            s@ == self.label_spec(),
    {
        match self {
            TurnType::TurnUp => "TurnUp",
            TurnType::TurnDown => "TurnDown",
            TurnType::NoTurn => "None",
        }
    }
}

impl CandlePosition {
    pub open spec fn label_spec(self) -> Seq<char> {
        match self {
            CandlePosition::AboveCandle => "AboveCandle"@,
            CandlePosition::BelowCandle => "BelowCandle"@,
            CandlePosition::InsideCandle => "InsideCandle"@,
        }
    }

    /// The label under which the position is reported.
    pub fn label(self) -> (s: &'static str)
        ensures
            s@ == self.label_spec(),
    {
        match self {
            CandlePosition::AboveCandle => "AboveCandle",
            CandlePosition::BelowCandle => "BelowCandle",
            CandlePosition::InsideCandle => "InsideCandle",
        }
    }
}

impl CrossType {
    pub open spec fn label_spec(self) -> Seq<char> {
        match self {
            CrossType::GoldenCross => "GoldenCross"@,
            CrossType::DeathCross => "DeathCross"@,
            CrossType::NoCross => "None"@,
        }
    }

    /// The label under which the cross is reported.
    pub fn label(self) -> (s: &'static str)
        ensures
            s@ == self.label_spec(),
    {
        match self {
            CrossType::GoldenCross => "GoldenCross",
            CrossType::DeathCross => "DeathCross",
            CrossType::NoCross => "None",
        }
    }
}

impl EmaOrder {
    pub open spec fn label_spec(self) -> Seq<char> {
        match self {
            EmaOrder::ShortAbove => "ShortAbove"@,
            EmaOrder::LongAbove => "LongAbove"@,
            EmaOrder::Equal => "Equal"@,
        }
    }

    /// The label under which the order is reported.
    pub fn label(self) -> (s: &'static str)
        ensures
            s@ == self.label_spec(),
    {
        match self {
            EmaOrder::ShortAbove => "ShortAbove",
            EmaOrder::LongAbove => "LongAbove",
            EmaOrder::Equal => "Equal",
        }
    }
}

/// Green if the bar closed above its open, red if below, else equal.
pub open spec fn color_of<S: Scalar>(c: Candle<S>) -> CandleColor {
    if c.open.less_spec(c.close) {
        CandleColor::Green
    } else if c.close.less_spec(c.open) {
        CandleColor::Red
    } else {
        CandleColor::Equal
    }
}

/// Up if the slope is above zero, down if below, else parallel.
pub open spec fn direction_of<S: Scalar>(v: S) -> SlopeDirection {
    if S::from_count_spec(0).less_spec(v) {
        SlopeDirection::Up
    } else if v.less_spec(S::from_count_spec(0)) {
        SlopeDirection::Down
    } else {
        SlopeDirection::Parallel
    }
}

/// A turn up where both neighbours are above `now`, a turn down where both
/// are below, else none.
pub open spec fn turn_of<S: Scalar>(prev: S, now: S, next: S) -> TurnType {
    if now.less_spec(prev) && now.less_spec(next) {
        TurnType::TurnUp
    } else if prev.less_spec(now) && next.less_spec(now) {
        TurnType::TurnDown
    } else {
        TurnType::NoTurn
    }
}

/// Above the candle if `v` exceeds the high, below if it is under the low,
/// else inside.
pub open spec fn position_of<S: Scalar>(c: Candle<S>, v: S) -> CandlePosition {
    if c.high.less_spec(v) {
        CandlePosition::AboveCandle
    } else if v.less_spec(c.low) {
        CandlePosition::BelowCandle
    } else {
        CandlePosition::InsideCandle
    }
}

/// Which of the two values is the greater, if either.
pub open spec fn order_of<S: Scalar>(short: S, long: S) -> EmaOrder {
    if long.less_spec(short) {
        EmaOrder::ShortAbove
    } else if short.less_spec(long) {
        EmaOrder::LongAbove
    } else {
        EmaOrder::Equal
    }
}

/// A golden cross if the short value was below the long one and is now
/// above it, a death cross if it was above and is now below, else none.
pub open spec fn cross_of<S: Scalar>(prev_short: S, prev_long: S, short: S, long: S) -> CrossType {
    if prev_short.less_spec(prev_long) && long.less_spec(short) {
        CrossType::GoldenCross
    } else if prev_long.less_spec(prev_short) && short.less_spec(long) {
        CrossType::DeathCross
    } else {
        CrossType::NoCross
    }
}

/// The color of a bar.
pub fn candle_color<S: Scalar>(c: &Candle<S>) -> (r: CandleColor)
    ensures
        r == color_of(*c),
{
    if c.open.less(c.close) {
        CandleColor::Green
    } else if c.close.less(c.open) {
        CandleColor::Red
    } else {
        CandleColor::Equal
    }
}

/// The step from `v1` to `v2`.
pub fn slope<S: Scalar>(v1: S, v2: S) -> (r: S)
    ensures
        r == v2.minus_spec(v1),
{
    v2.minus(v1)
}

/// The sign of a slope.
pub fn slope_direction<S: Scalar>(v: S) -> (r: SlopeDirection)
    ensures
        r == direction_of(v),
{
    let zero = S::from_count(0);
    if zero.less(v) {
        SlopeDirection::Up
    } else if v.less(zero) {
        SlopeDirection::Down
    } else {
        SlopeDirection::Parallel
    }
}

/// The turn of an average at a bar, from its values at the bar before, at
/// the bar and at the bar after.
pub fn turn_type<S: Scalar>(prev: S, now: S, next: S) -> (r: TurnType)
    ensures
        r == turn_of(prev, now, next),
{
    if now.less(prev) && now.less(next) {
        TurnType::TurnUp
    } else if prev.less(now) && next.less(now) {
        TurnType::TurnDown
    } else {
        TurnType::NoTurn
    }
}

/// Where the value of an average lies against the range of a bar.
pub fn ema_position<S: Scalar>(c: &Candle<S>, v: S) -> (r: CandlePosition)
    ensures
        r == position_of(*c, v),
{
    if c.high.less(v) {
        CandlePosition::AboveCandle
    } else if v.less(c.low) {
        CandlePosition::BelowCandle
    } else {
        CandlePosition::InsideCandle
    }
}

/// Which of the short and the long average is above the other.
pub fn ema_above<S: Scalar>(short: S, long: S) -> (r: EmaOrder)
    ensures
        r == order_of(short, long),
{
    if long.less(short) {
        EmaOrder::ShortAbove
    } else if short.less(long) {
        EmaOrder::LongAbove
    } else {
        EmaOrder::Equal
    }
}

/// Whether the short average crossed the long one from the bar before to
/// this bar.
pub fn cross_type<S: Scalar>(prev_short: S, prev_long: S, short: S, long: S) -> (r: CrossType)
    ensures
        r == cross_of(prev_short, prev_long, short, long),
{
    if prev_short.less(prev_long) && long.less(short) {
        CrossType::GoldenCross
    } else if prev_long.less(prev_short) && short.less(long) {
        CrossType::DeathCross
    } else {
        CrossType::NoCross
    }
}

/// The entry of `list` that lies `back` places before `idx`, or no turn
/// where the list does not reach that far back.
pub fn back_turn(list: &[TurnType], idx: usize, back: usize) -> (r: TurnType)
    requires
        idx >= back ==> idx - back < list@.len(),
    ensures
        r == (if idx >= back {
            list@[idx - back]
        } else {
            TurnType::NoTurn
        }),
{
    if idx >= back {
        list[idx - back]
    } else {
        TurnType::NoTurn
    }
}

} // verus!
