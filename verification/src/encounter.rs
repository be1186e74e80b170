//! Game records as they are read from a list of encounters: who played, how
//! the game ended, when it was played and on which clock.

use crate::calendar::{format_utc_seconds, parse_utc_seconds, utc_seconds, utc_text};
use crate::text::{chars_of, find_char, first_index_of, parse_u32, read_u32};
use chrono::ParseError;
use std::str::FromStr;
use vstd::prelude::*;

verus! {

/// What a game was worth to one of its two players.
#[derive(Debug, Copy, Clone, Eq, PartialEq, Hash, Structural)]
pub enum Outcome {
    Loss,
    Draw,
    Win,
}

impl Outcome {
    /// The same game seen from the other side of the board.
    pub open spec fn spec_opposite(self) -> Outcome {
        match self {
            Outcome::Loss => Outcome::Win,
            Outcome::Draw => Outcome::Draw,
            Outcome::Win => Outcome::Loss,
        }
    }

    /// Twice the score: 0 for a loss, 1 for a draw, 2 for a win.
    pub open spec fn spec_half_points(self) -> nat {
        match self {
            Outcome::Loss => 0,
            Outcome::Draw => 1,
            Outcome::Win => 2,
        }
    }

    /// The same game seen from the other side of the board.
    pub fn opposite(self) -> (other: Outcome)
        ensures
            other == self.spec_opposite(),
    {
        match self {
            Outcome::Loss => Outcome::Win,
            Outcome::Draw => Outcome::Draw,
            Outcome::Win => Outcome::Loss,
        }
    }

    /// Twice the score: 0 for a loss, 1 for a draw, 2 for a win.
    pub fn half_points(self) -> (points: u8)
        ensures
            points == self.spec_half_points(),
    {
        match self {
            Outcome::Loss => 0,
            Outcome::Draw => 1,
            Outcome::Win => 2,
        }
    }

    /// The two players of a game share one point between them, and seen
    /// twice from the other side a game is as it was.
    pub proof fn lemma_opposite(self)
        ensures
            self.spec_half_points() + self.spec_opposite().spec_half_points() == 2,
            self.spec_opposite().spec_opposite() == self,
    {
    }
}

/// Result of a game as PGN writes it.
#[derive(Debug, Copy, Clone, Eq, PartialEq, Structural)]
pub enum PgnResult {
    Unknown,
    WhiteWins,
    BlackWins,
    Draw,
}

/// The text is none of the four results that PGN knows.
#[derive(Debug)]
pub struct InvalidPgnResult;

/// The result that `s` writes: `1-0`, `0-1`, `1/2-1/2` or `*`.
pub open spec fn parse_pgn_result(s: Seq<char>) -> Option<PgnResult> {
    if s == "1-0"@ {
        Some(PgnResult::WhiteWins)
    } else if s == "0-1"@ {
        Some(PgnResult::BlackWins)
    } else if s == "1/2-1/2"@ {
        Some(PgnResult::Draw)
    } else if s == "*"@ {
        Some(PgnResult::Unknown)
    } else {
        None
    }
}

impl FromStr for PgnResult {
    type Err = InvalidPgnResult;

    /// Reads a result as PGN writes it.
    fn from_str(s: &str) -> (parsed: Result<PgnResult, InvalidPgnResult>)
        ensures
            match parsed {
                Ok(result) => parse_pgn_result(s@) == Some(result),
                Err(_) => parse_pgn_result(s@) is None,
            },
    {
        if s.eq("1-0") {
            Ok(PgnResult::WhiteWins)
        } else if s.eq("0-1") {
            Ok(PgnResult::BlackWins)
        } else if s.eq("1/2-1/2") {
            Ok(PgnResult::Draw)
        } else if s.eq("*") {
            Ok(PgnResult::Unknown)
        } else {
            Err(InvalidPgnResult)
        }
    }
}

impl InvalidPgnResult {
    /// The error in words.
    pub fn to_string(&self) -> (message: String)
        ensures
            message@ == "invalid game result"@,
    {
        "invalid game result".to_owned()
    }
}

impl PgnResult {
    /// What the game was worth to White; nothing for a game without a result.
    pub open spec fn spec_white_score(self) -> Option<Outcome> {
        match self {
            PgnResult::WhiteWins => Some(Outcome::Win),
            PgnResult::BlackWins => Some(Outcome::Loss),
            PgnResult::Draw => Some(Outcome::Draw),
            PgnResult::Unknown => None,
        }
    }

    /// What the game was worth to White; nothing for a game without a result.
    pub fn white_score(self) -> (score: Option<Outcome>)
        ensures
            score == self.spec_white_score(),
    {
        match self {
            PgnResult::WhiteWins => Some(Outcome::Win),
            PgnResult::BlackWins => Some(Outcome::Loss),
            PgnResult::Draw => Some(Outcome::Draw),
            PgnResult::Unknown => None,
        }
    }
}

/// A moment in time, counted in seconds from 1 January 1970, 00:00:00 UTC.
#[derive(Debug, Copy, Clone)]
pub struct UtcDateTime(i64);

/// The text is no date and time of the form `2024-01-31 23:59:59`.
#[derive(Debug)]
pub struct InvalidUtcDateTime {
    cause: ParseError,
}

impl InvalidUtcDateTime {
    /// What `chrono` found wrong with the text.
    pub fn into_cause(self) -> (cause: ParseError)
        ensures
            cause == self.cause(),
    {
        self.cause
    }

    /// The error of `chrono` that this error holds.
    pub closed spec fn cause(self) -> ParseError {
        self.cause
    }
}

/// Number of seconds in seven days.
pub const SECONDS_PER_WEEK: i64 = 604_800;

impl UtcDateTime {
    /// Seconds from 1 January 1970, 00:00:00 UTC.
    pub closed spec fn seconds(self) -> i64 {
        self.0
    }

    /// The layout in which a moment is read: year, month and day with
    /// hyphens, a space, then hours, minutes and seconds with colons.
    pub open spec fn layout() -> Seq<char> {
        "%Y-%m-%d %H:%M:%S"@
    }

    /// The moment as `to_string` writes it: date and time of day in UTC, and
    /// the start of 1970 for a moment that the calendar does not reach.
    pub open spec fn text(self) -> Seq<char> {
        match utc_text(self.seconds()) {
            Some(text) => text,
            None => "1970-01-01 00:00:00"@,
        }
    }

    /// The moment `seconds` seconds after 1 January 1970, 00:00:00 UTC.
    pub fn from_seconds(seconds: i64) -> (moment: UtcDateTime)
        ensures
            moment.seconds() == seconds,
    {
        UtcDateTime(seconds)
    }

    /// Seconds from 1 January 1970, 00:00:00 UTC.
    pub fn as_seconds(self) -> (seconds: i64)
        ensures
            seconds == self.seconds(),
    {
        self.0
    }

    /// Whether `self` lies more than seven days after `earlier`.
    pub fn is_week_after(self, earlier: UtcDateTime) -> (later: bool)
        ensures
            later == (self.seconds() > earlier.seconds() + SECONDS_PER_WEEK),
    {
        earlier.0 <= i64::MAX - SECONDS_PER_WEEK && self.0 > earlier.0 + SECONDS_PER_WEEK
    }

    /// Writes the moment as date and time of day in UTC.
    pub fn to_string(&self) -> (text: String)
        ensures
            text@ == self.text(),
    {
        match format_utc_seconds(self.0) {
            Some(text) => text,
            None => "1970-01-01 00:00:00".to_owned(),
        }
    }
}

impl Default for UtcDateTime {
    /// The start of 1970.
    fn default() -> (moment: UtcDateTime)
        ensures
            moment.seconds() == 0,
    {
        UtcDateTime(0)
    }
}

impl FromStr for UtcDateTime {
    type Err = InvalidUtcDateTime;

    /// Reads a moment written as `2024-01-31 23:59:59`, taken as UTC.
    fn from_str(s: &str) -> (parsed: Result<UtcDateTime, InvalidUtcDateTime>)
        ensures
            match parsed {
                Ok(moment) => utc_seconds(s@, UtcDateTime::layout()) == Some(moment.seconds()),
                Err(_) => utc_seconds(s@, UtcDateTime::layout()) is None,
            },
    {
        match parse_utc_seconds(s, "%Y-%m-%d %H:%M:%S") {
            Ok(seconds) => Ok(UtcDateTime(seconds)),
            Err(cause) => Err(InvalidUtcDateTime { cause }),
        }
    }
}

/// Pace of a game, from the fastest to the slowest.
#[derive(Debug, Hash, Eq, PartialEq, Ord, PartialOrd, Copy, Clone, Structural)]
pub enum Speed {
    UltraBullet,
    Bullet,
    Blitz,
    Rapid,
    Classical,
    Correspondence,
}

/// Clock settings of a game.
#[derive(Debug)]
pub enum TimeControl {
    /// Initial time and increment per move, both in seconds.
    Clock { limit: u32, increment: u32 },
    /// No clock: moves are made over days.
    Correspondence,
}

/// The text is neither `-` nor two numbers of seconds joined by `+`.
#[derive(Debug)]
pub struct InvalidTimeControl;

impl InvalidTimeControl {
    /// The error in words.
    pub fn to_string(&self) -> (message: String)
        ensures
            message@ == "invalid time control"@,
    {
        "invalid time control".to_owned()
    }
}

/// The time control that `s` writes. A lone hyphen is correspondence. Any
/// other text is cut at its first plus sign: before it stands the initial
/// time, after it the increment, each a number as `parse_u32` reads it.
pub open spec fn parse_time_control(s: Seq<char>) -> Option<TimeControl> {
    if s == seq!['-'] {
        Some(TimeControl::Correspondence)
    } else {
        let plus = first_index_of(s, '+');
        if plus >= s.len() {
            None
        } else {
            match (parse_u32(s.take(plus)), parse_u32(s.skip(plus + 1))) {
                (Some(limit), Some(increment)) => Some(TimeControl::Clock { limit, increment }),
                _ => None,
            }
        }
    }
}

/// Speed class of a game that is estimated to last `seconds` seconds.
pub open spec fn speed_of_seconds(seconds: int) -> Speed {
    if seconds < 30 {
        Speed::UltraBullet
    } else if seconds < 180 {
        Speed::Bullet
    } else if seconds < 480 {
        Speed::Blitz
    } else if seconds < 1500 {
        Speed::Rapid
    } else {
        Speed::Classical
    }
}

impl FromStr for TimeControl {
    type Err = InvalidTimeControl;

    /// Reads a time control written as `-` or as `300+3`.
    fn from_str(s: &str) -> (parsed: Result<TimeControl, InvalidTimeControl>)
        ensures
            match parsed {
                Ok(control) => parse_time_control(s@) == Some(control),
                Err(_) => parse_time_control(s@) is None,
            },
    {
        proof {
            reveal_strlit("-");
            assert("-"@ =~= seq!['-']);
        }
        if s.eq("-") {
            return Ok(TimeControl::Correspondence);
        }
        let chars = chars_of(s);
        let plus = find_char(&chars, '+');
        if plus >= chars.len() {
            return Err(InvalidTimeControl);
        }
        assert(chars@.subrange(0, plus as int) =~= s@.take(plus as int));
        assert(chars@.subrange(plus + 1, chars.len() as int) =~= s@.skip(plus + 1));
        let limit = match read_u32(&chars, 0, plus) {
            Some(limit) => limit,
            None => {
                return Err(InvalidTimeControl);
            },
        };
        let increment = match read_u32(&chars, plus + 1, chars.len()) {
            Some(increment) => increment,
            None => {
                return Err(InvalidTimeControl);
            },
        };
        Ok(TimeControl::Clock { limit, increment })
    }
}

impl TimeControl {
    /// Estimated length of a game on the clock, in seconds: the initial time
    /// and forty increments. A correspondence game has no estimate.
    pub open spec fn total_seconds(self) -> Option<int> {
        match self {
            TimeControl::Clock { limit, increment } => Some(limit + 40 * increment),
            TimeControl::Correspondence => None,
        }
    }

    /// Speed class of the time control.
    pub open spec fn spec_speed(self) -> Speed {
        match self.total_seconds() {
            Some(seconds) => speed_of_seconds(seconds),
            None => Speed::Correspondence,
        }
    }

    fn estimate_total_seconds(&self) -> (seconds: Option<u64>)
        ensures
            match seconds {
                Some(seconds) => self.total_seconds() == Some(seconds as int),
                None => self.total_seconds() is None,
            },
    {
        match *self {
            TimeControl::Clock { limit, increment } => {
                let limit: u64 = limit as u64;
                let increment: u64 = increment as u64;
                Some(limit + 40 * increment)
            },
            TimeControl::Correspondence => None,
        }
    }

    /// Classifies the time control by its estimated length.
    pub fn speed(&self) -> (speed: Speed)
        ensures
            speed == self.spec_speed(),
    {
        match self.estimate_total_seconds() {
            None => Speed::Correspondence,
            Some(seconds) => {
                if seconds < 30 {
                    Speed::UltraBullet
                } else if seconds < 180 {
                    Speed::Bullet
                } else if seconds < 480 {
                    Speed::Blitz
                } else if seconds < 1500 {
                    Speed::Rapid
                } else {
                    Speed::Classical
                }
            },
        }
    }
}

/// One value for each speed class.
#[derive(Debug, Clone, Default)]
pub struct BySpeed<T> {
    pub ultra_bullet: T,
    pub bullet: T,
    pub blitz: T,
    pub rapid: T,
    pub classical: T,
    pub correspondence: T,
}

impl<T> BySpeed<T> {
    /// The value kept for `speed`.
    pub open spec fn at(self, speed: Speed) -> T {
        match speed {
            Speed::UltraBullet => self.ultra_bullet,
            Speed::Bullet => self.bullet,
            Speed::Blitz => self.blitz,
            Speed::Rapid => self.rapid,
            Speed::Classical => self.classical,
            Speed::Correspondence => self.correspondence,
        }
    }

    /// The same table with `value` in the place of `speed`.
    pub open spec fn with(self, speed: Speed, value: T) -> BySpeed<T> {
        match speed {
            Speed::UltraBullet => BySpeed { ultra_bullet: value, ..self },
            Speed::Bullet => BySpeed { bullet: value, ..self },
            Speed::Blitz => BySpeed { blitz: value, ..self },
            Speed::Rapid => BySpeed { rapid: value, ..self },
            Speed::Classical => BySpeed { classical: value, ..self },
            Speed::Correspondence => BySpeed { correspondence: value, ..self },
        }
    }

    /// A value put in the place of one speed is found there again, and the
    /// places of the other speeds keep what they held.
    pub proof fn lemma_with_at(self, speed: Speed, value: T, other: Speed)
        ensures
            self.with(speed, value).at(speed) == value,
            other != speed ==> self.with(speed, value).at(other) == self.at(other),
    {
    }

    /// The value kept for `speed`.
    pub fn get(&self, speed: Speed) -> (value: &T)
        ensures
            *value == self.at(speed),
    {
        match speed {
            Speed::UltraBullet => &self.ultra_bullet,
            Speed::Bullet => &self.bullet,
            Speed::Blitz => &self.blitz,
            Speed::Rapid => &self.rapid,
            Speed::Classical => &self.classical,
            Speed::Correspondence => &self.correspondence,
        }
    }

    /// The place of `speed`, to be written to: what is left there is what the
    /// table holds for `speed` afterwards, and nothing else changes.
    pub fn get_mut(&mut self, speed: Speed) -> (value: &mut T)
        ensures
            *value == old(self).at(speed),
            *final(self) == old(self).with(speed, *final(value)),
    {
        match speed {
            Speed::UltraBullet => &mut self.ultra_bullet,
            Speed::Bullet => &mut self.bullet,
            Speed::Blitz => &mut self.blitz,
            Speed::Rapid => &mut self.rapid,
            Speed::Classical => &mut self.classical,
            Speed::Correspondence => &mut self.correspondence,
        }
    }

    /// All six places, from the fastest speed to the slowest, to be written
    /// to: the table afterwards holds what is left in each.
    pub fn values_mut(&mut self) -> (values: [&mut T; 6])
        ensures
            *values[0] == old(self).ultra_bullet,
            *values[1] == old(self).bullet,
            *values[2] == old(self).blitz,
            *values[3] == old(self).rapid,
            *values[4] == old(self).classical,
            *values[5] == old(self).correspondence,
            *final(self) == (BySpeed {
                ultra_bullet: *final(values[0]),
                bullet: *final(values[1]),
                blitz: *final(values[2]),
                rapid: *final(values[3]),
                classical: *final(values[4]),
                correspondence: *final(values[5]),
            }),
    {
        [
            &mut self.ultra_bullet,
            &mut self.bullet,
            &mut self.blitz,
            &mut self.rapid,
            &mut self.classical,
            &mut self.correspondence,
        ]
    }
}

/// One line of a list of encounters.
#[derive(Debug)]
pub struct RawEncounter {
    pub white: String,
    pub black: String,
    pub result: PgnResult,
    pub utc_date_time: UtcDateTime,
    pub time_control: TimeControl,
}

/// Why a line is no encounter: the first of its fields that cannot be read.
#[derive(Debug)]
pub enum InvalidEncounter {
    Result(InvalidPgnResult),
    UtcDateTime(InvalidUtcDateTime),
    TimeControl(InvalidTimeControl),
}

impl RawEncounter {
    /// Reads an encounter from the text of its five fields. The names are
    /// taken as they are; result, time and clock are read in this order, and
    /// the first that cannot be read is the error.
    pub fn from_fields(
        white: String,
        black: String,
        result: &str,
        utc_date_time: &str,
        time_control: &str,
    ) -> (parsed: Result<RawEncounter, InvalidEncounter>)
        ensures
            match parsed {
                Ok(encounter) => {
                    &&& encounter.white == white
                    &&& encounter.black == black
                    &&& parse_pgn_result(result@) == Some(encounter.result)
                    &&& utc_seconds(utc_date_time@, UtcDateTime::layout()) == Some(
                        encounter.utc_date_time.seconds(),
                    )
                    &&& parse_time_control(time_control@) == Some(encounter.time_control)
                },
                Err(InvalidEncounter::Result(_)) => parse_pgn_result(result@) is None,
                Err(InvalidEncounter::UtcDateTime(_)) => {
                    &&& parse_pgn_result(result@) is Some
                    &&& utc_seconds(utc_date_time@, UtcDateTime::layout()) is None
                },
                Err(InvalidEncounter::TimeControl(_)) => {
                    &&& parse_pgn_result(result@) is Some
                    &&& utc_seconds(utc_date_time@, UtcDateTime::layout()) is Some
                    &&& parse_time_control(time_control@) is None
                },
            },
    {
        let result = match PgnResult::from_str(result) {
            Ok(result) => result,
            Err(error) => {
                return Err(InvalidEncounter::Result(error));
            },
        };
        let utc_date_time = match UtcDateTime::from_str(utc_date_time) {
            Ok(moment) => moment,
            Err(error) => {
                return Err(InvalidEncounter::UtcDateTime(error));
            },
        };
        let time_control = match TimeControl::from_str(time_control) {
            Ok(control) => control,
            Err(error) => {
                return Err(InvalidEncounter::TimeControl(error));
            },
        };
        Ok(RawEncounter { white, black, result, utc_date_time, time_control })
    }
}

} // verus!
