//! From the tag section of PGN games to one line per encounter.

use crate::calendar::{date_text, normalize_date, normalize_time, time_text};
use crate::text::{chars_of, lowered, strip_both, strip_known};
use vstd::prelude::*;
use vstd::string::StringExecFns;

verus! {

/// What has been read of the tags of one game.
pub struct Tags {
    /// Name of the player of the white pieces, in lower case.
    pub white: Seq<char>,
    /// Name of the player of the black pieces, in lower case.
    pub black: Seq<char>,
    /// Result, as the game writes it.
    pub result: Seq<char>,
    /// Date on which the game started, as `chrono` displays it.
    pub utc_date: Seq<char>,
    /// Time of day at which the game started, as `chrono` displays it.
    pub utc_time: Seq<char>,
    /// Time control, as the game writes it.
    pub time_control: Seq<char>,
}

/// `line` without the line feed at its end, if it has one.
pub open spec fn without_line_feed(line: Seq<char>) -> Seq<char> {
    if line.len() > 0 && line.last() == '\n' {
        line.drop_last()
    } else {
        line
    }
}

/// The value of the tag `name` where `line` is that tag: an opening
/// bracket, the name, a space and the value in double quotes, then a closing
/// bracket.
pub open spec fn tag_value(line: Seq<char>, name: Seq<char>) -> Option<Seq<char>> {
    strip_both(line, seq!['['] + name + seq![' ', '"'], seq!['"', ']'])
}

/// The layout in which PGN writes a date: year, month and day with dots.
pub open spec fn date_layout() -> Seq<char> {
    "%Y.%m.%d"@
}

impl Tags {
    /// The tags before anything is read: no names, no result, no time
    /// control, and the first moment of 1970.
    pub open spec fn blank() -> Tags {
        Tags {
            white: Seq::empty(),
            black: Seq::empty(),
            result: Seq::empty(),
            utc_date: "1970-01-01"@,
            utc_time: "00:00:00"@,
            time_control: Seq::empty(),
        }
    }

    /// The line of the encounter: both names, the result, date and time, and
    /// the time control, with commas between them.
    pub open spec fn row(self) -> Seq<char> {
        self.white + seq![','] + self.black + seq![','] + self.result + seq![','] + self.utc_date
            + seq![' '] + self.utc_time + seq![','] + self.time_control
    }

    /// The tags after `line`, which has no line feed at its end. An empty
    /// line ends the game. A line that is one of the six tags below sets
    /// what is known of it: the names in lower case, and for a date or a
    /// time that cannot be read the start of 1970 or midnight. Any other
    /// line changes nothing.
    pub open spec fn after(self, line: Seq<char>) -> Tags {
        if line.len() == 0 {
            Tags::blank()
        } else if let Some(value) = tag_value(line, "White"@) {
            Tags { white: lowered(value), ..self }
        } else if let Some(value) = tag_value(line, "Black"@) {
            Tags { black: lowered(value), ..self }
        } else if let Some(value) = tag_value(line, "Result"@) {
            Tags { result: value, ..self }
        } else if let Some(value) = tag_value(line, "UTCDate"@) {
            match date_text(value, date_layout()) {
                Some(date) => Tags { utc_date: date, ..self },
                None => Tags { utc_date: "1970-01-01"@, ..self },
            }
        } else if let Some(value) = tag_value(line, "UTCTime"@) {
            match time_text(value) {
                Some(time) => Tags { utc_time: time, ..self },
                None => Tags { utc_time: "00:00:00"@, ..self },
            }
        } else if let Some(value) = tag_value(line, "TimeControl"@) {
            Tags { time_control: value, ..self }
        } else {
            self
        }
    }

    /// The line to write when `line`, which has no line feed at its end, has
    /// been read: the encounter, where `line` is empty and a white player
    /// is known.
    pub open spec fn emitted(self, line: Seq<char>) -> Option<Seq<char>> {
        if line.len() == 0 && self.white.len() > 0 {
            Some(self.row())
        } else {
            None
        }
    }
}

/// Reads the tag sections of PGN games line by line and turns each game
/// into one line of a list of encounters.
pub struct TagReader {
    white: String,
    black: String,
    result: String,
    utc_date: String,
    utc_time: String,
    time_control: String,
}

impl View for TagReader {
    type V = Tags;

    closed spec fn view(&self) -> Tags {
        Tags {
            white: self.white@,
            black: self.black@,
            result: self.result@,
            utc_date: self.utc_date@,
            utc_time: self.utc_time@,
            time_control: self.time_control@,
        }
    }
}

impl TagReader {
    /// A reader that has read nothing.
    pub fn new() -> (reader: TagReader)
        ensures
            reader@ == Tags::blank(),
    {
        TagReader {
            white: String::new(),
            black: String::new(),
            result: String::new(),
            utc_date: "1970-01-01".to_owned(),
            utc_time: "00:00:00".to_owned(),
            time_control: String::new(),
        }
    }

    fn row(&self) -> (row: String)
        ensures
            row@ == self@.row(),
    {
        proof {
            reveal_strlit(",");
            reveal_strlit(" ");
            assert(","@ =~= seq![',']);
            assert(" "@ =~= seq![' ']);
        }
        let mut row = self.white.clone();
        row.append(",");
        row.append(self.black.as_str());
        row.append(",");
        row.append(self.result.as_str());
        row.append(",");
        row.append(self.utc_date.as_str());
        row.append(" ");
        row.append(self.utc_time.as_str());
        row.append(",");
        row.append(self.time_control.as_str());
        row
    }

    /// Reads one line, with or without the line feed that ended it, and
    /// returns the line of the encounter that it completes, if any.
    pub fn feed(&mut self, line: &str) -> (row: Option<String>)
        ensures
            final(self)@ == old(self)@.after(without_line_feed(line@)),
            match row {
                Some(row) => old(self)@.emitted(without_line_feed(line@)) == Some(row@),
                None => old(self)@.emitted(without_line_feed(line@)) is None,
            },
    {
        let mut chars = chars_of(line);
        let len: usize = chars.len();
        let ghost read = line@;
        let line: &str = if len > 0 && chars[len - 1] == '\n' {
            chars.pop();
            line.substring_char(0, len - 1)
        } else {
            line
        };
        assert(line@ =~= without_line_feed(read)) by {
            assert(read.drop_last() =~= read.subrange(0, len - 1));
        }
        assert(chars@ =~= line@);
        proof {
            reveal_strlit("[White \"");
            reveal_strlit("[Black \"");
            reveal_strlit("[Result \"");
            reveal_strlit("[UTCDate \"");
            reveal_strlit("[UTCTime \"");
            reveal_strlit("[TimeControl \"");
            reveal_strlit("\"]");
            reveal_strlit("White");
            reveal_strlit("Black");
            reveal_strlit("Result");
            reveal_strlit("UTCDate");
            reveal_strlit("UTCTime");
            reveal_strlit("TimeControl");
            assert("[White \""@ =~= seq!['['] + "White"@ + seq![' ', '"']);
            assert("[Black \""@ =~= seq!['['] + "Black"@ + seq![' ', '"']);
            assert("[Result \""@ =~= seq!['['] + "Result"@ + seq![' ', '"']);
            assert("[UTCDate \""@ =~= seq!['['] + "UTCDate"@ + seq![' ', '"']);
            assert("[UTCTime \""@ =~= seq!['['] + "UTCTime"@ + seq![' ', '"']);
            assert("[TimeControl \""@ =~= seq!['['] + "TimeControl"@ + seq![' ', '"']);
            assert("\"]"@ =~= seq!['"', ']']);
        }
        if chars.len() == 0 {
            let row = if !self.white.as_str().is_empty() {
                Some(self.row())
            } else {
                None
            };
            *self = TagReader::new();
            row
        } else if let Some(value) = strip_known(line, &chars, "[White \"", "\"]") {
            self.white = value.to_ascii_lowercase();
            None
        } else if let Some(value) = strip_known(line, &chars, "[Black \"", "\"]") {
            self.black = value.to_ascii_lowercase();
            None
        } else if let Some(value) = strip_known(line, &chars, "[Result \"", "\"]") {
            self.result = value.to_owned();
            None
        } else if let Some(value) = strip_known(line, &chars, "[UTCDate \"", "\"]") {
            self.utc_date = match normalize_date(value, "%Y.%m.%d") {
                Some(date) => date,
                None => "1970-01-01".to_owned(),
            };
            None
        } else if let Some(value) = strip_known(line, &chars, "[UTCTime \"", "\"]") {
            self.utc_time = match normalize_time(value) {
                Some(time) => time,
                None => "00:00:00".to_owned(),
            };
            None
        } else if let Some(value) = strip_known(line, &chars, "[TimeControl \"", "\"]") {
            self.time_control = value.to_owned();
            None
        } else {
            None
        }
    }
}

} // verus!
