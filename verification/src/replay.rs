//! Replaying a list of encounters: encounters between numbered players, a
//! tally of results by rating deviation, and the choice of the ratings that
//! a report looks at.

use crate::encounter::{Outcome, RawEncounter, Speed, UtcDateTime};
use crate::player::{registered, PlayerId, PlayerIds};
use vstd::prelude::*;

verus! {

/// A finished game between two numbered players.
#[derive(Debug)]
pub struct Encounter {
    pub white: PlayerId,
    pub black: PlayerId,
    pub white_score: Outcome,
    pub utc_date_time: UtcDateTime,
    pub speed: Speed,
}

impl Encounter {
    /// Numbers the two players of `raw`, White first, and makes the
    /// encounter. Both players are registered even where the game has no
    /// result; such a game is no encounter.
    pub fn resolve(raw: RawEncounter, players: &mut PlayerIds) -> (encounter: Option<Encounter>)
        ensures
            final(players)@ == registered(registered(old(players)@, raw.white@), raw.black@),
            match encounter {
                Some(encounter) => {
                    &&& encounter.white.index() == registered(old(players)@, raw.white@)[raw.white@]
                    &&& encounter.black.index() == final(players)@[raw.black@]
                    &&& raw.result.spec_white_score() == Some(encounter.white_score)
                    &&& encounter.utc_date_time == raw.utc_date_time
                    &&& encounter.speed == raw.time_control.spec_speed()
                },
                None => raw.result.spec_white_score() is None,
            },
    {
        let white = players.get_or_insert(raw.white);
        let black = players.get_or_insert(raw.black);
        let white_score = match raw.result.white_score() {
            Some(score) => score,
            None => {
                return None;
            },
        };
        Some(
            Encounter {
                white,
                black,
                white_score,
                utc_date_time: raw.utc_date_time,
                speed: raw.time_control.speed(),
            },
        )
    }
}

/// How many games were won, drawn and lost.
#[derive(Debug, Default, Clone, Copy, PartialEq, Eq, Structural)]
pub struct Wdl {
    pub wins: u64,
    pub draws: u64,
    pub losses: u64,
}

impl Wdl {
    /// How many games ended in `outcome`.
    pub open spec fn count(self, outcome: Outcome) -> u64 {
        match outcome {
            Outcome::Win => self.wins,
            Outcome::Draw => self.draws,
            Outcome::Loss => self.losses,
        }
    }

    /// The tally with one more game that ended in `outcome`.
    pub open spec fn with_one_more(self, outcome: Outcome) -> Wdl
        recommends
            self.count(outcome) < u64::MAX,
    {
        match outcome {
            Outcome::Win => Wdl { wins: (self.wins + 1) as u64, ..self },
            Outcome::Draw => Wdl { draws: (self.draws + 1) as u64, ..self },
            Outcome::Loss => Wdl { losses: (self.losses + 1) as u64, ..self },
        }
    }
}

/// `buckets`, with empty tallies added at its end until it has `len` tallies.
pub open spec fn extended(buckets: Seq<Wdl>, len: nat) -> Seq<Wdl> {
    if buckets.len() >= len {
        buckets
    } else {
        buckets + Seq::new(
            (len - buckets.len()) as nat,
            |i: int| Wdl { wins: 0, draws: 0, losses: 0 },
        )
    }
}

/// Results of games by the rating deviation, rounded to a whole number, that
/// the player had before the game.
#[derive(Debug)]
pub struct DeviationHistogram {
    buckets: Vec<Wdl>,
}

impl View for DeviationHistogram {
    type V = Seq<Wdl>;

    /// The tallies by rounded deviation. A deviation beyond the end has no
    /// tally yet, which is an empty one.
    closed spec fn view(&self) -> Seq<Wdl> {
        self.buckets@
    }
}

impl Default for DeviationHistogram {
    /// A histogram without games.
    fn default() -> (histogram: DeviationHistogram)
        ensures
            histogram@ == Seq::<Wdl>::empty(),
    {
        DeviationHistogram { buckets: Vec::new() }
    }
}

impl DeviationHistogram {
    /// How many games that ended in `outcome` are counted under `bucket`.
    pub open spec fn count(self, bucket: int, outcome: Outcome) -> u64 {
        if 0 <= bucket < self@.len() {
            self@[bucket].count(outcome)
        } else {
            0
        }
    }

    /// Counts one game that ended in `outcome` under `bucket`, the player's
    /// rounded deviation. The histogram grows to reach `bucket`; no other
    /// count changes.
    pub fn record(&mut self, bucket: usize, outcome: Outcome)
        requires
            bucket < usize::MAX,
            old(self).count(bucket as int, outcome) < u64::MAX,
        ensures
            final(self)@ == extended(old(self)@, (bucket + 1) as nat).update(
                bucket as int,
                extended(old(self)@, (bucket + 1) as nat)[bucket as int].with_one_more(outcome),
            ),
    {
        while self.buckets.len() <= bucket
            invariant
                bucket < usize::MAX,
                self.buckets@ == extended(old(self)@, self.buckets@.len()),
                self.buckets@.len() >= old(self)@.len(),
                self.buckets@.len() == old(self)@.len() || self.buckets@.len() <= bucket + 1,
            decreases bucket + 1 - self.buckets.len(),
        {
            self.buckets.push(Wdl { wins: 0, draws: 0, losses: 0 });
            assert(self.buckets@ =~= extended(old(self)@, self.buckets@.len()));
        }
        assert(self.buckets@ =~= extended(old(self)@, (bucket + 1) as nat));
        let tally: Wdl = self.buckets[bucket];
        let counted: Wdl = match outcome {
            Outcome::Win => Wdl { wins: tally.wins + 1, ..tally },
            Outcome::Draw => Wdl { draws: tally.draws + 1, ..tally },
            Outcome::Loss => Wdl { losses: tally.losses + 1, ..tally },
        };
        self.buckets[bucket] = counted;
    }

    /// The tallies by rounded deviation, from zero up.
    pub fn buckets(&self) -> (buckets: &[Wdl])
        ensures
            buckets@ == self@,
    {
        self.buckets.as_slice()
    }
}

/// Distance between the places of a table of `len` places that a report
/// looks at: every place of a small table, and about a hundred thousand
/// places of a large one.
pub open spec fn sample_stride(len: nat) -> nat {
    1 + len / 100_000
}

/// The values that `table` holds at the places `from`, `from + stride`,
/// `from + 2 * stride` and so on, in this order; empty places are left out.
pub open spec fn sampled_from<T>(table: Seq<Option<T>>, from: nat, stride: nat) -> Seq<T>
    decreases (if from < table.len() {
        table.len() - from
    } else {
        0
    }),
{
    if from >= table.len() || stride == 0 {
        Seq::empty()
    } else {
        let rest = sampled_from(table, from + stride, stride);
        match table[from as int] {
            Some(value) => seq![value] + rest,
            None => rest,
        }
    }
}

/// The values of `table` that a report looks at.
pub open spec fn sampled<T>(table: Seq<Option<T>>) -> Seq<T> {
    sampled_from(table, 0, sample_stride(table.len()))
}

/// Picks the values of `table` that a report looks at: those at every
/// `sample_stride`-th place from the first on.
pub fn sample<T>(table: &[Option<T>]) -> (values: Vec<&T>)
    ensures
        values@.len() == sampled(table@).len(),
        forall|i: int| 0 <= i < values@.len() ==> *values@[i] == sampled(table@)[i],
{
    let len: usize = table.len();
    let stride: usize = 1 + len / 100_000;
    let mut values: Vec<&T> = Vec::new();
    let mut i: usize = 0;
    let ghost mut taken: Seq<T> = Seq::empty();
    while i < len
        invariant
            len == table@.len(),
            stride == sample_stride(table@.len() as nat),
            i <= len,
            values@.len() == taken.len(),
            forall|j: int| 0 <= j < values@.len() ==> *values@[j] == taken[j],
            sampled(table@) == taken + sampled_from(table@, i as nat, stride as nat),
        decreases len - i,
    {
        match &table[i] {
            Some(value) => {
                values.push(value);
                proof {
                    let rest = sampled_from(table@, (i + stride) as nat, stride as nat);
                    assert(taken + (seq![*value] + rest) =~= taken.push(*value) + rest);
                    taken = taken.push(*value);
                }
            },
            None => {},
        }
        if stride >= len - i {
            proof {
                assert(sampled_from(table@, (i + stride) as nat, stride as nat) =~= Seq::<
                    T,
                >::empty());
                assert(sampled_from(table@, len as nat, stride as nat) =~= Seq::<T>::empty());
            }
            i = len;
        } else {
            i += stride;
        }
    }
    assert(sampled(table@) =~= taken);
    values
}

/// The place of the `percent`-th percentile among `len` sorted values: the
/// place `len * percent / 100`, as far as there is such a place.
pub open spec fn percentile_place(len: nat, percent: nat) -> Option<nat> {
    if len * percent / 100 < len {
        Some(len * percent / 100)
    } else {
        None
    }
}

/// The place of the `percent`-th percentile among `len` sorted values, and
/// the last place where the percentile lies beyond it; no place where
/// there are no values.
pub open spec fn percentile_place_or_last(len: nat, percent: nat) -> Option<nat> {
    if len * percent / 100 < len {
        Some(len * percent / 100)
    } else if len > 0 {
        Some((len - 1) as nat)
    } else {
        None
    }
}

/// Finds the place of the `percent`-th percentile among `len` sorted values.
pub fn percentile_index(len: usize, percent: usize) -> (place: Option<usize>)
    ensures
        match place {
            Some(place) => percentile_place(len as nat, percent as nat) == Some(place as nat),
            None => percentile_place(len as nat, percent as nat) is None,
        },
{
    assert(len * percent <= 0xffff_ffff_ffff_ffff * 0xffff_ffff_ffff_ffff) by (nonlinear_arith)
        requires
            0 <= len <= 0xffff_ffff_ffff_ffff,
            0 <= percent <= 0xffff_ffff_ffff_ffff,
    ;
    let product: u128 = (len as u128) * (percent as u128);
    let place: u128 = product / 100;
    if place < len as u128 {
        Some(place as usize)
    } else {
        None
    }
}

/// Finds the place of the `percent`-th percentile among `len` sorted values,
/// or the last place where the percentile lies beyond it.
pub fn percentile_index_or_last(len: usize, percent: usize) -> (place: Option<usize>)
    ensures
        match place {
            Some(place) => percentile_place_or_last(len as nat, percent as nat) == Some(
                place as nat,
            ),
            None => percentile_place_or_last(len as nat, percent as nat) is None,
        },
{
    match percentile_index(len, percent) {
        Some(place) => Some(place),
        None => if len > 0 {
            Some(len - 1)
        } else {
            None
        },
    }
}

} // verus!
