//! How new players fare: the results of the first game of every player.

use crate::encounter::Outcome;
use rustc_hash::FxHashSet;
use vstd::prelude::*;
use vstd::string::StringExecFns;

verus! {

/// The names that a set holds.
pub uninterp spec fn seen_names(names: FxHashSet<String>) -> Set<Seq<char>>;

/// Calls `FxHashSet::default`. Claimed: the new set holds nothing.
#[verifier::external_body]
fn seen_new() -> (made: FxHashSet<String>)
    ensures
        seen_names(made) == Set::<Seq<char>>::empty(),
{
    FxHashSet::default()
}

/// Calls `HashSet::len`. Claimed: the call counts the names that the set
/// holds.
#[verifier::external_body]
fn seen_len(names: &FxHashSet<String>) -> (count: usize)
    ensures
        count == seen_names(*names).len(),
{
    names.len()
}

/// Calls `HashSet::insert`. Claimed: afterwards the set holds `name` and
/// what it held before, and the call tells whether `name` is new to it.
#[verifier::external_body]
fn seen_insert(names: &mut FxHashSet<String>, name: String) -> (is_new: bool)
    ensures
        seen_names(*final(names)) == seen_names(*old(names)).insert(name@),
        is_new == !seen_names(*old(names)).contains(name@),
{
    names.insert(name)
}

/// What the players of one speed made of their first game.
pub struct Stats {
    first_wins: u64,
    first_draws: u64,
    total_first_games: u64,
    players: FxHashSet<String>,
}

/// The counts of first games after one more of them, which ended in
/// `outcome`: wins, draws and games, in this order.
pub open spec fn counted(counts: (nat, nat, nat), outcome: Outcome) -> (nat, nat, nat) {
    match outcome {
        Outcome::Win => (counts.0 + 1, counts.1, counts.2 + 1),
        Outcome::Draw => (counts.0, counts.1 + 1, counts.2 + 1),
        Outcome::Loss => (counts.0, counts.1, counts.2 + 1),
    }
}

impl Default for Stats {
    /// Statistics without games.
    fn default() -> (stats: Stats)
        ensures
            stats.players() == Set::<Seq<char>>::empty(),
            stats.counts() == (0nat, 0nat, 0nat),
    {
        Stats::new()
    }
}

impl Stats {
    /// The players that have been seen.
    pub closed spec fn players(self) -> Set<Seq<char>> {
        seen_names(self.players)
    }

    /// How many first games were won, how many were drawn, and how many
    /// there were.
    pub closed spec fn counts(self) -> (nat, nat, nat) {
        (self.first_wins as nat, self.first_draws as nat, self.total_first_games as nat)
    }

    #[verifier::type_invariant]
    spec fn one_game_each(self) -> bool {
        &&& seen_names(self.players).finite()
        &&& self.total_first_games == seen_names(self.players).len()
        &&& self.first_wins + self.first_draws <= self.total_first_games
    }

    /// Statistics without games.
    pub fn new() -> (stats: Stats)
        ensures
            stats.players() == Set::<Seq<char>>::empty(),
            stats.counts() == (0nat, 0nat, 0nat),
    {
        let players = seen_new();
        assert(seen_names(players).len() == 0);
        Stats { first_wins: 0, first_draws: 0, total_first_games: 0, players }
    }

    fn record_player(&mut self, name: String, outcome: Outcome)
        ensures
            final(self).players() == old(self).players().insert(name@),
            final(self).counts() == (if old(self).players().contains(name@) {
                old(self).counts()
            } else {
                counted(old(self).counts(), outcome)
            }),
    {
        proof {
            use_type_invariant(&*self);
        }
        // The statistics are taken apart while the set grows, so that they
        // count one game for each player whatever the insertion does.
        let mut taken = Stats::new();
        core::mem::swap(self, &mut taken);
        let Stats { first_wins, first_draws, total_first_games, players } = taken;
        let mut players = players;
        let ghost before = seen_names(players);
        let is_new = seen_insert(&mut players, name);
        // The new count is a `usize`, so the counters below cannot overflow.
        seen_len(&players);
        assert(seen_names(players).len() == before.len() + (if is_new {
            1int
        } else {
            0int
        }));
        if is_new {
            *self = match outcome {
                Outcome::Win => Stats {
                    first_wins: first_wins + 1,
                    first_draws,
                    total_first_games: total_first_games + 1,
                    players,
                },
                Outcome::Draw => Stats {
                    first_wins,
                    first_draws: first_draws + 1,
                    total_first_games: total_first_games + 1,
                    players,
                },
                Outcome::Loss => Stats {
                    first_wins,
                    first_draws,
                    total_first_games: total_first_games + 1,
                    players,
                },
            };
        } else {
            assert(seen_names(players) =~= before);
            *self = Stats { first_wins, first_draws, total_first_games, players };
        }
    }

    /// Takes note of one game. For each of its two players, White first, who
    /// was not seen before, the game is a first game and is counted with what
    /// it was worth to that player.
    pub fn record(&mut self, white: String, black: String, white_score: Outcome)
        ensures
            final(self).players() == old(self).players().insert(white@).insert(black@),
            final(self).counts() == ({
                let after_white = if old(self).players().contains(white@) {
                    old(self).counts()
                } else {
                    counted(old(self).counts(), white_score)
                };
                if old(self).players().insert(white@).contains(black@) {
                    after_white
                } else {
                    counted(after_white, white_score.spec_opposite())
                }
            }),
    {
        self.record_player(white, white_score);
        self.record_player(black, white_score.opposite());
    }

    /// How many first games there were: one for each player that was seen.
    pub fn total_first_games(&self) -> (games: u64)
        ensures
            games == self.counts().2,
            self.players().finite(),
            games == self.players().len(),
    {
        proof {
            use_type_invariant(self);
        }
        self.total_first_games
    }

    /// Twice the score that the first games made in all: two for each win
    /// and one for each draw.
    pub fn total_first_half_points(&self) -> (points: u128)
        ensures
            points == 2 * self.counts().0 + self.counts().1,
            points <= 2 * self.counts().2,
    {
        proof {
            use_type_invariant(self);
        }
        2 * (self.first_wins as u128) + (self.first_draws as u128)
    }

    /// Heading of the column that reports the statistics of `prefix`.
    pub fn csv_header(prefix: &str) -> (heading: String)
        ensures
            heading@ == prefix@ + "_avg_first_player_score"@,
    {
        let mut heading = prefix.to_owned();
        heading.append("_avg_first_player_score");
        heading
    }
}

} // verus!
