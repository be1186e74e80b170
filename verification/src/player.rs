//! Players by number: a register that numbers names in the order in which
//! they first appear, and tables that are indexed by those numbers.

use rustc_hash::{FxBuildHasher, FxHashMap};
use vstd::prelude::*;

verus! {

/// `rustc_hash`'s builder of the hashers that its maps and sets use.
#[verifier::external_type_specification]
#[verifier::external_body]
pub struct ExFxBuildHasher(FxBuildHasher);

/// The names that a map holds, each with its number.
pub uninterp spec fn numbered_names(names: FxHashMap<Box<str>, usize>) -> Map<Seq<char>, usize>;

/// Calls `FxHashMap::default`. Claimed: the new map holds nothing.
#[verifier::external_body]
fn names_new() -> (made: FxHashMap<Box<str>, usize>)
    ensures
        numbered_names(made) == (Map::<Seq<char>, usize>::empty()),
{
    FxHashMap::default()
}

/// Calls `HashMap::len`. Claimed: the call counts the names that the map
/// holds.
#[verifier::external_body]
fn names_len(names: &FxHashMap<Box<str>, usize>) -> (count: usize)
    ensures
        count == numbered_names(*names).len(),
{
    names.len()
}

/// Calls `HashMap::get`. Claimed: the call finds the number of `name` where
/// the map holds that name, and nothing otherwise.
#[verifier::external_body]
fn names_get(names: &FxHashMap<Box<str>, usize>, name: &str) -> (number: Option<usize>)
    ensures
        number == (if numbered_names(*names).contains_key(name@) {
            Some(numbered_names(*names)[name@])
        } else {
            None
        }),
{
    names.get(name).copied()
}

/// Calls `HashMap::insert`. Claimed: afterwards the map holds `name` with
/// `number` and every other name as before, and the call returns the number
/// that `name` had.
#[verifier::external_body]
fn names_insert(names: &mut FxHashMap<Box<str>, usize>, name: String, number: usize) -> (before:
    Option<usize>)
    ensures
        numbered_names(*final(names)) == numbered_names(*old(names)).insert(name@, number),
        before == (if numbered_names(*old(names)).contains_key(name@) {
            Some(numbered_names(*old(names))[name@])
        } else {
            None
        }),
{
    names.insert(name.into_boxed_str(), number)
}

/// Number of a player in a register of names.
#[derive(Debug, Copy, Clone, Eq, PartialEq, Hash, Structural)]
pub struct PlayerId(usize);

impl PlayerId {
    /// The number itself: the count of names that were registered earlier.
    pub closed spec fn index(self) -> usize {
        self.0
    }

    #[verifier::type_invariant]
    spec fn has_successor(self) -> bool {
        self.0 < usize::MAX
    }

    /// Two player numbers are the same exactly when they count the same.
    pub proof fn lemma_same_index(self, other: PlayerId)
        ensures
            (self.index() == other.index()) == (self == other),
    {
    }
}

/// Whether `names` gives its names the numbers from zero up to their count,
/// each number once.
pub open spec fn numbered_densely(names: Map<Seq<char>, usize>) -> bool {
    &&& names.dom().finite()
    &&& forall|name: Seq<char>| #[trigger]
        names.contains_key(name) ==> names[name] < names.len()
    &&& forall|first: Seq<char>, second: Seq<char>|
        #![trigger names[first], names[second]]
        names.contains_key(first) && names.contains_key(second) && names[first] == names[second]
            ==> first == second
}

/// `names` once `name` has been asked for: as it was where it holds the name,
/// and else with the name added under the count of names so far.
pub open spec fn registered(names: Map<Seq<char>, usize>, name: Seq<char>) -> Map<
    Seq<char>,
    usize,
> {
    if names.contains_key(name) {
        names
    } else {
        names.insert(name, names.len() as usize)
    }
}

/// Asking for a name keeps a dense numbering dense: the name is registered
/// afterwards, every name that was registered keeps its number, and the
/// count grows by one exactly where the name is new.
pub proof fn lemma_registered(names: Map<Seq<char>, usize>, name: Seq<char>)
    requires
        numbered_densely(names),
        names.len() < usize::MAX,
    ensures
        numbered_densely(registered(names, name)),
        registered(names, name).contains_key(name),
        forall|other: Seq<char>| #[trigger]
            names.contains_key(other) ==> registered(names, name)[other] == names[other],
        registered(names, name).len() == names.len() + (if names.contains_key(name) {
            0int
        } else {
            1int
        }),
        !names.contains_key(name) ==> registered(names, name)[name] == names.len(),
{
    if !names.contains_key(name) {
        let after = registered(names, name);
        assert(after.dom() =~= names.dom().insert(name));
        assert forall|other: Seq<char>| #[trigger]
            after.contains_key(other) implies after[other] < after.len() by {
            if other != name {
                assert(names.contains_key(other));
            }
        }
        assert forall|first: Seq<char>, second: Seq<char>|
            #![trigger after[first], after[second]]
            after.contains_key(first) && after.contains_key(second) && after[first]
                == after[second] implies first == second by {
            if first != name {
                assert(names.contains_key(first));
            }
            if second != name {
                assert(names.contains_key(second));
            }
        }
    }
}

/// Register of player names. Each new name gets the next free number.
pub struct PlayerIds {
    inner: FxHashMap<Box<str>, usize>,
}

impl View for PlayerIds {
    type V = Map<Seq<char>, usize>;

    /// The registered names, each with its number.
    closed spec fn view(&self) -> Map<Seq<char>, usize> {
        numbered_names(self.inner)
    }
}

impl Default for PlayerIds {
    /// A register without names.
    fn default() -> (ids: PlayerIds)
        ensures
            ids@ == Map::<Seq<char>, usize>::empty(),
            ids@.len() == 0,
    {
        let inner = names_new();
        assert(numbered_names(inner).dom() =~= Set::<Seq<char>>::empty());
        PlayerIds { inner }
    }
}

impl PlayerIds {
    #[verifier::type_invariant]
    spec fn numbers_are_dense(self) -> bool {
        numbered_densely(numbered_names(self.inner))
    }

    /// The number of `name`. A name that is not registered yet is registered
    /// with the count of names so far as its number; nothing else changes.
    pub fn get_or_insert(&mut self, name: String) -> (id: PlayerId)
        ensures
            final(self)@ == registered(old(self)@, name@),
            id.index() == final(self)@[name@],
            numbered_densely(final(self)@),
            !old(self)@.contains_key(name@) ==> id.index() == old(self)@.len() && final(self)@.len()
                == old(self)@.len() + 1,
    {
        proof {
            use_type_invariant(&*self);
        }
        let known = names_get(&self.inner, name.as_str());
        match known {
            Some(number) => {
                // A number is below the count, and the count is a `usize`.
                names_len(&self.inner);
                PlayerId(number)
            },
            None => {
                let ghost before = numbered_names(self.inner);
                let ghost key = name@;
                let next = names_len(&self.inner);
                // The map leaves the register while it grows, so that the
                // register is well numbered whatever the insertion does.
                let mut names = names_new();
                assert(numbered_names(names).dom() =~= Set::<Seq<char>>::empty());
                core::mem::swap(&mut self.inner, &mut names);
                names_insert(&mut names, name, next);
                // The new count is a `usize`, so `next` is below the largest.
                names_len(&names);
                proof {
                    lemma_registered(before, key);
                }
                core::mem::swap(&mut self.inner, &mut names);
                PlayerId(next)
            },
        }
    }

    /// The number of `name`, if it is registered.
    pub fn get(&self, name: &str) -> (id: Option<PlayerId>)
        ensures
            numbered_densely(self@),
            match id {
                Some(id) => self@.contains_key(name@) && id.index() == self@[name@],
                None => !self@.contains_key(name@),
            },
    {
        proof {
            use_type_invariant(self);
        }
        match names_get(&self.inner, name) {
            Some(number) => {
                // A number is below the count, and the count is a `usize`.
                names_len(&self.inner);
                Some(PlayerId(number))
            },
            None => None,
        }
    }

    /// How many names are registered.
    pub fn len(&self) -> (len: usize)
        ensures
            len == self@.len(),
    {
        names_len(&self.inner)
    }
}

/// `table`, with empty places added at its end until it has `len` places; a
/// table that already has as many is left as it is.
pub open spec fn padded<T>(table: Seq<Option<T>>, len: nat) -> Seq<Option<T>> {
    if table.len() >= len {
        table
    } else {
        table + Seq::new((len - table.len()) as nat, |i: int| None::<T>)
    }
}

/// Table with one place for each player number, filled or empty.
pub struct ByPlayerId<T> {
    inner: Vec<Option<T>>,
}

impl<T> View for ByPlayerId<T> {
    type V = Seq<Option<T>>;

    /// The places of the table, by player number. Numbers beyond its end
    /// have no place yet and count as empty.
    closed spec fn view(&self) -> Seq<Option<T>> {
        self.inner@
    }
}

impl<T> Default for ByPlayerId<T> {
    /// A table without places.
    fn default() -> (table: ByPlayerId<T>)
        ensures
            table@ == Seq::<Option<T>>::empty(),
    {
        ByPlayerId { inner: Vec::new() }
    }
}

impl<T> ByPlayerId<T> {
    /// What the table holds for the player number `index`.
    pub open spec fn at(self, index: int) -> Option<T> {
        if 0 <= index < self@.len() {
            self@[index]
        } else {
            None
        }
    }

    /// Adds empty places at the end until the table has `len` of them.
    fn grow(&mut self, len: usize)
        ensures
            final(self)@ == padded(old(self)@, len as nat),
    {
        while self.inner.len() < len
            invariant
                self.inner@ == padded(old(self)@, self.inner@.len()),
                self.inner@.len() >= old(self)@.len(),
                self.inner@.len() == old(self)@.len() || self.inner@.len() <= len,
            decreases len - self.inner.len(),
        {
            self.inner.push(None);
            assert(self.inner@ =~= padded(old(self)@, self.inner@.len()));
        }
        assert(self.inner@ =~= padded(old(self)@, len as nat));
    }

    /// What the table holds for `id`.
    pub fn get(&self, id: PlayerId) -> (value: Option<&T>)
        ensures
            match value {
                Some(value) => self.at(id.index() as int) == Some(*value),
                None => self.at(id.index() as int) is None,
            },
    {
        if id.0 < self.inner.len() {
            self.inner[id.0].as_ref()
        } else {
            None
        }
    }

    /// The value that the table holds for `id`, to be written to. Where the
    /// table holds none yet, it is first grown to reach `id`, and the place of
    /// `id` is filled with what `f` makes. What is left in the place is what
    /// the table holds for `id` afterwards; no other place changes.
    pub fn get_mut_or_insert_with<F>(&mut self, id: PlayerId, f: F) -> (value: &mut T) where
        F: FnOnce() -> T,

        requires
            f.requires(()),
        ensures
            match old(self).at(id.index() as int) {
                Some(held) => *value == held,
                None => f.ensures((), *value),
            },
            final(self)@ == padded(old(self)@, (id.index() + 1) as nat).update(
                id.index() as int,
                Some(*final(value)),
            ),
    {
        proof {
            use_type_invariant(&id);
        }
        let index: usize = id.0;
        if self.inner.len() <= index {
            self.grow(index + 1);
        }
        if self.inner[index].is_none() {
            self.inner[index] = Some(f());
        }
        self.inner[index].as_mut().unwrap()
    }

    /// Puts `value` in the place of `id`, growing the table to reach it. No
    /// other place changes.
    pub fn set(&mut self, id: PlayerId, value: T)
        ensures
            final(self)@ == padded(old(self)@, (id.index() + 1) as nat).update(
                id.index() as int,
                Some(value),
            ),
    {
        proof {
            use_type_invariant(&id);
        }
        let index: usize = id.0;
        if self.inner.len() <= index {
            self.grow(index + 1);
        }
        self.inner[index] = Some(value);
    }

    /// All places of the table, by player number.
    pub fn values(&self) -> (values: &[Option<T>])
        ensures
            values@ == self@,
    {
        self.inner.as_slice()
    }

    /// All places of the table, by player number, to be written to: the
    /// table afterwards holds what is left in them.
    pub fn values_mut(&mut self) -> (values: &mut [Option<T>])
        ensures
            values@ == old(self)@,
            final(self)@ == final(values)@,
    {
        self.inner.as_mut_slice()
    }
}

} // verus!
