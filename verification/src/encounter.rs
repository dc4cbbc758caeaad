//! The encounter roster, its ordering invariant, and the append-only log.
use crate::character::{
    spec_can_reset, spec_ready, spec_reset_shape, spec_sortkey, Character,
};
use crate::util::str_eq;
use vstd::prelude::*;

verus! {

broadcast use vstd::seq_lib::group_to_multiset_ensures;

/// The roster is in turn order: ascending by sort key.
pub open spec fn roster_sorted(s: Seq<Character>) -> bool {
    forall|i: int, j: int|
        0 <= i <= j < s.len() ==> spec_sortkey(s[i]) <= spec_sortkey(s[j])
}

/// Insert a character behind every entry whose key is at most its own, in
/// front of the trailing entries with strictly greater keys.
pub open spec fn insert_by_key(s: Seq<Character>, c: Character) -> Seq<Character>
    decreases s.len(),
{
    if s.len() == 0 {
        seq![c]
    } else if spec_sortkey(c) < spec_sortkey(s.last()) {
        insert_by_key(s.drop_last(), c).push(s.last())
    } else {
        s.push(c)
    }
}

/// Stable insertion sort by sort key: entries with equal keys keep their
/// relative order.
pub open spec fn sort_by_key(s: Seq<Character>) -> Seq<Character>
    decreases s.len(),
{
    if s.len() == 0 {
        Seq::empty()
    } else {
        insert_by_key(sort_by_key(s.drop_last()), s.last())
    }
}

pub proof fn lemma_insert_by_key_len(s: Seq<Character>, c: Character)
    ensures
        insert_by_key(s, c).len() == s.len() + 1,
    decreases s.len(),
{
    if s.len() > 0 && spec_sortkey(c) < spec_sortkey(s.last()) {
        lemma_insert_by_key_len(s.drop_last(), c);
    }
}

pub proof fn lemma_sort_by_key_len(s: Seq<Character>)
    ensures
        sort_by_key(s).len() == s.len(),
    decreases s.len(),
{
    if s.len() > 0 {
        lemma_sort_by_key_len(s.drop_last());
        lemma_insert_by_key_len(sort_by_key(s.drop_last()), s.last());
    }
}

/// Inserting at a position whose left neighbour has a key at most the new
/// key, with everything from the position on strictly greater, is exactly
/// `insert_by_key`.
pub proof fn lemma_insert_by_key_at(s: Seq<Character>, c: Character, j: int)
    requires
        0 <= j <= s.len(),
        j > 0 ==> spec_sortkey(s[j - 1]) <= spec_sortkey(c),
        forall|i: int| j <= i < s.len() ==> spec_sortkey(s[i]) > spec_sortkey(c),
    ensures
        insert_by_key(s, c) == s.insert(j, c),
    decreases s.len(),
{
    if s.len() == 0 {
        assert(insert_by_key(s, c) =~= s.insert(0, c));
    } else if j == s.len() {
        assert(insert_by_key(s, c) =~= s.insert(j, c));
    } else {
        assert(spec_sortkey(s.last()) > spec_sortkey(c));
        lemma_insert_by_key_at(s.drop_last(), c, j);
        assert(insert_by_key(s, c) == s.drop_last().insert(j, c).push(s.last()));
        assert(s.drop_last().insert(j, c).push(s.last()) =~= s.insert(j, c));
    }
}

pub proof fn lemma_insert_by_key_key_bound(s: Seq<Character>, c: Character, bound: int)
    requires
        forall|i: int| 0 <= i < s.len() ==> spec_sortkey(s[i]) <= bound,
        spec_sortkey(c) <= bound,
    ensures
        forall|i: int|
            0 <= i < insert_by_key(s, c).len() ==> spec_sortkey(insert_by_key(s, c)[i]) <= bound,
    decreases s.len(),
{
    if s.len() > 0 && spec_sortkey(c) < spec_sortkey(s.last()) {
        assert(forall|i: int|
            0 <= i < s.drop_last().len() ==> spec_sortkey(s.drop_last()[i]) <= bound);
        lemma_insert_by_key_key_bound(s.drop_last(), c, bound);
        let inner = insert_by_key(s.drop_last(), c);
        lemma_insert_by_key_len(s.drop_last(), c);
        assert forall|i: int|
            0 <= i < insert_by_key(s, c).len() implies spec_sortkey(insert_by_key(s, c)[i])
            <= bound by {
            if i < inner.len() {
                assert(insert_by_key(s, c)[i] == inner[i]);
            } else {
                assert(insert_by_key(s, c)[i] == s.last());
                assert(spec_sortkey(s[s.len() - 1]) <= bound);
            }
        }
    }
}

pub proof fn lemma_insert_by_key_sorted(s: Seq<Character>, c: Character)
    requires
        roster_sorted(s),
    ensures
        roster_sorted(insert_by_key(s, c)),
    decreases s.len(),
{
    if s.len() == 0 {
    } else if spec_sortkey(c) < spec_sortkey(s.last()) {
        assert(roster_sorted(s.drop_last()));
        lemma_insert_by_key_sorted(s.drop_last(), c);
        assert(forall|i: int|
            0 <= i < s.drop_last().len() ==> spec_sortkey(s.drop_last()[i]) <= spec_sortkey(
                s.last(),
            ));
        lemma_insert_by_key_key_bound(s.drop_last(), c, spec_sortkey(s.last()));
        lemma_insert_by_key_len(s.drop_last(), c);
    } else {
        assert(forall|i: int| 0 <= i < s.len() ==> spec_sortkey(s[i]) <= spec_sortkey(s.last()));
    }
}

/// The sorted roster is in turn order.
pub proof fn lemma_sort_by_key_sorted(s: Seq<Character>)
    ensures
        roster_sorted(sort_by_key(s)),
    decreases s.len(),
{
    if s.len() > 0 {
        lemma_sort_by_key_sorted(s.drop_last());
        lemma_insert_by_key_sorted(sort_by_key(s.drop_last()), s.last());
    }
}

/// Sorting a roster that is already in turn order changes nothing: the sort
/// is stable, so a second pass is the identity.
pub proof fn lemma_sort_by_key_of_sorted(s: Seq<Character>)
    requires
        roster_sorted(s),
    ensures
        sort_by_key(s) == s,
    decreases s.len(),
{
    if s.len() > 0 {
        assert(roster_sorted(s.drop_last()));
        lemma_sort_by_key_of_sorted(s.drop_last());
        if s.len() > 1 {
            assert(spec_sortkey(s.drop_last().last()) <= spec_sortkey(s.last()));
        }
        assert(insert_by_key(s.drop_last(), s.last()) =~= s);
    } else {
        assert(sort_by_key(s) =~= s);
    }
}

pub proof fn lemma_insert_by_key_multiset(s: Seq<Character>, c: Character)
    ensures
        insert_by_key(s, c).to_multiset() == s.to_multiset().insert(c),
    decreases s.len(),
{
    if s.len() == 0 {
        assert(seq![c] =~= Seq::<Character>::empty().push(c));
        assert(s =~= Seq::<Character>::empty());
    } else if spec_sortkey(c) < spec_sortkey(s.last()) {
        lemma_insert_by_key_multiset(s.drop_last(), c);
        assert(s.drop_last().push(s.last()) =~= s);
        assert(insert_by_key(s, c).to_multiset() =~= s.to_multiset().insert(c));
    }
}

/// Sorting keeps exactly the roster's members.
pub proof fn lemma_sort_by_key_multiset(s: Seq<Character>)
    ensures
        sort_by_key(s).to_multiset() == s.to_multiset(),
    decreases s.len(),
{
    if s.len() > 0 {
        lemma_sort_by_key_multiset(s.drop_last());
        lemma_insert_by_key_multiset(sort_by_key(s.drop_last()), s.last());
        assert(s.drop_last().push(s.last()) =~= s);
        assert(sort_by_key(s).to_multiset() =~= s.to_multiset());
    }
}

/// Every roster member made ready for a new round.
pub open spec fn spec_ready_all(s: Seq<Character>) -> Seq<Character> {
    s.map_values(|c: Character| spec_ready(c))
}

/// What a new round does to the roster: clear every done flag, then restore
/// turn order.
pub open spec fn spec_new_round(s: Seq<Character>) -> Seq<Character> {
    sort_by_key(spec_ready_all(s))
}

/// Starting a new round twice in a row, with no mutation in between, leaves
/// the same roster as starting it once.
pub proof fn lemma_new_round_idempotent(s: Seq<Character>)
    ensures
        spec_new_round(spec_new_round(s)) == spec_new_round(s),
{
    let t = spec_new_round(s);
    lemma_sort_by_key_sorted(spec_ready_all(s));
    lemma_sort_by_key_multiset(spec_ready_all(s));
    assert forall|i: int| 0 <= i < t.len() implies !t[i].done by {
        assert(t.to_multiset().count(t[i]) > 0);
        assert(spec_ready_all(s).contains(t[i]));
    }
    assert(spec_ready_all(t) =~= t);
    lemma_sort_by_key_of_sorted(t);
}

/// How many roster entries bear the given name.
pub open spec fn count_matching(s: Seq<Character>, name: Seq<char>) -> int
    decreases s.len(),
{
    if s.len() == 0 {
        0
    } else {
        count_matching(s.drop_last(), name) + if s.last().name@ == name {
            1int
        } else {
            0int
        }
    }
}

pub proof fn lemma_count_matching_bounds(s: Seq<Character>, name: Seq<char>)
    ensures
        0 <= count_matching(s, name) <= s.len(),
    decreases s.len(),
{
    if s.len() > 0 {
        lemma_count_matching_bounds(s.drop_last(), name);
    }
}

/// An encounter: the roster of combatants and the append-only event log.
#[derive(Debug)]
pub struct Encounter {
    characters: Vec<Character>,
    log: Vec<String>,
}

impl Encounter {
    /// The roster in its current order.
    pub closed spec fn roster(self) -> Seq<Character> {
        self.characters@
    }

    /// The log messages, oldest first.
    pub closed spec fn log_view(self) -> Seq<Seq<char>> {
        self.log@.map_values(|m: String| m@)
    }

    /// Build an encounter from a freshly loaded roster; every member is put
    /// through `reset` before it is considered live.
    pub fn new(characters: Vec<Character>) -> (r: Encounter)
        requires
            forall|i: int|
                0 <= i < characters@.len() ==> spec_can_reset(#[trigger] characters@[i]),
        ensures
            r.log_view() == Seq::<Seq<char>>::empty(),
            r.roster().len() == characters@.len(),
            forall|i: int|
                0 <= i < characters@.len() ==> spec_reset_shape(
                    characters@[i],
                    #[trigger] r.roster()[i],
                ),
    {
        let mut characters = characters;
        let ghost orig = characters@;
        reset_all(&mut characters);
        let r = Encounter { characters, log: Vec::new() };
        proof {
            assert(r.log_view() =~= Seq::<Seq<char>>::empty());
            assert(roster_reset_shape(orig, r.roster()));
        }
        r
    }

    /// Rebuild an encounter from persisted state. Nothing is re-rolled: the
    /// roster and log are taken exactly as stored.
    pub fn from_parts(characters: Vec<Character>, log: Vec<String>) -> (r: Encounter)
        ensures
            r.roster() == characters@,
            r.log_view() == log@.map_values(|m: String| m@),
    {
        Encounter { characters, log }
    }

    /// Append a message to the log.
    pub fn log(&mut self, message: String)
        ensures
            final(self).roster() == old(self).roster(),
            final(self).log_view() == old(self).log_view().push(message@),
    {
        self.log.push(message);
        proof {
            assert(self.log_view() =~= old(self).log_view().push(message@));
        }
    }

    /// The log messages, oldest first.
    pub fn log_iter(&self) -> (r: &Vec<String>)
        ensures
            r@.map_values(|m: String| m@) == self.log_view(),
    {
        &self.log
    }

    pub fn log_len(&self) -> (r: usize)
        ensures
            r == self.log_view().len(),
    {
        self.log.len()
    }

    pub fn charcount(&self) -> (r: usize)
        ensures
            r == self.roster().len(),
    {
        self.characters.len()
    }

    /// The roster members, in current order.
    pub fn char_iter(&self) -> (r: &Vec<Character>)
        ensures
            r@ == self.roster(),
    {
        &self.characters
    }

    pub fn char_at(&self, index: usize) -> (r: Option<&Character>)
        ensures
            index < self.roster().len() ==> (r matches Some(c) && *c == self.roster()[
                index as int
            ]),
            index >= self.roster().len() ==> r is None,
    {
        if index < self.characters.len() {
            Some(&self.characters[index])
        } else {
            None
        }
    }

    /// Mutable access to one roster member. The caller is responsible for
    /// restoring turn order with `update` afterwards.
    pub fn char_at_mut(&mut self, index: usize) -> (r: &mut Character)
        requires
            index < old(self).roster().len(),
        ensures
            *r == old(self).roster()[index as int],
            final(self).roster() == old(self).roster().update(index as int, *final(r)),
            final(self).log_view() == old(self).log_view(),
    {
        &mut self.characters[index]
    }

    /// Begin a new round: every member becomes ready again, and the roster is
    /// re-sorted.
    pub fn new_round(&mut self)
        ensures
            final(self).roster() == spec_new_round(old(self).roster()),
            final(self).log_view() == old(self).log_view(),
    {
        let n = self.characters.len();
        let mut i: usize = 0;
        while i < n
            invariant
                0 <= i <= n,
                self.characters@.len() == n,
                n == old(self).roster().len(),
                forall|j: int|
                    0 <= j < i ==> self.characters@[j] == spec_ready(
                        #[trigger] old(self).roster()[j],
                    ),
                forall|j: int| i <= j < n ==> self.characters@[j] == old(self).roster()[j],
                self.log_view() == old(self).log_view(),
            decreases n - i,
        {
            let c = self.char_at_mut(i);
            c.ready();
            i = i + 1;
        }
        proof {
            assert(self.characters@ =~= spec_ready_all(old(self).roster()));
        }
        self.update();
    }

    /// Add a character to the roster: it is reset on entry, and the roster is
    /// re-sorted.
    pub fn add_char(&mut self, character: Character)
        requires
            spec_can_reset(character),
        ensures
            final(self).log_view() == old(self).log_view(),
            exists|c: Character|
                spec_reset_shape(character, c) && final(self).roster() == sort_by_key(
                    old(self).roster().push(c),
                ),
    {
        let ghost before = character;
        let mut character = character;
        character.reset();
        let ghost fresh = character;
        self.characters.push(character);
        self.update();
        proof {
            assert(spec_reset_shape(before, fresh) && self.roster() == sort_by_key(
                old(self).roster().push(fresh),
            ));
        }
    }

    /// How many roster entries bear the given name.
    pub fn count_name(&self, name: &str) -> (r: usize)
        ensures
            r == count_matching(self.roster(), name@),
    {
        let mut count: usize = 0;
        let mut i: usize = 0;
        while i < self.characters.len()
            invariant
                0 <= i <= self.roster().len(),
                0 <= count <= i,
                count == count_matching(self.roster().take(i as int), name@),
            decreases self.roster().len() - i,
        {
            proof {
                lemma_count_matching_bounds(self.roster().take(i as int), name@);
                assert(self.roster().take(i + 1).drop_last() =~= self.roster().take(i as int));
                assert(self.roster().take(i + 1).last() == self.roster()[i as int]);
            }
            if str_eq(self.characters[i].name.as_str(), name) {
                count = count + 1;
            }
            i = i + 1;
        }
        proof {
            assert(self.roster().take(self.roster().len() as int) =~= self.roster());
        }
        count
    }

    /// Remove the roster member at the given position, unless it is the last
    /// one left: the roster must never be emptied, so removing the sole
    /// remaining member is rejected and nothing changes.
    pub fn removechar(&mut self, index: usize) -> (removed: bool)
        requires
            index < old(self).roster().len(),
        ensures
            old(self).roster().len() <= 1 ==> !removed && *final(self) == *old(self),
            old(self).roster().len() > 1 ==> removed && final(self).roster() == sort_by_key(
                old(self).roster().remove(index as int),
            ) && final(self).log_view() == old(self).log_view(),
    {
        if self.characters.len() <= 1 {
            return false;
        }
        self.characters.remove(index);
        self.update();
        true
    }

    /// Replace the whole roster with a freshly loaded one (each member is
    /// reset and the roster sorted) and clear the log.
    pub fn reset(&mut self, characters: Vec<Character>)
        requires
            forall|i: int|
                0 <= i < characters@.len() ==> spec_can_reset(#[trigger] characters@[i]),
        ensures
            final(self).log_view() == Seq::<Seq<char>>::empty(),
            exists|s: Seq<Character>|
                #[trigger] roster_reset_shape(characters@, s) && final(self).roster()
                    == sort_by_key(s),
    {
        let ghost orig = characters@;
        let mut characters = characters;
        self.log.clear();
        reset_all(&mut characters);
        let ghost mid = characters@;
        self.characters = characters;
        self.update();
        proof {
            assert(self.log_view() =~= Seq::<Seq<char>>::empty());
            assert(roster_reset_shape(orig, mid) && self.roster() == sort_by_key(mid));
        }
    }

    /// Re-establish turn order: sort the roster by key, stably.
    pub fn update(&mut self)
        ensures
            final(self).roster() == sort_by_key(old(self).roster()),
            final(self).log_view() == old(self).log_view(),
    {
        let mut source: Vec<Character> = Vec::new();
        core::mem::swap(&mut source, &mut self.characters);
        let ghost orig = source@;
        while source.len() > 0
            invariant
                source@.len() <= orig.len(),
                source@ == orig.skip(orig.len() - source@.len()),
                self.characters@ == sort_by_key(orig.take(orig.len() - source@.len())),
                self.characters@.len() + source@.len() == orig.len(),
                self.log@ == old(self).log@,
            decreases source@.len(),
        {
            let ghost k = orig.len() - source@.len();
            let ghost pre = source@;
            let c = source.remove(0);
            proof {
                assert(c == orig[k as int]);
                assert(source@ =~= orig.skip(k + 1));
            }
            let key = c.sortkey();
            let mut j: usize = self.characters.len();
            while j > 0 && self.characters[j - 1].sortkey() > key
                invariant
                    0 <= j <= self.characters@.len(),
                    key == spec_sortkey(c),
                    forall|idx: int|
                        j <= idx < self.characters@.len() ==> spec_sortkey(
                            #[trigger] self.characters@[idx],
                        ) > spec_sortkey(c),
                decreases j,
            {
                j = j - 1;
            }
            proof {
                lemma_insert_by_key_at(self.characters@, c, j as int);
                lemma_sort_by_key_len(orig.take(k as int));
                assert(orig.take(k + 1).drop_last() =~= orig.take(k as int));
                assert(orig.take(k + 1).last() == orig[k as int]);
            }
            self.characters.insert(j, c);
            proof {
                assert(self.characters@ == sort_by_key(orig.take(k + 1)));
            }
        }
        proof {
            assert(orig.take(orig.len() as int) =~= orig);
        }
    }
}

/// The element-wise reset relation between a loaded roster and its live form.
pub open spec fn roster_reset_shape(pre: Seq<Character>, post: Seq<Character>) -> bool {
    &&& post.len() == pre.len()
    &&& forall|i: int| 0 <= i < pre.len() ==> spec_reset_shape(pre[i], #[trigger] post[i])
}

/// Put every member of a freshly loaded roster through `reset`.
fn reset_all(characters: &mut Vec<Character>)
    requires
        forall|i: int|
            0 <= i < old(characters)@.len() ==> spec_can_reset(#[trigger] old(characters)@[i]),
    ensures
        roster_reset_shape(old(characters)@, final(characters)@),
{
    let n = characters.len();
    let mut i: usize = 0;
    while i < n
        invariant
            0 <= i <= n,
            characters@.len() == n,
            n == old(characters)@.len(),
            forall|j: int|
                0 <= j < old(characters)@.len() ==> spec_can_reset(
                    #[trigger] old(characters)@[j],
                ),
            forall|j: int|
                0 <= j < i ==> spec_reset_shape(
                    old(characters)@[j],
                    #[trigger] characters@[j],
                ),
            forall|j: int| i <= j < n ==> characters@[j] == old(characters)@[j],
        decreases n - i,
    {
        let c = &mut characters[i];
        c.reset();
        i = i + 1;
    }
}

} // verus!
