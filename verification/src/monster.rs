//! The read-only catalog of monster templates, keyed by name.
use crate::character::{
    spec_can_reset, spec_same_attacks, spec_same_specials, Character,
};
use crate::util::str_eq;
use vstd::prelude::*;

verus! {

/// How a freshly spawned monster relates to its catalog template: every stat
/// and the reference lists agree with the template, health is back at the
/// maximum, and initiative is freshly rolled.
pub open spec fn spec_fresh_instance(t: Character, c: Character) -> bool {
    &&& c.name == t.name
    &&& c.label == t.label
    &&& c.joinbattle == t.joinbattle
    &&& c.onslaught == t.onslaught
    &&& c.done == t.done
    &&& c.maxhealth == t.maxhealth
    &&& c.evasion == t.evasion
    &&& c.parry == t.parry
    &&& c.soak == t.soak
    &&& c.hardness == t.hardness
    &&& spec_same_attacks(t.attacks, c.attacks)
    &&& spec_same_specials(t.specials, c.specials)
    &&& c.health == t.maxhealth
    &&& c.initiative >= 0
    &&& (t.joinbattle <= 0 ==> c.initiative == 3)
    &&& (t.joinbattle > 0 ==> c.initiative <= 2 * t.joinbattle + 3)
}

/// Whether some catalog template bears the given name.
pub open spec fn spec_has_template(db: MonsterDB, name: Seq<char>) -> bool {
    exists|i: int|
        0 <= i < db.monsters().len() && #[trigger] db.monsters()[i].name@ == name
}

/// Whether `c` is a fresh instance of the first catalog template bearing the
/// given name.
pub open spec fn spec_spawned(db: MonsterDB, name: Seq<char>, c: Character) -> bool {
    exists|i: int|
        {
            &&& 0 <= i < db.monsters().len()
            &&& #[trigger] db.monsters()[i].name@ == name
            &&& (forall|j: int| 0 <= j < i ==> db.monsters()[j].name@ != name)
            &&& spec_fresh_instance(db.monsters()[i], c)
        }
}

/// The catalog of monster templates. Templates are not live combatants: they
/// are reset only when an instance is spawned from them.
pub struct MonsterDB {
    monsters: Vec<Character>,
}

impl MonsterDB {
    /// The templates, in catalog order.
    pub closed spec fn monsters(self) -> Seq<Character> {
        self.monsters@
    }

    /// Every template's join-battle pool must be small enough that spawning
    /// an instance cannot overflow the initiative roll.
    #[verifier::type_invariant]
    spec fn wf(self) -> bool {
        forall|i: int|
            0 <= i < self.monsters@.len() ==> spec_can_reset(#[trigger] self.monsters@[i])
    }

    /// Take over a loaded template list.
    pub fn load(monsters: Vec<Character>) -> (r: MonsterDB)
        requires
            forall|i: int|
                0 <= i < monsters@.len() ==> spec_can_reset(#[trigger] monsters@[i]),
        ensures
            r.monsters() == monsters@,
    {
        MonsterDB { monsters }
    }

    /// The template names, in catalog order.
    pub fn get_monster_names(&self) -> (r: Vec<&str>)
        ensures
            r@.len() == self.monsters().len(),
            forall|i: int| 0 <= i < r@.len() ==> #[trigger] r@[i]@ == self.monsters()[i].name@,
    {
        let mut names: Vec<&str> = Vec::new();
        let mut i: usize = 0;
        while i < self.monsters.len()
            invariant
                0 <= i <= self.monsters().len(),
                names@.len() == i,
                forall|j: int| 0 <= j < i ==> #[trigger] names@[j]@ == self.monsters()[j].name@,
            decreases self.monsters().len() - i,
        {
            names.push(self.monsters[i].name.as_str());
            i = i + 1;
        }
        names
    }

    /// Spawn a fresh instance of the first template with the given name:
    /// a clone of the template, reset for battle. Yields nothing exactly
    /// when no template bears the name.
    pub(crate) fn get_monster_by_name(&self, name: &str) -> (r: Option<Character>)
        ensures
            (r is Some) == spec_has_template(*self, name@),
            r matches Some(c) ==> spec_spawned(*self, name@, c) && spec_can_reset(c),
    {
        let mut i: usize = 0;
        while i < self.monsters.len()
            invariant
                0 <= i <= self.monsters().len(),
                forall|j: int| 0 <= j < i ==> self.monsters()[j].name@ != name@,
            decreases self.monsters().len() - i,
        {
            if str_eq(self.monsters[i].name.as_str(), name) {
                let mut monster_copy = self.monsters[i].clone();
                proof {
                    use_type_invariant(self);
                }
                monster_copy.reset();
                return Some(monster_copy);
            }
            i = i + 1;
        }
        None
    }
}

} // verus!
