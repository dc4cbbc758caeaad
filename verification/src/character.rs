//! A combatant's mutable combat state and the hit-resolution arithmetic.
use crate::util::roll_dice;
use vstd::prelude::*;

verus! {

/// A reference entry describing one of a combatant's attacks.
#[derive(Debug)]
pub struct Attack {
    pub name: String,
    pub dice: i32,
    pub damage: String,
}

impl Clone for Attack {
    fn clone(&self) -> (r: Self)
        ensures
            r == *self,
    {
        Attack { name: self.name.clone(), dice: self.dice, damage: self.damage.clone() }
    }
}

/// A reference entry describing one of a combatant's special abilities.
#[derive(Debug)]
pub struct Special {
    pub name: String,
    pub text: String,
}

impl Clone for Special {
    fn clone(&self) -> (r: Self)
        ensures
            r == *self,
    {
        Special { name: self.name.clone(), text: self.text.clone() }
    }
}

/// One participant of an encounter.
#[derive(Debug)]
pub struct Character {
    pub name: String,
    /// Disambiguates repeated monster names; assigned at spawn time.
    pub label: Option<char>,
    /// Signed; a negative value means the character is crashed.
    pub initiative: i32,
    /// Die-pool size used when rolling initiative at encounter start.
    pub joinbattle: i32,
    /// Cumulative counter of hits taken this turn; cleared by `finish`.
    pub onslaught: i32,
    /// Whether the character has acted this round.
    pub done: bool,
    pub maxhealth: i32,
    /// May go negative; at or below zero the character is dead.
    pub health: i32,
    pub evasion: i32,
    pub parry: i32,
    pub soak: i32,
    /// Damage-reduction threshold; an absent value counts as zero.
    pub hardness: Option<i32>,
    pub attacks: Option<Vec<Attack>>,
    pub specials: Option<Vec<Special>>,
}

/// A character is crashed when its initiative has dropped below zero.
pub open spec fn spec_crashed(c: Character) -> bool {
    c.initiative < 0
}

/// A character is dead when its health is at or below zero.
pub open spec fn spec_dead(c: Character) -> bool {
    c.health <= 0
}

/// The roster ordering key: negated initiative, pushed down by 5000 when
/// dead and by 1000 when done, so the dead sink below the done, who sink
/// below those still to act.
pub open spec fn spec_sortkey(c: Character) -> int {
    -(c.initiative as int) + (if c.health <= 0 {
        5000int
    } else {
        0int
    }) + (if c.done {
        1000int
    } else {
        0int
    })
}

/// Hardness that actually applies to a decisive hit: none while crashed.
pub open spec fn spec_effective_hardness(c: Character) -> int {
    if spec_crashed(c) {
        0
    } else {
        match c.hardness {
            Some(h) => h as int,
            None => 0,
        }
    }
}

/// The character after ending its turn: marked done, onslaught cleared.
pub open spec fn spec_finish(c: Character) -> Character {
    Character { done: true, onslaught: 0, ..c }
}

/// The character made ready for a new round.
pub open spec fn spec_ready(c: Character) -> Character {
    Character { done: false, ..c }
}

/// The target's state after a withering hit: a negative damage value marks a
/// miss and changes nothing; otherwise initiative drops by the damage and
/// the onslaught counter by one.
pub open spec fn spec_take_withering(c: Character, damage: int) -> Character {
    if damage < 0 {
        c
    } else {
        Character {
            initiative: (c.initiative - damage) as i32,
            onslaught: (c.onslaught - 1) as i32,
            ..c
        }
    }
}

/// Whether a withering hit for `damage` crashes a target that was not
/// already crashed.
pub open spec fn spec_withering_just_crashed(c: Character, damage: int) -> bool {
    damage >= 0 && !spec_crashed(c) && spec_crashed(spec_take_withering(c, damage))
}

/// The initiative the attacker gains from its own withering attack: one for
/// any attack that lands, plus the damage, plus five for crashing the target;
/// a miss still grants one.
pub open spec fn spec_withering_gain(damage: int, target_crashed: bool) -> int {
    if damage < 0 {
        1
    } else {
        damage + 1 + if target_crashed {
            5int
        } else {
            0int
        }
    }
}

/// The attacker's state after resolving its withering attack.
pub open spec fn spec_do_withering(c: Character, damage: int, target_crashed: bool) -> Character {
    spec_finish(
        Character {
            initiative: (c.initiative + spec_withering_gain(damage, target_crashed)) as i32,
            ..c
        },
    )
}

/// The target's state after a decisive hit: damage lands only when it
/// exceeds the effective hardness.
pub open spec fn spec_take_decisive(c: Character, damage: int) -> Character {
    if damage > spec_effective_hardness(c) {
        Character { health: (c.health - damage) as i32, ..c }
    } else {
        c
    }
}

/// The attacker's state after landing a decisive hit: initiative returns to
/// its baseline of three.
pub open spec fn spec_do_decisive_hit(c: Character) -> Character {
    spec_finish(Character { initiative: 3, ..c })
}

/// The attacker's state after missing a decisive attack: initiative drops by
/// three from above ten, by two from above zero, and not at all otherwise.
pub open spec fn spec_do_decisive_miss(c: Character) -> Character {
    let initiative: i32 = if c.initiative > 10 {
        (c.initiative - 3) as i32
    } else if c.initiative > 0 {
        (c.initiative - 2) as i32
    } else {
        c.initiative
    };
    spec_finish(Character { initiative, ..c })
}

/// The character produced by the constructor.
pub open spec fn spec_new_character(name: String, joinbattle: i32, maxhealth: i32) -> Character {
    Character {
        name,
        label: None,
        initiative: 0,
        joinbattle,
        onslaught: 0,
        done: false,
        maxhealth,
        health: maxhealth,
        evasion: 0,
        parry: 0,
        soak: 0,
        hardness: None,
        attacks: None,
        specials: None,
    }
}

/// The initiative roll of `reset` cannot overflow.
pub open spec fn spec_can_reset(c: Character) -> bool {
    2 * c.joinbattle <= i32::MAX - 3
}

/// How a character relates to its state before `reset`: health is restored
/// to the maximum, initiative is freshly rolled (never negative, exactly
/// three from an empty pool, and bounded on both sides by the pool size),
/// and every other field is unchanged.
pub open spec fn spec_reset_shape(pre: Character, post: Character) -> bool {
    &&& post == (Character { initiative: post.initiative, health: pre.maxhealth, ..pre })
    &&& post.initiative >= 0
    &&& (pre.joinbattle <= 0 ==> post.initiative == 3)
    &&& (pre.joinbattle > 0 ==> post.initiative <= 2 * pre.joinbattle + 3)
    &&& (pre.joinbattle > 0 ==> post.initiative >= 3 - pre.joinbattle)
}

/// Attack lists that hold the same entries.
pub open spec fn spec_same_attacks(a: Option<Vec<Attack>>, b: Option<Vec<Attack>>) -> bool {
    match (a, b) {
        (Option::None, Option::None) => true,
        (Option::Some(v), Option::Some(w)) => v@ == w@,
        _ => false,
    }
}

/// Special-ability lists that hold the same entries.
pub open spec fn spec_same_specials(a: Option<Vec<Special>>, b: Option<Vec<Special>>) -> bool {
    match (a, b) {
        (Option::None, Option::None) => true,
        (Option::Some(v), Option::Some(w)) => v@ == w@,
        _ => false,
    }
}

/// Field-by-field agreement of two characters; the attack and special lists
/// agree entry by entry.
pub open spec fn spec_clone_like(a: Character, b: Character) -> bool {
    &&& b.name == a.name
    &&& b.label == a.label
    &&& b.initiative == a.initiative
    &&& b.joinbattle == a.joinbattle
    &&& b.onslaught == a.onslaught
    &&& b.done == a.done
    &&& b.maxhealth == a.maxhealth
    &&& b.health == a.health
    &&& b.evasion == a.evasion
    &&& b.parry == a.parry
    &&& b.soak == a.soak
    &&& b.hardness == a.hardness
    &&& spec_same_attacks(a.attacks, b.attacks)
    &&& spec_same_specials(a.specials, b.specials)
}

impl Clone for Character {
    fn clone(&self) -> (r: Self)
        ensures
            spec_clone_like(*self, r),
    {
        Character {
            name: self.name.clone(),
            label: self.label,
            initiative: self.initiative,
            joinbattle: self.joinbattle,
            onslaught: self.onslaught,
            done: self.done,
            maxhealth: self.maxhealth,
            health: self.health,
            evasion: self.evasion,
            parry: self.parry,
            soak: self.soak,
            hardness: self.hardness,
            attacks: clone_attacks(&self.attacks),
            specials: clone_specials(&self.specials),
        }
    }
}

fn clone_attacks(a: &Option<Vec<Attack>>) -> (r: Option<Vec<Attack>>)
    ensures
        spec_same_attacks(*a, r),
{
    match a {
        Option::Some(v) => {
            let mut out: Vec<Attack> = Vec::new();
            let mut i: usize = 0;
            while i < v.len()
                invariant
                    0 <= i <= v@.len(),
                    out@.len() == i,
                    forall|k: int| 0 <= k < i ==> out@[k] == v@[k],
                decreases v@.len() - i,
            {
                out.push(v[i].clone());
                i = i + 1;
            }
            proof {
                assert(out@ =~= v@);
            }
            Option::Some(out)
        },
        Option::None => Option::None,
    }
}

fn clone_specials(a: &Option<Vec<Special>>) -> (r: Option<Vec<Special>>)
    ensures
        spec_same_specials(*a, r),
{
    match a {
        Option::Some(v) => {
            let mut out: Vec<Special> = Vec::new();
            let mut i: usize = 0;
            while i < v.len()
                invariant
                    0 <= i <= v@.len(),
                    out@.len() == i,
                    forall|k: int| 0 <= k < i ==> out@[k] == v@[k],
                decreases v@.len() - i,
            {
                out.push(v[i].clone());
                i = i + 1;
            }
            proof {
                assert(out@ =~= v@);
            }
            Option::Some(out)
        },
        Option::None => Option::None,
    }
}

impl Character {
    /// A fresh character with full health and everything else at its default.
    pub fn new(name: String, joinbattle: i32, maxhealth: i32) -> (r: Character)
        ensures
            r == spec_new_character(name, joinbattle, maxhealth),
    {
        Character {
            name,
            label: None,
            maxhealth,
            health: maxhealth,
            joinbattle,
            initiative: 0,
            onslaught: 0,
            done: false,
            evasion: 0,
            parry: 0,
            soak: 0,
            hardness: None,
            attacks: None,
            specials: None,
        }
    }

    /// Re-roll initiative from the join-battle pool (floored at zero) and
    /// restore health to the maximum.
    pub fn reset(&mut self)
        requires
            spec_can_reset(*old(self)),
        ensures
            spec_reset_shape(*old(self), *final(self)),
    {
        let roll = roll_dice(self.joinbattle);
        self.initiative = roll + 3;
        if self.initiative < 0 {
            self.initiative = 0;
        }
        self.health = self.maxhealth;
    }

    /// End the character's turn.
    pub fn finish(&mut self)
        ensures
            *final(self) == spec_finish(*old(self)),
    {
        self.done = true;
        self.onslaught = 0;
    }

    pub fn crashed(&self) -> (r: bool)
        ensures
            r == (self.initiative < 0),
    {
        self.initiative < 0
    }

    pub fn dead(&self) -> (r: bool)
        ensures
            r == (self.health <= 0),
    {
        self.health <= 0
    }

    /// The roster ordering key; ascending order is turn order.
    pub fn sortkey(&self) -> (key: i64)
        ensures
            key == spec_sortkey(*self),
    {
        let mut key: i64 = -(self.initiative as i64);
        if self.health <= 0 {
            key = key + 5000;
        }
        if self.done {
            key = key + 1000;
        }
        key
    }

    /// Make the character ready for a new round.
    pub fn ready(&mut self)
        ensures
            *final(self) == spec_ready(*old(self)),
    {
        self.done = false;
    }

    /// Apply a withering hit to this character as the target; returns whether
    /// the hit crashed a character that was not crashed before.
    pub fn take_withering_hit(&mut self, damage: i32) -> (just_crashed: bool)
        requires
            damage >= 0 ==> old(self).initiative - damage >= i32::MIN,
            damage >= 0 ==> old(self).onslaught - 1 >= i32::MIN,
        ensures
            *final(self) == spec_take_withering(*old(self), damage as int),
            just_crashed == spec_withering_just_crashed(*old(self), damage as int),
    {
        let mut crashed = false;
        if damage >= 0 {
            crashed = self.crashed();
            self.initiative = self.initiative - damage;
            self.onslaught = self.onslaught - 1;
            crashed = self.crashed() && !crashed;
        }
        crashed
    }

    /// Resolve this character's own withering attack: gain initiative and end
    /// the turn.
    pub fn do_withering_hit(&mut self, damage: i32, crashed: bool)
        requires
            old(self).initiative + spec_withering_gain(damage as int, crashed) <= i32::MAX,
            damage >= 0 ==> damage + 1 <= i32::MAX,
        ensures
            *final(self) == spec_do_withering(*old(self), damage as int, crashed),
    {
        if damage < 0 {
            self.initiative = self.initiative + 1;
        } else {
            self.initiative = self.initiative + (damage + 1);
            if crashed {
                self.initiative = self.initiative + 5;
            }
        }
        self.finish();
    }

    /// The hardness that applies right now: none while crashed, otherwise the
    /// stated value (zero when absent).
    pub fn hardness(&self) -> (r: i32)
        ensures
            r == spec_effective_hardness(*self),
    {
        match self.crashed() {
            true => 0,
            false => match self.hardness {
                Some(h) => h,
                None => 0,
            },
        }
    }

    /// Apply a decisive hit to this character as the target.
    pub fn take_decisive_hit(&mut self, damage: i32)
        requires
            damage > spec_effective_hardness(*old(self)) ==> i32::MIN <= old(self).health
                - damage <= i32::MAX,
        ensures
            *final(self) == spec_take_decisive(*old(self), damage as int),
    {
        if damage > self.hardness() {
            self.health = self.health - damage;
        }
    }

    /// Resolve this character's own landed decisive attack: initiative falls
    /// back to its baseline and the turn ends.
    pub fn do_decisive_hit(&mut self)
        ensures
            *final(self) == spec_do_decisive_hit(*old(self)),
    {
        self.initiative = 3;
        self.finish();
    }

    /// Resolve this character's own missed decisive attack.
    pub fn do_decisive_miss(&mut self)
        ensures
            *final(self) == spec_do_decisive_miss(*old(self)),
    {
        if self.initiative > 10 {
            self.initiative = self.initiative - 3;
        } else if self.initiative > 0 {
            self.initiative = self.initiative - 2;
        }
        self.finish();
    }
}

} // verus!
