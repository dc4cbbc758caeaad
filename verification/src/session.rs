//! The interactive session over an encounter: the cursor, the two-step
//! attack protocol, and the operation each key drives.
use crate::character::{
    spec_crashed, spec_dead, spec_do_decisive_hit, spec_do_decisive_miss, spec_do_withering,
    spec_effective_hardness, spec_new_character, spec_reset_shape,
    spec_take_decisive, spec_take_withering, spec_withering_gain, spec_withering_just_crashed,
    Character,
};
use crate::encounter::{
    roster_reset_shape, sort_by_key, spec_new_round, count_matching, Encounter,
};
use crate::monster::{spec_has_template, spec_spawned, MonsterDB};
use crate::util::char_from_u32;
use vstd::prelude::*;

verus! {

/// The pending half of a two-step attack: the 1-based roster position of the
/// attacker picked by the first key press.
#[derive(Clone, Copy, Debug)]
pub struct Action {
    pub position: i32,
}

/// A user-visible condition raised by a rejected or failed operation.
#[derive(Clone, Copy, Debug, PartialEq, Eq, Structural)]
pub enum UiMessage {
    /// A crashed or dead character cannot make a decisive attack.
    DecisiveSourceUnfit,
    /// A dead character cannot make a withering attack.
    WitheringSourceDead,
    /// The sole remaining roster member cannot be removed.
    CannotRemoveLast,
    /// The encounter could not be written out.
    SaveFailed,
    /// The encounter could not be encoded.
    EncodeFailed,
}

/// The text shown for each user-visible condition.
pub open spec fn spec_message_text(m: UiMessage) -> Seq<char> {
    match m {
        UiMessage::DecisiveSourceUnfit => "Crashed/Dead character cannot decisive attack"@,
        UiMessage::WitheringSourceDead => "Dead character cannot withering attack"@,
        UiMessage::CannotRemoveLast => "Cannot remove last character"@,
        UiMessage::SaveFailed => "Unable to save encounter to file"@,
        UiMessage::EncodeFailed => "Error parsing encounter to json"@,
    }
}

impl UiMessage {
    /// The text shown for this condition.
    pub fn text(&self) -> (r: &'static str)
        ensures
            r@ == spec_message_text(*self),
    {
        match self {
            UiMessage::DecisiveSourceUnfit => "Crashed/Dead character cannot decisive attack",
            UiMessage::WitheringSourceDead => "Dead character cannot withering attack",
            UiMessage::CannotRemoveLast => "Cannot remove last character",
            UiMessage::SaveFailed => "Unable to save encounter to file",
            UiMessage::EncodeFailed => "Error parsing encounter to json",
        }
    }
}

/// The outcome entered for a pending decisive attack.
#[derive(Clone, Copy, Debug)]
pub enum DecisiveOutcome {
    /// The attack missed.
    Miss,
    /// The attack hit, for the given damage.
    Hit(i32),
    /// The entry could not be read; resolve with no combat effect.
    Invalid,
}

/// The operation a key press drives.
#[derive(Clone, Copy, Debug, PartialEq, Eq, Structural)]
pub enum KeyCommand {
    CursorUp,
    CursorDown,
    MarkDone,
    EditInitiative,
    EditOnslaught,
    EditHealth,
    NewRound,
    AddCharacter,
    AddMonster,
    /// Select an attacker, or resolve the pending decisive attack.
    DecisiveKey,
    /// Select an attacker, or resolve the pending withering attack.
    WitheringKey,
    RemoveCharacter,
    ResetEncounter,
    Cancel,
    Ignore,
}

pub const KEY_CURSOR_UP: i32 = 107;  // 'k'

pub const KEY_CURSOR_DOWN: i32 = 106;  // 'j'

pub const KEY_NEW_ROUND: i32 = 110;  // 'n'

pub const KEY_HEALTH: i32 = 104;  // 'h'

pub const KEY_ONSLAUGHT: i32 = 111;  // 'o'

pub const KEY_INITIATIVE: i32 = 105;  // 'i'

pub const KEY_MARK_DONE: i32 = 68;  // 'D'

pub const KEY_ADD_CHAR: i32 = 97;  // 'a'

pub const KEY_ADD_MONSTER: i32 = 109;  // 'm'

pub const KEY_DECISIVE_ATTACK: i32 = 100;  // 'd'

pub const KEY_WITHERING_ATTACK: i32 = 119;  // 'w'

pub const KEY_REMOVE: i32 = 114;  // 'r'

pub const KEY_RESET: i32 = 120;  // 'x'

pub const KEY_CANCEL: i32 = 27;  // escape

pub const KEY_ARROW_UP: i32 = 259;  // the terminal's up-arrow code

pub const KEY_ARROW_DOWN: i32 = 258;  // the terminal's down-arrow code

/// Which operation each key drives.
pub open spec fn spec_key_command(ch: i32) -> KeyCommand {
    if ch == KEY_CURSOR_UP || ch == KEY_ARROW_UP {
        KeyCommand::CursorUp
    } else if ch == KEY_CURSOR_DOWN || ch == KEY_ARROW_DOWN {
        KeyCommand::CursorDown
    } else if ch == KEY_MARK_DONE {
        KeyCommand::MarkDone
    } else if ch == KEY_INITIATIVE {
        KeyCommand::EditInitiative
    } else if ch == KEY_ONSLAUGHT {
        KeyCommand::EditOnslaught
    } else if ch == KEY_HEALTH {
        KeyCommand::EditHealth
    } else if ch == KEY_NEW_ROUND {
        KeyCommand::NewRound
    } else if ch == KEY_ADD_CHAR {
        KeyCommand::AddCharacter
    } else if ch == KEY_ADD_MONSTER {
        KeyCommand::AddMonster
    } else if ch == KEY_DECISIVE_ATTACK {
        KeyCommand::DecisiveKey
    } else if ch == KEY_WITHERING_ATTACK {
        KeyCommand::WitheringKey
    } else if ch == KEY_REMOVE {
        KeyCommand::RemoveCharacter
    } else if ch == KEY_RESET {
        KeyCommand::ResetEncounter
    } else if ch == KEY_CANCEL {
        KeyCommand::Cancel
    } else {
        KeyCommand::Ignore
    }
}

/// Map a key code to the operation it drives.
pub fn process_key(ch: i32) -> (cmd: KeyCommand)
    ensures
        cmd == spec_key_command(ch),
{
    if ch == KEY_CURSOR_UP || ch == KEY_ARROW_UP {
        KeyCommand::CursorUp
    } else if ch == KEY_CURSOR_DOWN || ch == KEY_ARROW_DOWN {
        KeyCommand::CursorDown
    } else if ch == KEY_MARK_DONE {
        KeyCommand::MarkDone
    } else if ch == KEY_INITIATIVE {
        KeyCommand::EditInitiative
    } else if ch == KEY_ONSLAUGHT {
        KeyCommand::EditOnslaught
    } else if ch == KEY_HEALTH {
        KeyCommand::EditHealth
    } else if ch == KEY_NEW_ROUND {
        KeyCommand::NewRound
    } else if ch == KEY_ADD_CHAR {
        KeyCommand::AddCharacter
    } else if ch == KEY_ADD_MONSTER {
        KeyCommand::AddMonster
    } else if ch == KEY_DECISIVE_ATTACK {
        KeyCommand::DecisiveKey
    } else if ch == KEY_WITHERING_ATTACK {
        KeyCommand::WitheringKey
    } else if ch == KEY_REMOVE {
        KeyCommand::RemoveCharacter
    } else if ch == KEY_RESET {
        KeyCommand::ResetEncounter
    } else if ch == KEY_CANCEL {
        KeyCommand::Cancel
    } else {
        KeyCommand::Ignore
    }
}

/// Where the cursor lands: clamped into the roster, with the same quirks as
/// stepping the selection one entry at a time.
pub open spec fn spec_clamp_pos(p: int, count: int) -> int {
    if p > count {
        count
    } else if p < 1 {
        1
    } else {
        p
    }
}

/// The label a spawned monster receives when the roster already holds
/// `count` same-named members: the character 65 ('A') positions past the
/// count, where that code is a Unicode scalar value, and nothing otherwise.
pub open spec fn spec_label_shape(l: Option<char>, count: int) -> bool {
    if 0 <= count && count + 65 <= u32::MAX {
        &&& (l matches Some(ch) ==> ch as u32 == count + 65)
        &&& ((l is Some) == (count + 65 < 0xD800 || (0xDFFF < count + 65 && count + 65
            <= 0x10FFFF)))
    } else {
        l is None
    }
}

/// A decisive attack is rejected when its source is crashed or dead.
pub open spec fn spec_decisive_rejected(roster: Seq<Character>, src: int) -> bool {
    spec_crashed(roster[src]) || spec_dead(roster[src])
}

/// The roster after a decisive attack resolves, before re-sorting: on a miss
/// only the source loses initiative; on a hit the source's initiative resets
/// first and the target then takes the damage (so a self-hit is taken in the
/// reset state); an unreadable entry changes nothing.
pub open spec fn spec_decisive_applied(
    roster: Seq<Character>,
    src: int,
    tgt: int,
    outcome: DecisiveOutcome,
) -> Seq<Character> {
    match outcome {
        DecisiveOutcome::Miss => roster.update(src, spec_do_decisive_miss(roster[src])),
        DecisiveOutcome::Hit(x) => {
            let r1 = roster.update(src, spec_do_decisive_hit(roster[src]));
            r1.update(tgt, spec_take_decisive(r1[tgt], x as int))
        },
        DecisiveOutcome::Invalid => roster,
    }
}

/// The health drop of a decisive hit stays within machine bounds.
pub open spec fn spec_decisive_hit_fits(
    roster: Seq<Character>,
    src: int,
    tgt: int,
    x: int,
) -> bool {
    let r1 = roster.update(src, spec_do_decisive_hit(roster[src]));
    x > spec_effective_hardness(r1[tgt]) ==> i32::MIN <= r1[tgt].health - x <= i32::MAX
}

/// The roster after a withering attack resolves, before re-sorting: the
/// target takes the hit first, and the source then gains initiative — with
/// the crash bonus exactly when the hit crashed a previously uncrashed
/// target.
pub open spec fn spec_withering_applied(
    roster: Seq<Character>,
    src: int,
    tgt: int,
    x: int,
) -> Seq<Character> {
    let jc = spec_withering_just_crashed(roster[tgt], x);
    let r1 = roster.update(tgt, spec_take_withering(roster[tgt], x));
    r1.update(src, spec_do_withering(r1[src], x, jc))
}

/// The arithmetic of a withering resolution stays within machine bounds.
pub open spec fn spec_withering_fits(roster: Seq<Character>, src: int, tgt: int, x: int) -> bool {
    let jc = spec_withering_just_crashed(roster[tgt], x);
    let r1 = roster.update(tgt, spec_take_withering(roster[tgt], x));
    &&& (x >= 0 ==> roster[tgt].initiative - x >= i32::MIN)
    &&& (x >= 0 ==> roster[tgt].onslaught - 1 >= i32::MIN)
    &&& (x >= 0 ==> x + 1 <= i32::MAX)
    &&& r1[src].initiative + spec_withering_gain(x, jc) <= i32::MAX
}

/// The interactive session: the encounter, the monster catalog, the cursor,
/// and the pending attack of the two-step protocol.
pub struct MainWindow {
    /// The highlighted roster position, 1-based.
    pub selpos: i32,
    /// A user-visible condition from the last operation.
    pub message: Option<UiMessage>,
    /// The pending attack, present between the two key presses.
    pub action: Option<Action>,
    pub encounter: Encounter,
    pub monsterdb: MonsterDB,
}

impl MainWindow {
    /// Start a session: cursor on the first entry, no pending attack, and
    /// the roster brought into turn order.
    pub fn new(encounter: Encounter, monsterdb: MonsterDB) -> (r: MainWindow)
        ensures
            r.selpos == 1,
            r.message is None,
            r.action is None,
            r.encounter.roster() == sort_by_key(encounter.roster()),
            r.encounter.log_view() == encounter.log_view(),
            r.monsterdb == monsterdb,
    {
        let mut window = MainWindow {
            selpos: 1,
            message: None,
            action: None,
            encounter,
            monsterdb,
        };
        window.encounter.update();
        window
    }

    /// Move the cursor by the given amount, clamped into the roster.
    pub fn cursor_move(&mut self, amount: i32)
        requires
            old(self).encounter.roster().len() <= i32::MAX,
        ensures
            final(self).selpos == spec_clamp_pos(
                old(self).selpos + amount,
                old(self).encounter.roster().len() as int,
            ),
            final(self).message == old(self).message,
            final(self).action == old(self).action,
            final(self).encounter == old(self).encounter,
            final(self).monsterdb == old(self).monsterdb,
    {
        let count = self.encounter.charcount();
        let target: i64 = self.selpos as i64 + amount as i64;
        let bound: i64 = count as i64;
        let landed: i64 = if target > bound {
            bound
        } else if target < 1 {
            1
        } else {
            target
        };
        self.selpos = landed as i32;
    }

    /// The roster member at the given 1-based position.
    pub fn get_char_by_index(&self, index: i32) -> (r: &Character)
        requires
            1 <= index <= self.encounter.roster().len(),
        ensures
            *r == self.encounter.roster()[index - 1],
    {
        match self.encounter.char_at((index - 1) as usize) {
            Some(c) => c,
            None => vstd::pervasive::unreached(),
        }
    }

    /// Mutable access to the roster member at the given 1-based position.
    pub fn get_char_by_index_mut(&mut self, index: i32) -> (r: &mut Character)
        requires
            1 <= index <= old(self).encounter.roster().len(),
        ensures
            *r == old(self).encounter.roster()[index - 1],
            final(self).encounter.roster() == old(self).encounter.roster().update(
                index - 1,
                *final(r),
            ),
            final(self).encounter.log_view() == old(self).encounter.log_view(),
            final(self).selpos == old(self).selpos,
            final(self).message == old(self).message,
            final(self).action == old(self).action,
            final(self).monsterdb == old(self).monsterdb,
    {
        self.encounter.char_at_mut((index - 1) as usize)
    }

    /// The roster member under the cursor.
    pub fn get_selected_char(&self) -> (r: &Character)
        requires
            1 <= self.selpos <= self.encounter.roster().len(),
        ensures
            *r == self.encounter.roster()[self.selpos - 1],
    {
        self.get_char_by_index(self.selpos)
    }

    /// The attacker of a pending action.
    pub fn get_action_source(&self, action: &Action) -> (r: &Character)
        requires
            1 <= action.position <= self.encounter.roster().len(),
        ensures
            *r == self.encounter.roster()[action.position - 1],
    {
        self.get_char_by_index(action.position)
    }

    /// Mutable access to the roster member under the cursor.
    pub fn get_selected_char_mut(&mut self) -> (r: &mut Character)
        requires
            1 <= old(self).selpos <= old(self).encounter.roster().len(),
        ensures
            *r == old(self).encounter.roster()[old(self).selpos - 1],
            final(self).encounter.roster() == old(self).encounter.roster().update(
                old(self).selpos - 1,
                *final(r),
            ),
            final(self).encounter.log_view() == old(self).encounter.log_view(),
            final(self).selpos == old(self).selpos,
            final(self).message == old(self).message,
            final(self).action == old(self).action,
            final(self).monsterdb == old(self).monsterdb,
    {
        let index = self.selpos;
        self.get_char_by_index_mut(index)
    }

    /// Mutable access to the attacker of a pending action.
    pub fn get_action_source_mut(&mut self, action: &Action) -> (r: &mut Character)
        requires
            1 <= action.position <= old(self).encounter.roster().len(),
        ensures
            *r == old(self).encounter.roster()[action.position - 1],
            final(self).encounter.roster() == old(self).encounter.roster().update(
                action.position - 1,
                *final(r),
            ),
            final(self).encounter.log_view() == old(self).encounter.log_view(),
            final(self).selpos == old(self).selpos,
            final(self).message == old(self).message,
            final(self).action == old(self).action,
            final(self).monsterdb == old(self).monsterdb,
    {
        self.get_char_by_index_mut(action.position)
    }

    /// Toggle whether the member under the cursor has acted, then restore
    /// turn order.
    pub fn mark_done(&mut self)
        requires
            1 <= old(self).selpos <= old(self).encounter.roster().len(),
        ensures
            final(self).encounter.roster() == sort_by_key(
                old(self).encounter.roster().update(
                    old(self).selpos - 1,
                    (Character {
                        done: !old(self).encounter.roster()[old(self).selpos - 1].done,
                        ..old(self).encounter.roster()[old(self).selpos - 1]
                    }),
                ),
            ),
            final(self).encounter.log_view() == old(self).encounter.log_view(),
            final(self).selpos == old(self).selpos,
            final(self).message == old(self).message,
            final(self).action == old(self).action,
            final(self).monsterdb == old(self).monsterdb,
    {
        let c = self.get_selected_char_mut();
        c.done = !c.done;
        self.encounter.update();
    }

    /// Set the initiative of the member under the cursor, then restore turn
    /// order.
    pub fn set_initiative(&mut self, value: i32)
        requires
            1 <= old(self).selpos <= old(self).encounter.roster().len(),
        ensures
            final(self).encounter.roster() == sort_by_key(
                old(self).encounter.roster().update(
                    old(self).selpos - 1,
                    (Character {
                        initiative: value,
                        ..old(self).encounter.roster()[old(self).selpos - 1]
                    }),
                ),
            ),
            final(self).encounter.log_view() == old(self).encounter.log_view(),
            final(self).selpos == old(self).selpos,
            final(self).message == old(self).message,
            final(self).action == old(self).action,
            final(self).monsterdb == old(self).monsterdb,
    {
        let c = self.get_selected_char_mut();
        c.initiative = value;
        self.encounter.update();
    }

    /// Set the onslaught counter of the member under the cursor, then restore
    /// turn order.
    pub fn set_onslaught(&mut self, value: i32)
        requires
            1 <= old(self).selpos <= old(self).encounter.roster().len(),
        ensures
            final(self).encounter.roster() == sort_by_key(
                old(self).encounter.roster().update(
                    old(self).selpos - 1,
                    (Character {
                        onslaught: value,
                        ..old(self).encounter.roster()[old(self).selpos - 1]
                    }),
                ),
            ),
            final(self).encounter.log_view() == old(self).encounter.log_view(),
            final(self).selpos == old(self).selpos,
            final(self).message == old(self).message,
            final(self).action == old(self).action,
            final(self).monsterdb == old(self).monsterdb,
    {
        let c = self.get_selected_char_mut();
        c.onslaught = value;
        self.encounter.update();
    }

    /// Set the health of the member under the cursor, then restore turn
    /// order.
    pub fn set_health(&mut self, value: i32)
        requires
            1 <= old(self).selpos <= old(self).encounter.roster().len(),
        ensures
            final(self).encounter.roster() == sort_by_key(
                old(self).encounter.roster().update(
                    old(self).selpos - 1,
                    (Character {
                        health: value,
                        ..old(self).encounter.roster()[old(self).selpos - 1]
                    }),
                ),
            ),
            final(self).encounter.log_view() == old(self).encounter.log_view(),
            final(self).selpos == old(self).selpos,
            final(self).message == old(self).message,
            final(self).action == old(self).action,
            final(self).monsterdb == old(self).monsterdb,
    {
        let c = self.get_selected_char_mut();
        c.health = value;
        self.encounter.update();
    }

    /// Begin a new round.
    pub fn new_round(&mut self)
        ensures
            final(self).encounter.roster() == spec_new_round(old(self).encounter.roster()),
            final(self).encounter.log_view() == old(self).encounter.log_view(),
            final(self).selpos == old(self).selpos,
            final(self).message == old(self).message,
            final(self).action == old(self).action,
            final(self).monsterdb == old(self).monsterdb,
    {
        self.encounter.new_round();
    }

    /// Remember the cursor position as the attacker of a pending attack.
    pub fn select_target(&mut self)
        ensures
            final(self).action == Some(Action { position: old(self).selpos }),
            final(self).selpos == old(self).selpos,
            final(self).message == old(self).message,
            final(self).encounter == old(self).encounter,
            final(self).monsterdb == old(self).monsterdb,
    {
        self.action = Some(Action { position: self.selpos });
    }

    /// Create a character from the entered name and join-battle pool and add
    /// it to the roster.
    pub fn add_char(&mut self, name: String, joinbattle: i32)
        requires
            2 * joinbattle <= i32::MAX - 3,
        ensures
            final(self).encounter.log_view() == old(self).encounter.log_view(),
            exists|c: Character|
                spec_reset_shape(spec_new_character(name, joinbattle, 7), c)
                    && final(self).encounter.roster() == sort_by_key(
                    old(self).encounter.roster().push(c),
                ),
            final(self).selpos == old(self).selpos,
            final(self).message == old(self).message,
            final(self).action == old(self).action,
            final(self).monsterdb == old(self).monsterdb,
    {
        let character = Character::new(name, joinbattle, 7);
        self.encounter.add_char(character);
    }

    /// Spawn a fresh instance of the named monster template, labelled by how
    /// many same-named members the roster already holds, and add it to the
    /// roster. Reports whether the catalog knows the name.
    pub fn add_monster(&mut self, name: &str) -> (added: bool)
        ensures
            added == spec_has_template(old(self).monsterdb, name@),
            !added ==> *final(self) == *old(self),
            added ==> final(self).encounter.log_view() == old(self).encounter.log_view(),
            added ==> exists|f: Character, l: Option<char>, c: Character|
                {
                    &&& spec_spawned(old(self).monsterdb, name@, f)
                    &&& spec_label_shape(
                        l,
                        count_matching(old(self).encounter.roster(), name@),
                    )
                    &&& spec_reset_shape((Character { label: l, ..f }), c)
                    &&& final(self).encounter.roster() == sort_by_key(
                        old(self).encounter.roster().push(c),
                    )
                },
            final(self).selpos == old(self).selpos,
            final(self).message == old(self).message,
            final(self).action == old(self).action,
            final(self).monsterdb == old(self).monsterdb,
    {
        let count = self.encounter.count_name(name);
        let label: Option<char> = if count <= (u32::MAX - 65) as usize {
            char_from_u32(count as u32 + 65)
        } else {
            None
        };
        match self.monsterdb.get_monster_by_name(name) {
            Some(x) => {
                let ghost spawned = x;
                let mut x = x;
                x.label = label;
                proof {
                    assert(crate::character::spec_can_reset(x));
                }
                let ghost labelled = x;
                self.encounter.add_char(x);
                proof {
                    assert(spec_spawned(old(self).monsterdb, name@, spawned));
                    assert(labelled == (Character { label: label, ..spawned }));
                }
                true
            },
            None => false,
        }
    }

    /// Resolve the pending decisive attack from its source against the
    /// member under the cursor. A crashed or dead source is rejected: a
    /// message is raised and nothing changes, the attack still pending.
    /// Otherwise the source's initiative is resolved first, the target's
    /// damage second, the roster is re-sorted and the pending attack is
    /// cleared.
    pub fn decisive_attack(&mut self, action: &Action, outcome: DecisiveOutcome)
        requires
            old(self).action == Some(*action),
            1 <= action.position <= old(self).encounter.roster().len(),
            1 <= old(self).selpos <= old(self).encounter.roster().len(),
            outcome matches DecisiveOutcome::Hit(x) ==> spec_decisive_hit_fits(
                old(self).encounter.roster(),
                action.position - 1,
                old(self).selpos - 1,
                x as int,
            ),
        ensures
            spec_decisive_rejected(old(self).encounter.roster(), action.position - 1) ==> {
                &&& final(self).message == Some(UiMessage::DecisiveSourceUnfit)
                &&& final(self).encounter == old(self).encounter
                &&& final(self).action == old(self).action
                &&& final(self).selpos == old(self).selpos
                &&& final(self).monsterdb == old(self).monsterdb
            },
            !spec_decisive_rejected(old(self).encounter.roster(), action.position - 1) ==> {
                &&& final(self).encounter.roster() == sort_by_key(
                    spec_decisive_applied(
                        old(self).encounter.roster(),
                        action.position - 1,
                        old(self).selpos - 1,
                        outcome,
                    ),
                )
                &&& final(self).encounter.log_view() == old(self).encounter.log_view()
                &&& final(self).action is None
                &&& final(self).message == old(self).message
                &&& final(self).selpos == old(self).selpos
                &&& final(self).monsterdb == old(self).monsterdb
            },
    {
        if self.get_action_source(action).crashed() || self.get_action_source(action).dead() {
            self.message = Some(UiMessage::DecisiveSourceUnfit);
            return ;
        }
        match outcome {
            DecisiveOutcome::Miss => {
                self.get_action_source_mut(action).do_decisive_miss();
            },
            DecisiveOutcome::Hit(x) => {
                self.get_action_source_mut(action).do_decisive_hit();
                self.get_selected_char_mut().take_decisive_hit(x);
            },
            DecisiveOutcome::Invalid => {},
        }
        self.encounter.update();
        self.cancel();
    }

    /// Resolve the pending withering attack from its source against the
    /// member under the cursor, for the entered damage (`None` when the
    /// entry could not be read; nothing lands, but the pending attack is
    /// still cleared). A dead source is rejected: a message is raised and
    /// nothing changes. Otherwise the target takes the hit first — noting
    /// whether it was just crashed — and the source then gains initiative,
    /// the roster is re-sorted and the pending attack is cleared.
    pub fn withering_attack(&mut self, action: &Action, damage: Option<i32>)
        requires
            old(self).action == Some(*action),
            1 <= action.position <= old(self).encounter.roster().len(),
            1 <= old(self).selpos <= old(self).encounter.roster().len(),
            damage matches Some(x) ==> (!spec_dead(
                old(self).encounter.roster()[action.position - 1],
            ) ==> spec_withering_fits(
                old(self).encounter.roster(),
                action.position - 1,
                old(self).selpos - 1,
                x as int,
            )),
        ensures
            spec_dead(old(self).encounter.roster()[action.position - 1]) ==> {
                &&& final(self).message == Some(UiMessage::WitheringSourceDead)
                &&& final(self).encounter == old(self).encounter
                &&& final(self).action == old(self).action
                &&& final(self).selpos == old(self).selpos
                &&& final(self).monsterdb == old(self).monsterdb
            },
            !spec_dead(old(self).encounter.roster()[action.position - 1]) ==> {
                &&& final(self).encounter.roster() == sort_by_key(
                    match damage {
                        Some(x) => spec_withering_applied(
                            old(self).encounter.roster(),
                            action.position - 1,
                            old(self).selpos - 1,
                            x as int,
                        ),
                        None => old(self).encounter.roster(),
                    },
                )
                &&& final(self).encounter.log_view() == old(self).encounter.log_view()
                &&& final(self).action is None
                &&& final(self).message == old(self).message
                &&& final(self).selpos == old(self).selpos
                &&& final(self).monsterdb == old(self).monsterdb
            },
    {
        if self.get_action_source(action).dead() {
            self.message = Some(UiMessage::WitheringSourceDead);
            return ;
        }
        match damage {
            Some(x) => {
                let crashed = self.get_selected_char_mut().take_withering_hit(x);
                self.get_action_source_mut(action).do_withering_hit(x, crashed);
            },
            None => {},
        }
        self.encounter.update();
        self.cancel();
    }

    /// Remove the member under the cursor, unless it is the last one left:
    /// then a message is raised and nothing changes. The cursor is clamped
    /// to the shrunken roster.
    pub fn remove_char(&mut self)
        requires
            old(self).encounter.roster().len() > 1 ==> 1 <= old(self).selpos
                <= old(self).encounter.roster().len(),
        ensures
            old(self).encounter.roster().len() <= 1 ==> {
                &&& final(self).message == Some(UiMessage::CannotRemoveLast)
                &&& final(self).encounter == old(self).encounter
                &&& final(self).action == old(self).action
                &&& final(self).selpos == old(self).selpos
                &&& final(self).monsterdb == old(self).monsterdb
            },
            old(self).encounter.roster().len() > 1 ==> {
                &&& final(self).encounter.roster() == sort_by_key(
                    old(self).encounter.roster().remove(old(self).selpos - 1),
                )
                &&& final(self).encounter.log_view() == old(self).encounter.log_view()
                &&& final(self).selpos == (if old(self).selpos
                    > old(self).encounter.roster().len() - 1 {
                    old(self).encounter.roster().len() - 1
                } else {
                    old(self).selpos as int
                })
                &&& final(self).message == old(self).message
                &&& final(self).action == old(self).action
                &&& final(self).monsterdb == old(self).monsterdb
            },
    {
        if self.encounter.charcount() <= 1 {
            self.message = Some(UiMessage::CannotRemoveLast);
            return ;
        }
        let removed = self.encounter.removechar((self.selpos - 1) as usize);
        proof {
            assert(removed);
            crate::encounter::lemma_sort_by_key_len(
                old(self).encounter.roster().remove(old(self).selpos - 1),
            );
        }
        if self.selpos as usize > self.encounter.charcount() {
            self.selpos = self.encounter.charcount() as i32;
        }
    }

    /// Replace the roster with a freshly loaded one and clear the log and
    /// the selection state.
    pub fn reset(&mut self, characters: Vec<Character>)
        requires
            forall|i: int|
                0 <= i < characters@.len() ==> crate::character::spec_can_reset(
                    #[trigger] characters@[i],
                ),
        ensures
            final(self).encounter.log_view() == Seq::<Seq<char>>::empty(),
            exists|s: Seq<Character>|
                #[trigger] roster_reset_shape(characters@, s) && final(self).encounter.roster()
                    == sort_by_key(s),
            final(self).selpos == 1,
            final(self).action is None,
            final(self).message == old(self).message,
            final(self).monsterdb == old(self).monsterdb,
    {
        self.encounter.reset(characters);
        self.selpos = 1;
        self.action = None;
    }

    /// Drop any pending attack.
    pub fn cancel(&mut self)
        ensures
            final(self).action is None,
            final(self).selpos == old(self).selpos,
            final(self).message == old(self).message,
            final(self).encounter == old(self).encounter,
            final(self).monsterdb == old(self).monsterdb,
    {
        self.action = None;
    }
}

} // verus!
