use exalted_combat::character::Character;
use exalted_combat::encounter::Encounter;
use exalted_combat::monster::MonsterDB;
use exalted_combat::session::{
    process_key, Action, DecisiveOutcome, KeyCommand, MainWindow, UiMessage,
};
use exalted_combat::util::{roll_dice, score_pool};

fn position_of(encounter: &Encounter, name: &str) -> usize {
    let roster = encounter.char_iter();
    for (i, c) in roster.iter().enumerate() {
        if c.name == name {
            return i;
        }
    }
    panic!("no roster member named {}", name);
}

#[test]
fn sortkey_tiebreak_order() {
    // Living un-done first (highest initiative first), then the done, then
    // the dead, whatever their initiative.
    let chars = vec![
        Character::new(String::from("A"), 0, 1),
        Character::new(String::from("B"), 0, 1),
        Character::new(String::from("C"), 0, 1),
    ];
    let mut enc = Encounter::new(chars);
    for i in 0..3 {
        let c = enc.char_at_mut(i);
        match c.name.as_str() {
            "A" => {
                c.initiative = 5;
                c.health = 1;
                c.done = false;
            }
            "B" => {
                c.initiative = 1;
                c.health = 0;
                c.done = false;
            }
            "C" => {
                c.initiative = 10;
                c.health = 1;
                c.done = true;
            }
            _ => unreachable!(),
        }
    }
    enc.update();
    let roster = enc.char_iter();
    assert_eq!(roster[0].name, "A");
    assert_eq!(roster[1].name, "C");
    assert_eq!(roster[2].name, "B");
    assert_eq!(roster[0].sortkey(), -5);
    assert_eq!(roster[1].sortkey(), -10 + 1000);
    assert_eq!(roster[2].sortkey(), -1 + 5000);
}

#[test]
fn new_round_twice_same_order() {
    let chars = vec![
        Character::new(String::from("A"), 0, 3),
        Character::new(String::from("B"), 0, 3),
        Character::new(String::from("C"), 0, 3),
    ];
    let mut enc = Encounter::new(chars);
    for i in 0..3 {
        let c = enc.char_at_mut(i);
        match c.name.as_str() {
            "A" => {
                c.initiative = 2;
                c.done = true;
            }
            "B" => {
                c.initiative = 7;
                c.done = false;
            }
            "C" => {
                c.initiative = 7;
                c.done = true;
            }
            _ => unreachable!(),
        }
    }
    enc.update();
    enc.new_round();
    let first: Vec<String> = enc.char_iter().iter().map(|c| c.name.clone()).collect();
    enc.new_round();
    let second: Vec<String> = enc.char_iter().iter().map(|c| c.name.clone()).collect();
    assert_eq!(first, second);
    assert!(enc.char_iter().iter().all(|c| !c.done));
}

#[test]
fn remove_last_member_rejected() {
    let mut enc = Encounter::new(vec![Character::new(String::from("Solo"), 0, 1)]);
    assert!(!enc.removechar(0));
    assert_eq!(enc.charcount(), 1);

    let mut enc2 = Encounter::new(vec![
        Character::new(String::from("A"), 0, 1),
        Character::new(String::from("B"), 0, 1),
    ]);
    assert!(enc2.removechar(0));
    assert_eq!(enc2.charcount(), 1);
}

#[test]
fn remove_last_member_rejected_in_session() {
    let enc = Encounter::new(vec![Character::new(String::from("Solo"), 0, 1)]);
    let mut session = MainWindow::new(enc, MonsterDB::load(Vec::new()));
    session.remove_char();
    assert_eq!(session.message, Some(UiMessage::CannotRemoveLast));
    assert_eq!(session.encounter.charcount(), 1);
}

#[test]
fn log_appends_in_order() {
    let mut enc = Encounter::new(Vec::new());
    assert_eq!(enc.log_len(), 0);
    enc.log(String::from("first"));
    enc.log(String::from("second"));
    assert_eq!(enc.log_len(), 2);
    assert_eq!(enc.log_iter()[0], "first");
    assert_eq!(enc.log_iter()[1], "second");
}

#[test]
fn count_name_counts_exact_names() {
    let enc = Encounter::new(vec![
        Character::new(String::from("Goblin"), 0, 1),
        Character::new(String::from("Hero"), 0, 1),
        Character::new(String::from("Goblin"), 0, 1),
    ]);
    assert_eq!(enc.count_name("Goblin"), 2);
    assert_eq!(enc.count_name("Hero"), 1);
    assert_eq!(enc.count_name("goblin"), 0);
    assert_eq!(enc.count_name(""), 0);
}

#[test]
fn roll_dice_stays_in_bounds() {
    assert_eq!(roll_dice(0), 0);
    assert_eq!(roll_dice(-3), 0);
    for _ in 0..200 {
        let r = roll_dice(1);
        assert!(-1 <= r && r <= 2);
        let r5 = roll_dice(5);
        assert!(-5 <= r5 && r5 <= 10);
    }
}

#[test]
fn score_pool_scores_exactly() {
    assert_eq!(score_pool(&vec![]), 0);
    assert_eq!(score_pool(&vec![10, 9, 7, 2]), 4);
    assert_eq!(score_pool(&vec![1, 1, 2]), -2);
    assert_eq!(score_pool(&vec![2, 3, 4, 5, 6]), 0);
    assert_eq!(score_pool(&vec![1, 10]), 2);
}

#[test]
fn add_char_joins_with_full_health() {
    let enc = Encounter::new(Vec::new());
    let mut session = MainWindow::new(enc, MonsterDB::load(Vec::new()));
    session.add_char(String::from("Bob"), 0);
    assert_eq!(session.encounter.charcount(), 1);
    let bob = session.encounter.char_at(0).unwrap();
    assert_eq!(bob.name, "Bob");
    assert_eq!(bob.maxhealth, 7);
    assert_eq!(bob.health, 7);
    assert_eq!(bob.initiative, 3); // an empty join-battle pool rolls zero
    assert!(!bob.done);
    assert_eq!(bob.label, None);
}

#[test]
fn add_monster_assigns_labels() {
    let template = Character::new(String::from("Goblin"), 0, 4);
    let db = MonsterDB::load(vec![template]);
    let enc = Encounter::new(Vec::new());
    let mut session = MainWindow::new(enc, db);

    assert!(session.add_monster("Goblin"));
    assert!(session.add_monster("Goblin"));
    assert!(!session.add_monster("Dragon"));
    assert_eq!(session.encounter.charcount(), 2);
    let mut labels: Vec<Option<char>> =
        session.encounter.char_iter().iter().map(|c| c.label).collect();
    labels.sort();
    assert_eq!(labels, vec![Some('A'), Some('B')]);
    for c in session.encounter.char_iter().iter() {
        assert_eq!(c.name, "Goblin");
        assert_eq!(c.maxhealth, 4);
        assert_eq!(c.health, 4);
        assert_eq!(c.initiative, 3);
    }
}

#[test]
fn monster_names_come_from_catalog() {
    let db = MonsterDB::load(vec![
        Character::new(String::from("Goblin"), 0, 4),
        Character::new(String::from("Dragon"), 0, 20),
    ]);
    let names = db.get_monster_names();
    assert_eq!(names, vec!["Goblin", "Dragon"]);
}

#[test]
fn decisive_attack_via_session() {
    let chars = vec![
        Character::new(String::from("Attacker"), 0, 7),
        Character::new(String::from("Target"), 0, 7),
    ];
    let enc = Encounter::new(chars);
    let mut session = MainWindow::new(enc, MonsterDB::load(Vec::new()));
    let src = position_of(&session.encounter, "Attacker");
    session.encounter.char_at_mut(src).initiative = 9;
    session.encounter.update();

    session.selpos = position_of(&session.encounter, "Attacker") as i32 + 1;
    session.select_target();
    let action = session.action.unwrap();
    session.selpos = position_of(&session.encounter, "Target") as i32 + 1;
    session.decisive_attack(&action, DecisiveOutcome::Hit(4));

    assert!(session.action.is_none());
    let att = position_of(&session.encounter, "Attacker");
    let tgt = position_of(&session.encounter, "Target");
    assert_eq!(session.encounter.char_at(att).unwrap().initiative, 3);
    assert!(session.encounter.char_at(att).unwrap().done);
    assert_eq!(session.encounter.char_at(tgt).unwrap().health, 3);
}

#[test]
fn decisive_attack_rejected_for_crashed_source() {
    let chars = vec![
        Character::new(String::from("Attacker"), 0, 7),
        Character::new(String::from("Target"), 0, 7),
    ];
    let enc = Encounter::new(chars);
    let mut session = MainWindow::new(enc, MonsterDB::load(Vec::new()));
    let src = position_of(&session.encounter, "Attacker");
    session.encounter.char_at_mut(src).initiative = -1;
    session.encounter.update();

    session.selpos = position_of(&session.encounter, "Attacker") as i32 + 1;
    session.select_target();
    let action = session.action.unwrap();
    session.selpos = position_of(&session.encounter, "Target") as i32 + 1;
    let health_before = session
        .encounter
        .char_at(position_of(&session.encounter, "Target"))
        .unwrap()
        .health;
    session.decisive_attack(&action, DecisiveOutcome::Hit(4));

    assert_eq!(session.message, Some(UiMessage::DecisiveSourceUnfit));
    assert!(session.action.is_some());
    let tgt = position_of(&session.encounter, "Target");
    assert_eq!(session.encounter.char_at(tgt).unwrap().health, health_before);
}

#[test]
fn withering_attack_via_session() {
    let chars = vec![
        Character::new(String::from("Attacker"), 0, 7),
        Character::new(String::from("Target"), 0, 7),
    ];
    let enc = Encounter::new(chars);
    let mut session = MainWindow::new(enc, MonsterDB::load(Vec::new()));
    let src = position_of(&session.encounter, "Attacker");
    session.encounter.char_at_mut(src).initiative = 1;
    let tgt = position_of(&session.encounter, "Target");
    session.encounter.char_at_mut(tgt).initiative = 1;
    session.encounter.update();

    session.selpos = position_of(&session.encounter, "Attacker") as i32 + 1;
    session.select_target();
    let action = session.action.unwrap();
    session.selpos = position_of(&session.encounter, "Target") as i32 + 1;
    session.withering_attack(&action, Some(2));

    assert!(session.action.is_none());
    let att = position_of(&session.encounter, "Attacker");
    let tgt = position_of(&session.encounter, "Target");
    // The crash bonus applies: 1 + 2 + 1 + 5.
    assert_eq!(session.encounter.char_at(att).unwrap().initiative, 9);
    assert!(session.encounter.char_at(att).unwrap().done);
    assert_eq!(session.encounter.char_at(tgt).unwrap().initiative, -1);
    assert_eq!(session.encounter.char_at(tgt).unwrap().onslaught, -1);
}

#[test]
fn withering_attack_rejected_for_dead_source() {
    let chars = vec![
        Character::new(String::from("Attacker"), 0, 7),
        Character::new(String::from("Target"), 0, 7),
    ];
    let enc = Encounter::new(chars);
    let mut session = MainWindow::new(enc, MonsterDB::load(Vec::new()));
    let src = position_of(&session.encounter, "Attacker");
    session.encounter.char_at_mut(src).health = 0;
    session.encounter.update();

    session.selpos = position_of(&session.encounter, "Attacker") as i32 + 1;
    session.select_target();
    let action = session.action.unwrap();
    session.selpos = position_of(&session.encounter, "Target") as i32 + 1;
    session.withering_attack(&action, Some(2));

    assert_eq!(session.message, Some(UiMessage::WitheringSourceDead));
    assert!(session.action.is_some());
    let tgt = position_of(&session.encounter, "Target");
    // Untouched: a freshly reset empty pool leaves initiative at three.
    assert_eq!(session.encounter.char_at(tgt).unwrap().initiative, 3);
}

#[test]
fn cursor_move_clamps_to_roster() {
    let chars = vec![
        Character::new(String::from("A"), 0, 1),
        Character::new(String::from("B"), 0, 1),
        Character::new(String::from("C"), 0, 1),
    ];
    let enc = Encounter::new(chars);
    let mut session = MainWindow::new(enc, MonsterDB::load(Vec::new()));
    assert_eq!(session.selpos, 1);
    session.cursor_move(-1);
    assert_eq!(session.selpos, 1);
    session.cursor_move(10);
    assert_eq!(session.selpos, 3);
    session.cursor_move(-2);
    assert_eq!(session.selpos, 1);
    session.cursor_move(1);
    assert_eq!(session.selpos, 2);
}

#[test]
fn process_key_maps_keys() {
    assert_eq!(process_key('k' as i32), KeyCommand::CursorUp);
    assert_eq!(process_key(259), KeyCommand::CursorUp);
    assert_eq!(process_key('j' as i32), KeyCommand::CursorDown);
    assert_eq!(process_key(258), KeyCommand::CursorDown);
    assert_eq!(process_key('D' as i32), KeyCommand::MarkDone);
    assert_eq!(process_key('i' as i32), KeyCommand::EditInitiative);
    assert_eq!(process_key('o' as i32), KeyCommand::EditOnslaught);
    assert_eq!(process_key('h' as i32), KeyCommand::EditHealth);
    assert_eq!(process_key('n' as i32), KeyCommand::NewRound);
    assert_eq!(process_key('a' as i32), KeyCommand::AddCharacter);
    assert_eq!(process_key('m' as i32), KeyCommand::AddMonster);
    assert_eq!(process_key('d' as i32), KeyCommand::DecisiveKey);
    assert_eq!(process_key('w' as i32), KeyCommand::WitheringKey);
    assert_eq!(process_key('r' as i32), KeyCommand::RemoveCharacter);
    assert_eq!(process_key('x' as i32), KeyCommand::ResetEncounter);
    assert_eq!(process_key(27), KeyCommand::Cancel);
    assert_eq!(process_key('q' as i32), KeyCommand::Ignore);
}

#[test]
fn mark_done_toggles_and_resorts() {
    let chars = vec![
        Character::new(String::from("A"), 0, 1),
        Character::new(String::from("B"), 0, 1),
    ];
    let enc = Encounter::new(chars);
    let mut session = MainWindow::new(enc, MonsterDB::load(Vec::new()));
    let a = position_of(&session.encounter, "A");
    session.encounter.char_at_mut(a).initiative = 5;
    session.encounter.update();
    assert_eq!(session.encounter.char_at(0).unwrap().name, "A");

    session.selpos = 1;
    session.mark_done();
    // A is done now, so it sinks below B.
    assert_eq!(session.encounter.char_at(0).unwrap().name, "B");
    assert!(session.encounter.char_at(1).unwrap().done);
}

#[test]
fn session_reset_clears_selection() {
    let chars = vec![
        Character::new(String::from("A"), 0, 1),
        Character::new(String::from("B"), 0, 1),
    ];
    let enc = Encounter::new(chars);
    let mut session = MainWindow::new(enc, MonsterDB::load(Vec::new()));
    session.encounter.log(String::from("something happened"));
    session.selpos = 2;
    session.select_target();
    session.reset(vec![Character::new(String::from("Fresh"), 0, 2)]);
    assert_eq!(session.selpos, 1);
    assert!(session.action.is_none());
    assert_eq!(session.encounter.log_len(), 0);
    assert_eq!(session.encounter.charcount(), 1);
    assert_eq!(session.encounter.char_at(0).unwrap().name, "Fresh");
}

#[test]
fn select_target_remembers_cursor() {
    let chars = vec![
        Character::new(String::from("A"), 0, 1),
        Character::new(String::from("B"), 0, 1),
    ];
    let enc = Encounter::new(chars);
    let mut session = MainWindow::new(enc, MonsterDB::load(Vec::new()));
    session.selpos = 2;
    session.select_target();
    let Action { position } = session.action.unwrap();
    assert_eq!(position, 2);
    session.cancel();
    assert!(session.action.is_none());
}

#[test]
fn message_texts() {
    assert_eq!(
        UiMessage::CannotRemoveLast.text(),
        "Cannot remove last character"
    );
    assert_eq!(
        UiMessage::DecisiveSourceUnfit.text(),
        "Crashed/Dead character cannot decisive attack"
    );
    assert_eq!(
        UiMessage::WitheringSourceDead.text(),
        "Dead character cannot withering attack"
    );
}

#[test]
fn set_initiative_resorts_roster() {
    let chars = vec![
        Character::new(String::from("A"), 0, 1),
        Character::new(String::from("B"), 0, 1),
    ];
    let enc = Encounter::new(chars);
    let mut session = MainWindow::new(enc, MonsterDB::load(Vec::new()));
    let b = position_of(&session.encounter, "B");
    session.selpos = b as i32 + 1;
    session.set_initiative(12);
    assert_eq!(session.encounter.char_at(0).unwrap().name, "B");
    assert_eq!(session.encounter.char_at(0).unwrap().initiative, 12);
}
