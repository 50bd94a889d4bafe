use h5t::roster::{Combatant, Tracker, CONDITION_COUNT};
use h5t::state::{ActionKind, ActionState, AfterKey, ApplyCondition, ApplyDamage, Key};

fn roster(hp: &[i64]) -> Tracker {
    Tracker::new(hp.iter().map(|h| Combatant::new(String::from("x"), *h)).collect())
}

#[test]
fn damage_amount_accumulates_digits() {
    let mut d = ApplyDamage::new(vec![0]);
    assert_eq!(d.handle_key(Key::Char('4')), AfterKey::Stay);
    assert_eq!(d.handle_key(Key::Char('2')), AfterKey::Stay);
    assert_eq!(d.amount(), 42);
    assert_eq!(d.handle_key(Key::Char('k')), AfterKey::Stay);
    assert_eq!(d.amount(), 42);
    d.handle_key(Key::Backspace);
    assert_eq!(d.amount(), 4);
    assert_eq!(d.handle_key(Key::Enter), AfterKey::Exit);
}

#[test]
fn damage_amount_does_not_overflow() {
    let mut d = ApplyDamage::new(vec![]);
    for c in "4294967295".chars() {
        d.handle_key(Key::Char(c));
    }
    assert_eq!(d.amount(), u32::MAX);
    d.handle_key(Key::Char('0'));
    assert_eq!(d.amount(), u32::MAX);
}

#[test]
fn damage_applies_once_per_target() {
    let mut t = roster(&[10, 10, 10]);
    let mut d = ApplyDamage::new(vec![0, 2]);
    d.handle_key(Key::Char('7'));
    d.handle_key(Key::Enter);
    d.apply(&mut t);
    let hp: Vec<i64> = t.combatants.iter().map(|c| c.hit_points).collect();
    assert_eq!(hp, vec![3, 10, 3]);
}

#[test]
fn every_exit_commits_damage() {
    let mut t = roster(&[10, 10]);
    let mut d = ApplyDamage::new(vec![0]);
    d.handle_key(Key::Char('5'));
    assert_eq!(d.handle_key(Key::Esc), AfterKey::Stay);
    assert_eq!(d.amount(), 5);
    assert_eq!(d.handle_key(Key::Enter), AfterKey::Exit);
    d.apply(&mut t);
    let hp: Vec<i64> = t.combatants.iter().map(|c| c.hit_points).collect();
    assert_eq!(hp, vec![5, 10]);
}

#[test]
fn escape_does_not_end_condition() {
    let mut c = ApplyCondition::new(vec![0]);
    assert_eq!(c.handle_key(Key::Esc), AfterKey::Stay);
    assert_eq!(c.cursor(), 0);
    assert_eq!(c.handle_key(Key::Enter), AfterKey::Exit);
}

#[test]
fn damage_saturates_at_lowest_hit_points() {
    let mut t = roster(&[i64::MIN + 3]);
    t.apply_damage(0, 10);
    assert_eq!(t.combatants[0].hit_points, i64::MIN);
    t.apply_damage(5, 10);
    assert_eq!(t.combatants.len(), 1);
}

#[test]
fn condition_cursor_wraps() {
    let mut c = ApplyCondition::new(vec![1]);
    assert_eq!(c.cursor(), 0);
    assert_eq!(c.handle_key(Key::Up), AfterKey::Stay);
    assert_eq!(c.cursor(), CONDITION_COUNT - 1);
    c.handle_key(Key::Down);
    assert_eq!(c.cursor(), 0);
    c.handle_key(Key::Down);
    c.handle_key(Key::Down);
    assert_eq!(c.cursor(), 2);
}

#[test]
fn condition_toggles_on_each_target() {
    let mut t = roster(&[1, 1, 1]);
    let mut c = ApplyCondition::new(vec![1, 2]);
    c.handle_key(Key::Down);
    c.handle_key(Key::Down);
    c.handle_key(Key::Enter);
    c.apply(&mut t);
    assert!(!t.combatants[0].conditions[2]);
    assert!(t.combatants[1].conditions[2]);
    assert!(t.combatants[2].conditions[2]);
    t.toggle_condition(1, 2);
    assert!(!t.combatants[1].conditions[2]);
    t.toggle_condition(1, CONDITION_COUNT);
    assert_eq!(t.combatants[1].conditions, [false; 14]);
}

#[test]
fn action_state_dispatches_to_its_variant() {
    let mut t = roster(&[5, 5]);
    let mut s = ActionState::start(ActionKind::Damage, vec![1]);
    assert_eq!(s.targets(), &vec![1]);
    assert_eq!(s.handle_key(Key::Char('2')), AfterKey::Stay);
    assert_eq!(s.handle_key(Key::Enter), AfterKey::Exit);
    s.apply(&mut t);
    assert_eq!(t.combatants[1].hit_points, 3);
    assert_eq!(t.combatants[0].hit_points, 5);
    let s = ActionState::start(ActionKind::Condition, vec![0]);
    assert!(matches!(s, ActionState::Condition(_)));
}

#[test]
fn turn_order_wraps_into_next_round() {
    let mut t = roster(&[1, 1, 1]);
    t.use_action();
    t.use_reaction();
    assert_eq!(t.current_combatant().unwrap().actions.actions, 0);
    t.next_turn();
    t.next_turn();
    assert_eq!((t.turn, t.round), (2, 0));
    t.next_turn();
    assert_eq!((t.turn, t.round), (0, 1));
    let a = t.combatants[0].actions;
    assert_eq!((a.actions, a.bonus_actions, a.reactions), (1, 1, 1));
}

#[test]
fn empty_tracker_ignores_turn_commands() {
    let mut t = roster(&[]);
    t.next_turn();
    t.use_action();
    t.use_bonus_action();
    assert_eq!((t.turn, t.round), (0, 0));
    assert!(t.current_combatant().is_none());
}
