use h5t::roster::{Combatant, Tracker};
use h5t::state::{ActionState, Key};
use h5t::ui::{Flow, InfoBlockMode, Ui};

fn roster(n: usize) -> Tracker {
    let combatants = (0..n)
        .map(|i| Combatant::new(format!("c{}", i), 10))
        .collect();
    Tracker::new(combatants)
}

fn press(ui: &mut Ui, keys: &[Key]) {
    for key in keys {
        assert_eq!(ui.handle_key(*key), Flow::Continue);
    }
}

fn targets(ui: &Ui) -> Vec<usize> {
    ui.action_mode().expect("an action is active").targets().clone()
}

#[test]
fn label_mode_on_second_page_yields_its_global_indices() {
    // height 11 gives pages of 5: [0-4], [5, 6].
    let mut ui = Ui::new(roster(7), 11);
    assert_eq!(ui.page_config().page_size, 5);
    assert_eq!(ui.pages().len(), 2);
    press(&mut ui, &[Key::Char('d')]);
    assert!(ui.labels_enabled());
    press(&mut ui, &[Key::Down, Key::Char('q'), Key::Char('a'), Key::Enter]);
    assert!(!ui.labels_enabled());
    assert_eq!(targets(&ui), vec![5, 6]);
    assert!(matches!(ui.action_mode(), Some(ActionState::Damage(_))));
    assert!(ui.pages().iter().all(|p| p.get_selection().is_none()));
}

#[test]
fn damage_is_applied_to_targets_on_exit() {
    let mut ui = Ui::new(roster(7), 11);
    press(&mut ui, &[Key::Char('d'), Key::Down, Key::Char('q'), Key::Char('a'), Key::Enter]);
    press(&mut ui, &[Key::Char('1'), Key::Char('2'), Key::Backspace, Key::Char('3'), Key::Enter]);
    assert!(ui.action_mode().is_none());
    let hp: Vec<i64> = ui.tracker().combatants.iter().map(|c| c.hit_points).collect();
    assert_eq!(hp, vec![10, 10, 10, 10, 10, -3, -3]);
}

#[test]
fn cancel_discards_selection() {
    let mut ui = Ui::new(roster(7), 11);
    press(&mut ui, &[Key::Char('d'), Key::Char('q'), Key::Char('z'), Key::Down, Key::Char('a'), Key::Esc]);
    assert!(!ui.labels_enabled());
    assert_eq!(targets(&ui), Vec::<usize>::new());
    assert!(ui.pages().iter().all(|p| p.get_selection().is_none()));
}

#[test]
fn active_action_blocks_global_commands() {
    let mut ui = Ui::new(roster(3), 20);
    press(&mut ui, &[Key::Char('c'), Key::Char('q'), Key::Enter]);
    assert_eq!(targets(&ui), vec![0]);
    // 'n' would pass the turn and 'q' would quit, were no action active.
    press(&mut ui, &[Key::Char('n'), Key::Char('q'), Key::Char('d'), Key::Char('a')]);
    assert_eq!(ui.tracker().turn, 0);
    assert_eq!(ui.tracker().combatants[0].actions.actions, 1);
    assert!(!ui.labels_enabled());
    assert!(matches!(ui.action_mode(), Some(ActionState::Condition(_))));
    // Down moves the condition cursor, not the page.
    press(&mut ui, &[Key::Down, Key::Enter]);
    assert!(ui.action_mode().is_none());
    assert!(ui.tracker().combatants[0].conditions[1]);
    assert!(!ui.tracker().combatants[1].conditions[1]);
    ui.handle_key(Key::Char('n'));
    assert_eq!(ui.tracker().turn, 1);
}

#[test]
fn empty_roster_starts_action_without_targets() {
    let mut ui = Ui::new(roster(0), 20);
    assert!(ui.pages().is_empty());
    press(&mut ui, &[Key::Char('d')]);
    assert!(!ui.labels_enabled());
    assert_eq!(targets(&ui), Vec::<usize>::new());
}

#[test]
fn zero_capacity_starts_action_without_targets() {
    let mut ui = Ui::new(roster(4), 5);
    assert_eq!(ui.page_config().page_size, 0);
    press(&mut ui, &[Key::Char('c')]);
    assert!(!ui.labels_enabled());
    assert_eq!(targets(&ui), Vec::<usize>::new());
}

#[test]
fn quit_and_global_commands() {
    let mut ui = Ui::new(roster(2), 20);
    assert_eq!(ui.info_block_mode(), InfoBlockMode::CombatState);
    press(&mut ui, &[Key::Char('s')]);
    assert_eq!(ui.info_block_mode(), InfoBlockMode::Stats);
    press(&mut ui, &[Key::Char('a'), Key::Char('b'), Key::Char('r'), Key::Char('a')]);
    let a = ui.tracker().combatants[0].actions;
    assert_eq!((a.actions, a.bonus_actions, a.reactions), (0, 0, 0));
    press(&mut ui, &[Key::Char('n'), Key::Char('n')]);
    assert_eq!(ui.tracker().turn, 0);
    assert_eq!(ui.tracker().round, 1);
    assert_eq!(ui.tracker().combatants[0].actions.actions, 1);
    press(&mut ui, &[Key::Char('x'), Key::Other]);
    assert_eq!(ui.handle_key(Key::Char('q')), Flow::Quit);
}

#[test]
fn page_keys_stay_within_bounds() {
    let mut ui = Ui::new(roster(7), 11);
    press(&mut ui, &[Key::Up]);
    assert_eq!(ui.page_config().current_page, 0);
    press(&mut ui, &[Key::Down, Key::Down]);
    assert_eq!(ui.page_config().current_page, 1);
    assert_eq!(ui.current_page().unwrap().get_id(), 1);
    press(&mut ui, &[Key::Up]);
    assert_eq!(ui.page_config().current_page, 0);
}

#[test]
fn resize_during_session_keeps_picks() {
    // height 10 gives pages of 4: [0-3], [4-7], [8-9].
    let mut ui = Ui::new(roster(10), 10);
    press(&mut ui, &[Key::Char('d'), Key::Char('a'), Key::Down, Key::Char('a'), Key::Down, Key::Char('a')]);
    assert_eq!(ui.page_config().current_page, 2);
    ui.resize(11);
    assert_eq!(ui.page_config().page_size, 5);
    assert_eq!(ui.page_config().current_page, 1);
    assert!(ui.labels_enabled());
    press(&mut ui, &[Key::Enter]);
    assert_eq!(targets(&ui), vec![1, 5, 9]);
}

#[test]
fn resize_leaves_active_action_targets() {
    let mut ui = Ui::new(roster(10), 10);
    press(&mut ui, &[Key::Char('d'), Key::Down, Key::Char('q'), Key::Enter]);
    assert_eq!(targets(&ui), vec![4]);
    ui.resize(30);
    assert_eq!(targets(&ui), vec![4]);
}

#[test]
fn info_block_mode_toggles_back_and_forth() {
    let mut mode = InfoBlockMode::CombatState;
    mode.toggle();
    assert_eq!(mode, InfoBlockMode::Stats);
    mode.toggle();
    assert_eq!(mode, InfoBlockMode::CombatState);
}

#[test]
fn escape_inside_action_keeps_it_active() {
    let mut ui = Ui::new(roster(3), 20);
    press(&mut ui, &[Key::Char('d'), Key::Char('a'), Key::Enter, Key::Char('4'), Key::Esc]);
    assert_eq!(targets(&ui), vec![1]);
    press(&mut ui, &[Key::Enter]);
    assert!(ui.action_mode().is_none());
    assert_eq!(ui.tracker().combatants[1].hit_points, 6);
}
