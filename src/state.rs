//! Multi-step actions applied to a fixed set of targets.
use vstd::prelude::*;
use crate::roster::{CONDITION_COUNT, Combatant, Tracker};

verus! {

/// A key press, as the controller and the action states see it.
#[derive(Copy, Clone, Debug, PartialEq, Eq, Structural)]
pub enum Key {
    Up,
    Down,
    Enter,
    Esc,
    Backspace,
    Char(char),
    /// Any key that nothing here reacts to.
    Other,
}

/// What to do after handling a key event.
#[derive(Copy, Clone, Debug, PartialEq, Eq, Structural)]
pub enum AfterKey {
    /// Stay in the current state.
    Stay,
    /// Exit and hand control back to the main loop.
    Exit,
}

/// The value of decimal digit `c`, if it is one.
pub open spec fn digit_value(c: char) -> Option<u32> {
    if '0' <= c && c <= '9' {
        Some((c as u32 - '0' as u32) as u32)
    } else {
        None
    }
}

/// `amount` with decimal digit `d` appended, or unchanged when that would not
/// fit in a `u32`.
pub open spec fn append_digit(amount: u32, d: u32) -> u32 {
    if amount * 10 + d <= u32::MAX {
        (amount * 10 + d) as u32
    } else {
        amount
    }
}

/// The damage amount `amount` after `key`: a digit is appended (unless the
/// result would not fit in a `u32`), backspace drops the last digit, and any
/// other key leaves it.
pub open spec fn amount_after(amount: u32, key: Key) -> u32 {
    match key {
        Key::Char(c) => match digit_value(c) {
            Some(d) => append_digit(amount, d),
            None => amount,
        },
        Key::Backspace => amount / 10,
        _ => amount,
    }
}

/// The condition cursor `cursor` after `key`: up and down move it through the
/// conditions, wrapping around, and any other key leaves it.
pub open spec fn cursor_after(cursor: nat, key: Key) -> nat {
    match key {
        Key::Up => ((cursor + CONDITION_COUNT - 1) as int % (CONDITION_COUNT as int)) as nat,
        Key::Down => ((cursor + 1) as int % (CONDITION_COUNT as int)) as nat,
        _ => cursor,
    }
}

/// `combatants` after `amount` damage to each of `targets`, in order.
pub open spec fn damage_all(combatants: Seq<Combatant>, targets: Seq<usize>, amount: u32) -> Seq<
    Combatant,
>
    decreases targets.len(),
{
    if targets.len() == 0 {
        combatants
    } else {
        Tracker::damage_spec(
            damage_all(combatants, targets.drop_last(), amount),
            targets.last() as int,
            amount,
        )
    }
}

/// `combatants` after switching `condition` on each of `targets`, in order.
pub open spec fn toggle_all(combatants: Seq<Combatant>, targets: Seq<usize>, condition: int) -> Seq<
    Combatant,
>
    decreases targets.len(),
{
    if targets.len() == 0 {
        combatants
    } else {
        Tracker::toggle_spec(
            toggle_all(combatants, targets.drop_last(), condition),
            targets.last() as int,
            condition,
        )
    }
}

/// Typing a damage amount to deal to each target.
#[derive(Clone, Debug)]
pub struct ApplyDamage {
    targets: Vec<usize>,
    amount: u32,
}

impl ApplyDamage {
    /// The global indices the damage goes to.
    pub closed spec fn targets_spec(&self) -> Seq<usize> {
        self.targets@
    }

    /// The amount typed so far.
    pub closed spec fn amount_spec(&self) -> u32 {
        self.amount
    }

    /// Damage to `targets`, with nothing typed yet.
    pub fn new(targets: Vec<usize>) -> (r: Self)
        ensures
            r.targets_spec() == targets@,
            r.amount_spec() == 0,
    {
        ApplyDamage { targets, amount: 0 }
    }

    /// The global indices the damage goes to.
    pub fn targets(&self) -> (r: &Vec<usize>)
        ensures
            r@ == self.targets_spec(),
    {
        &self.targets
    }

    /// The amount typed so far.
    pub fn amount(&self) -> (r: u32)
        ensures
            r == self.amount_spec(),
    {
        self.amount
    }

    /// The state after `key`.
    pub closed spec fn after_key(self, key: Key) -> ApplyDamage {
        ApplyDamage {
            targets: self.targets,
            amount: amount_after(self.amount, key),
        }
    }

    /// A digit extends the amount, backspace drops its last digit and enter
    /// finishes; any other key is ignored.
    pub fn handle_key(&mut self, key: Key) -> (r: AfterKey)
        ensures
            *final(self) == old(self).after_key(key),
            final(self).targets_spec() == old(self).targets_spec(),
            r == (if key == Key::Enter {
                AfterKey::Exit
            } else {
                AfterKey::Stay
            }),
            final(self).amount_spec() == amount_after(old(self).amount_spec(), key),
    {
        match key {
            Key::Char(c) => {
                if '0' <= c && c <= '9' {
                    let d = c as u32 - '0' as u32;
                    if self.amount <= (u32::MAX - d) / 10 {
                        self.amount = self.amount * 10 + d;
                    } else {
                        assert(self.amount * 10 + d > u32::MAX) by (nonlinear_arith)
                            requires self.amount > (u32::MAX - d) / 10, d <= 9,;
                    }
                }
                AfterKey::Stay
            },
            Key::Backspace => {
                self.amount = self.amount / 10;
                AfterKey::Stay
            },
            Key::Enter => AfterKey::Exit,
            _ => AfterKey::Stay,
        }
    }

    /// The participants after this action: the typed amount dealt to each
    /// target in order.
    pub open spec fn applied_to(&self, combatants: Seq<Combatant>) -> Seq<Combatant> {
        damage_all(combatants, self.targets_spec(), self.amount_spec())
    }

    /// Deals the typed amount to every target, once each, in order.
    pub fn apply(self, tracker: &mut Tracker)
        ensures
            final(tracker).combatants@ == self.applied_to(old(tracker).combatants@),
            final(tracker).combatants@.len() == old(tracker).combatants@.len(),
            final(tracker).turn == old(tracker).turn,
            final(tracker).round == old(tracker).round,
    {
        let ghost start = tracker.combatants@;
        let mut i: usize = 0;
        while i < self.targets.len()
            invariant
                i <= self.targets@.len(),
                tracker.combatants@ == damage_all(start, self.targets@.take(i as int), self.amount),
                tracker.combatants@.len() == old(tracker).combatants@.len(),
                tracker.turn == old(tracker).turn,
                tracker.round == old(tracker).round,
            decreases self.targets@.len() - i,
        {
            tracker.apply_damage(self.targets[i], self.amount);
            assert(self.targets@.take(i + 1).drop_last() =~= self.targets@.take(i as int));
            i += 1;
        }
        assert(self.targets@.take(i as int) =~= self.targets@);
    }
}

/// Picking a status condition to switch on each target.
#[derive(Clone, Debug)]
pub struct ApplyCondition {
    targets: Vec<usize>,
    cursor: usize,
}

impl ApplyCondition {
    /// The global indices the condition goes to.
    pub closed spec fn targets_spec(&self) -> Seq<usize> {
        self.targets@
    }

    /// The index of the condition under the cursor.
    pub closed spec fn cursor_spec(&self) -> nat {
        self.cursor as nat
    }

    /// The cursor always rests on a condition.
    pub closed spec fn wf(&self) -> bool {
        self.cursor < CONDITION_COUNT
    }

    /// A condition for `targets`, with the cursor on the first condition.
    pub fn new(targets: Vec<usize>) -> (r: Self)
        ensures
            r.targets_spec() == targets@,
            r.cursor_spec() == 0,
            r.wf(),
    {
        ApplyCondition { targets, cursor: 0 }
    }

    /// The global indices the condition goes to.
    pub fn targets(&self) -> (r: &Vec<usize>)
        ensures
            r@ == self.targets_spec(),
    {
        &self.targets
    }

    /// The index of the condition under the cursor.
    pub fn cursor(&self) -> (r: usize)
        ensures
            r == self.cursor_spec(),
    {
        self.cursor
    }

    /// The state after `key`.
    pub closed spec fn after_key(self, key: Key) -> ApplyCondition {
        ApplyCondition {
            targets: self.targets,
            cursor: match key {
                Key::Up => if self.cursor == 0 {
                    (CONDITION_COUNT - 1) as usize
                } else {
                    (self.cursor - 1) as usize
                },
                Key::Down => if self.cursor + 1 == CONDITION_COUNT {
                    0
                } else {
                    (self.cursor + 1) as usize
                },
                _ => self.cursor,
            },
        }
    }

    /// Up and down move the cursor through the conditions, wrapping around,
    /// and enter finishes; any other key is ignored.
    pub fn handle_key(&mut self, key: Key) -> (r: AfterKey)
        requires
            old(self).wf(),
        ensures
            *final(self) == old(self).after_key(key),
            final(self).wf(),
            final(self).targets_spec() == old(self).targets_spec(),
            r == (if key == Key::Enter {
                AfterKey::Exit
            } else {
                AfterKey::Stay
            }),
            final(self).cursor_spec() == cursor_after(old(self).cursor_spec(), key),
    {
        match key {
            Key::Up => {
                self.cursor = if self.cursor == 0 {
                    CONDITION_COUNT - 1
                } else {
                    self.cursor - 1
                };
                AfterKey::Stay
            },
            Key::Down => {
                self.cursor = if self.cursor + 1 == CONDITION_COUNT {
                    0
                } else {
                    self.cursor + 1
                };
                AfterKey::Stay
            },
            Key::Enter => AfterKey::Exit,
            _ => AfterKey::Stay,
        }
    }

    /// The participants after this action: the chosen condition switched on
    /// each target in order.
    pub open spec fn applied_to(&self, combatants: Seq<Combatant>) -> Seq<Combatant> {
        toggle_all(combatants, self.targets_spec(), self.cursor_spec() as int)
    }

    /// Switches the chosen condition on every target, once each, in order.
    pub fn apply(self, tracker: &mut Tracker)
        ensures
            final(tracker).combatants@ == self.applied_to(old(tracker).combatants@),
            final(tracker).combatants@.len() == old(tracker).combatants@.len(),
            final(tracker).turn == old(tracker).turn,
            final(tracker).round == old(tracker).round,
    {
        let ghost start = tracker.combatants@;
        let mut i: usize = 0;
        while i < self.targets.len()
            invariant
                i <= self.targets@.len(),
                tracker.combatants@ == toggle_all(start, self.targets@.take(i as int), self.cursor as int),
                tracker.combatants@.len() == old(tracker).combatants@.len(),
                tracker.turn == old(tracker).turn,
                tracker.round == old(tracker).round,
            decreases self.targets@.len() - i,
        {
            tracker.toggle_condition(self.targets[i], self.cursor);
            assert(self.targets@.take(i + 1).drop_last() =~= self.targets@.take(i as int));
            i += 1;
        }
        assert(self.targets@.take(i as int) =~= self.targets@);
    }
}

/// Which action a selection session is gathering targets for.
#[derive(Copy, Clone, Debug, PartialEq, Eq, Structural)]
pub enum ActionKind {
    Condition,
    Damage,
}

/// State of an action being applied through the [`Tracker`].
#[derive(Clone, Debug)]
pub enum ActionState {
    /// Applying a condition to participants.
    Condition(ApplyCondition),
    /// Applying damage to participants.
    Damage(ApplyDamage),
}

impl ActionState {
    /// The global indices the action goes to.
    pub open spec fn targets_spec(&self) -> Seq<usize> {
        match self {
            ActionState::Condition(s) => s.targets_spec(),
            ActionState::Damage(s) => s.targets_spec(),
        }
    }

    /// The state is consistent.
    pub open spec fn wf(&self) -> bool {
        match self {
            ActionState::Condition(s) => s.wf(),
            ActionState::Damage(_) => true,
        }
    }

    /// The participants after this action is applied.
    pub open spec fn applied_to(&self, combatants: Seq<Combatant>) -> Seq<Combatant> {
        match self {
            ActionState::Condition(s) => s.applied_to(combatants),
            ActionState::Damage(s) => s.applied_to(combatants),
        }
    }

    /// `self` is a `kind` action for `targets` that has seen no key yet.
    pub open spec fn is_fresh(&self, kind: ActionKind, targets: Seq<usize>) -> bool {
        match (kind, self) {
            (ActionKind::Condition, ActionState::Condition(s)) => {
                &&& s.targets_spec() == targets
                &&& s.cursor_spec() == 0
                &&& s.wf()
            },
            (ActionKind::Damage, ActionState::Damage(s)) => {
                &&& s.targets_spec() == targets
                &&& s.amount_spec() == 0
            },
            _ => false,
        }
    }

    /// A `kind` action for `targets`.
    pub fn start(kind: ActionKind, targets: Vec<usize>) -> (r: Self)
        ensures
            r.is_fresh(kind, targets@),
            r.wf(),
    {
        match kind {
            ActionKind::Condition => ActionState::Condition(ApplyCondition::new(targets)),
            ActionKind::Damage => ActionState::Damage(ApplyDamage::new(targets)),
        }
    }

    /// The global indices the action goes to.
    pub fn targets(&self) -> (r: &Vec<usize>)
        ensures
            r@ == self.targets_spec(),
    {
        match self {
            ActionState::Condition(s) => s.targets(),
            ActionState::Damage(s) => s.targets(),
        }
    }

    /// The state after `key`.
    pub open spec fn after_key(self, key: Key) -> ActionState {
        match self {
            ActionState::Condition(s) => ActionState::Condition(s.after_key(key)),
            ActionState::Damage(s) => ActionState::Damage(s.after_key(key)),
        }
    }

    /// `after` is `before` once `key` has been handled: the same variant and
    /// targets, with the typed amount or the condition cursor moved by `key`.
    pub open spec fn key_effect(before: ActionState, after: ActionState, key: Key) -> bool {
        match (before, after) {
            (ActionState::Damage(a), ActionState::Damage(b)) => {
                &&& b.targets_spec() == a.targets_spec()
                &&& b.amount_spec() == amount_after(a.amount_spec(), key)
            },
            (ActionState::Condition(a), ActionState::Condition(b)) => {
                &&& b.targets_spec() == a.targets_spec()
                &&& b.cursor_spec() == cursor_after(a.cursor_spec(), key)
                &&& b.wf()
            },
            _ => false,
        }
    }

    /// Handles a key event in the active variant; enter ends the action.
    pub fn handle_key(&mut self, key: Key) -> (r: AfterKey)
        requires
            old(self).wf(),
        ensures
            *final(self) == old(self).after_key(key),
            Self::key_effect(*old(self), *final(self), key),
            final(self).wf(),
            final(self).targets_spec() == old(self).targets_spec(),
            r == (if key == Key::Enter {
                AfterKey::Exit
            } else {
                AfterKey::Stay
            }),
    {
        match self {
            ActionState::Condition(state) => state.handle_key(key),
            ActionState::Damage(state) => state.handle_key(key),
        }
    }

    /// Applies the action to the tracker. Called once, when the state exits.
    pub fn apply(self, tracker: &mut Tracker)
        ensures
            final(tracker).combatants@ == self.applied_to(old(tracker).combatants@),
            final(tracker).combatants@.len() == old(tracker).combatants@.len(),
            final(tracker).turn == old(tracker).turn,
            final(tracker).round == old(tracker).round,
    {
        match self {
            ActionState::Condition(state) => state.apply(tracker),
            ActionState::Damage(state) => state.apply(tracker),
        }
    }
}

} // verus!
