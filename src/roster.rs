//! The roster of combat participants that targeted actions change.
use vstd::prelude::*;
use vstd::array::spec_array_update;

verus! {

/// Number of status conditions a participant can carry.
pub const CONDITION_COUNT: usize = 14;

/// A participant's remaining action economy for the current turn.
#[derive(Copy, Clone, Debug, PartialEq, Eq, Structural)]
pub struct Action {
    /// Primary actions left.
    pub actions: u32,
    /// Secondary (bonus) actions left.
    pub bonus_actions: u32,
    /// Reactions left.
    pub reactions: u32,
}

/// One participant of the combat.
#[derive(Clone, Debug)]
pub struct Combatant {
    /// Display name.
    pub name: String,
    /// Remaining hit points; at zero or below the participant is down.
    pub hit_points: i64,
    /// Action economy left this turn.
    pub actions: Action,
    /// One flag per status condition, by condition index.
    pub conditions: [bool; 14],
}

/// The action economy a participant gets back when its turn begins.
pub open spec fn fresh_actions() -> Action {
    Action { actions: 1, bonus_actions: 1, reactions: 1 }
}

/// `hp` less `amount`, held at `i64::MIN` from below.
pub open spec fn damaged_hp(hp: i64, amount: u32) -> i64 {
    if hp - amount < i64::MIN {
        i64::MIN
    } else {
        (hp - amount) as i64
    }
}

impl Combatant {
    /// A participant with `hit_points`, a fresh action economy and no
    /// condition.
    pub fn new(name: String, hit_points: i64) -> (r: Self)
        ensures
            r.name@ == name@,
            r.hit_points == hit_points,
            r.actions == fresh_actions(),
            forall|c: int| 0 <= c < CONDITION_COUNT ==> !#[trigger] r.conditions[c],
    {
        Combatant {
            name,
            hit_points,
            actions: Action { actions: 1, bonus_actions: 1, reactions: 1 },
            conditions: [false; 14],
        }
    }

    /// The participant after taking `amount` damage.
    pub open spec fn damaged(self, amount: u32) -> Combatant {
        Combatant { hit_points: damaged_hp(self.hit_points, amount), ..self }
    }

    /// The participant with condition `condition` switched.
    pub open spec fn condition_toggled(self, condition: int) -> Combatant {
        Combatant {
            conditions: spec_array_update(
                self.conditions,
                condition,
                !self.conditions[condition],
            ),
            ..self
        }
    }

    /// The participant with its action economy replaced.
    pub open spec fn with_actions(self, actions: Action) -> Combatant {
        Combatant { actions, ..self }
    }
}

/// The ordered roster, the turn and the round.
#[derive(Clone, Debug)]
pub struct Tracker {
    /// Participants in turn order; a participant's position is its global index.
    pub combatants: Vec<Combatant>,
    /// Global index of the participant whose turn it is.
    pub turn: usize,
    /// Rounds completed.
    pub round: usize,
}

impl Tracker {
    /// `combatants` after `amount` damage to participant `index`.
    pub open spec fn damage_spec(combatants: Seq<Combatant>, index: int, amount: u32) -> Seq<
        Combatant,
    > {
        if 0 <= index < combatants.len() {
            combatants.update(index, combatants[index].damaged(amount))
        } else {
            combatants
        }
    }

    /// `combatants` after switching `condition` on participant `index`.
    pub open spec fn toggle_spec(combatants: Seq<Combatant>, index: int, condition: int) -> Seq<
        Combatant,
    > {
        if 0 <= index < combatants.len() && 0 <= condition < CONDITION_COUNT {
            combatants.update(index, combatants[index].condition_toggled(condition))
        } else {
            combatants
        }
    }

    /// The participants after the current one's action economy becomes `a`.
    pub open spec fn with_current_actions(self, a: Action) -> Seq<Combatant> {
        self.combatants@.update(self.turn as int, self.combatants@[self.turn as int].with_actions(a))
    }

    /// Whether some participant's turn it is.
    pub open spec fn has_current(self) -> bool {
        self.turn < self.combatants@.len()
    }

    /// The action economy of the participant whose turn it is.
    pub open spec fn current_actions(self) -> Action {
        self.combatants@[self.turn as int].actions
    }

    /// A tracker at the start of the first round.
    pub fn new(combatants: Vec<Combatant>) -> (r: Self)
        ensures
            r.combatants@ == combatants@,
            r.turn == 0,
            r.round == 0,
    {
        Tracker { combatants, turn: 0, round: 0 }
    }

    /// Deals `amount` damage to participant `index`; a no-op when there is no
    /// such participant. Hit points stop at `i64::MIN`.
    pub fn apply_damage(&mut self, index: usize, amount: u32)
        ensures
            final(self).combatants@ == Self::damage_spec(
                old(self).combatants@,
                index as int,
                amount,
            ),
            final(self).turn == old(self).turn,
            final(self).round == old(self).round,
    {
        if index < self.combatants.len() {
            let hp = self.combatants[index].hit_points;
            let lowest = i64::MIN + amount as i64;
            let next = if hp < lowest {
                i64::MIN
            } else {
                hp - amount as i64
            };
            self.combatants[index].hit_points = next;
        }
    }

    /// Switches condition `condition` of participant `index`; a no-op when
    /// either does not exist.
    pub fn toggle_condition(&mut self, index: usize, condition: usize)
        ensures
            final(self).combatants@ == Self::toggle_spec(
                old(self).combatants@,
                index as int,
                condition as int,
            ),
            final(self).turn == old(self).turn,
            final(self).round == old(self).round,
    {
        if index < self.combatants.len() && condition < CONDITION_COUNT {
            let flag = self.combatants[index].conditions[condition];
            self.combatants[index].conditions[condition] = !flag;
        }
    }
}

impl Tracker {
    /// The participant whose turn it is, if any.
    pub fn current_combatant(&self) -> (r: Option<&Combatant>)
        ensures
            r is Some == self.has_current(),
            r is Some ==> *r.unwrap() == self.combatants@[self.turn as int],
    {
        if self.turn < self.combatants.len() {
            Some(&self.combatants[self.turn])
        } else {
            None
        }
    }

    /// The current participant spends a primary action, if it has one left.
    pub fn use_action(&mut self)
        ensures
            spent_action(*old(self), *final(self)),
    {
        if self.turn < self.combatants.len() {
            let turn = self.turn;
            let left = self.combatants[turn].actions.actions;
            if left > 0 {
                self.combatants[turn].actions.actions = left - 1;
            }
        }
    }

    /// The current participant spends a bonus action, if it has one left.
    pub fn use_bonus_action(&mut self)
        ensures
            spent_bonus_action(*old(self), *final(self)),
    {
        if self.turn < self.combatants.len() {
            let turn = self.turn;
            let left = self.combatants[turn].actions.bonus_actions;
            if left > 0 {
                self.combatants[turn].actions.bonus_actions = left - 1;
            }
        }
    }

    /// The current participant spends a reaction, if it has one left.
    pub fn use_reaction(&mut self)
        ensures
            spent_reaction(*old(self), *final(self)),
    {
        if self.turn < self.combatants.len() {
            let turn = self.turn;
            let left = self.combatants[turn].actions.reactions;
            if left > 0 {
                self.combatants[turn].actions.reactions = left - 1;
            }
        }
    }

    /// Where the turn passes to: the next participant, or the first one in a
    /// new round after the last.
    pub open spec fn next_turn_index(self) -> (int, int) {
        if self.turn + 1 < self.combatants@.len() {
            (self.turn + 1, self.round as int)
        } else if self.round < usize::MAX {
            (0, self.round + 1)
        } else {
            (0, self.round as int)
        }
    }

    /// Passes the turn on and gives the participant whose turn begins a fresh
    /// action economy. Does nothing on an empty roster.
    pub fn next_turn(&mut self)
        ensures
            turn_advanced(*old(self), *final(self)),
    {
        let len = self.combatants.len();
        if len == 0 {
            return;
        }
        if self.turn < len - 1 {
            self.turn = self.turn + 1;
        } else {
            self.turn = 0;
            if self.round < usize::MAX {
                self.round = self.round + 1;
            }
        }
        let turn = self.turn;
        self.combatants[turn].actions = Action { actions: 1, bonus_actions: 1, reactions: 1 };
    }
}

/// `after` is `before` once the current participant has spent a primary
/// action, if it had one left.
pub open spec fn spent_action(before: Tracker, after: Tracker) -> bool {
    let a = before.current_actions();
    &&& after.turn == before.turn
    &&& after.round == before.round
    &&& after.combatants@ == if before.has_current() && a.actions > 0 {
        before.with_current_actions(Action { actions: (a.actions - 1) as u32, ..a })
    } else {
        before.combatants@
    }
}

/// `after` is `before` once the current participant has spent a bonus
/// action, if it had one left.
pub open spec fn spent_bonus_action(before: Tracker, after: Tracker) -> bool {
    let a = before.current_actions();
    &&& after.turn == before.turn
    &&& after.round == before.round
    &&& after.combatants@ == if before.has_current() && a.bonus_actions > 0 {
        before.with_current_actions(Action { bonus_actions: (a.bonus_actions - 1) as u32, ..a })
    } else {
        before.combatants@
    }
}

/// `after` is `before` once the current participant has spent a reaction, if
/// it had one left.
pub open spec fn spent_reaction(before: Tracker, after: Tracker) -> bool {
    let a = before.current_actions();
    &&& after.turn == before.turn
    &&& after.round == before.round
    &&& after.combatants@ == if before.has_current() && a.reactions > 0 {
        before.with_current_actions(Action { reactions: (a.reactions - 1) as u32, ..a })
    } else {
        before.combatants@
    }
}

/// `after` is `before` with the turn passed on and the participant whose turn
/// begins given a fresh action economy; an empty roster stays as it is.
pub open spec fn turn_advanced(before: Tracker, after: Tracker) -> bool {
    if before.combatants@.len() == 0 {
        after == before
    } else {
        &&& after.turn == before.next_turn_index().0
        &&& after.round == before.next_turn_index().1
        &&& after.combatants@ == before.combatants@.update(
            after.turn as int,
            before.combatants@[after.turn as int].with_actions(fresh_actions()),
        )
    }
}

} // verus!
