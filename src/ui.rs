//! The controller: routes each key to the active action, the selection
//! session, or the global commands.
use vstd::prelude::*;
use crate::labels::resolve_label;
use crate::page::{
    Page, PageConfig, clamp_page, config_wf, pages_wf, selected, visible_rows,
};
use crate::roster::{
    Tracker, spent_action, spent_bonus_action, spent_reaction, turn_advanced,
};
use crate::state::{ActionKind, ActionState, AfterKey, Key};

verus! {

/// The type of info shown in the info block.
#[derive(Copy, Clone, Debug, PartialEq, Eq, Structural)]
pub enum InfoBlockMode {
    /// The participant's combat state.
    CombatState,
    /// The participant's primary stats.
    Stats,
}

impl InfoBlockMode {
    /// The other mode.
    pub open spec fn toggled(self) -> InfoBlockMode {
        match self {
            InfoBlockMode::Stats => InfoBlockMode::CombatState,
            InfoBlockMode::CombatState => InfoBlockMode::Stats,
        }
    }

    /// Cycles the info block mode.
    pub fn toggle(&mut self)
        ensures
            *final(self) == old(self).toggled(),
    {
        *self = match *self {
            InfoBlockMode::Stats => InfoBlockMode::CombatState,
            InfoBlockMode::CombatState => InfoBlockMode::Stats,
        };
    }
}

/// Whether the controller goes on after a key.
#[derive(Copy, Clone, Debug, PartialEq, Eq, Structural)]
pub enum Flow {
    Continue,
    Quit,
}

/// The page before `current`, or `current` on the first page.
pub open spec fn page_back(current: usize) -> usize {
    if current > 0 {
        (current - 1) as usize
    } else {
        current
    }
}

/// The page after `current`, or `current` on the last of `count` pages.
pub open spec fn page_forward(current: usize, count: nat) -> usize {
    if current + 1 < count {
        (current + 1) as usize
    } else {
        current
    }
}

/// `after` is `before` with label `c` toggled on page `current`.
pub open spec fn label_toggled(before: Seq<Page>, after: Seq<Page>, current: int, c: char) -> bool {
    &&& after.len() == before.len()
    &&& forall|k: int| 0 <= k < before.len() && k != current ==> #[trigger] after[k] == before[k]
    &&& 0 <= current < before.len() ==> {
        &&& after[current].id_spec() == before[current].id_spec()
        &&& after[current].members() == before[current].members()
        &&& forall|s: int|
            #[trigger] after[current].flagged(s) == if resolve_label(
                c,
                before[current].members().len(),
            ) is Some && resolve_label(c, before[current].members().len()).unwrap() == s {
                !before[current].flagged(s)
            } else {
                before[current].flagged(s)
            }
    }
}

/// `after` is `before` with every selection bitset removed.
pub open spec fn selections_cleared(before: Seq<Page>, after: Seq<Page>) -> bool {
    &&& after.len() == before.len()
    &&& forall|k: int|
        0 <= k < after.len() ==> {
            &&& (#[trigger] after[k]).id_spec() == before[k].id_spec()
            &&& after[k].members() == before[k].members()
            &&& !after[k].has_selection()
            &&& forall|s: int| !#[trigger] after[k].flagged(s)
        }
}

/// The tracker's interactive layer: pages of the roster, the selection
/// session, and the action being applied.
pub struct Ui {
    tracker: Tracker,
    page_config: PageConfig,
    pages: Vec<Page>,
    info_block_mode: InfoBlockMode,
    action_mode: Option<ActionState>,
    label_mode: Option<ActionKind>,
}

/// `after` differs from `before` at most in its tracker and its action.
pub open spec fn layout_kept(before: Ui, after: Ui) -> bool {
    &&& after.config_spec() == before.config_spec()
    &&& after.pages_spec() == before.pages_spec()
    &&& after.session_spec() == before.session_spec()
    &&& after.info_spec() == before.info_spec()
}

/// `after` is `before` with the current page moved to `current`.
pub open spec fn moved_to(before: Ui, after: Ui, current: usize) -> bool {
    &&& after.tracker_spec() == before.tracker_spec()
    &&& after.config_spec() == PageConfig { current_page: current, ..before.config_spec() }
    &&& after.pages_spec() == before.pages_spec()
    &&& after.session_spec() == before.session_spec()
    &&& after.action_spec() == before.action_spec()
    &&& after.info_spec() == before.info_spec()
}

/// While an action is active, `key` goes to it alone. The pages, the page
/// configuration, the session and the info block stay as they are. The roster
/// changes only when enter ends the action, and then by one pass of the action
/// as that key left it over its captured targets.
pub open spec fn action_step(before: Ui, after: Ui, key: Key) -> bool {
    let handled = before.action_spec().unwrap().after_key(key);
    let exits = key == Key::Enter;
    &&& ActionState::key_effect(before.action_spec().unwrap(), handled, key)
    &&& layout_kept(before, after)
    &&& after.tracker_spec().turn == before.tracker_spec().turn
    &&& after.tracker_spec().round == before.tracker_spec().round
    &&& exits ==> after.action_spec() is None && after.tracker_spec().combatants@
        == handled.applied_to(before.tracker_spec().combatants@)
    &&& !exits ==> after.action_spec() == Some(handled) && after.tracker_spec()
        == before.tracker_spec()
}

/// During a selection session gathering targets for `kind`: enter ends it
/// and starts the action on every chosen global index, escape ends it and
/// starts the action on none, and both remove every bitset; up and down move
/// between pages; a character toggles its label on the current page; any
/// other key changes nothing.
pub open spec fn session_step(before: Ui, after: Ui, key: Key, kind: ActionKind) -> bool {
    let config = before.config_spec();
    let pages = before.pages_spec();
    &&& after.tracker_spec() == before.tracker_spec()
    &&& after.info_spec() == before.info_spec()
    &&& match key {
        Key::Enter | Key::Esc => {
            &&& after.session_spec() is None
            &&& after.config_spec() == config
            &&& selections_cleared(pages, after.pages_spec())
            &&& after.action_spec() is Some
            &&& after.action_spec().unwrap().is_fresh(
                kind,
                if key == Key::Enter {
                    selected(pages, before.roster_len(), config.page_size as nat)
                } else {
                    Seq::empty()
                },
            )
        },
        Key::Up => moved_to(before, after, page_back(config.current_page)),
        Key::Down => moved_to(before, after, page_forward(config.current_page, pages.len())),
        Key::Char(c) => {
            &&& after.config_spec() == config
            &&& after.session_spec() == before.session_spec()
            &&& after.action_spec() == before.action_spec()
            &&& label_toggled(pages, after.pages_spec(), config.current_page as int, c)
        },
        _ => after == before,
    }
}

/// `after` is `before` with a selection session for `kind` begun, or, with no
/// pages to choose from, with a `kind` action begun on no target.
pub open spec fn label_mode_entered(before: Ui, after: Ui, kind: ActionKind) -> bool {
    &&& after.tracker_spec() == before.tracker_spec()
    &&& layout_kept_but_session(before, after)
    &&& before.pages_spec().len() == 0 ==> after.session_spec() is None
        && after.action_spec() is Some && after.action_spec().unwrap().is_fresh(kind, Seq::empty())
    &&& before.pages_spec().len() > 0 ==> after.session_spec() == Some(kind)
        && after.action_spec() is None
}

/// `after` keeps the page configuration, the pages and the info block.
pub open spec fn layout_kept_but_session(before: Ui, after: Ui) -> bool {
    &&& after.config_spec() == before.config_spec()
    &&& after.pages_spec() == before.pages_spec()
    &&& after.info_spec() == before.info_spec()
}

/// `after` is `before` with only its tracker changed, by `changed`.
pub open spec fn tracker_step(before: Ui, after: Ui, changed: bool) -> bool {
    &&& layout_kept(before, after)
    &&& after.action_spec() == before.action_spec()
    &&& changed
}

/// With neither a session nor an action, `key` is a global command.
pub open spec fn global_step(before: Ui, after: Ui, key: Key, flow: Flow) -> bool {
    let config = before.config_spec();
    let t0 = before.tracker_spec();
    let t1 = after.tracker_spec();
    &&& flow == (if key == Key::Char('q') { Flow::Quit } else { Flow::Continue })
    &&& match key {
        Key::Up => moved_to(before, after, page_back(config.current_page)),
        Key::Down => moved_to(before, after, page_forward(config.current_page, before.pages_spec().len())),
        Key::Char('c') => label_mode_entered(before, after, ActionKind::Condition),
        Key::Char('d') => label_mode_entered(before, after, ActionKind::Damage),
        Key::Char('a') => tracker_step(before, after, spent_action(t0, t1)),
        Key::Char('b') => tracker_step(before, after, spent_bonus_action(t0, t1)),
        Key::Char('r') => tracker_step(before, after, spent_reaction(t0, t1)),
        Key::Char('n') => tracker_step(before, after, turn_advanced(t0, t1)),
        Key::Char('s') => {
            &&& t1 == t0
            &&& after.config_spec() == config
            &&& after.pages_spec() == before.pages_spec()
            &&& after.session_spec() == before.session_spec()
            &&& after.action_spec() == before.action_spec()
            &&& after.info_spec() == before.info_spec().toggled()
        },
        _ => after == before,
    }
}

impl Ui {
    /// The roster.
    pub closed spec fn tracker_spec(&self) -> Tracker {
        self.tracker
    }

    /// The page size and the page on screen.
    pub closed spec fn config_spec(&self) -> PageConfig {
        self.page_config
    }

    /// The pages of the roster.
    pub closed spec fn pages_spec(&self) -> Seq<Page> {
        self.pages@
    }

    /// What the info block shows.
    pub closed spec fn info_spec(&self) -> InfoBlockMode {
        self.info_block_mode
    }

    /// The action being applied, if any.
    pub closed spec fn action_spec(&self) -> Option<ActionState> {
        self.action_mode
    }

    /// The action a running selection session gathers targets for, if a
    /// session runs.
    pub closed spec fn session_spec(&self) -> Option<ActionKind> {
        self.label_mode
    }

    /// Number of participants on the roster.
    pub open spec fn roster_len(&self) -> nat {
        self.tracker_spec().combatants@.len()
    }

    /// The pages are the partition of the roster at the configured size, the
    /// current page is valid, and a session and an action never run at once.
    pub closed spec fn wf(&self) -> bool {
        &&& config_wf(self.page_config, self.pages@, self.tracker.combatants@.len())
        &&& self.action_mode is Some ==> self.action_mode.unwrap().wf()
        &&& !(self.action_mode is Some && self.label_mode is Some)
    }

    /// The layer over `tracker` for a terminal `height` rows tall, on the
    /// first page, with no session and no action.
    pub fn new(tracker: Tracker, height: u16) -> (r: Self)
        ensures
            r.wf(),
            r.tracker_spec() == tracker,
            r.config_spec().page_size == visible_rows(height as nat),
            r.config_spec().current_page == 0,
            pages_wf(r.pages_spec(), r.roster_len(), r.config_spec().page_size as nat),
            r.info_spec() == InfoBlockMode::CombatState,
            r.action_spec() is None,
            r.session_spec() is None,
            forall|k: int| 0 <= k < r.pages_spec().len() ==> !(#[trigger] r.pages_spec()[k]).has_selection(),
            forall|k: int, s: int|
                0 <= k < r.pages_spec().len() ==> !(#[trigger] r.pages_spec()[k].flagged(s)),
    {
        let page_config = PageConfig::new(height);
        let pages = Page::from_combatants(tracker.combatants.len(), page_config.page_size);
        Ui {
            tracker,
            page_config,
            pages,
            info_block_mode: InfoBlockMode::CombatState,
            action_mode: None,
            label_mode: None,
        }
    }

    /// The roster.
    pub fn tracker(&self) -> (r: &Tracker)
        ensures
            *r == self.tracker_spec(),
    {
        &self.tracker
    }

    /// The page size and the page on screen.
    pub fn page_config(&self) -> (r: PageConfig)
        ensures
            r == self.config_spec(),
    {
        self.page_config
    }

    /// The pages of the roster.
    pub fn pages(&self) -> (r: &Vec<Page>)
        ensures
            r@ == self.pages_spec(),
    {
        &self.pages
    }

    /// The page on screen, if there is any page.
    pub fn current_page(&self) -> (r: Option<&Page>)
        ensures
            r is Some == (self.config_spec().current_page < self.pages_spec().len()),
            r is Some ==> *r.unwrap() == self.pages_spec()[self.config_spec().current_page as int],
    {
        if self.page_config.current_page < self.pages.len() {
            Some(&self.pages[self.page_config.current_page])
        } else {
            None
        }
    }

    /// Whether labels are drawn: a selection session runs.
    pub fn labels_enabled(&self) -> (r: bool)
        ensures
            r == self.session_spec() is Some,
    {
        self.label_mode.is_some()
    }

    /// What the info block shows.
    pub fn info_block_mode(&self) -> (r: InfoBlockMode)
        ensures
            r == self.info_spec(),
    {
        self.info_block_mode
    }

    /// The action being applied, if any.
    pub fn action_mode(&self) -> (r: Option<&ActionState>)
        ensures
            r is Some == self.action_spec() is Some,
            r is Some ==> *r.unwrap() == self.action_spec().unwrap(),
    {
        self.action_mode.as_ref()
    }

    /// Recomputes the pages for a terminal `height` rows tall, keeping the
    /// chosen global indices; the session, the action and the roster stay.
    pub fn resize(&mut self, height: u16)
        requires
            old(self).wf(),
        ensures
            final(self).wf(),
            final(self).tracker_spec() == old(self).tracker_spec(),
            final(self).action_spec() == old(self).action_spec(),
            final(self).session_spec() == old(self).session_spec(),
            final(self).info_spec() == old(self).info_spec(),
            final(self).config_spec().page_size == visible_rows(height as nat),
            old(self).config_spec().page_size != final(self).config_spec().page_size
                ==> final(self).config_spec().current_page == clamp_page(
                old(self).config_spec().current_page as nat,
                final(self).pages_spec().len(),
            ),
            old(self).config_spec().page_size == final(self).config_spec().page_size
                ==> final(self).config_spec() == old(self).config_spec() && final(self).pages_spec()
                == old(self).pages_spec(),
            final(self).config_spec().page_size > 0 ==> selected(
                final(self).pages_spec(),
                final(self).roster_len(),
                final(self).config_spec().page_size as nat,
            ) == selected(
                old(self).pages_spec(),
                old(self).roster_len(),
                old(self).config_spec().page_size as nat,
            ),
    {
        let roster_len = self.tracker.combatants.len();
        self.page_config.update(&mut self.pages, height, roster_len);
    }

    /// Starts a selection session that gathers targets for a `kind` action.
    /// With no pages there is nothing to choose: the action starts at once,
    /// with no target.
    pub fn enter_label_mode(&mut self, kind: ActionKind)
        requires
            old(self).wf(),
            old(self).action_spec() is None,
            old(self).session_spec() is None,
        ensures
            final(self).wf(),
            final(self).tracker_spec() == old(self).tracker_spec(),
            final(self).config_spec() == old(self).config_spec(),
            final(self).pages_spec() == old(self).pages_spec(),
            final(self).info_spec() == old(self).info_spec(),
            old(self).pages_spec().len() == 0 ==> final(self).session_spec() is None
                && final(self).action_spec() is Some && final(self).action_spec().unwrap().is_fresh(
                kind,
                Seq::empty(),
            ),
            old(self).pages_spec().len() > 0 ==> final(self).session_spec() == Some(kind)
                && final(self).action_spec() is None,
    {
        if self.pages.len() == 0 {
            self.action_mode = Some(ActionState::start(kind, Vec::new()));
        } else {
            self.label_mode = Some(kind);
        }
    }
    /// Routes `key` to the active action.
    fn handle_action_key(&mut self, key: Key)
        requires
            old(self).wf(),
            old(self).action_spec() is Some,
        ensures
            final(self).wf(),
            action_step(*old(self), *final(self), key),
    {
        let mut state = self.action_mode.take().unwrap();
        match state.handle_key(key) {
            AfterKey::Exit => state.apply(&mut self.tracker),
            AfterKey::Stay => self.action_mode = Some(state),
        }
    }

    /// Routes `key` to the running selection session.
    fn handle_session_key(&mut self, key: Key, kind: ActionKind)
        requires
            old(self).wf(),
            old(self).action_spec() is None,
            old(self).session_spec() == Some(kind),
        ensures
            final(self).wf(),
            session_step(*old(self), *final(self), key, kind),
    {
        let roster_len = self.tracker.combatants.len();
        match key {
            Key::Enter => {
                let chosen = self.page_config.take_page_selections(&mut self.pages, roster_len);
                self.label_mode = None;
                self.action_mode = Some(ActionState::start(kind, chosen));
            },
            Key::Esc => {
                let _discarded = self.page_config.take_page_selections(&mut self.pages, roster_len);
                self.label_mode = None;
                self.action_mode = Some(ActionState::start(kind, Vec::new()));
            },
            Key::Up => {
                if self.page_config.current_page > 0 {
                    self.page_config.current_page = self.page_config.current_page - 1;
                }
            },
            Key::Down => {
                if self.pages.len() > 0 && self.page_config.current_page < self.pages.len() - 1 {
                    self.page_config.current_page = self.page_config.current_page + 1;
                }
            },
            Key::Char(label) => {
                let current = self.page_config.current_page;
                if current < self.pages.len() {
                    self.pages[current].toggle_selection(label);
                }
            },
            _ => {},
        }
    }

    /// Runs `key` as a global command.
    fn handle_global_key(&mut self, key: Key) -> (r: Flow)
        requires
            old(self).wf(),
            old(self).action_spec() is None,
            old(self).session_spec() is None,
        ensures
            final(self).wf(),
            global_step(*old(self), *final(self), key, r),
    {
        match key {
            Key::Up => {
                if self.page_config.current_page > 0 {
                    self.page_config.current_page = self.page_config.current_page - 1;
                }
            },
            Key::Down => {
                if self.pages.len() > 0 && self.page_config.current_page < self.pages.len() - 1 {
                    self.page_config.current_page = self.page_config.current_page + 1;
                }
            },
            Key::Char('c') => self.enter_label_mode(ActionKind::Condition),
            Key::Char('d') => self.enter_label_mode(ActionKind::Damage),
            Key::Char('a') => self.tracker.use_action(),
            Key::Char('b') => self.tracker.use_bonus_action(),
            Key::Char('r') => self.tracker.use_reaction(),
            Key::Char('s') => self.info_block_mode.toggle(),
            Key::Char('n') => self.tracker.next_turn(),
            Key::Char('q') => {
                return Flow::Quit;
            },
            _ => {},
        }
        Flow::Continue
    }

    /// Handles one key: an active action takes it alone; otherwise a running
    /// selection session does; otherwise it is a global command. Returns
    /// `Flow::Quit` only for the quit command.
    pub fn handle_key(&mut self, key: Key) -> (r: Flow)
        requires
            old(self).wf(),
        ensures
            final(self).wf(),
            old(self).action_spec() is Some ==> r == Flow::Continue && action_step(
                *old(self),
                *final(self),
                key,
            ),
            old(self).action_spec() is None && old(self).session_spec() is Some ==> r
                == Flow::Continue && session_step(
                *old(self),
                *final(self),
                key,
                old(self).session_spec().unwrap(),
            ),
            old(self).action_spec() is None && old(self).session_spec() is None ==> global_step(
                *old(self),
                *final(self),
                key,
                r,
            ),
    {
        if self.action_mode.is_some() {
            self.handle_action_key(key);
            return Flow::Continue;
        }
        match self.label_mode {
            Some(kind) => {
                self.handle_session_key(key, kind);
                Flow::Continue
            },
            None => self.handle_global_key(key),
        }
    }
}

} // verus!
