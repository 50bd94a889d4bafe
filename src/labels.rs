//! The label alphabet and the per-page selection bitset.
use vstd::prelude::*;

verus! {

/// The character shown beside visual slot `i` (for `i < 32`).
///
/// The order follows the columns of a QWERTY keyboard, so that neighbouring
/// slots have physically close keys.
pub open spec fn label_char(i: int) -> char {
    if i == 0 { 'q' }
    else if i == 1 { 'a' }
    else if i == 2 { 'z' }
    else if i == 3 { 'w' }
    else if i == 4 { 's' }
    else if i == 5 { 'x' }
    else if i == 6 { 'e' }
    else if i == 7 { 'd' }
    else if i == 8 { 'c' }
    else if i == 9 { 'r' }
    else if i == 10 { 'f' }
    else if i == 11 { 'v' }
    else if i == 12 { 't' }
    else if i == 13 { 'g' }
    else if i == 14 { 'b' }
    else if i == 15 { 'y' }
    else if i == 16 { 'h' }
    else if i == 17 { 'n' }
    else if i == 18 { 'u' }
    else if i == 19 { 'j' }
    else if i == 20 { 'm' }
    else if i == 21 { 'i' }
    else if i == 22 { 'k' }
    else if i == 23 { ',' }
    else if i == 24 { 'l' }
    else if i == 25 { '.' }
    else if i == 26 { 'p' }
    else if i == 27 { ';' }
    else if i == 28 { '/' }
    else if i == 29 { '[' }
    else if i == 30 { '\'' }
    else { ']' }
}

/// The slot whose label is `c`, or `None` when `c` is not in the alphabet.
pub open spec fn label_slot(c: char) -> Option<nat> {
    if c == 'q' { Some(0) }
    else if c == 'a' { Some(1) }
    else if c == 'z' { Some(2) }
    else if c == 'w' { Some(3) }
    else if c == 's' { Some(4) }
    else if c == 'x' { Some(5) }
    else if c == 'e' { Some(6) }
    else if c == 'd' { Some(7) }
    else if c == 'c' { Some(8) }
    else if c == 'r' { Some(9) }
    else if c == 'f' { Some(10) }
    else if c == 'v' { Some(11) }
    else if c == 't' { Some(12) }
    else if c == 'g' { Some(13) }
    else if c == 'b' { Some(14) }
    else if c == 'y' { Some(15) }
    else if c == 'h' { Some(16) }
    else if c == 'n' { Some(17) }
    else if c == 'u' { Some(18) }
    else if c == 'j' { Some(19) }
    else if c == 'm' { Some(20) }
    else if c == 'i' { Some(21) }
    else if c == 'k' { Some(22) }
    else if c == ',' { Some(23) }
    else if c == 'l' { Some(24) }
    else if c == '.' { Some(25) }
    else if c == 'p' { Some(26) }
    else if c == ';' { Some(27) }
    else if c == '/' { Some(28) }
    else if c == '[' { Some(29) }
    else if c == '\'' { Some(30) }
    else if c == ']' { Some(31) }
    else { None }
}

/// The slot that `c` resolves to while `visible` labels are on screen.
pub open spec fn resolve_label(c: char, visible: nat) -> Option<nat> {
    match label_slot(c) {
        Some(i) => if i < visible { Some(i) } else { None },
        None => None,
    }
}

/// The label of slot `i` while `visible` labels are on screen.
pub open spec fn visible_label(i: nat, visible: nat) -> Option<char> {
    if i < 32 && i < visible { Some(label_char(i as int)) } else { None }
}

/// The alphabet is a bijection between the slots `0..32` and its characters:
/// each slot's label resolves back to that slot, and each character that
/// resolves does so to the slot whose label it is.
pub proof fn lemma_alphabet_bijection()
    ensures
        forall|i: int| 0 <= i < 32 ==> #[trigger] label_slot(label_char(i)) == Some(i as nat),
        forall|c: char|
            #[trigger] label_slot(c) is Some ==> label_slot(c).unwrap() < 32 && label_char(
                label_slot(c).unwrap() as int,
            ) == c,
{
}

/// For every number of visible labels up to 32, the label of a visible slot
/// resolves back to that slot, and a slot at or past `visible` has no label.
pub proof fn lemma_label_round_trip(visible: nat, i: nat)
    requires
        visible <= 32,
    ensures
        i < visible ==> visible_label(i, visible) is Some && resolve_label(
            visible_label(i, visible).unwrap(),
            visible,
        ) == Some(i),
        i >= visible ==> visible_label(i, visible) is None,
{
    lemma_alphabet_bijection();
    if i < visible {
        assert(label_slot(label_char(i as int)) == Some(i));
    }
}

impl Default for LabelSelection {
    /// An empty selection.
    fn default() -> (r: Self)
        ensures
            forall|i: int| 0 <= i < 32 ==> !#[trigger] r.flags()[i],
    {
        LabelSelection::new()
    }
}

/// Which visual slots of one page are currently chosen.
#[derive(Copy, Clone, Debug)]
pub struct LabelSelection {
    selection: [bool; 32],
}

impl LabelSelection {
    /// The flags of the 32 slots, slot by slot.
    pub closed spec fn flags(&self) -> Seq<bool> {
        self.selection@
    }

    /// A selection always has one flag per slot.
    pub proof fn lemma_flags_len(&self)
        ensures
            self.flags().len() == 32,
    {
    }

    /// An empty selection: no slot is chosen.
    pub fn new() -> (r: Self)
        ensures
            r.flags().len() == 32,
            forall|i: int| 0 <= i < 32 ==> !#[trigger] r.flags()[i],
    {
        Self { selection: [false; 32] }
    }

    /// Whether slot `index` is chosen.
    pub fn label_is_active(&self, index: usize) -> (r: bool)
        requires
            index < 32,
        ensures
            r == self.flags()[index as int],
    {
        self.selection[index]
    }

    /// Toggles the slot that `label` resolves to while `label_count` labels
    /// are on screen; does nothing when it resolves to none.
    pub fn select(&mut self, label: char, label_count: usize)
        ensures
            final(self).flags() == match resolve_label(label, label_count as nat) {
                Some(i) => old(self).flags().update(i as int, !old(self).flags()[i as int]),
                None => old(self).flags(),
            },
    {
        if let Some(index) = Self::label_to_index(label, label_count) {
            self.toggle_slot(index);
        }
    }

    /// Flips the flag of slot `index`.
    pub fn toggle_slot(&mut self, index: usize)
        requires
            index < 32,
        ensures
            final(self).flags() == old(self).flags().update(index as int, !old(self).flags()[index as int]),
    {
        let flag = self.selection[index];
        self.selection[index] = !flag;
    }

    /// The slot that `label` names, if that slot is among the first
    /// `label_count` on screen.
    pub fn label_to_index(label: char, label_count: usize) -> (r: Option<usize>)
        ensures
            r == match resolve_label(label, label_count as nat) {
                Some(i) => Some(i as usize),
                None => None::<usize>,
            },
    {
        let index: usize = match label {
            'q' => 0,
            'a' => 1,
            'z' => 2,
            'w' => 3,
            's' => 4,
            'x' => 5,
            'e' => 6,
            'd' => 7,
            'c' => 8,
            'r' => 9,
            'f' => 10,
            'v' => 11,
            't' => 12,
            'g' => 13,
            'b' => 14,
            'y' => 15,
            'h' => 16,
            'n' => 17,
            'u' => 18,
            'j' => 19,
            'm' => 20,
            'i' => 21,
            'k' => 22,
            ',' => 23,
            'l' => 24,
            '.' => 25,
            'p' => 26,
            ';' => 27,
            '/' => 28,
            '[' => 29,
            '\'' => 30,
            ']' => 31,
            _ => {
                return None;
            },
        };
        if index < label_count {
            Some(index)
        } else {
            None
        }
    }

    /// The label of slot `index`, if that slot is among the first
    /// `label_count` on screen.
    pub fn index_to_label(index: usize, label_count: usize) -> (r: Option<char>)
        ensures
            r == visible_label(index as nat, label_count as nat),
    {
        let label: char = match index {
            0 => 'q',
            1 => 'a',
            2 => 'z',
            3 => 'w',
            4 => 's',
            5 => 'x',
            6 => 'e',
            7 => 'd',
            8 => 'c',
            9 => 'r',
            10 => 'f',
            11 => 'v',
            12 => 't',
            13 => 'g',
            14 => 'b',
            15 => 'y',
            16 => 'h',
            17 => 'n',
            18 => 'u',
            19 => 'j',
            20 => 'm',
            21 => 'i',
            22 => 'k',
            23 => ',',
            24 => 'l',
            25 => '.',
            26 => 'p',
            27 => ';',
            28 => '/',
            29 => '[',
            30 => '\'',
            31 => ']',
            _ => {
                return None;
            },
        };
        if index < label_count {
            Some(label)
        } else {
            None
        }
    }
}

} // verus!
