//! Pages of the roster and the selections that live on them.
use vstd::prelude::*;
use vstd::arithmetic::div_mod::{
    lemma_fundamental_div_mod,
    lemma_fundamental_div_mod_converse_div,
    lemma_fundamental_div_mod_converse_mod,
    lemma_mod_division_less_than_divisor,
};
use crate::labels::{LabelSelection, lemma_alphabet_bijection, resolve_label};

verus! {

/// Number of pages that `roster_len` participants fill at `page_size` per page.
pub open spec fn page_count(roster_len: nat, page_size: nat) -> nat {
    if page_size == 0 {
        0
    } else if roster_len % page_size == 0 {
        roster_len / page_size
    } else {
        roster_len / page_size + 1
    }
}

/// Number of participants on page `k`: a full page, or what is left at the end.
pub open spec fn chunk_len(roster_len: nat, page_size: nat, k: nat) -> nat {
    if roster_len >= k * page_size + page_size {
        page_size
    } else {
        (roster_len - k * page_size) as nat
    }
}

/// The global indices on page `k`: `k * page_size` and the ones after it.
pub open spec fn chunk(roster_len: nat, page_size: nat, k: nat) -> Seq<usize> {
    Seq::new(chunk_len(roster_len, page_size, k), |i: int| (k * page_size + i) as usize)
}

/// A page of the roster: a run of consecutive global indices and, once a
/// label on it has been toggled, the selection bitset of its slots.
#[derive(Clone, Debug)]
pub struct Page {
    id: usize,
    combatants: Vec<usize>,
    label_selection: Option<LabelSelection>,
}

impl Page {
    /// The page's position among the pages.
    pub closed spec fn id_spec(&self) -> nat {
        self.id as nat
    }

    /// The global indices of the participants on the page, in order.
    pub closed spec fn members(&self) -> Seq<usize> {
        self.combatants@
    }

    /// Whether the page holds a selection bitset.
    pub closed spec fn has_selection(&self) -> bool {
        self.label_selection is Some
    }

    /// A page without a selection bitset has no slot chosen.
    pub proof fn lemma_unselected_unflagged(&self)
        ensures
            !self.has_selection() ==> forall|s: int| !#[trigger] self.flagged(s),
    {
    }

    /// Whether visual slot `slot` of the page is chosen.
    pub closed spec fn flagged(&self, slot: int) -> bool {
        match self.label_selection {
            Some(s) => 0 <= slot < 32 && s.flags()[slot],
            None => false,
        }
    }

    /// The flags of the page's bitset, or none at all.
    pub closed spec fn selection_flags(&self) -> Option<Seq<bool>> {
        match self.label_selection {
            Some(s) => Some(s.flags()),
            None => None,
        }
    }
}

/// `pages` is the partition of a roster of `roster_len` into pages of
/// `page_size`: page `k` has id `k` and holds `chunk(roster_len, page_size, k)`,
/// and no slot past a page's participants is chosen.
pub open spec fn pages_wf(pages: Seq<Page>, roster_len: nat, page_size: nat) -> bool {
    &&& pages.len() == page_count(roster_len, page_size)
    &&& forall|k: int|
        0 <= k < pages.len() ==> {
            &&& (#[trigger] pages[k]).id_spec() == k
            &&& pages[k].members() == chunk(roster_len, page_size, k as nat)
            &&& forall|s: int| pages[k].members().len() <= s ==> !#[trigger] pages[k].flagged(s)
        }
}

/// Whether global index `g` is chosen on the page that holds it.
pub open spec fn is_selected(pages: Seq<Page>, page_size: nat, g: nat) -> bool {
    pages[(g / page_size) as int].flagged((g % page_size) as int)
}

/// The chosen global indices below `m`, ascending.
pub open spec fn selected_upto(pages: Seq<Page>, page_size: nat, m: nat) -> Seq<usize>
    decreases m,
{
    if m == 0 {
        Seq::empty()
    } else {
        let rest = selected_upto(pages, page_size, (m - 1) as nat);
        if is_selected(pages, page_size, (m - 1) as nat) {
            rest.push((m - 1) as usize)
        } else {
            rest
        }
    }
}

/// Every chosen global index of a roster of `roster_len`, ascending.
pub open spec fn selected(pages: Seq<Page>, roster_len: nat, page_size: nat) -> Seq<usize> {
    if page_size == 0 {
        Seq::empty()
    } else {
        selected_upto(pages, page_size, roster_len)
    }
}

/// The members of all pages, page after page.
pub open spec fn members_concat(pages: Seq<Page>) -> Seq<usize>
    decreases pages.len(),
{
    if pages.len() == 0 {
        Seq::empty()
    } else {
        members_concat(pages.drop_last()) + pages.last().members()
    }
}

/// A page that starts before the end of the roster: `k * page_size` lies in it.
pub proof fn lemma_page_start(roster_len: nat, page_size: nat, k: nat)
    requires
        page_size > 0,
        k < page_count(roster_len, page_size),
    ensures
        k * page_size < roster_len,
        0 < chunk_len(roster_len, page_size, k) <= page_size,
        k + 1 < page_count(roster_len, page_size) ==> chunk_len(roster_len, page_size, k)
            == page_size,
        k + 1 == page_count(roster_len, page_size) ==> k * page_size + chunk_len(
            roster_len,
            page_size,
            k,
        ) == roster_len,
{
    let n = roster_len as int;
    let d = page_size as int;
    lemma_fundamental_div_mod(n, d);
    lemma_mod_division_less_than_divisor(n, d);
    let q = n / d;
    let r = n % d;
    assert(k * d <= q * d) by (nonlinear_arith)
        requires k <= q, d > 0,;
    if r == 0 {
        assert(k + 1 <= q);
        assert((k + 1) * d <= q * d) by (nonlinear_arith)
            requires k + 1 <= q, d > 0,;
        assert((k + 1) * d == k * d + d) by (nonlinear_arith);
        if k + 1 == q {
            assert(q * d == d * q) by (nonlinear_arith);
        } else {
            assert((k + 2) * d <= q * d) by (nonlinear_arith)
                requires k + 2 <= q, d > 0,;
            assert((k + 2) * d == k * d + 2 * d) by (nonlinear_arith);
        }
    } else {
        assert(k <= q);
        assert((k + 1) * d == k * d + d) by (nonlinear_arith);
        if k == q {
            assert(q * d == d * q) by (nonlinear_arith);
        } else {
            assert((k + 1) * d <= q * d) by (nonlinear_arith)
                requires k + 1 <= q, d > 0,;
            assert(q * d == d * q) by (nonlinear_arith);
        }
    }
}

/// Global index `g` of the roster lies on page `g / page_size`, at slot
/// `g % page_size`, and that slot is within the page's participants.
pub proof fn lemma_locate(roster_len: nat, page_size: nat, g: nat)
    requires
        page_size > 0,
        g < roster_len,
    ensures
        g / page_size < page_count(roster_len, page_size),
        g % page_size < chunk_len(roster_len, page_size, g / page_size),
        (g / page_size) * page_size + g % page_size == g,
{
    let n = roster_len as int;
    let d = page_size as int;
    let k = g as int / d;
    let s = g as int % d;
    lemma_fundamental_div_mod(g as int, d);
    lemma_mod_division_less_than_divisor(g as int, d);
    lemma_fundamental_div_mod(n, d);
    lemma_mod_division_less_than_divisor(n, d);
    assert(k * d == d * k) by (nonlinear_arith);
    assert(k >= 0) by (nonlinear_arith)
        requires g >= 0, d > 0, k == g as int / d,;
    // k <= n / d
    let q = n / d;
    if k > q {
        assert(k * d >= (q + 1) * d) by (nonlinear_arith)
            requires k >= q + 1, d > 0,;
        assert((q + 1) * d == q * d + d) by (nonlinear_arith);
        assert(q * d == d * q) by (nonlinear_arith);
        assert(false);
    }
    if k == q {
        assert(q * d == d * q) by (nonlinear_arith);
        assert(n % d != 0);
    }
    assert(k < page_count(roster_len, page_size));
    if n >= k * d + d {
    } else {
        assert(s < n - k * d);
    }
}

/// The number of pages fits in a `usize`, and an empty roster has none.
pub proof fn lemma_count_fits(roster_len: nat, page_size: nat)
    requires
        page_size > 0,
        roster_len <= usize::MAX,
    ensures
        page_count(roster_len, page_size) <= roster_len,
        roster_len == 0 ==> page_count(roster_len, page_size) == 0,
{
    let n = roster_len as int;
    let d = page_size as int;
    lemma_fundamental_div_mod(n, d);
    lemma_mod_division_less_than_divisor(n, d);
    let q = n / d;
    let r = n % d;
    assert(q >= 0) by (nonlinear_arith)
        requires n >= 0, d > 0, q == n / d,;
    if d == 1 {
        assert(r == 0);
        assert(q == n);
    } else {
        assert(d * q >= 2 * q) by (nonlinear_arith)
            requires d >= 2, q >= 0,;
        if r != 0 {
            assert(q + 1 <= n);
        }
    }
}

/// Where the first `m` pages end: `m * page_size`, or the roster's end.
pub open spec fn prefix_end(roster_len: nat, page_size: nat, m: nat) -> nat {
    if m < page_count(roster_len, page_size) {
        m * page_size
    } else {
        roster_len
    }
}

proof fn lemma_concat_prefix(pages: Seq<Page>, roster_len: nat, page_size: nat, m: nat)
    requires
        pages_wf(pages, roster_len, page_size),
        page_size > 0,
        m <= pages.len(),
    ensures
        members_concat(pages.take(m as int)) == Seq::new(
            prefix_end(roster_len, page_size, m),
            |i: int| i as usize,
        ),
    decreases m,
{
    if m == 0 {
        assert(members_concat(pages.take(0)) =~= Seq::new(0, |i: int| i as usize));
        if 0 >= page_count(roster_len, page_size) {
            lemma_count_zero(roster_len, page_size);
        }
    } else {
        let k = (m - 1) as nat;
        lemma_concat_prefix(pages, roster_len, page_size, k);
        lemma_page_start(roster_len, page_size, k);
        assert(pages.take(m as int).drop_last() =~= pages.take(k as int));
        assert(pages.take(m as int).last() == pages[k as int]);
        assert((k + 1) * page_size == k * page_size + page_size) by (nonlinear_arith);
        let end = prefix_end(roster_len, page_size, m);
        assert(end == k * page_size + chunk_len(roster_len, page_size, k));
        assert(members_concat(pages.take(m as int)) =~= Seq::new(end, |i: int| i as usize));
    }
}

/// A roster with no pages at a positive page size is empty.
proof fn lemma_count_zero(roster_len: nat, page_size: nat)
    requires
        page_size > 0,
        page_count(roster_len, page_size) == 0,
    ensures
        roster_len == 0,
{
    lemma_fundamental_div_mod(roster_len as int, page_size as int);
    assert(page_size * 0 == 0);
}

/// The pages partition the roster: their members, page after page, are
/// `0, 1, ..., roster_len - 1`; no page is empty or holds more than
/// `page_size`, and only the last may hold fewer.
pub proof fn lemma_partition(pages: Seq<Page>, roster_len: nat, page_size: nat)
    requires
        pages_wf(pages, roster_len, page_size),
        page_size > 0,
    ensures
        members_concat(pages) == Seq::new(roster_len, |i: int| i as usize),
        forall|k: int|
            0 <= k < pages.len() ==> 0 < (#[trigger] pages[k]).members().len() <= page_size,
        forall|k: int|
            0 <= k < pages.len() - 1 ==> (#[trigger] pages[k]).members().len() == page_size,
{
    lemma_concat_prefix(pages, roster_len, page_size, pages.len());
    assert(pages.take(pages.len() as int) =~= pages);
    assert forall|k: int| 0 <= k < pages.len() implies 0 < (#[trigger] pages[k]).members().len()
        <= page_size && (k < pages.len() - 1 ==> pages[k].members().len() == page_size) by {
        lemma_page_start(roster_len, page_size, k as nat);
    }
}

/// Slot `s` of page `k` holds global index `k * page_size + s`.
pub proof fn lemma_slot_index(page_size: nat, k: nat, s: nat)
    requires
        s < page_size,
    ensures
        (k * page_size + s) / page_size == k,
        (k * page_size + s) % page_size == s,
{
    lemma_fundamental_div_mod_converse_div(
        (k * page_size + s) as int,
        page_size as int,
        k as int,
        s as int,
    );
    lemma_fundamental_div_mod_converse_mod(
        (k * page_size + s) as int,
        page_size as int,
        k as int,
        s as int,
    );
}

impl Page {
    /// The page's position among the pages.
    pub fn get_id(&self) -> (r: usize)
        ensures
            r == self.id_spec(),
    {
        self.id
    }

    /// The global indices of the participants on the page.
    pub fn get_combatants(&self) -> (r: &Vec<usize>)
        ensures
            r@ == self.members(),
    {
        &self.combatants
    }

    /// The page's selection bitset, if a label on it was ever toggled.
    pub fn get_selection(&self) -> (r: Option<&LabelSelection>)
        ensures
            r is Some == self.has_selection(),
            r is Some ==> r.unwrap().flags() == self.selection_flags().unwrap(),
    {
        self.label_selection.as_ref()
    }

    /// Toggles the slot that `label` resolves to among the page's
    /// participants, creating the bitset first if the page has none.
    pub fn toggle_selection(&mut self, label: char)
        ensures
            final(self).id_spec() == old(self).id_spec(),
            final(self).members() == old(self).members(),
            final(self).has_selection(),
            forall|s: int|
                #[trigger] final(self).flagged(s) == if resolve_label(
                    label,
                    old(self).members().len(),
                ) is Some && resolve_label(label, old(self).members().len()).unwrap() == s {
                    !old(self).flagged(s)
                } else {
                    old(self).flagged(s)
                },
    {
        let count = self.combatants.len();
        let mut select = match self.label_selection {
            Some(s) => s,
            None => LabelSelection::new(),
        };
        proof {
            select.lemma_flags_len();
        }
        proof {
            lemma_alphabet_bijection();
        }
        select.select(label, count);
        self.label_selection = Some(select);
    }

    /// Toggles slot `index`, creating the bitset first if the page has none.
    pub fn toggle_index(&mut self, index: usize)
        requires
            index < 32,
        ensures
            final(self).id_spec() == old(self).id_spec(),
            final(self).members() == old(self).members(),
            final(self).has_selection(),
            forall|s: int|
                #[trigger] final(self).flagged(s) == if s == index {
                    !old(self).flagged(s)
                } else {
                    old(self).flagged(s)
                },
    {
        let mut select = match self.label_selection {
            Some(s) => s,
            None => LabelSelection::new(),
        };
        proof {
            select.lemma_flags_len();
        }
        select.toggle_slot(index);
        self.label_selection = Some(select);
    }

    /// Removes the page's selection bitset and hands it back.
    pub fn take_selection(&mut self) -> (r: Option<LabelSelection>)
        ensures
            final(self).id_spec() == old(self).id_spec(),
            final(self).members() == old(self).members(),
            !final(self).has_selection(),
            forall|s: int| !#[trigger] final(self).flagged(s),
            r is Some == old(self).has_selection(),
            r is Some ==> r.unwrap().flags() == old(self).selection_flags().unwrap(),
            forall|s: int|
                0 <= s < 32 ==> (#[trigger] old(self).flagged(s) <==> (r is Some
                    && r.unwrap().flags()[s])),
    {
        self.label_selection.take()
    }

    /// A page with id `k` that holds `chunk(roster_len, page_size, k)` and no
    /// selection.
    fn fresh(roster_len: usize, page_size: usize, k: usize) -> (r: Page)
        requires
            page_size > 0,
            k < page_count(roster_len as nat, page_size as nat),
        ensures
            r.id_spec() == k,
            r.members() == chunk(roster_len as nat, page_size as nat, k as nat),
            !r.has_selection(),
            forall|s: int| !#[trigger] r.flagged(s),
    {
        proof {
            lemma_page_start(roster_len as nat, page_size as nat, k as nat);
        }
        let offset = k * page_size;
        let space = if roster_len - offset < page_size {
            roster_len - offset
        } else {
            page_size
        };
        let mut combatants: Vec<usize> = Vec::with_capacity(space);
        let mut i: usize = 0;
        while i < space
            invariant
                i <= space,
                offset + space <= roster_len,
                combatants@ == Seq::new(i as nat, |j: int| (offset + j) as usize),
            decreases space - i,
        {
            combatants.push(offset + i);
            i += 1;
        }
        assert(combatants@ =~= chunk(roster_len as nat, page_size as nat, k as nat));
        Page { id: k, combatants, label_selection: None }
    }

    /// Partitions a roster of `roster_len` participants into pages of
    /// `page_size`, none of them with a selection. A `page_size` of zero gives
    /// no pages, as does an empty roster.
    pub fn from_combatants(roster_len: usize, page_size: usize) -> (r: Vec<Page>)
        ensures
            pages_wf(r@, roster_len as nat, page_size as nat),
            page_size == 0 ==> r@.len() == 0,
            roster_len == 0 ==> r@.len() == 0,
            forall|k: int| 0 <= k < r@.len() ==> !(#[trigger] r@[k]).has_selection(),
            forall|k: int, s: int| 0 <= k < r@.len() ==> !(#[trigger] r@[k].flagged(s)),
    {
        let mut pages: Vec<Page> = Vec::new();
        if page_size == 0 {
            return pages;
        }
        proof {
            lemma_count_fits(roster_len as nat, page_size as nat);
        }
        let count = roster_len / page_size + if roster_len % page_size == 0 {
            0
        } else {
            1
        };
        assert(count == page_count(roster_len as nat, page_size as nat));
        let mut k: usize = 0;
        while k < count
            invariant
                page_size > 0,
                k <= count,
                count == page_count(roster_len as nat, page_size as nat),
                pages@.len() == k,
                forall|j: int|
                    0 <= j < k ==> {
                        &&& (#[trigger] pages@[j]).id_spec() == j
                        &&& pages@[j].members() == chunk(roster_len as nat, page_size as nat, j as nat)
                        &&& !pages@[j].has_selection()
                        &&& forall|s: int| !#[trigger] pages@[j].flagged(s)
                    },
            decreases count - k,
        {
            let page = Page::fresh(roster_len, page_size, k);
            pages.push(page);
            k += 1;
        }
        pages
    }

    /// Whether slot `slot` of the page is chosen.
    pub fn is_flagged(&self, slot: usize) -> (r: bool)
        ensures
            r == self.flagged(slot as int),
    {
        match &self.label_selection {
            Some(sel) => slot < 32 && sel.label_is_active(slot),
            None => false,
        }
    }

    /// Partitions a roster of `roster_len` participants into pages of
    /// `page_size`, as `from_combatants` does, and chooses on them exactly the
    /// global indices of `selections` that lie within the roster; any others
    /// are dropped.
    pub fn from_combatants_and_selection(
        roster_len: usize,
        selections: Vec<usize>,
        page_size: usize,
    ) -> (r: Vec<Page>)
        requires
            page_size <= 32,
        ensures
            pages_wf(r@, roster_len as nat, page_size as nat),
            page_size == 0 ==> r@.len() == 0,
            page_size > 0 ==> forall|g: nat|
                g < roster_len ==> (#[trigger] is_selected(r@, page_size as nat, g) <==> selections@.contains(
                    g as usize,
                )),
    {
        let mut pages = Page::from_combatants(roster_len, page_size);
        if page_size == 0 {
            return pages;
        }
        let ghost n = roster_len as nat;
        let ghost ps = page_size as nat;
        assert forall|g: nat| g < roster_len implies !is_selected(pages@, ps, g) by {
            lemma_locate(n, ps, g);
        }
        let mut i: usize = 0;
        while i < selections.len()
            invariant
                n == roster_len,
                ps == page_size,
                page_size > 0,
                page_size <= 32,
                i <= selections.len(),
                pages_wf(pages@, n, ps),
                forall|g: nat|
                    g < roster_len ==> (is_selected(pages@, ps, g) <==> #[trigger] selections@.take(
                        i as int,
                    ).contains(g as usize)),
            decreases selections.len() - i,
        {
            let t = selections[i];
            let ghost before = pages@;
            if t < roster_len {
                proof {
                    lemma_locate(roster_len as nat, page_size as nat, t as nat);
                }
                let k = t / page_size;
                let s = t % page_size;
                if !pages[k].is_flagged(s) {
                    pages[k].toggle_index(s);
                }
                assert forall|g: nat| g < roster_len implies (is_selected(pages@, ps, g) <==> (
                is_selected(before, ps, g) || g == t)) by {
                    lemma_locate(n, ps, g);
                }
            }
            assert(pages_wf(pages@, n, ps));
            let ghost prev = selections@.take(i as int);
            assert(selections@.take(i + 1) =~= prev.push(t));
            assert forall|g: nat| g < roster_len implies (#[trigger] selections@.take(i + 1).contains(
                g as usize,
            ) <==> (prev.contains(g as usize) || g == t)) by {
                let next = prev.push(t);
                if g == t {
                    assert(next[prev.len() as int] == t);
                }
                if prev.contains(g as usize) {
                    let j = choose|j: int| 0 <= j < prev.len() && prev[j] == g as usize;
                    assert(next[j] == g as usize);
                }
                if next.contains(g as usize) && g != t {
                    let j = choose|j: int| 0 <= j < next.len() && next[j] == g as usize;
                    assert(j < prev.len());
                    assert(prev[j] == g as usize);
                }
            }
            i += 1;
        }
        assert(selections@.take(selections@.len() as int) =~= selections@);
        pages
    }
}

/// The page size and the page on screen.
#[derive(Copy, Clone, Debug, PartialEq, Eq)]
pub struct PageConfig {
    /// How many participants a page holds.
    pub page_size: usize,
    /// The index of the page on screen.
    pub current_page: usize,
}



/// How many participants fit on a page of a tracker `height` rows tall: six
/// rows go to borders and headers, and a page holds at most 32.
pub open spec fn visible_rows(height: nat) -> nat {
    if height <= 6 {
        0
    } else if height - 6 > 32 {
        32
    } else {
        (height - 6) as nat
    }
}

/// The page index `current` brought within `page_count` pages: the last page
/// when it lies past the end, and 0 when there are none.
pub open spec fn clamp_page(current: nat, page_count: nat) -> nat {
    if current < page_count {
        current
    } else if page_count == 0 {
        0
    } else {
        (page_count - 1) as nat
    }
}

/// `config` and `pages` agree for a roster of `roster_len`: the pages are its
/// partition at the configured size, which fits a selection bitset, and the
/// current page is one of them (or 0 when there are none).
pub open spec fn config_wf(config: PageConfig, pages: Seq<Page>, roster_len: nat) -> bool {
    &&& config.page_size <= 32
    &&& pages_wf(pages, roster_len, config.page_size as nat)
    &&& config.current_page == clamp_page(config.current_page as nat, pages.len())
}

/// Returns the maximum number of participants that a tracker `height` rows
/// tall can show.
pub fn max_combatants_visible(height: u16) -> (r: usize)
    ensures
        r == visible_rows(height as nat),
{
    let rows = (height as usize).saturating_sub(6);
    if rows > 32 {
        32
    } else {
        rows
    }
}

/// `selected_upto` holds exactly the chosen indices below `m`.
pub proof fn lemma_selected_contains(pages: Seq<Page>, page_size: nat, m: nat, g: nat)
    requires
        m <= usize::MAX,
        g <= usize::MAX,
    ensures
        selected_upto(pages, page_size, m).contains(g as usize) <==> (g < m && is_selected(
            pages,
            page_size,
            g,
        )),
        forall|j: int|
            0 <= j < selected_upto(pages, page_size, m).len() ==> #[trigger] selected_upto(
                pages,
                page_size,
                m,
            )[j] < m,
    decreases m,
{
    if m > 0 {
        let prev = (m - 1) as nat;
        lemma_selected_contains(pages, page_size, prev, g);
        let rest = selected_upto(pages, page_size, prev);
        if is_selected(pages, page_size, prev) {
            let all = rest.push(prev as usize);
            assert(all[rest.len() as int] == prev as usize);
            if rest.contains(g as usize) {
                let j = choose|j: int| 0 <= j < rest.len() && rest[j] == g as usize;
                assert(all[j] == g as usize);
            }
            if all.contains(g as usize) && g != prev {
                let j = choose|j: int| 0 <= j < all.len() && all[j] == g as usize;
                assert(rest[j] == g as usize);
            }
        }
    }
}

/// Two page sets that choose the same indices below `m` list the same
/// chosen indices below `m`.
pub proof fn lemma_selected_ext(a: Seq<Page>, a_size: nat, b: Seq<Page>, b_size: nat, m: nat)
    requires
        forall|g: nat| g < m ==> #[trigger] is_selected(a, a_size, g) == is_selected(b, b_size, g),
    ensures
        selected_upto(a, a_size, m) == selected_upto(b, b_size, m),
    decreases m,
{
    if m > 0 {
        lemma_selected_ext(a, a_size, b, b_size, (m - 1) as nat);
        assert(is_selected(a, a_size, (m - 1) as nat) == is_selected(b, b_size, (m - 1) as nat));
    }
}

/// Repagination keeps the selection: when new pages of a roster choose
/// exactly the global indices that old pages of it chose, walking the new
/// pages yields the same ascending list of chosen indices as walking the old.
pub proof fn lemma_repagination_keeps_selection(
    old_pages: Seq<Page>,
    old_size: nat,
    new_pages: Seq<Page>,
    new_size: nat,
    roster_len: nat,
)
    requires
        roster_len <= usize::MAX,
        new_size > 0,
        forall|g: nat|
            g < roster_len ==> (#[trigger] is_selected(new_pages, new_size, g) <==> selected(
                old_pages,
                roster_len,
                old_size,
            ).contains(g as usize)),
    ensures
        selected(new_pages, roster_len, new_size) == selected(old_pages, roster_len, old_size),
{
    let n = roster_len;
    if old_size > 0 {
        assert forall|g: nat| g < n implies #[trigger] is_selected(new_pages, new_size, g)
            == is_selected(old_pages, old_size, g) by {
            lemma_selected_contains(old_pages, old_size, n, g);
            assert(selected(old_pages, n, old_size).contains(g as usize) == selected_upto(
                old_pages,
                old_size,
                n,
            ).contains(g as usize));
        }
        lemma_selected_ext(new_pages, new_size, old_pages, old_size, n);
    } else {
        let none = selected_upto(new_pages, new_size, n);
        if none.len() > 0 {
            lemma_selected_contains(new_pages, new_size, n, none[0] as nat);
            assert(none.contains(none[0]));
            assert(!selected(old_pages, n, old_size).contains(none[0]));
            assert(false);
        }
        assert(none =~= Seq::<usize>::empty());
    }
}

impl PageConfig {
    /// The configuration for a tracker `height` rows tall, on the first page.
    pub fn new(height: u16) -> (r: Self)
        ensures
            r.page_size == visible_rows(height as nat),
            r.current_page == 0,
    {
        PageConfig { page_size: max_combatants_visible(height), current_page: 0 }
    }

    /// Removes the selection bitset of every page and hands back the chosen
    /// global indices, ascending.
    pub fn take_page_selections(&self, pages: &mut Vec<Page>, roster_len: usize) -> (r: Vec<usize>)
        requires
            pages_wf(old(pages)@, roster_len as nat, self.page_size as nat),
        ensures
            r@ == selected(old(pages)@, roster_len as nat, self.page_size as nat),
            pages_wf(final(pages)@, roster_len as nat, self.page_size as nat),
            final(pages)@.len() == old(pages)@.len(),
            forall|k: int|
                0 <= k < final(pages)@.len() ==> !(#[trigger] final(pages)@[k]).has_selection(),
            forall|k: int, s: int|
                0 <= k < final(pages)@.len() ==> !(#[trigger] final(pages)@[k].flagged(s)),
    {
        let ghost old_pages = pages@;
        let ghost n = roster_len as nat;
        let mut result: Vec<usize> = Vec::new();
        let page_size = self.page_size;
        if page_size == 0 {
            return result;
        }
        let ghost ps = page_size as nat;
        let mut k: usize = 0;
        let mut iter: usize = 0;
        proof {
            if 0 >= page_count(n, ps) {
                lemma_count_zero(n, ps);
            }
        }
        while k < pages.len()
            invariant
                page_size > 0,
                ps == page_size,
                n == roster_len,
                pages_wf(old_pages, n, ps),
                pages@.len() == old_pages.len(),
                k <= pages@.len(),
                iter == prefix_end(n, ps, k as nat),
                result@ == selected_upto(old_pages, ps, iter as nat),
                forall|j: int|
                    0 <= j < k ==> {
                        &&& (#[trigger] pages@[j]).id_spec() == old_pages[j].id_spec()
                        &&& pages@[j].members() == old_pages[j].members()
                        &&& !pages@[j].has_selection()
                        &&& forall|s: int| !#[trigger] pages@[j].flagged(s)
                    },
                forall|j: int| k <= j < pages@.len() ==> #[trigger] pages@[j] == old_pages[j],
            decreases pages@.len() - k,
        {
            proof {
                lemma_page_start(n, ps, k as nat);
            }
            let sel = pages[k].take_selection();
            let len = pages[k].combatants.len();
            let mut s: usize = 0;
            while s < len
                invariant
                    page_size > 0,
                    ps == page_size,
                    n == roster_len,
                    k < old_pages.len(),
                    pages_wf(old_pages, n, ps),
                    len == chunk_len(n, ps, k as nat),
                    len <= ps,
                    k * ps + len <= n,
                    k + 1 < page_count(n, ps) ==> len == ps,
                    k + 1 == page_count(n, ps) ==> k * ps + len == n,
                    s <= len,
                    iter == k * ps + s,
                    iter <= n,
                    result@ == selected_upto(old_pages, ps, iter as nat),
                    forall|t: int|
                        0 <= t < 32 ==> (#[trigger] old_pages[k as int].flagged(t) <==> (sel is Some
                            && sel.unwrap().flags()[t])),
                decreases len - s,
            {
                proof {
                    lemma_slot_index(ps, k as nat, s as nat);
                }
                if let Some(bits) = &sel {
                    if s < 32 && bits.label_is_active(s) {
                        result.push(iter);
                    }
                }
                iter += 1;
                s += 1;
            }
            assert((k + 1) * ps == k * ps + ps) by (nonlinear_arith);
            k += 1;
        }
        proof {
            if pages@.len() == 0 {
                if 0 >= page_count(n, ps) {
                    lemma_count_zero(n, ps);
                }
            }
        }
        result
    }

    /// Recomputes the page size for a tracker `height` rows tall. When it
    /// changed, rebuilds the pages at the new size with the same global
    /// indices chosen, and brings the current page within the new pages.
    pub fn update(&mut self, pages: &mut Vec<Page>, height: u16, roster_len: usize)
        requires
            config_wf(*old(self), old(pages)@, roster_len as nat),
        ensures
            config_wf(*final(self), final(pages)@, roster_len as nat),
            final(self).page_size == visible_rows(height as nat),
            old(self).page_size == final(self).page_size ==> *final(self) == *old(self)
                && final(pages)@ == old(pages)@,
            old(self).page_size != final(self).page_size ==> final(self).current_page
                == clamp_page(old(self).current_page as nat, final(pages)@.len()),
            final(self).page_size > 0 ==> selected(
                final(pages)@,
                roster_len as nat,
                final(self).page_size as nat,
            ) == selected(old(pages)@, roster_len as nat, old(self).page_size as nat),
    {
        let updated_page_size = max_combatants_visible(height);
        if self.page_size != updated_page_size {
            let ghost old_pages = pages@;
            let ghost old_size = self.page_size as nat;
            let ghost n = roster_len as nat;
            let selections = self.take_page_selections(pages, roster_len);
            self.page_size = updated_page_size;
            *pages = Page::from_combatants_and_selection(roster_len, selections, updated_page_size);
            if self.current_page >= pages.len() {
                if pages.len() == 0 {
                    self.current_page = 0;
                } else {
                    self.current_page = pages.len() - 1;
                }
            }
            proof {
                if updated_page_size > 0 {
                    lemma_repagination_keeps_selection(
                        old_pages,
                        old_size,
                        pages@,
                        updated_page_size as nat,
                        n,
                    );
                }
            }
        }
    }
}

} // verus!
