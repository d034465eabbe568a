//! The state of the item explorer: the filtered list, the open tabs and
//! the selection, and how keys and clicks move them.
use vstd::prelude::*;

use crate::fields::opt_view;
use crate::game_data::catalog::{ids_of, GameData};
use crate::game_data::filters::GameDataFilters;
use crate::game_data::items::{data_id, data_locale, spec_matches, DataType};
use crate::game_data::locale::shown_text;
use crate::kinds::{Grade, ItemType, Language, SelectionMove};
use crate::lists::{first_occurrences, lemma_first_occurrences};
use crate::outside::{id_members, id_set_get, id_set_index_of, id_set_insert, id_set_len, id_set_new, id_set_shift_remove};

verus! {

/// The ids of the items of `s` that pass the filters, in order.
pub open spec fn passing_ids(
    s: Seq<DataType>,
    input: Seq<char>,
    types: Seq<ItemType>,
    grades: Seq<Grade>,
    effect: Option<Seq<char>>,
) -> Seq<Seq<char>>
    decreases s.len(),
{
    if s.len() == 0 {
        Seq::empty()
    } else if spec_matches(s.last(), input, types, grades, effect) {
        passing_ids(s.drop_last(), input, types, grades, effect).push(data_id(s.last()))
    } else {
        passing_ids(s.drop_last(), input, types, grades, effect)
    }
}

/// Every passing id is the id of an item.
pub proof fn lemma_passing_ids(
    s: Seq<DataType>,
    input: Seq<char>,
    types: Seq<ItemType>,
    grades: Seq<Grade>,
    effect: Option<Seq<char>>,
)
    ensures
        forall|x: Seq<char>| #[trigger] passing_ids(s, input, types, grades, effect).contains(x) ==> ids_of(s).contains(x),
    decreases s.len(),
{
    if s.len() > 0 {
        let p = s.drop_last();
        lemma_passing_ids(p, input, types, grades, effect);
        assert forall|x: Seq<char>| #[trigger] passing_ids(s, input, types, grades, effect).contains(x) implies ids_of(
            s,
        ).contains(x) by {
            let q = passing_ids(p, input, types, grades, effect);
            if q.contains(x) {
                let k = choose|k: int| 0 <= k < ids_of(p).len() && ids_of(p)[k] == x;
                assert(ids_of(s)[k] == x);
            } else {
                assert(ids_of(s)[s.len() - 1] == x);
            }
        }
    }
}

/// In a list without repeats, the position of a member is the one it
/// stands at.
pub proof fn lemma_index_of_unique(s: Seq<Seq<char>>, x: Seq<char>, i: int)
    requires
        s.no_duplicates(),
        0 <= i < s.len(),
        s[i] == x,
    ensures
        s.index_of(x) == i,
{
    assert(s.contains(x));
    let j = s.index_of(x);
    assert(0 <= j < s.len() && s[j] == x);
}

/// Removing a member of a list without repeats leaves none.
pub proof fn lemma_remove_unique(s: Seq<Seq<char>>, i: int)
    requires
        s.no_duplicates(),
        0 <= i < s.len(),
    ensures
        s.remove(i).no_duplicates(),
{
    let r = s.remove(i);
    assert forall|a: int, b: int| 0 <= a < b < r.len() implies r[a] != r[b] by {
        let a2 = if a < i { a } else { a + 1 };
        let b2 = if b < i { b } else { b + 1 };
        assert(r[a] == s[a2]);
        assert(r[b] == s[b2]);
    }
}

/// The selection after asking to select `item`: nothing when `item` is
/// nothing; `item` when it is the id of an item of `ids`; else unchanged.
pub open spec fn selection_after(ids: Seq<Seq<char>>, current: Option<Seq<char>>, item: Option<Seq<char>>) -> Option<
    Seq<char>,
> {
    match item {
        None => None,
        Some(i) => if ids.contains(i) {
            Some(i)
        } else {
            current
        },
    }
}

/// The position a key moves the selection to, from position `ix`.
pub open spec fn moved(ix: int, m: SelectionMove) -> int {
    match m {
        SelectionMove::Up => if ix == 0 {
            0
        } else {
            ix - 1
        },
        SelectionMove::Down => if ix == usize::MAX {
            ix
        } else {
            ix + 1
        },
    }
}

/// The selection after a key moves it over the shown ids `ids`: the id one
/// place up or down from the selected one, when the selected id is shown and
/// that place exists; else unchanged.
pub open spec fn key_selection(ids: Seq<Seq<char>>, current: Option<Seq<char>>, action: SelectionMove) -> Option<
    Seq<char>,
> {
    match current {
        Some(s) => if ids.contains(s) {
            let ix = ids.index_of(s);
            let t = moved(ix, action);
            if t < ids.len() {
                Some(ids[t])
            } else {
                Some(s)
            }
        } else {
            Some(s)
        },
        None => None,
    }
}

/// The explorer.
pub struct GameDataView {
    game_data: GameData,
    pub filters: GameDataFilters,
    filtered: indexmap::IndexSet<String>,
    tabs: indexmap::IndexSet<String>,
    selected_item: Option<String>,
}

impl GameDataView {
    /// The items of the catalog.
    pub closed spec fn entries(&self) -> Seq<DataType> {
        self.game_data.entries()
    }

    /// The ids shown, in order.
    pub closed spec fn filtered_ids(&self) -> Seq<Seq<char>> {
        id_members(self.filtered)
    }

    /// The ids of the open tabs, in order.
    pub closed spec fn tab_ids(&self) -> Seq<Seq<char>> {
        id_members(self.tabs)
    }

    /// The selected id.
    pub closed spec fn selected(&self) -> Option<Seq<char>> {
        opt_view(self.selected_item)
    }

    /// The catalog is well formed, and every shown id is an item's.
    pub closed spec fn wf(&self) -> bool {
        &&& self.game_data.wf()
        &&& id_members(self.filtered).no_duplicates()
        &&& id_members(self.tabs).no_duplicates()
        &&& forall|x: Seq<char>| #[trigger] id_members(self.filtered).contains(x) ==> ids_of(self.game_data.entries()).contains(x)
    }

    /// The filters.
    pub closed spec fn filter_state(&self) -> GameDataFilters {
        self.filters
    }

    /// The ids the filters let through, each once, in the catalog's order.
    pub open spec fn spec_filtered(&self) -> Seq<Seq<char>> {
        first_occurrences(
            passing_ids(
                self.entries(),
                self.filter_state().input@,
                self.filter_state().item_type@,
                self.filter_state().grade@,
                opt_view(self.filter_state().effects),
            ),
        )
    }

    /// An empty explorer: no items, everything let through by the filters,
    /// no tab, no selection.
    pub fn new() -> (v: GameDataView)
        ensures
            v.wf(),
            v.entries() == Seq::<DataType>::empty(),
            v.filtered_ids() == Seq::<Seq<char>>::empty(),
            v.tab_ids() == Seq::<Seq<char>>::empty(),
            v.selected() is None,
            v.filter_state().input@ == Seq::<char>::empty(),
            v.filter_state().effects is None,
    {
        GameDataView {
            game_data: GameData::new(),
            filters: GameDataFilters::new(),
            filtered: id_set_new(),
            tabs: id_set_new(),
            selected_item: None,
        }
    }

    /// The catalog.
    pub fn game_data(&self) -> (g: &GameData)
        ensures
            g.entries() == self.entries(),
            self.wf() ==> g.wf(),
    {
        &self.game_data
    }

    /// Takes a newly loaded catalog and shows what the filters let through.
    pub fn set_game_data(&mut self, data: GameData)
        requires
            old(self).wf(),
            data.wf(),
        ensures
            final(self).wf(),
            final(self).entries() == data.entries(),
            final(self).filtered_ids() == final(self).spec_filtered(),
            final(self).tab_ids() == old(self).tab_ids(),
            final(self).selected() == old(self).selected(),
            final(self).filter_state() == old(self).filter_state(),
    {
        self.game_data = data;
        self.filtered = id_set_new();
        self.apply_filter_and_resort();
    }

    /// Shows, in the catalog's order, the items the filters let through.
    pub fn apply_filter_and_resort(&mut self)
        requires
            old(self).wf(),
        ensures
            final(self).wf(),
            final(self).entries() == old(self).entries(),
            final(self).filtered_ids() == final(self).spec_filtered(),
            final(self).tab_ids() == old(self).tab_ids(),
            final(self).selected() == old(self).selected(),
            final(self).filter_state() == old(self).filter_state(),
    {
        let mut shown = id_set_new();
        let n = self.game_data.len();
        let ghost s = self.game_data.entries();
        let ghost (inp, ty, gr, ef) = (
            self.filters.input@,
            self.filters.item_type@,
            self.filters.grade@,
            opt_view(self.filters.effects),
        );
        let mut i: usize = 0;
        while i < n
            invariant
                n == s.len(),
                i <= n,
                s == self.game_data.entries(),
                inp == self.filters.input@,
                ty == self.filters.item_type@,
                gr == self.filters.grade@,
                ef == opt_view(self.filters.effects),
                id_members(shown) == first_occurrences(passing_ids(s.take(i as int), inp, ty, gr, ef)),
            decreases n - i,
        {
            assert(s.take(i + 1).drop_last() =~= s.take(i as int));
            let item = self.game_data.get_index(i).unwrap();
            let ghost q = passing_ids(s.take(i as int), inp, ty, gr, ef);
            if self.filters.check_item(item) {
                let id = item.get_id();
                assert(passing_ids(s.take(i + 1), inp, ty, gr, ef) == q.push(id@));
                assert(q.push(id@).drop_last() =~= q);
                id_set_insert(&mut shown, id);
            }
            i = i + 1;
        }
        assert(s.take(i as int) =~= s);
        self.filtered = shown;
        proof {
            lemma_first_occurrences(passing_ids(s, inp, ty, gr, ef));
            lemma_passing_ids(s, inp, ty, gr, ef);
        }
    }

    /// Selects `item` when it is the id of an item; clears the selection
    /// when `item` is nothing.
    pub fn set_selected_item(&mut self, item: Option<String>)
        requires
            old(self).wf(),
        ensures
            final(self).wf(),
            final(self).entries() == old(self).entries(),
            final(self).filtered_ids() == old(self).filtered_ids(),
            final(self).tab_ids() == old(self).tab_ids(),
            final(self).filter_state() == old(self).filter_state(),
            final(self).selected() == selection_after(ids_of(old(self).entries()), old(self).selected(), opt_view(item)),
    {
        match item {
            None => {
                self.selected_item = None;
            },
            Some(id) => {
                match self.game_data.get(id.as_str()) {
                    Some(found) => {
                        let found_id = found.get_id();
                        proof {
                            let k = choose|k: int| 0 <= k < self.entries().len() && self.entries()[k] == *found;
                            assert(ids_of(self.entries())[k] == id@);
                        }
                        self.selected_item = Some(found_id);
                    },
                    None => {},
                }
            },
        }
    }

    /// Clears the selection.
    pub fn action_clear_selection(&mut self)
        requires
            old(self).wf(),
        ensures
            final(self).wf(),
            final(self).entries() == old(self).entries(),
            final(self).filtered_ids() == old(self).filtered_ids(),
            final(self).tab_ids() == old(self).tab_ids(),
            final(self).filter_state() == old(self).filter_state(),
            final(self).selected() is None,
    {
        self.set_selected_item(None);
    }

    /// The name of the selected item in `language`, to be copied, when the
    /// selected item is shown.
    pub fn action_copy_selection(&self, language: Language) -> (r: Option<String>)
        requires
            self.wf(),
        ensures
            match r {
                Some(name) => exists|d: DataType|
                    self.entries().contains(d) && self.selected() == Some(data_id(d)) && self.filtered_ids().contains(
                        data_id(d),
                    ) && name@ == match shown_text(data_locale(d), language) {
                        Some(t) => t,
                        None => data_id(d),
                    },
                None => match self.selected() {
                    Some(s) => !self.filtered_ids().contains(s),
                    None => true,
                },
            },
    {
        match &self.selected_item {
            Some(s) => {
                match id_set_index_of(&self.filtered, s.as_str()) {
                    Some(i) => {
                        assert(self.filtered_ids()[i as int] == s@);
                        assert(self.filtered_ids().contains(s@));
                        match self.game_data.get(s.as_str()) {
                            Some(d) => {
                                let name = d.get_locale_name(language);
                                assert(self.entries().contains(*d) && self.selected() == Some(data_id(*d)));
                                Some(name)
                            },
                            None => None,
                        }
                    },
                    None => None,
                }
            },
            None => None,
        }
    }

    /// Moves the selection one place up or down the shown list, when the
    /// selected item is shown and the place exists.
    pub fn action_key_selection(&mut self, action: SelectionMove)
        requires
            old(self).wf(),
        ensures
            final(self).wf(),
            final(self).entries() == old(self).entries(),
            final(self).filtered_ids() == old(self).filtered_ids(),
            final(self).tab_ids() == old(self).tab_ids(),
            final(self).filter_state() == old(self).filter_state(),
            final(self).selected() == key_selection(old(self).filtered_ids(), old(self).selected(), action),
    {
        let sel = match &self.selected_item {
            Some(s) => s.clone(),
            None => return,
        };
        let ix = match id_set_index_of(&self.filtered, sel.as_str()) {
            Some(i) => i,
            None => return,
        };
        proof {
            lemma_index_of_unique(self.filtered_ids(), sel@, ix as int);
        }
        let target = match action {
            SelectionMove::Up => ix.saturating_sub(1),
            SelectionMove::Down => ix.saturating_add(1),
        };
        match id_set_get(&self.filtered, target) {
            Some(next) => {
                assert(self.filtered_ids()[target as int] == next@);
                assert(self.filtered_ids().contains(next@));
                assert(ids_of(self.entries()).contains(next@));
                self.set_selected_item(Some(next));
            },
            None => {},
        }
    }

    /// Opens a tab for `id`, when none is open for it, and selects it.
    pub fn open_tab(&mut self, id: String)
        requires
            old(self).wf(),
        ensures
            final(self).wf(),
            final(self).entries() == old(self).entries(),
            final(self).filtered_ids() == old(self).filtered_ids(),
            final(self).filter_state() == old(self).filter_state(),
            final(self).tab_ids() == if old(self).tab_ids().contains(id@) {
                old(self).tab_ids()
            } else {
                old(self).tab_ids().push(id@)
            },
            final(self).selected() == selection_after(ids_of(old(self).entries()), old(self).selected(), Some(id@)),
    {
        let again = id.clone();
        id_set_insert(&mut self.tabs, id);
        self.set_selected_item(Some(again));
    }

    /// Closes the tab of `item`.  When it was the selected one, the tab that
    /// took its place, or else the last tab, is selected; when no tab is
    /// left, nothing is.
    pub fn close_tab(&mut self, item: &str)
        requires
            old(self).wf(),
        ensures
            final(self).wf(),
            final(self).entries() == old(self).entries(),
            final(self).filtered_ids() == old(self).filtered_ids(),
            final(self).filter_state() == old(self).filter_state(),
            !old(self).tab_ids().contains(item@) ==> final(self).tab_ids() == old(self).tab_ids() && final(self).selected()
                == old(self).selected(),
            old(self).tab_ids().contains(item@) ==> {
                let i = old(self).tab_ids().index_of(item@);
                let rest = old(self).tab_ids().remove(i);
                &&& final(self).tab_ids() == rest
                &&& final(self).selected() == if rest.len() == 0 {
                    None
                } else if old(self).selected() == Some(item@) {
                    let next = if i >= rest.len() {
                        rest.last()
                    } else {
                        rest[i]
                    };
                    selection_after(ids_of(old(self).entries()), old(self).selected(), Some(next))
                } else {
                    old(self).selected()
                }
            },
    {
        match id_set_shift_remove(&mut self.tabs, item) {
            Some(index) => {
                proof {
                    lemma_index_of_unique(old(self).tab_ids(), item@, index as int);
                    lemma_remove_unique(old(self).tab_ids(), index as int);
                }
                let len = id_set_len(&self.tabs);
                if len == 0 {
                    self.set_selected_item(None);
                } else {
                    let is_selected = match &self.selected_item {
                        Some(s) => crate::outside::str_eq(s.as_str(), item),
                        None => false,
                    };
                    if is_selected {
                        let next = if index >= len {
                            id_set_get(&self.tabs, len - 1)
                        } else {
                            id_set_get(&self.tabs, index)
                        };
                        self.set_selected_item(next);
                    }
                }
            },
            None => {},
        }
    }
}

} // verus!

verus! {

/// The values an item is previewed at: its quality, tempering, reverse
/// tempering, their total, transcendence, and the chosen random effects and
/// extra materials by slot.
#[derive(Debug)]
pub struct PreviewValues {
    pub quality: crate::kinds::Quality,
    pub total_tempering: u8,
    pub tempering: u8,
    pub reverse_tempering: u8,
    pub transcendence: u8,
    pub random_effects: std::collections::HashMap<u8, crate::effects::ItemMinMaxEffect>,
    pub materials: std::collections::HashMap<u8, bool>,
}

/// The smaller of `a` and `b`.
pub open spec fn min_int(a: int, b: int) -> int {
    if a <= b {
        a
    } else {
        b
    }
}

/// The transcendence after one more step: one up, capped at the item's
/// limit; unchanged when the item cannot transcend.
pub open spec fn transcend_up(t: u8, limit: Option<u8>) -> u8 {
    match limit {
        Some(l) => min_int(min_int(t + 1, 255), l as int) as u8,
        None => t,
    }
}

/// The tempering and total after one more step of tempering: both move up
/// when the item has both limits and the tempering is below its limit, the
/// total capped at the sum of the limits.
pub open spec fn temper_up(p: PreviewValues, temper_limit: Option<u8>, reverse_limit: Option<u8>) -> (u8, u8) {
    match (temper_limit, reverse_limit) {
        (Some(t), Some(r)) => if p.tempering < t {
            ((p.tempering + 1) as u8, min_int(min_int(p.total_tempering + 1, 255), t + r) as u8)
        } else {
            (p.tempering, p.total_tempering)
        },
        _ => (p.tempering, p.total_tempering),
    }
}

/// The reverse tempering and total after one more step of reverse
/// tempering, as for tempering.
pub open spec fn reverse_up(p: PreviewValues, temper_limit: Option<u8>, reverse_limit: Option<u8>) -> (u8, u8) {
    match (temper_limit, reverse_limit) {
        (Some(t), Some(r)) => if p.reverse_tempering < r {
            ((p.reverse_tempering + 1) as u8, min_int(min_int(p.total_tempering + 1, 255), t + r) as u8)
        } else {
            (p.reverse_tempering, p.total_tempering)
        },
        _ => (p.reverse_tempering, p.total_tempering),
    }
}

/// `v` one less, stopping at zero.
pub open spec fn down(v: u8) -> u8 {
    if v > 0 {
        (v - 1) as u8
    } else {
        0
    }
}

/// The tempering and total after one step of tempering less: both move
/// down when there is tempering to remove.
pub open spec fn temper_down(p: PreviewValues) -> (u8, u8) {
    if p.tempering > 0 {
        (down(p.tempering), down(p.total_tempering))
    } else {
        (p.tempering, p.total_tempering)
    }
}

/// The reverse tempering and total after one step of reverse tempering
/// less.
pub open spec fn reverse_down(p: PreviewValues) -> (u8, u8) {
    if p.reverse_tempering > 0 {
        (down(p.reverse_tempering), down(p.total_tempering))
    } else {
        (p.reverse_tempering, p.total_tempering)
    }
}

/// Whether the preview's tempering steps agree with each other and with the
/// item's limits: the total is the sum of both kinds, each within its
/// limit.
pub open spec fn tempering_consistent(p: PreviewValues, temper_limit: u8, reverse_limit: u8) -> bool {
    &&& p.total_tempering == p.tempering + p.reverse_tempering
    &&& p.tempering <= temper_limit
    &&& p.reverse_tempering <= reverse_limit
}

impl PreviewValues {
    /// The preview of an item as it drops: normal quality, no tempering, no
    /// transcendence, nothing chosen.
    pub fn new() -> (p: PreviewValues)
        ensures
            p.quality == crate::kinds::Quality::Simple,
            p.total_tempering == 0,
            p.tempering == 0,
            p.reverse_tempering == 0,
            p.transcendence == 0,
            p.random_effects@ == Map::<u8, crate::effects::ItemMinMaxEffect>::empty(),
            p.materials@ == Map::<u8, bool>::empty(),
    {
        PreviewValues {
            quality: crate::kinds::Quality::default_quality(),
            total_tempering: 0,
            tempering: 0,
            reverse_tempering: 0,
            transcendence: 0,
            random_effects: std::collections::HashMap::new(),
            materials: std::collections::HashMap::new(),
        }
    }

    /// One more step of transcendence, up to the item's limit; nothing when
    /// the item cannot transcend.
    pub fn increase_transcendence(&mut self, transcendence_limit: Option<u8>)
        ensures
            *final(self) == (PreviewValues {
                transcendence: transcend_up(old(self).transcendence, transcendence_limit),
                ..*old(self)
            }),
    {
        if let Some(limit) = transcendence_limit {
            let up = self.transcendence.saturating_add(1);
            self.transcendence = if up < limit {
                up
            } else {
                limit
            };
        }
    }

    /// One step of transcendence less, down to none.
    pub fn decrease_transcendence(&mut self)
        ensures
            *final(self) == (PreviewValues { transcendence: down(old(self).transcendence), ..*old(self) }),
    {
        self.transcendence = self.transcendence.saturating_sub(1);
    }

    /// One more step of tempering, when the item has both limits and the
    /// tempering is below its limit; the total follows, capped at the sum
    /// of the limits.
    pub fn increase_tempering(&mut self, temper_limit: Option<u8>, reverse_limit: Option<u8>)
        requires
            match (temper_limit, reverse_limit) {
                (Some(t), Some(r)) => old(self).tempering < t ==> t + r <= 255,
                _ => true,
            },
        ensures
            *final(self) == (PreviewValues {
                tempering: temper_up(*old(self), temper_limit, reverse_limit).0,
                total_tempering: temper_up(*old(self), temper_limit, reverse_limit).1,
                ..*old(self)
            }),
    {
        if let Some(t) = temper_limit {
            if let Some(r) = reverse_limit {
                if self.tempering < t {
                    let up = self.tempering.saturating_add(1);
                    self.tempering = if up < t {
                        up
                    } else {
                        t
                    };
                    let cap = t + r;
                    let total = self.total_tempering.saturating_add(1);
                    self.total_tempering = if total < cap {
                        total
                    } else {
                        cap
                    };
                }
            }
        }
    }

    /// One more step of reverse tempering, when the item has both limits and
    /// the reverse tempering is below its limit; the total follows, capped
    /// at the sum of the limits.
    pub fn increase_reverse_tempering(&mut self, temper_limit: Option<u8>, reverse_limit: Option<u8>)
        requires
            match (temper_limit, reverse_limit) {
                (Some(t), Some(r)) => old(self).reverse_tempering < r ==> t + r <= 255,
                _ => true,
            },
        ensures
            *final(self) == (PreviewValues {
                reverse_tempering: reverse_up(*old(self), temper_limit, reverse_limit).0,
                total_tempering: reverse_up(*old(self), temper_limit, reverse_limit).1,
                ..*old(self)
            }),
    {
        if let Some(t) = temper_limit {
            if let Some(r) = reverse_limit {
                if self.reverse_tempering < r {
                    let up = self.reverse_tempering.saturating_add(1);
                    self.reverse_tempering = if up < r {
                        up
                    } else {
                        r
                    };
                    let cap = t + r;
                    let total = self.total_tempering.saturating_add(1);
                    self.total_tempering = if total < cap {
                        total
                    } else {
                        cap
                    };
                }
            }
        }
    }

    /// One step of tempering less, when there is one; the total follows.
    pub fn decrease_tempering(&mut self)
        ensures
            *final(self) == (PreviewValues {
                tempering: temper_down(*old(self)).0,
                total_tempering: temper_down(*old(self)).1,
                ..*old(self)
            }),
    {
        if self.tempering > 0 {
            self.tempering = self.tempering.saturating_sub(1);
            self.total_tempering = self.total_tempering.saturating_sub(1);
        }
    }

    /// One step of reverse tempering less, when there is one; the total
    /// follows.
    pub fn decrease_reverse_tempering(&mut self)
        ensures
            *final(self) == (PreviewValues {
                reverse_tempering: reverse_down(*old(self)).0,
                total_tempering: reverse_down(*old(self)).1,
                ..*old(self)
            }),
    {
        if self.reverse_tempering > 0 {
            self.reverse_tempering = self.reverse_tempering.saturating_sub(1);
            self.total_tempering = self.total_tempering.saturating_sub(1);
        }
    }
}

/// A step of transcendence up, below the item's limit, followed by a step
/// down gives back the preview it started from; without a limit the step up
/// changes nothing.
pub proof fn law_transcendence_steps(p: PreviewValues, limit: Option<u8>)
    ensures
        limit is None ==> (PreviewValues { transcendence: transcend_up(p.transcendence, limit), ..p }) == p,
        (limit matches Some(l) && p.transcendence < l) ==> (PreviewValues {
            transcendence: down(transcend_up(p.transcendence, limit)),
            ..p
        }) == p,
{
}

/// With the same limits, whose sum fits in a byte, every tempering step
/// keeps the total equal to the sum of tempering and reverse tempering, and
/// each within its limit; and taking a step back after a step up returns
/// to where it was.
pub proof fn law_tempering_steps(p: PreviewValues, t: u8, r: u8)
    requires
        tempering_consistent(p, t, r),
        t + r <= 255,
    ensures
        temper_up(p, Some(t), Some(r)).0 + p.reverse_tempering == temper_up(p, Some(t), Some(r)).1,
        temper_up(p, Some(t), Some(r)).0 <= t,
        reverse_up(p, Some(t), Some(r)).0 + p.tempering == reverse_up(p, Some(t), Some(r)).1,
        reverse_up(p, Some(t), Some(r)).0 <= r,
        temper_down(p).0 + p.reverse_tempering == temper_down(p).1,
        reverse_down(p).0 + p.tempering == reverse_down(p).1,
        p.tempering < t ==> temper_down(
            PreviewValues { tempering: temper_up(p, Some(t), Some(r)).0, total_tempering: temper_up(p, Some(t), Some(r)).1, ..p },
        ) == (p.tempering, p.total_tempering),
        p.reverse_tempering < r ==> reverse_down(
            PreviewValues {
                reverse_tempering: reverse_up(p, Some(t), Some(r)).0,
                total_tempering: reverse_up(p, Some(t), Some(r)).1,
                ..p
            },
        ) == (p.reverse_tempering, p.total_tempering),
{
}

} // verus!

verus! {

impl GameDataView {
    /// The ids shown, in order.
    pub fn filtered_items(&self) -> (v: Vec<String>)
        ensures
            crate::lists::strings_view(v@) == self.filtered_ids(),
    {
        let n = id_set_len(&self.filtered);
        let mut v: Vec<String> = Vec::new();
        let mut i: usize = 0;
        while i < n
            invariant
                n == self.filtered_ids().len(),
                i <= n,
                crate::lists::strings_view(v@) == self.filtered_ids().take(i as int),
            decreases n - i,
        {
            match id_set_get(&self.filtered, i) {
                Some(id) => {
                    let ghost before = v@;
                    v.push(id);
                    assert(crate::lists::strings_view(v@) =~= crate::lists::strings_view(before).push(
                        self.filtered_ids()[i as int],
                    ));
                    assert(self.filtered_ids().take(i + 1) =~= self.filtered_ids().take(i as int).push(
                        self.filtered_ids()[i as int],
                    ));
                },
                None => {},
            }
            i = i + 1;
        }
        assert(self.filtered_ids().take(i as int) =~= self.filtered_ids());
        v
    }
}

} // verus!

verus! {

/// Closing a tab removes it and keeps the other tabs, each once, in their
/// order.
pub proof fn law_closed_tab_is_gone(tabs: Seq<Seq<char>>, item: Seq<char>)
    requires
        tabs.no_duplicates(),
        tabs.contains(item),
    ensures
        !tabs.remove(tabs.index_of(item)).contains(item),
        tabs.remove(tabs.index_of(item)).no_duplicates(),
        tabs.remove(tabs.index_of(item)).len() == tabs.len() - 1,
        forall|x: Seq<char>| x != item && tabs.contains(x) ==> #[trigger] tabs.remove(tabs.index_of(item)).contains(x),
{
    let i = tabs.index_of(item);
    let r = tabs.remove(i);
    lemma_remove_unique(tabs, i);
    assert forall|k: int| 0 <= k < r.len() implies #[trigger] r[k] != item by {
        let k2 = if k < i { k } else { k + 1 };
        assert(r[k] == tabs[k2]);
    }
    assert forall|x: Seq<char>| x != item && tabs.contains(x) implies #[trigger] r.contains(x) by {
        let m = choose|m: int| 0 <= m < tabs.len() && tabs[m] == x;
        if m < i {
            assert(r[m] == x);
        } else {
            assert(m != i);
            assert(r[m - 1] == x);
        }
    }
}

} // verus!

verus! {

/// Whether `p` is the preview of an item as it drops, the one `new` makes.
pub open spec fn is_fresh_preview(p: PreviewValues) -> bool {
    &&& p.quality == crate::kinds::Quality::Simple
    &&& p.total_tempering == 0
    &&& p.tempering == 0
    &&& p.reverse_tempering == 0
    &&& p.transcendence == 0
    &&& p.random_effects@ == Map::<u8, crate::effects::ItemMinMaxEffect>::empty()
    &&& p.materials@ == Map::<u8, bool>::empty()
}

/// The ids of a list of previews, in order.
pub open spec fn entry_ids(s: Seq<(String, PreviewValues)>) -> Seq<Seq<char>> {
    s.map_values(|e: (String, PreviewValues)| e.0@)
}

/// A list of previews as a map from id to preview.
pub open spec fn entry_map(s: Seq<(String, PreviewValues)>) -> Map<Seq<char>, PreviewValues> {
    Map::new(|k: Seq<char>| entry_ids(s).contains(k), |k: Seq<char>| s[entry_ids(s).index_of(k)].1)
}

/// Changing the preview at one place of a list whose ids are distinct keeps
/// the ids, and changes the map at that id only.
proof fn lemma_entry_set(s: Seq<(String, PreviewValues)>, i: int)
    requires
        entry_ids(s).no_duplicates(),
        0 <= i < s.len(),
    ensures
        forall|v: PreviewValues| #[trigger] entry_ids(s.update(i, (s[i].0, v))) == entry_ids(s),
        forall|v: PreviewValues| #[trigger] entry_map(s.update(i, (s[i].0, v))) == entry_map(s).insert(s[i].0@, v),
{
    assert forall|v: PreviewValues| #[trigger] entry_ids(s.update(i, (s[i].0, v))) == entry_ids(s) by {
        assert(entry_ids(s.update(i, (s[i].0, v))) =~= entry_ids(s));
    }
    assert forall|v: PreviewValues| #[trigger] entry_map(s.update(i, (s[i].0, v))) == entry_map(s).insert(s[i].0@, v) by {
        let t = s.update(i, (s[i].0, v));
        let ids = entry_ids(s);
        assert(entry_ids(t) =~= ids);
        assert(ids[i] == s[i].0@);
        assert(ids.contains(s[i].0@));
        assert forall|k: Seq<char>| #[trigger] ids.contains(k) implies t[ids.index_of(k)].1 == (if k == s[i].0@ {
            v
        } else {
            s[ids.index_of(k)].1
        }) by {
            let j = ids.index_of(k);
            assert(ids[j] == k);
        }
        assert(entry_map(t) =~= entry_map(s).insert(s[i].0@, v));
    }
}

/// The previews of the items looked at so far, by item id, each id once.
pub struct Previews {
    entries: Vec<(String, PreviewValues)>,
}

impl Previews {
    /// The ids that have a preview, in the order they were first looked at.
    pub closed spec fn ids(&self) -> Seq<Seq<char>> {
        entry_ids(self.entries@)
    }

    /// No id has two previews.
    pub closed spec fn wf(&self) -> bool {
        self.ids().no_duplicates()
    }
}

impl View for Previews {
    type V = Map<Seq<char>, PreviewValues>;

    closed spec fn view(&self) -> Map<Seq<char>, PreviewValues> {
        entry_map(self.entries@)
    }
}

impl Previews {
    /// No previews yet.
    pub fn new() -> (r: Previews)
        ensures
            r.wf(),
            r@ == Map::<Seq<char>, PreviewValues>::empty(),
    {
        let r = Previews { entries: Vec::new() };
        assert(r@ =~= Map::<Seq<char>, PreviewValues>::empty());
        r
    }

    /// Where the preview of `id` stands, if it has one.
    fn position(&self, id: &str) -> (r: Option<usize>)
        requires
            self.wf(),
        ensures
            match r {
                Some(i) => i < self.entries@.len() && self.ids()[i as int] == id@ && self.ids().index_of(id@)
                    == i,
                None => !self.ids().contains(id@),
            },
    {
        let mut i: usize = 0;
        while i < self.entries.len()
            invariant
                i <= self.entries@.len(),
                self.wf(),
                forall|k: int| 0 <= k < i ==> self.ids()[k] != id@,
            decreases self.entries@.len() - i,
        {
            if crate::outside::str_eq(self.entries[i].0.as_str(), id) {
                proof {
                    assert(self.ids()[i as int] == id@);
                    assert(self.ids().contains(id@));
                }
                return Some(i);
            }
            i = i + 1;
        }
        None
    }

    /// The preview of `id`, if it has one.
    pub fn get(&self, id: &str) -> (r: Option<&PreviewValues>)
        requires
            self.wf(),
        ensures
            match r {
                Some(p) => self@.contains_key(id@) && *p == self@[id@],
                None => !self@.contains_key(id@),
            },
    {
        match self.position(id) {
            Some(i) => Some(&self.entries[i].1),
            None => None,
        }
    }

    /// The preview of `id` to change, made first as the one of an item as it
    /// drops when `id` has none yet; what it is changed to is the preview of
    /// `id` afterwards, and the others stay as they are.
    pub fn entry(&mut self, id: &str) -> (r: &mut PreviewValues)
        requires
            old(self).wf(),
        ensures
            final(self).wf(),
            old(self)@.contains_key(id@) ==> *r == old(self)@[id@],
            !old(self)@.contains_key(id@) ==> is_fresh_preview(*r),
            final(self)@ == old(self)@.insert(id@, *final(r)),
    {
        self.ensure(id);
        let i = match self.position(id) {
            Some(i) => i,
            None => 0,
        };
        proof {
            lemma_entry_set(self.entries@, i as int);
        }
        &mut self.entries[i].1
    }

    /// Makes sure `id` has a preview, adding the one of an item as it drops
    /// when it has none yet; the others stay as they are.
    pub fn ensure(&mut self, id: &str)
        requires
            old(self).wf(),
        ensures
            final(self).wf(),
            old(self)@.contains_key(id@) ==> final(self)@ == old(self)@,
            !old(self)@.contains_key(id@) ==> final(self)@.contains_key(id@) && is_fresh_preview(final(self)@[id@])
                && final(self)@.remove(id@) == old(self)@,
    {
        match self.position(id) {
            Some(_) => {},
            None => {
                let ghost before = self.ids();
                let ghost old_entries = self.entries@;
                self.entries.push((id.to_owned(), PreviewValues::new()));
                proof {
                    assert(self.ids() =~= before.push(id@));
                    assert forall|a: int, b: int| 0 <= a < b < self.ids().len() implies self.ids()[a]
                        != self.ids()[b] by {
                        if b == before.len() {
                            assert(before.contains(before[a]));
                        }
                    }
                    assert(self.ids()[before.len() as int] == id@);
                    assert(self.ids().contains(id@));
                    assert forall|x: Seq<char>| #[trigger] before.contains(x) implies self.ids().index_of(x)
                        == before.index_of(x) && self.entries@[self.ids().index_of(x)] == old_entries[before.index_of(
                        x,
                    )] by {
                        let j = before.index_of(x);
                        assert(self.ids()[j] == x);
                        assert(self.ids().contains(x));
                        assert(self.entries@[j] == old_entries[j]);
                    }
                    assert forall|x: Seq<char>| #[trigger] self@.remove(id@).contains_key(x) <==> old(self)@.contains_key(
                        x,
                    ) by {
                        if self.ids().contains(x) && x != id@ {
                            let k = choose|k: int| 0 <= k < self.ids().len() && self.ids()[k] == x;
                            assert(before[k] == x);
                        }
                        if before.contains(x) {
                            let k = choose|k: int| 0 <= k < before.len() && before[k] == x;
                            assert(self.ids()[k] == x);
                            assert(x != id@);
                        }
                    }
                    assert(self@.remove(id@) =~= old(self)@);
                }
            },
        }
    }
}

} // verus!

verus! {

/// Moving the selection over shown ids, each shown once: from the id at
/// place `ix`, Up selects the id just above it (the first stays put) and
/// Down the id just below it (the last stays put); Up after Down, and Down
/// after Up, come back to the same id; an id that is not shown, or no
/// selection, stays as it is. (The shown ids are a collection in memory, so
/// there are no more of them than a `usize` counts.)
pub proof fn law_key_selection(ids: Seq<Seq<char>>, ix: int, other: Seq<char>)
    requires
        ids.no_duplicates(),
        ids.len() <= usize::MAX,
        0 <= ix < ids.len(),
        !ids.contains(other),
    ensures
        key_selection(ids, Some(ids[ix]), SelectionMove::Up) == Some(ids[if ix > 0 { ix - 1 } else { 0 }]),
        key_selection(ids, Some(ids[ix]), SelectionMove::Down) == Some(ids[if ix + 1 < ids.len() { ix + 1 } else { ix }]),
        ix > 0 ==> key_selection(ids, key_selection(ids, Some(ids[ix]), SelectionMove::Up), SelectionMove::Down)
            == Some(ids[ix]),
        ix + 1 < ids.len() ==> key_selection(
            ids,
            key_selection(ids, Some(ids[ix]), SelectionMove::Down),
            SelectionMove::Up,
        ) == Some(ids[ix]),
        key_selection(ids, Some(other), SelectionMove::Up) == Some(other),
        key_selection(ids, Some(other), SelectionMove::Down) == Some(other),
        key_selection(ids, None, SelectionMove::Up) is None,
        key_selection(ids, None, SelectionMove::Down) is None,
{
    assert(ids.contains(ids[ix]));
    lemma_index_of_unique(ids, ids[ix], ix);
    if ix > 0 {
        assert(ids.contains(ids[ix - 1]));
        lemma_index_of_unique(ids, ids[ix - 1], ix - 1);
    }
    if ix + 1 < ids.len() {
        assert(ids.contains(ids[ix + 1]));
        lemma_index_of_unique(ids, ids[ix + 1], ix + 1);
    }
}

} // verus!
