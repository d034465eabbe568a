//! The items of the explorer: weapons, accessories and secondary weapons,
//! what is shown of them and how they are searched.
use vstd::prelude::*;

use crate::effects::ItemEffect;
use crate::game_data::accessory::Accessory;
use crate::game_data::item_set::{set_view, EffectView, ItemSetView, SetEffectsView};
use crate::game_data::locale::{locale_view, shown, shown_text, Locale};
use crate::game_data::secondary_weapon::SecondaryWeapon;
use crate::game_data::weapon::Weapon;
use crate::fields::effect_view;
use crate::kinds::{Grade, ItemType, Language};
use crate::lists::{first_occurrences, lemma_first_occurrences, strings_view, unique};
use crate::outside::unicode_lowercase;
use crate::text::{contains_seq, str_contains, to_lower};

verus! {

/// An item of the explorer.
#[derive(Debug)]
pub enum DataType {
    Weapon(Weapon),
    Accessory(Accessory),
    SecondaryWeapon(SecondaryWeapon),
}

/// The id of an item.
pub open spec fn data_id(d: DataType) -> Seq<char> {
    match d {
            DataType::Weapon(w) => w.id@,
            DataType::Accessory(a) => a.id@,
            DataType::SecondaryWeapon(s) => s.id@,
    }
}

/// The grade of an item.
pub open spec fn data_grade(d: DataType) -> Option<Grade> {
    match d {
            DataType::Weapon(w) => w.grade,
            DataType::Accessory(a) => a.grade,
            DataType::SecondaryWeapon(s) => s.grade,
    }
}

/// The locale of an item.
pub open spec fn data_locale(d: DataType) -> Option<(Seq<char>, Seq<char>, Seq<char>)> {
    match d {
            DataType::Weapon(w) => locale_view(w.locale),
            DataType::Accessory(a) => locale_view(a.locale),
            DataType::SecondaryWeapon(s) => locale_view(s.locale),
    }
}

/// The type code of an item.
pub open spec fn data_type_code(d: DataType) -> Seq<char> {
    match d {
            DataType::Weapon(w) => w.weapon_type@,
            DataType::Accessory(a) => a.accessory_type@,
            DataType::SecondaryWeapon(s) => s.weapon_type@,
    }
}

/// The kind of an item.
pub open spec fn data_item_type(d: DataType) -> ItemType {
    match d {
        DataType::Weapon(_) => ItemType::Weapon,
        DataType::Accessory(_) => ItemType::Accessory,
        DataType::SecondaryWeapon(_) => ItemType::SecondaryWeapon,
    }
}

/// The four equip effects of an item.
pub open spec fn data_equip_effects(d: DataType) -> Seq<Option<EffectView>> {
    match d {
            DataType::Weapon(w) => seq![effect_view(w.equip_effect_1), effect_view(w.equip_effect_2), effect_view(w.equip_effect_3), effect_view(w.equip_effect_4)],
            DataType::Accessory(a) => seq![effect_view(a.equip_effect_1), effect_view(a.equip_effect_2), effect_view(a.equip_effect_3), effect_view(a.equip_effect_4)],
            DataType::SecondaryWeapon(s) => seq![effect_view(s.equip_effect_1), effect_view(s.equip_effect_2), effect_view(s.equip_effect_3), effect_view(s.equip_effect_4)],
    }
}

/// The set of an item.
pub open spec fn data_set(d: DataType) -> Option<ItemSetView> {
    match d {
            DataType::Weapon(w) => set_view(w.item_set),
            DataType::Accessory(a) => set_view(a.item_set),
            DataType::SecondaryWeapon(s) => set_view(s.item_set),
    }
}

/// The effect key of a parsed effect, as a list of zero or one key.
pub open spec fn key_of(e: EffectView) -> Seq<Seq<char>> {
    match e.1 {
        Some(p) => seq![p.0],
        None => Seq::empty(),
    }
}

/// The keys of the parsed effects among `es`, in order.
pub open spec fn keys_of(es: Seq<EffectView>) -> Seq<Seq<char>>
    decreases es.len(),
{
    if es.len() == 0 {
        Seq::empty()
    } else {
        keys_of(es.drop_last()) + key_of(es.last())
    }
}

/// The key of an optional effect, as a list of zero or one key.
pub open spec fn opt_key(e: Option<EffectView>) -> Seq<Seq<char>> {
    match e {
        Some(x) => key_of(x),
        None => Seq::empty(),
    }
}

/// The keys of the parsed effects of the groups `gs`, group by group.
pub open spec fn group_keys(gs: Seq<SetEffectsView>) -> Seq<Seq<char>>
    decreases gs.len(),
{
    if gs.len() == 0 {
        Seq::empty()
    } else {
        group_keys(gs.drop_last()) + keys_of(gs.last().2)
    }
}

/// The effect keys of an item, in order, repeats included: those of its
/// equip effects, then those of its set's groups.
pub open spec fn effect_key_seq(d: DataType) -> Seq<Seq<char>> {
    let es = data_equip_effects(d);
    opt_key(es[0]) + opt_key(es[1]) + opt_key(es[2]) + opt_key(es[3]) + match data_set(d) {
        Some(s) => group_keys(s.4),
        None => Seq::empty(),
    }
}

/// The texts of the effects among `es` that did not parse.
pub open spec fn unparsed_of(es: Seq<EffectView>) -> Seq<Seq<char>>
    decreases es.len(),
{
    if es.len() == 0 {
        Seq::empty()
    } else if es.last().1 is None {
        unparsed_of(es.drop_last()).push(es.last().0)
    } else {
        unparsed_of(es.drop_last())
    }
}

/// An optional effect, as a list of zero or one effect.
pub open spec fn opt_effect(e: Option<EffectView>) -> Seq<EffectView> {
    match e {
        Some(x) => seq![x],
        None => Seq::empty(),
    }
}

/// The effects of the groups `gs`, group by group.
pub open spec fn group_effects_all(gs: Seq<SetEffectsView>) -> Seq<EffectView>
    decreases gs.len(),
{
    if gs.len() == 0 {
        Seq::empty()
    } else {
        group_effects_all(gs.drop_last()) + gs.last().2
    }
}

/// All effects of an item: its present equip effects, then its set's.
pub open spec fn data_effects(d: DataType) -> Seq<EffectView> {
    let es = data_equip_effects(d);
    opt_effect(es[0]) + opt_effect(es[1]) + opt_effect(es[2]) + opt_effect(es[3]) + match data_set(d) {
        Some(s) => group_effects_all(s.4),
        None => Seq::empty(),
    }
}

/// Whether an item passes the explorer's filters: its kind is among
/// `types`; when an effect is chosen, the item has it; it has a grade and
/// the grade is among `grades`; and, unless `input` is empty, its id, or
/// the Russian or English text of its locale, in lower case contains
/// `input`.
pub open spec fn spec_matches(
    d: DataType,
    input: Seq<char>,
    types: Seq<ItemType>,
    grades: Seq<Grade>,
    effect: Option<Seq<char>>,
) -> bool {
    &&& types.contains(data_item_type(d))
    &&& (effect matches Some(f) ==> effect_key_seq(d).contains(f))
    &&& (data_grade(d) matches Some(g) && grades.contains(g))
    &&& (input.len() == 0 || contains_seq(unicode_lowercase(data_id(d)), input) || (data_locale(d) matches Some(l)
        && (contains_seq(unicode_lowercase(l.2), input) || contains_seq(unicode_lowercase(l.1), input))))
}

/// Appends the key of each parsed effect of `es`.
fn push_keys(out: &mut Vec<String>, es: &Vec<ItemEffect>)
    ensures
        strings_view(final(out)@) == strings_view(old(out)@) + keys_of(crate::game_data::item_set::effects_view(es@)),
{
    let ghost start = strings_view(out@);
    let ghost ev = crate::game_data::item_set::effects_view(es@);
    let mut i: usize = 0;
    while i < es.len()
        invariant
            i <= es@.len(),
            ev == crate::game_data::item_set::effects_view(es@),
            strings_view(out@) == start + keys_of(ev.take(i as int)),
        decreases es@.len() - i,
    {
        assert(ev.take(i + 1).drop_last() =~= ev.take(i as int));
        match &es[i].parsed {
            Some((k, _)) => {
                let ghost before = out@;
                out.push(k.clone());
                assert(strings_view(out@) =~= strings_view(before).push(k@));
            },
            None => {},
        }
        assert(strings_view(out@) =~= start + keys_of(ev.take(i + 1)));
        i = i + 1;
    }
    assert(ev.take(i as int) =~= ev);
}

/// Appends the key of the effect `e`, when it is present and parsed.
fn push_key(out: &mut Vec<String>, e: &Option<ItemEffect>)
    ensures
        strings_view(final(out)@) == strings_view(old(out)@) + opt_key(effect_view(*e)),
{
    match e {
        Some(x) => match &x.parsed {
            Some((k, _)) => {
                let ghost before = out@;
                out.push(k.clone());
                assert(strings_view(out@) =~= strings_view(before).push(k@));
            },
            None => {
                assert(strings_view(out@) =~= strings_view(out@) + Seq::<Seq<char>>::empty());
            },
        },
        None => {
            assert(strings_view(out@) =~= strings_view(out@) + Seq::<Seq<char>>::empty());
        },
    }
}

/// Appends the keys of the effects of the groups of `set`, when there is one.
fn push_set_keys(out: &mut Vec<String>, set: &Option<crate::game_data::item_set::ItemSet>)
    ensures
        strings_view(final(out)@) == strings_view(old(out)@) + match set_view(*set) {
            Some(s) => group_keys(s.4),
            None => Seq::empty(),
        },
{
    match set {
        Some(s) => {
            let ghost start = strings_view(out@);
            let ghost gv = crate::game_data::item_set::groups_view(s.effects@);
            let mut j: usize = 0;
            while j < s.effects.len()
                invariant
                    j <= s.effects@.len(),
                    gv == crate::game_data::item_set::groups_view(s.effects@),
                    strings_view(out@) == start + group_keys(gv.take(j as int)),
                decreases s.effects@.len() - j,
            {
                assert(gv.take(j + 1).drop_last() =~= gv.take(j as int));
                push_keys(out, &s.effects[j].seteffect_effects);
                assert(strings_view(out@) =~= start + group_keys(gv.take(j + 1)));
                j = j + 1;
            }
            assert(gv.take(j as int) =~= gv);
        },
        None => {
            assert(strings_view(out@) =~= strings_view(out@) + Seq::<Seq<char>>::empty());
        },
    }
}

impl DataType {
    /// The id.
    pub fn get_id(&self) -> (s: String)
        ensures
            s@ == data_id(*self),
    {
        match self {
                DataType::Weapon(w) => w.id.clone(),
                DataType::Accessory(a) => a.id.clone(),
                DataType::SecondaryWeapon(s) => s.id.clone(),
        }
    }

    /// The grade.
    pub fn get_grade(&self) -> (g: Option<Grade>)
        ensures
            g == data_grade(*self),
    {
        match self {
                DataType::Weapon(w) => w.grade,
                DataType::Accessory(a) => a.grade,
                DataType::SecondaryWeapon(s) => s.grade,
        }
    }

    /// A copy of the locale.
    pub fn get_locale(&self) -> (l: Option<Locale>)
        ensures
            locale_view(l) == data_locale(*self),
    {
        let l = match self {
                DataType::Weapon(w) => &w.locale,
                DataType::Accessory(a) => &a.locale,
                DataType::SecondaryWeapon(s) => &s.locale,
        };
        match l {
            Some(x) => Some(x.duplicate()),
            None => None,
        }
    }

    /// The type with "_01" appended, as the tempering tables are named.
    pub fn get_full_type(&self) -> (s: String)
        ensures
            s@ == data_type_code(*self) + "_01"@,
    {
        match self {
                DataType::Weapon(w) => w.get_full_type(),
                DataType::Accessory(a) => a.get_full_type(),
                DataType::SecondaryWeapon(s) => s.get_full_type(),
        }
    }

    /// The type, as the quality tables are named.
    pub fn get_type(&self) -> (s: String)
        ensures
            s@ == data_type_code(*self),
    {
        match self {
                DataType::Weapon(w) => w.get_type(),
                DataType::Accessory(a) => a.get_type(),
                DataType::SecondaryWeapon(s) => s.get_type(),
        }
    }

    /// The name shown for the item in `language`: its locale's text when
    /// there is a non-empty one, else its id.
    pub fn get_locale_name(&self, language: Language) -> (s: String)
        ensures
            s@ == match shown_text(data_locale(*self), language) {
                Some(t) => t,
                None => data_id(*self),
            },
    {
        let l = match self {
                DataType::Weapon(w) => &w.locale,
                DataType::Accessory(a) => &a.locale,
                DataType::SecondaryWeapon(s) => &s.locale,
        };
        match shown(l, language) {
            Some(t) => t,
            None => self.get_id(),
        }
    }

    /// The effect keys of the item, each once: those of its parsed equip
    /// effects and of its set's parsed effects.
    pub fn get_effects(&self) -> (v: Vec<String>)
        ensures
            strings_view(v@) == first_occurrences(effect_key_seq(*self)),
            strings_view(v@).no_duplicates(),
            forall|k: Seq<char>| #[trigger] strings_view(v@).contains(k) <==> effect_key_seq(*self).contains(k),
    {
        let mut all: Vec<String> = Vec::new();
        let (e1, e2, e3, e4, set) = match self {
                DataType::Weapon(w) => (&w.equip_effect_1, &w.equip_effect_2, &w.equip_effect_3, &w.equip_effect_4, &w.item_set),
                DataType::Accessory(a) => (&a.equip_effect_1, &a.equip_effect_2, &a.equip_effect_3, &a.equip_effect_4, &a.item_set),
                DataType::SecondaryWeapon(s) => (&s.equip_effect_1, &s.equip_effect_2, &s.equip_effect_3, &s.equip_effect_4, &s.item_set),
        };
        push_key(&mut all, e1);
        push_key(&mut all, e2);
        push_key(&mut all, e3);
        push_key(&mut all, e4);
        push_set_keys(&mut all, set);
        assert(strings_view(all@) =~= effect_key_seq(*self));
        let v = unique(&all);
        proof {
            lemma_first_occurrences(effect_key_seq(*self));
        }
        v
    }

    /// Whether the item has the chosen effect; any item does when none is
    /// chosen.
    pub fn filter_effect(&self, filter: &Option<String>) -> (b: bool)
        ensures
            b == match filter {
                Some(f) => effect_key_seq(*self).contains(f@),
                None => true,
            },
    {
        match filter {
            Some(f) => {
                let effects = self.get_effects();
                crate::lists::lists(&effects, f.as_str())
            },
            None => true,
        }
    }

    /// Whether the item passes the explorer's filters.
    pub fn matches(&self, input: &str, types: &Vec<ItemType>, grades: &Vec<Grade>, effect: &Option<String>) -> (b: bool)
        ensures
            b == spec_matches(*self, input@, types@, grades@, crate::fields::opt_view(*effect)),
    {
        let kind = match self {
            DataType::Weapon(_) => ItemType::Weapon,
            DataType::Accessory(_) => ItemType::Accessory,
            DataType::SecondaryWeapon(_) => ItemType::SecondaryWeapon,
        };
        if !has_type(types, kind) {
            return false;
        }
        if !self.filter_effect(effect) {
            return false;
        }
        match self.get_grade() {
            Some(g) => if !has_grade(grades, g) {
                return false;
            },
            None => return false,
        }
        if input.is_empty() {
            return true;
        }
        let id = to_lower(self.get_id().as_str());
        if str_contains(id.as_str(), input) {
            return true;
        }
        match self.get_locale() {
            Some(l) => {
                let rus = to_lower(l.rus.as_str());
                let eng = to_lower(l.eng.as_str());
                str_contains(rus.as_str(), input) || str_contains(eng.as_str(), input)
            },
            None => false,
        }
    }

    /// The texts of the item's effects that were not recognized: among its
    /// present equip effects and its set's effects, those that did not
    /// parse, in order.
    pub fn test(&self) -> (v: Vec<String>)
        ensures
            strings_view(v@) == unparsed_of(data_effects(*self)),
    {
        let (e1, e2, e3, e4, set) = match self {
                DataType::Weapon(w) => (&w.equip_effect_1, &w.equip_effect_2, &w.equip_effect_3, &w.equip_effect_4, &w.item_set),
                DataType::Accessory(a) => (&a.equip_effect_1, &a.equip_effect_2, &a.equip_effect_3, &a.equip_effect_4, &a.item_set),
                DataType::SecondaryWeapon(s) => (&s.equip_effect_1, &s.equip_effect_2, &s.equip_effect_3, &s.equip_effect_4, &s.item_set),
        };
        let mut effects: Vec<ItemEffect> = Vec::new();
        push_present(&mut effects, e1);
        push_present(&mut effects, e2);
        push_present(&mut effects, e3);
        push_present(&mut effects, e4);
        match set {
            Some(s) => {
                let ghost start = crate::game_data::item_set::effects_view(effects@);
                let ghost gv = crate::game_data::item_set::groups_view(s.effects@);
                let mut j: usize = 0;
                while j < s.effects.len()
                    invariant
                        j <= s.effects@.len(),
                        gv == crate::game_data::item_set::groups_view(s.effects@),
                        crate::game_data::item_set::effects_view(effects@) == start + group_effects_all(gv.take(j as int)),
                    decreases s.effects@.len() - j,
                {
                    assert(gv.take(j + 1).drop_last() =~= gv.take(j as int));
                    let g = &s.effects[j].seteffect_effects;
                    let mut i: usize = 0;
                    let ghost mid = crate::game_data::item_set::effects_view(effects@);
                    while i < g.len()
                        invariant
                            i <= g@.len(),
                            crate::game_data::item_set::effects_view(effects@) == mid + crate::game_data::item_set::effects_view(g@).take(i as int),
                        decreases g@.len() - i,
                    {
                        let ghost before = effects@;
                        effects.push(g[i].duplicate());
                        assert(crate::game_data::item_set::effects_view(effects@) =~= crate::game_data::item_set::effects_view(before).push(g@[i as int]@));
                        assert(crate::game_data::item_set::effects_view(g@).take(i + 1) =~= crate::game_data::item_set::effects_view(g@).take(i as int).push(g@[i as int]@));
                        assert(crate::game_data::item_set::effects_view(effects@) =~= mid + crate::game_data::item_set::effects_view(g@).take(i + 1));
                        i = i + 1;
                    }
                    assert(crate::game_data::item_set::effects_view(g@).take(i as int) =~= crate::game_data::item_set::effects_view(g@));
                    assert(crate::game_data::item_set::effects_view(effects@) =~= start + group_effects_all(gv.take(j + 1)));
                    j = j + 1;
                }
                assert(gv.take(j as int) =~= gv);
            },
            None => {},
        }
        assert(crate::game_data::item_set::effects_view(effects@) =~= data_effects(*self));
        let ghost ev = crate::game_data::item_set::effects_view(effects@);
        let mut out: Vec<String> = Vec::new();
        let mut k: usize = 0;
        while k < effects.len()
            invariant
                k <= effects@.len(),
                ev == crate::game_data::item_set::effects_view(effects@),
                strings_view(out@) == unparsed_of(ev.take(k as int)),
            decreases effects@.len() - k,
        {
            assert(ev.take(k + 1).drop_last() =~= ev.take(k as int));
            if effects[k].parsed.is_none() {
                let ghost before = out@;
                out.push(effects[k].effect.clone());
                assert(strings_view(out@) =~= strings_view(before).push(ev[k as int].0));
            }
            k = k + 1;
        }
        assert(ev.take(k as int) =~= ev);
        out
    }
}

/// Appends a copy of the effect `e`, when it is present.
fn push_present(out: &mut Vec<ItemEffect>, e: &Option<ItemEffect>)
    ensures
        crate::game_data::item_set::effects_view(final(out)@) == crate::game_data::item_set::effects_view(old(out)@)
            + opt_effect(effect_view(*e)),
{
    let ghost before = out@;
    match e {
        Some(x) => {
            out.push(x.duplicate());
        },
        None => {},
    }
    assert(crate::game_data::item_set::effects_view(out@) =~= crate::game_data::item_set::effects_view(before)
        + opt_effect(effect_view(*e)));
}

/// Whether `t` is one of `types`.
pub fn has_type(types: &Vec<ItemType>, t: ItemType) -> (b: bool)
    ensures
        b == types@.contains(t),
{
    let mut i: usize = 0;
    while i < types.len()
        invariant
            i <= types@.len(),
            forall|k: int| 0 <= k < i ==> types@[k] != t,
        decreases types@.len() - i,
    {
        if types[i] == t {
            return true;
        }
        i = i + 1;
    }
    false
}

/// Whether `g` is one of `grades`.
pub fn has_grade(grades: &Vec<Grade>, g: Grade) -> (b: bool)
    ensures
        b == grades@.contains(g),
{
    let mut i: usize = 0;
    while i < grades.len()
        invariant
            i <= grades@.len(),
            forall|k: int| 0 <= k < i ==> grades@[k] != g,
        decreases grades@.len() - i,
    {
        if grades[i] == g {
            return true;
        }
        i = i + 1;
    }
    false
}

} // verus!

verus! {

/// The kind filter lets an item through exactly when the chosen kinds
/// include the item's own: a weapon when they include Weapon, an accessory
/// when they include Accessory, a secondary weapon when they include
/// SecondaryWeapon. With the other filters unchanged, an item shown under
/// some kinds is shown under any kinds that include its own; and choosing
/// only Armor shows none of these items.
pub proof fn law_kind_filter(
    d: DataType,
    input: Seq<char>,
    types: Seq<ItemType>,
    other_types: Seq<ItemType>,
    grades: Seq<Grade>,
    effect: Option<Seq<char>>,
)
    ensures
        spec_matches(d, input, types, grades, effect) ==> match d {
            DataType::Weapon(_) => types.contains(ItemType::Weapon),
            DataType::Accessory(_) => types.contains(ItemType::Accessory),
            DataType::SecondaryWeapon(_) => types.contains(ItemType::SecondaryWeapon),
        },
        spec_matches(d, input, other_types, grades, effect) && match d {
            DataType::Weapon(_) => types.contains(ItemType::Weapon),
            DataType::Accessory(_) => types.contains(ItemType::Accessory),
            DataType::SecondaryWeapon(_) => types.contains(ItemType::SecondaryWeapon),
        } ==> spec_matches(d, input, types, grades, effect),
        !spec_matches(d, input, seq![ItemType::Armor], grades, effect),
{
    assert(!seq![ItemType::Armor].contains(data_item_type(d))) by {
        if seq![ItemType::Armor].contains(data_item_type(d)) {
            assert(seq![ItemType::Armor][0] == data_item_type(d));
        }
    }
}

} // verus!

verus! {

/// The grade filter lets an item through exactly when it has a grade and
/// the chosen grades include it: an item without a grade is never shown,
/// and an item shown under some grades is shown under any grades that
/// include its own, the other filters unchanged.
pub proof fn law_grade_filter(
    d: DataType,
    input: Seq<char>,
    types: Seq<ItemType>,
    grades: Seq<Grade>,
    other_grades: Seq<Grade>,
    effect: Option<Seq<char>>,
)
    ensures
        spec_matches(d, input, types, grades, effect) ==> match d {
            DataType::Weapon(w) => w.grade matches Some(g) && grades.contains(g),
            DataType::Accessory(a) => a.grade matches Some(g) && grades.contains(g),
            DataType::SecondaryWeapon(s) => s.grade matches Some(g) && grades.contains(g),
        },
        spec_matches(d, input, types, other_grades, effect) && match d {
            DataType::Weapon(w) => w.grade matches Some(g) && grades.contains(g),
            DataType::Accessory(a) => a.grade matches Some(g) && grades.contains(g),
            DataType::SecondaryWeapon(s) => s.grade matches Some(g) && grades.contains(g),
        } ==> spec_matches(d, input, types, grades, effect),
{
}

/// The search text: an empty one hides nothing that the other filters
/// show; a non-empty one shows exactly those of them whose id, or the
/// English or Russian text of their locale, in lower case contains it.
pub proof fn law_text_filter(
    d: DataType,
    input: Seq<char>,
    types: Seq<ItemType>,
    grades: Seq<Grade>,
    effect: Option<Seq<char>>,
)
    ensures
        spec_matches(d, input, types, grades, effect) ==> spec_matches(d, Seq::empty(), types, grades, effect),
        spec_matches(d, input, types, grades, effect) && input.len() > 0 ==> contains_seq(
            unicode_lowercase(
                match d {
                    DataType::Weapon(w) => w.id@,
                    DataType::Accessory(a) => a.id@,
                    DataType::SecondaryWeapon(s) => s.id@,
                },
            ),
            input,
        ) || (data_locale(d) matches Some(l) && (contains_seq(unicode_lowercase(l.1), input) || contains_seq(
            unicode_lowercase(l.2),
            input,
        ))),
        spec_matches(d, Seq::empty(), types, grades, effect) && (contains_seq(
            unicode_lowercase(
                match d {
                    DataType::Weapon(w) => w.id@,
                    DataType::Accessory(a) => a.id@,
                    DataType::SecondaryWeapon(s) => s.id@,
                },
            ),
            input,
        ) || (data_locale(d) matches Some(l) && (contains_seq(unicode_lowercase(l.1), input) || contains_seq(
            unicode_lowercase(l.2),
            input,
        )))) ==> spec_matches(d, input, types, grades, effect),
{
}

} // verus!
