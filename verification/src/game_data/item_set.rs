//! Item sets: the items that form a set and the effects that wearing
//! several of them grants, group by group.
use vstd::prelude::*;

use crate::effects::ItemEffect;
use crate::fields::{effect_view, field_effect, field_text, field_u8, field_upper, get_effect, get_text, get_u8, get_upper, has, opt_view};
use crate::game_data::locale::{find_locale, locale_lookup, locale_view, shown, shown_text, table_view, Locale};
use crate::kinds::{DataFormat, Language};
use crate::lists::{lists, strings_view};
use crate::game_data::{all_readable, holds_all, read_table, AbstractItem};
use crate::table::{spec_header, HeaderView, read_record, record_readable, spec_record, table_ok, FieldKind, RawField, RawValue, TableError, TableHeader};
use crate::text::{chars_of, is_single};

verus! {

/// The view of a locale.
pub type LocaleView = (Seq<char>, Seq<char>, Seq<char>);

/// The view of an effect.
pub type EffectView = (Seq<char>, Option<(Seq<char>, Seq<char>)>);

/// The view of a group of set effects: its skill's locale, the number of
/// set items it needs, its effects and its skill.
pub type SetEffectsView = (Option<LocaleView>, u8, Seq<EffectView>, Option<Seq<char>>);

/// The view of a set: its locale, id, name, item ids and effect groups.
pub type ItemSetView = (Option<LocaleView>, Seq<char>, Seq<char>, Seq<Seq<char>>, Seq<SetEffectsView>);

/// The views of a list of effects.
pub open spec fn effects_view(v: Seq<ItemEffect>) -> Seq<EffectView> {
    v.map_values(|e: ItemEffect| e@)
}

/// One group of set effects.
#[derive(Debug)]
pub struct ItemSetEffects {
    pub locale: Option<Locale>,
    pub seteffect_count: u8,
    pub seteffect_effects: Vec<ItemEffect>,
    pub seteffect_skill: Option<String>,
}

impl View for ItemSetEffects {
    type V = SetEffectsView;

    open spec fn view(&self) -> SetEffectsView {
        (locale_view(self.locale), self.seteffect_count, effects_view(self.seteffect_effects@), opt_view(self.seteffect_skill))
    }
}

/// A set of items.
#[derive(Debug)]
pub struct ItemSet {
    pub locale: Option<Locale>,
    pub setid: String,
    pub setname: String,
    pub items: Vec<String>,
    pub effects: Vec<ItemSetEffects>,
}

/// The views of a list of effect groups.
pub open spec fn groups_view(v: Seq<ItemSetEffects>) -> Seq<SetEffectsView> {
    v.map_values(|g: ItemSetEffects| g@)
}

impl View for ItemSet {
    type V = ItemSetView;

    open spec fn view(&self) -> ItemSetView {
        (locale_view(self.locale), self.setid@, self.setname@, strings_view(self.items@), groups_view(self.effects@))
    }
}

/// The view of an optional set.
pub open spec fn set_view(s: Option<ItemSet>) -> Option<ItemSetView> {
    match s {
        Some(x) => Some(x@),
        None => None,
    }
}

/// The first tag of effect group `k`: its item count.
pub open spec fn group_base(k: int) -> int {
    16 + 6 * k
}

/// How a set record is read: numbers at the count tags 16, 22, ..., 58,
/// text at every other tag below 64, nothing from 64 on.
pub open spec fn set_kind(t: int) -> FieldKind {
    if t >= 64 {
        FieldKind::Skip
    } else if t >= 16 && (t - 16) % 6 == 0 {
        FieldKind::Number
    } else {
        FieldKind::Text
    }
}

/// The kinds of the tags of a set table with `n` tags.
pub open spec fn set_kinds(n: nat) -> Seq<FieldKind> {
    Seq::new(n, |t: int| set_kind(t))
}

/// The item ids at tags 2 to `t - 1`, in upper case, without those that
/// read "*".
pub open spec fn set_ids(r: Seq<RawValue>, t: int) -> Seq<Seq<char>>
    decreases t,
{
    if t <= 2 {
        Seq::empty()
    } else if has(r, t - 1) && field_upper(r, t - 1) != seq!['*'] {
        set_ids(r, t - 1).push(field_upper(r, t - 1))
    } else {
        set_ids(r, t - 1)
    }
}

/// The effects at tags `b + 1` to `b + j`, without the absent ones.
pub open spec fn group_effects(r: Seq<RawValue>, b: int, j: int) -> Seq<EffectView>
    decreases j,
{
    if j <= 0 {
        Seq::empty()
    } else {
        match field_effect(r, b + j) {
            Some(e) => group_effects(r, b, j - 1).push(e),
            None => group_effects(r, b, j - 1),
        }
    }
}

/// The skill of the group whose first tag is `b`: the upper-case text at
/// `b + 5` with "_DESCRIPTION_1" appended, unless it reads "*".
pub open spec fn group_skill(r: Seq<RawValue>, b: int) -> Option<Seq<char>> {
    if field_upper(r, b + 5) == seq!['*'] {
        None
    } else {
        Some(field_upper(r, b + 5) + "_DESCRIPTION_1"@)
    }
}

/// Effect group `k` as the record holds it.
pub open spec fn group_at(r: Seq<RawValue>, k: int) -> SetEffectsView {
    (None, field_u8(r, group_base(k)), group_effects(r, group_base(k), 4), group_skill(r, group_base(k)))
}

/// Whether effect group `k` is kept: the record reaches its skill tag and
/// the group has an effect or a skill.
pub open spec fn group_kept(r: Seq<RawValue>, k: int) -> bool {
    &&& has(r, group_base(k) + 5)
    &&& (group_effects(r, group_base(k), 4).len() > 0 || group_skill(r, group_base(k)) is Some)
}

/// The kept groups among the first `k`.
pub open spec fn set_groups(r: Seq<RawValue>, k: int) -> Seq<SetEffectsView>
    decreases k,
{
    if k <= 0 {
        Seq::empty()
    } else if group_kept(r, k - 1) {
        set_groups(r, k - 1).push(group_at(r, k - 1))
    } else {
        set_groups(r, k - 1)
    }
}

/// The set a record holds, before any locale is attached.
pub open spec fn spec_item_set(r: Seq<RawValue>) -> ItemSetView {
    (None, field_upper(r, 0), field_text(r, 1), set_ids(r, 16), set_groups(r, 8))
}

/// A group with the locale of its skill from `table` attached; a group
/// without a skill is left as it is.
pub open spec fn group_with_locale(g: SetEffectsView, table: Seq<LocaleView>) -> SetEffectsView {
    match g.3 {
        Some(s) => (locale_lookup(table, s), g.1, g.2, g.3),
        None => g,
    }
}

/// The effects at the four tags after `b`.
fn effects_between(rec: &Vec<RawField>, b: usize) -> (v: Vec<ItemEffect>)
    requires
        b <= 100,
    ensures
        effects_view(v@) == group_effects(rec@.map_values(|f: RawField| f@), b as int, 4),
{
    let ghost r = rec@.map_values(|f: RawField| f@);
    let mut v: Vec<ItemEffect> = Vec::new();
    let mut j: usize = 1;
    assert(effects_view(v@) =~= group_effects(r, b as int, 0));
    while j <= 4
        invariant
            1 <= j <= 5,
            b <= 100,
            r == rec@.map_values(|f: RawField| f@),
            effects_view(v@) == group_effects(r, b as int, j - 1),
        decreases 5 - j,
    {
        match get_effect(rec, b + j) {
            Some(e) => {
                let ghost before = v@;
                v.push(e);
                assert(effects_view(v@) =~= effects_view(before).push(e@));
            },
            None => {},
        }
        j = j + 1;
    }
    v
}

impl ItemSetEffects {
    /// A copy of this group.
    pub fn duplicate(&self) -> (r: ItemSetEffects)
        ensures
            r@ == self@,
    {
        let mut effects: Vec<ItemEffect> = Vec::new();
        let mut i: usize = 0;
        while i < self.seteffect_effects.len()
            invariant
                i <= self.seteffect_effects@.len(),
                effects_view(effects@) == effects_view(self.seteffect_effects@).take(i as int),
            decreases self.seteffect_effects@.len() - i,
        {
            let ghost before = effects@;
            effects.push(self.seteffect_effects[i].duplicate());
            assert(effects_view(effects@) =~= effects_view(before).push(self.seteffect_effects@[i as int]@));
            assert(effects_view(self.seteffect_effects@).take(i + 1) =~= effects_view(self.seteffect_effects@).take(
                i as int,
            ).push(self.seteffect_effects@[i as int]@));
            i = i + 1;
        }
        assert(effects_view(self.seteffect_effects@).take(i as int) =~= effects_view(self.seteffect_effects@));
        ItemSetEffects {
            locale: match &self.locale {
                Some(l) => Some(l.duplicate()),
                None => None,
            },
            seteffect_count: self.seteffect_count,
            seteffect_effects: effects,
            seteffect_skill: self.seteffect_skill.clone(),
        }
    }

    /// The name of the group's skill in `language`: its locale's text when
    /// there is a non-empty one, else the skill reference itself.
    pub fn get_locale(&self, language: Language) -> (r: Option<String>)
        ensures
            opt_view(r) == match shown_text(locale_view(self.locale), language) {
                Some(t) => Some(t),
                None => opt_view(self.seteffect_skill),
            },
    {
        match shown(&self.locale, language) {
            Some(t) => Some(t),
            None => self.seteffect_skill.clone(),
        }
    }
}

impl ItemSet {
    /// The kinds of the `n` tags of a set record.
    pub fn kinds(n: usize) -> (v: Vec<FieldKind>)
        ensures
            v@ == set_kinds(n as nat),
    {
        let mut v: Vec<FieldKind> = Vec::new();
        let mut t: usize = 0;
        while t < n
            invariant
                t <= n,
                v@ == set_kinds(t as nat),
            decreases n - t,
        {
            let k = if t >= 64 {
                FieldKind::Skip
            } else if t >= 16 && (t - 16) % 6 == 0 {
                FieldKind::Number
            } else {
                FieldKind::Text
            };
            v.push(k);
            assert(v@ =~= set_kinds((t + 1) as nat));
            t = t + 1;
        }
        v
    }

    /// The set the fields `rec` hold.
    pub fn from_record(rec: &Vec<RawField>) -> (s: ItemSet)
        ensures
            s@ == spec_item_set(rec@.map_values(|f: RawField| f@)),
    {
        let ghost r = rec@.map_values(|f: RawField| f@);
        let mut items: Vec<String> = Vec::new();
        let mut t: usize = 2;
        while t < 16
            invariant
                2 <= t <= 16,
                r == rec@.map_values(|f: RawField| f@),
                strings_view(items@) == set_ids(r, t as int),
            decreases 16 - t,
        {
            if t < rec.len() {
                let id = get_upper(rec, t);
                let c = chars_of(id.as_str());
                if !is_single(&c, '*') {
                    let ghost before = items@;
                    items.push(id);
                    assert(strings_view(items@) =~= strings_view(before).push(field_upper(r, t as int)));
                }
            }
            t = t + 1;
        }
        let mut groups: Vec<ItemSetEffects> = Vec::new();
        let mut k: usize = 0;
        while k < 8
            invariant
                k <= 8,
                r == rec@.map_values(|f: RawField| f@),
                groups_view(groups@) == set_groups(r, k as int),
            decreases 8 - k,
        {
            let b = 16 + 6 * k;
            if b + 5 < rec.len() {
                let count = get_u8(rec, b);
                let effects = effects_between(rec, b);
                let up = get_upper(rec, b + 5);
                let c = chars_of(up.as_str());
                let skill = if is_single(&c, '*') {
                    None
                } else {
                    let mut s = up;
                    s.append("_DESCRIPTION_1");
                    Some(s)
                };
                assert(opt_view(skill) == group_skill(r, b as int));
                if effects.len() > 0 || skill.is_some() {
                    let g = ItemSetEffects { locale: None, seteffect_count: count, seteffect_effects: effects, seteffect_skill: skill };
                    let ghost before = groups@;
                    groups.push(g);
                    assert(groups_view(groups@) =~= groups_view(before).push(group_at(r, k as int)));
                }
            }
            k = k + 1;
        }
        ItemSet { locale: None, setid: get_upper(rec, 0), setname: get_text(rec, 1), items, effects: groups }
    }

    /// A copy of this set.
    pub fn duplicate(&self) -> (r: ItemSet)
        ensures
            r@ == self@,
    {
        let mut items: Vec<String> = Vec::new();
        let mut i: usize = 0;
        while i < self.items.len()
            invariant
                i <= self.items@.len(),
                strings_view(items@) == strings_view(self.items@).take(i as int),
            decreases self.items@.len() - i,
        {
            let ghost before = items@;
            items.push(self.items[i].clone());
            assert(strings_view(items@) =~= strings_view(before).push(self.items@[i as int]@));
            assert(strings_view(self.items@).take(i + 1) =~= strings_view(self.items@).take(i as int).push(
                self.items@[i as int]@,
            ));
            i = i + 1;
        }
        assert(strings_view(self.items@).take(i as int) =~= strings_view(self.items@));
        let mut groups: Vec<ItemSetEffects> = Vec::new();
        let mut j: usize = 0;
        while j < self.effects.len()
            invariant
                j <= self.effects@.len(),
                groups_view(groups@) == groups_view(self.effects@).take(j as int),
            decreases self.effects@.len() - j,
        {
            let ghost before = groups@;
            groups.push(self.effects[j].duplicate());
            assert(groups_view(groups@) =~= groups_view(before).push(self.effects@[j as int]@));
            assert(groups_view(self.effects@).take(j + 1) =~= groups_view(self.effects@).take(j as int).push(
                self.effects@[j as int]@,
            ));
            j = j + 1;
        }
        assert(groups_view(self.effects@).take(j as int) =~= groups_view(self.effects@));
        ItemSet {
            locale: match &self.locale {
                Some(l) => Some(l.duplicate()),
                None => None,
            },
            setid: self.setid.clone(),
            setname: self.setname.clone(),
            items,
            effects: groups,
        }
    }

    /// The set's name in `language`: its locale's text when there is a
    /// non-empty one, else its id.
    pub fn get_locale(&self, language: Language) -> (r: String)
        ensures
            r@ == match shown_text(locale_view(self.locale), language) {
                Some(t) => t,
                None => self.setid@,
            },
    {
        match shown(&self.locale, language) {
            Some(t) => t,
            None => self.setid.clone(),
        }
    }

    /// Attaches to each effect group that names a skill the locale that
    /// `locales` gives for that skill.
    pub fn set_skill_effects_locale(&mut self, locales: &Vec<Locale>)
        ensures
            final(self).locale == old(self).locale,
            final(self).setid == old(self).setid,
            final(self).setname == old(self).setname,
            final(self).items == old(self).items,
            groups_view(final(self).effects@) == groups_view(old(self).effects@).map_values(
                |g: SetEffectsView| group_with_locale(g, table_view(locales@)),
            ),
    {
        let mut groups: Vec<ItemSetEffects> = Vec::new();
        let mut j: usize = 0;
        let ghost table = table_view(locales@);
        while j < self.effects.len()
            invariant
                j <= self.effects@.len(),
                table == table_view(locales@),
                groups_view(groups@) == groups_view(self.effects@).take(j as int).map_values(
                    |g: SetEffectsView| group_with_locale(g, table),
                ),
            decreases self.effects@.len() - j,
        {
            let mut g = self.effects[j].duplicate();
            match &self.effects[j].seteffect_skill {
                Some(skill) => {
                    g.locale = find_locale(locales, skill.as_str());
                },
                None => {},
            }
            let ghost before = groups@;
            groups.push(g);
            assert(groups_view(groups@) =~= groups_view(before).push(group_with_locale(self.effects@[j as int]@, table)));
            assert(groups_view(self.effects@).take(j + 1) =~= groups_view(self.effects@).take(j as int).push(
                self.effects@[j as int]@,
            ));
            j = j + 1;
        }
        assert(groups_view(self.effects@).take(j as int) =~= groups_view(self.effects@));
        self.effects = groups;
    }
}


/// The first of `sets` that lists the item `id`.
pub open spec fn first_set_with(sets: Seq<ItemSetView>, id: Seq<char>) -> Option<ItemSetView>
    decreases sets.len(),
{
    if sets.len() == 0 {
        None
    } else if sets[0].3.contains(id) {
        Some(sets[0])
    } else {
        first_set_with(sets.drop_first(), id)
    }
}

/// The views of a list of sets.
pub open spec fn sets_view(v: Seq<ItemSet>) -> Seq<ItemSetView> {
    v.map_values(|s: ItemSet| s@)
}

/// A copy of the first of `sets` that lists the item `id`.
pub fn find_item_set(sets: &Vec<ItemSet>, id: &str) -> (r: Option<ItemSet>)
    ensures
        set_view(r) == first_set_with(sets_view(sets@), id@),
{
    let mut i: usize = 0;
    assert(sets_view(sets@).skip(0) =~= sets_view(sets@));
    while i < sets.len()
        invariant
            i <= sets@.len(),
            first_set_with(sets_view(sets@), id@) == first_set_with(sets_view(sets@).skip(i as int), id@),
        decreases sets@.len() - i,
    {
        assert(sets_view(sets@).skip(i as int)[0] == sets@[i as int]@);
        assert(sets_view(sets@).skip(i as int).drop_first() =~= sets_view(sets@).skip(i + 1));
        if lists(&sets[i].items, id) {
            return Some(sets[i].duplicate());
        }
        i = i + 1;
    }
    None
}


impl AbstractItem for ItemSet {
    open spec fn record_kinds(h: HeaderView) -> Seq<FieldKind> {
        set_kinds(h.0.len())
    }

    open spec fn read_from(&self, r: Seq<RawValue>, h: HeaderView) -> bool {
        self@ == spec_item_set(r)
    }

    fn read(data: &[u8], header: &TableHeader, format: DataFormat, item_idx: usize) -> (r: Result<ItemSet, TableError>)
    {
        let kinds = Self::kinds(header.tag_count());
        match read_record(data, header, format, item_idx, &kinds) {
            Ok(rec) => Ok(Self::from_record(&rec)),
            Err(e) => Err(e),
        }
    }
}

} // verus!

verus! {

/// A set with its locale found in `locales` by its id, and the locales of
/// its groups' skills found in `skills`.
pub open spec fn set_with_locales(s: ItemSetView, locales: Seq<LocaleView>, skills: Seq<LocaleView>) -> ItemSetView {
    (locale_lookup(locales, s.1), s.1, s.2, s.3, s.4.map_values(|g: SetEffectsView| group_with_locale(g, skills)))
}

/// Reads every set of a set table and attaches the locales of the sets and
/// of their skills.  Fails as the reading of the table does.
pub fn read_items_itemset(data: &[u8], format: DataFormat, locales: &Vec<Locale>, skill_locales: &Vec<Locale>) -> (r: Result<
    Vec<ItemSet>,
    TableError,
>)
    requires
        data@.len() <= usize::MAX / 8,
    ensures
        match spec_header(data@) {
            Ok(h) => match r {
                Ok(v) => all_readable::<ItemSet>(data@, h, format) && v@.len() == h.1 && forall|i: int|
                    0 <= i < v@.len() ==> (#[trigger] v@[i])@ == set_with_locales(
                        spec_item_set(spec_record(data@, h, format, i, set_kinds(h.0.len()))),
                        table_view(locales@),
                        table_view(skill_locales@),
                    ),
                Err(e) => !all_readable::<ItemSet>(data@, h, format) && e == TableError::UnexpectedEnd,
            },
            Err(he) => r is Err && r->Err_0 == he,
        },
{
    let sets = match read_table::<ItemSet>(data, format) {
        Ok(v) => v,
        Err(e) => return Err(e),
    };
    let ghost h = spec_header(data@)->Ok_0;
    let n = sets.len();
    let ghost orig = sets@;
    let mut rest = crate::game_data::catalog::reversed(sets);
    let mut out: Vec<ItemSet> = Vec::new();
    while rest.len() > 0
        invariant
            orig.len() == n,
            out@.len() <= n,
            rest@.len() + out@.len() == n,
            rest@ == orig.skip(out@.len() as int).reverse(),
            holds_all(orig, data@, h, format),
            forall|i: int| 0 <= i < out@.len() ==> (#[trigger] out@[i])@ == set_with_locales(
                spec_item_set(spec_record(data@, h, format, i, set_kinds(h.0.len()))),
                table_view(locales@),
                table_view(skill_locales@),
            ),
        decreases rest@.len(),
    {
        let ghost k = out@.len() as int;
        let mut s = rest.pop().unwrap();
        assert(s == orig[k]) by {
            assert(orig.skip(k).reverse().last() == orig.skip(k)[0]);
        }
        assert(rest@ =~= orig.skip(k + 1).reverse());
        assert(orig[k].read_from(spec_record(data@, h, format, k, ItemSet::record_kinds(h)), h));
        s.locale = find_locale(locales, s.setid.as_str());
        s.set_skill_effects_locale(skill_locales);
        assert(s@ =~= set_with_locales(
            spec_item_set(spec_record(data@, h, format, k, set_kinds(h.0.len()))),
            table_view(locales@),
            table_view(skill_locales@),
        ));
        out.push(s);
    }
    Ok(out)
}

} // verus!

verus! {

/// Every effect group a set keeps has an effect or a skill, and a set has
/// at most one group per group of tags.
pub proof fn law_kept_groups_not_empty(r: Seq<RawValue>, k: int)
    requires
        0 <= k,
    ensures
        set_groups(r, k).len() <= k,
        forall|i: int|
            0 <= i < set_groups(r, k).len() ==> (#[trigger] set_groups(r, k)[i]).2.len() > 0 || set_groups(r, k)[i].3 is Some,
    decreases k,
{
    if k > 0 {
        law_kept_groups_not_empty(r, k - 1);
        if group_kept(r, k - 1) {
            let p = set_groups(r, k - 1);
            assert forall|i: int| 0 <= i < p.len() implies p.push(group_at(r, k - 1))[i] == p[i] by {}
        }
    }
}

} // verus!

verus! {

/// Where a set read from a record comes from: its id is the text at tag 0
/// in upper case, its name the text at tag 1, its items the upper-case ids
/// at tags 2 to 15 that are not "*", in order; and its effect groups come
/// from the blocks of six tags from 16 on, the eight of them kept in order:
/// group `k`'s count at tag 16 + 6k, its effects at the four tags after,
/// its skill at 21 + 6k.
pub proof fn law_item_set_tags(r: Seq<RawValue>, k: int)
    requires
        0 <= k < 8,
    ensures
        spec_item_set(r).1 == field_upper(r, 0),
        spec_item_set(r).2 == field_text(r, 1),
        spec_item_set(r).3 == set_ids(r, 16),
        group_at(r, k).1 == field_u8(r, 16 + 6 * k),
        group_at(r, k).2 == group_effects(r, 16 + 6 * k, 4),
        group_at(r, k).3 == (if field_upper(r, 21 + 6 * k) == seq!['*'] {
            None
        } else {
            Some(field_upper(r, 21 + 6 * k) + "_DESCRIPTION_1"@)
        }),
        set_ids(r, 16).len() <= 14,
        forall|i: int| 0 <= i < set_ids(r, 16).len() ==> exists|t: int| 2 <= t < 16 && has(r, t) && #[trigger] set_ids(
            r,
            16,
        )[i] == field_upper(r, t) && field_upper(r, t) != seq!['*'],
{
    lemma_set_ids_from_tags(r, 16);
    assert forall|i: int| 0 <= i < set_ids(r, 16).len() implies exists|t: int| 2 <= t < 16 && has(r, t)
        && #[trigger] set_ids(r, 16)[i] == field_upper(r, t) && field_upper(r, t) != seq!['*'] by {
        let u = choose|u: int| 2 <= u < 16 && has(r, u) && #[trigger] set_ids(r, 16)[i] == field_upper(r, u)
            && field_upper(r, u) != seq!['*'];
        assert(2 <= u < 16 && has(r, u) && set_ids(r, 16)[i] == field_upper(r, u));
    }
}

/// Each id of `set_ids(r, t)` is a non-"*" upper-case text at a tag from 2
/// to `t - 1`, and there are no more of them than those tags.
proof fn lemma_set_ids_from_tags(r: Seq<RawValue>, t: int)
    ensures
        t >= 2 ==> set_ids(r, t).len() <= t - 2,
        forall|i: int| 0 <= i < set_ids(r, t).len() ==> exists|u: int| 2 <= u < t && has(r, u) && #[trigger] set_ids(
            r,
            t,
        )[i] == field_upper(r, u) && field_upper(r, u) != seq!['*'],
    decreases t,
{
    if t > 2 {
        lemma_set_ids_from_tags(r, t - 1);
        let prev = set_ids(r, t - 1);
        assert forall|i: int| 0 <= i < set_ids(r, t).len() implies exists|u: int| 2 <= u < t && has(r, u)
            && #[trigger] set_ids(r, t)[i] == field_upper(r, u) && field_upper(r, u) != seq!['*'] by {
            if i < prev.len() {
                assert(set_ids(r, t)[i] == prev[i]);
                let u = choose|u: int| 2 <= u < t - 1 && has(r, u) && #[trigger] set_ids(r, t - 1)[i] == field_upper(
                    r,
                    u,
                ) && field_upper(r, u) != seq!['*'];
                assert(2 <= u < t && has(r, u) && set_ids(r, t)[i] == field_upper(r, u));
            } else {
                assert(set_ids(r, t)[i] == field_upper(r, t - 1));
            }
        }
    }
}

} // verus!
