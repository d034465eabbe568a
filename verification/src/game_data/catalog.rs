//! The explorer's catalog: every item by id, in the order they were read,
//! and the per-level tables of tempering, options and quality.
use vstd::prelude::*;

use crate::game_data::accessory::{accessory_kinds, Accessory};
use crate::game_data::item_option::ItemOption;
use crate::game_data::item_quality::ItemQuality;
use crate::game_data::item_set::{first_set_with, set_view, sets_view, ItemSet, ItemSetView, LocaleView};
use crate::game_data::items::{data_id, data_type_code, effect_key_seq, DataType};
use crate::game_data::locale::{locale_lookup, locale_view, table_view, Locale};
use crate::game_data::secondary_weapon::{secondary_weapon_kinds, SecondaryWeapon};
use crate::game_data::tempering::Tempering;
use crate::game_data::weapon::{weapon_kinds, Weapon};
use crate::game_data::{all_readable, read_table, AbstractItem};
use crate::kinds::DataFormat;
use crate::lists::{first_occurrences, lemma_first_occurrences, strings_view, unique};
use crate::outside::{id_members, id_set_index_of, id_set_insert, id_set_new};
use crate::table::{spec_header, spec_record, RawValue, TableError};

verus! {

broadcast use vstd::std_specs::hash::group_hash_axioms;

/// The elements of `v` in reverse order.
pub fn reversed<T>(v: Vec<T>) -> (r: Vec<T>)
    ensures
        r@ == v@.reverse(),
{
    let ghost orig = v@;
    let mut v = v;
    let mut r: Vec<T> = Vec::new();
    while v.len() > 0
        invariant
            v@ == orig.take(v@.len() as int),
            r@ == orig.skip(v@.len() as int).reverse(),
            v@.len() <= orig.len(),
        decreases v@.len(),
    {
        let ghost n = v@.len() as int;
        let x = v.pop().unwrap();
        r.push(x);
        assert(v@ =~= orig.take(n - 1));
        assert(r@ =~= orig.skip(n - 1).reverse());
    }
    assert(orig.skip(0) =~= orig);
    r
}

/// Whether `d` is the weapon read from the record `r`, with its locale, its
/// skill's locale and its set attached from `locales`, `skills` and `sets`.
pub open spec fn prepared_weapon(
    d: DataType,
    r: Seq<RawValue>,
    locales: Seq<LocaleView>,
    skills: Seq<LocaleView>,
    sets: Seq<ItemSetView>,
) -> bool {
    &&& d is Weapon
    &&& d->Weapon_0.fields_read_from(r)
    &&& locale_view(d->Weapon_0.locale) == locale_lookup(locales, d->Weapon_0.id@)
    &&& locale_view(d->Weapon_0.skill_locale) == match d->Weapon_0.skill_effect {
        Some(s) => locale_lookup(skills, s@),
        None => None,
    }
    &&& set_view(d->Weapon_0.item_set) == first_set_with(sets, d->Weapon_0.id@)
}

/// Whether `d` is the accessory read from the record `r`, with its locale, its
/// skill's locale and its set attached from `locales`, `skills` and `sets`.
pub open spec fn prepared_accessory(
    d: DataType,
    r: Seq<RawValue>,
    locales: Seq<LocaleView>,
    skills: Seq<LocaleView>,
    sets: Seq<ItemSetView>,
) -> bool {
    &&& d is Accessory
    &&& d->Accessory_0.fields_read_from(r)
    &&& locale_view(d->Accessory_0.locale) == locale_lookup(locales, d->Accessory_0.id@)
    &&& locale_view(d->Accessory_0.skill_locale) == match d->Accessory_0.skill_effect {
        Some(s) => locale_lookup(skills, s@),
        None => None,
    }
    &&& set_view(d->Accessory_0.item_set) == first_set_with(sets, d->Accessory_0.id@)
}

/// Whether `d` is the secondary weapon read from the record `r`, with its locale, its
/// skill's locale and its set attached from `locales`, `skills` and `sets`.
pub open spec fn prepared_secondary_weapon(
    d: DataType,
    r: Seq<RawValue>,
    locales: Seq<LocaleView>,
    skills: Seq<LocaleView>,
    sets: Seq<ItemSetView>,
) -> bool {
    &&& d is SecondaryWeapon
    &&& d->SecondaryWeapon_0.fields_read_from(r)
    &&& locale_view(d->SecondaryWeapon_0.locale) == locale_lookup(locales, d->SecondaryWeapon_0.id@)
    &&& locale_view(d->SecondaryWeapon_0.skill_locale) == match d->SecondaryWeapon_0.skill_effect {
        Some(s) => locale_lookup(skills, s@),
        None => None,
    }
    &&& set_view(d->SecondaryWeapon_0.item_set) == first_set_with(sets, d->SecondaryWeapon_0.id@)
}

/// The ids of the items `s`.
pub open spec fn ids_of(s: Seq<DataType>) -> Seq<Seq<char>> {
    s.map_values(|d: DataType| data_id(d))
}

/// The items after adding `d`: an item with the same id is replaced where
/// it stands; otherwise `d` goes last.
pub open spec fn insert_entry(s: Seq<DataType>, d: DataType) -> Seq<DataType> {
    if ids_of(s).contains(data_id(d)) {
        s.update(choose|i: int| 0 <= i < s.len() && data_id(#[trigger] s[i]) == data_id(d), d)
    } else {
        s.push(d)
    }
}

/// The items after adding each of `ds` in turn.
pub open spec fn insert_all(s: Seq<DataType>, ds: Seq<DataType>) -> Seq<DataType>
    decreases ds.len(),
{
    if ds.len() == 0 {
        s
    } else {
        insert_entry(insert_all(s, ds.drop_last()), ds.last())
    }
}

/// The items by id, in the order their ids were first added.
pub struct GameData {
    ids: indexmap::IndexSet<String>,
    items: Vec<DataType>,
}

impl GameData {
    /// The items, in order.
    pub closed spec fn entries(&self) -> Seq<DataType> {
        self.items@
    }

    /// The ids kept beside the items are theirs, each once.
    pub closed spec fn wf(&self) -> bool {
        &&& id_members(self.ids) == ids_of(self.items@)
        &&& ids_of(self.items@).no_duplicates()
    }

    /// No two items have the same id.
    pub proof fn lemma_unique_ids(&self)
        requires
            self.wf(),
        ensures
            ids_of(self.entries()).no_duplicates(),
    {
    }

    /// An empty catalog.
    pub fn new() -> (g: GameData)
        ensures
            g.wf(),
            g.entries() == Seq::<DataType>::empty(),
    {
        let g = GameData { ids: id_set_new(), items: Vec::new() };
        assert(ids_of(g.items@) =~= Seq::<Seq<char>>::empty());
        g
    }

    /// The number of items.
    pub fn len(&self) -> (n: usize)
        ensures
            n == self.entries().len(),
    {
        self.items.len()
    }

    /// The item at position `i`.
    pub fn get_index(&self, i: usize) -> (r: Option<&DataType>)
        ensures
            match r {
                Some(d) => i < self.entries().len() && *d == self.entries()[i as int],
                None => i >= self.entries().len(),
            },
    {
        if i < self.items.len() {
            Some(&self.items[i])
        } else {
            None
        }
    }

    /// The item with id `id`.
    pub fn get(&self, id: &str) -> (r: Option<&DataType>)
        requires
            self.wf(),
        ensures
            match r {
                Some(d) => self.entries().contains(*d) && data_id(*d) == id@,
                None => !ids_of(self.entries()).contains(id@),
            },
    {
        match id_set_index_of(&self.ids, id) {
            Some(i) => {
                assert(ids_of(self.items@)[i as int] == id@);
                Some(&self.items[i])
            },
            None => None,
        }
    }

    /// Adds `item`: an item with the same id is replaced where it stands;
    /// otherwise `item` goes last.
    pub fn insert(&mut self, item: DataType)
        requires
            old(self).wf(),
        ensures
            final(self).wf(),
            final(self).entries() == insert_entry(old(self).entries(), item),
    {
        let id = item.get_id();
        let ghost s = self.items@;
        match id_set_index_of(&self.ids, id.as_str()) {
            Some(i) => {
                let ghost j = choose|j: int| 0 <= j < s.len() && data_id(#[trigger] s[j]) == data_id(item);
                assert(ids_of(s)[i as int] == data_id(item));
                assert(0 <= j < s.len() && data_id(s[j]) == data_id(item));
                assert(ids_of(s)[j] == ids_of(s)[i as int]);
                assert(j == i);
                self.items[i] = item;
                assert(ids_of(self.items@) =~= ids_of(s));
            },
            None => {
                id_set_insert(&mut self.ids, id);
                self.items.push(item);
                assert(ids_of(self.items@) =~= ids_of(s).push(data_id(item)));
                assert forall|a: int, b: int| 0 <= a < b < ids_of(self.items@).len() implies ids_of(self.items@)[a]
                    != ids_of(self.items@)[b] by {
                    if b == s.len() {
                        assert(ids_of(s)[a] == ids_of(self.items@)[a]);
                    }
                }
            },
        }
    }

    /// Adds each of `items` in turn.
    pub fn add_items(&mut self, items: Vec<DataType>)
        requires
            old(self).wf(),
        ensures
            final(self).wf(),
            final(self).entries() == insert_all(old(self).entries(), items@),
    {
        let n = items.len();
        let ghost orig = items@;
        let ghost start = self.items@;
        let mut rest = reversed(items);
        let mut k: usize = 0;
        while rest.len() > 0
            invariant
                self.wf(),
                k <= orig.len(),
                rest@.len() + k == orig.len(),
                orig.len() == n,
                rest@ == orig.skip(k as int).reverse(),
                self.entries() == insert_all(start, orig.take(k as int)),
            decreases rest@.len(),
        {
            let x = rest.pop().unwrap();
            assert(x == orig[k as int]) by {
                assert(orig.skip(k as int).reverse().last() == orig.skip(k as int)[0]);
            }
            assert(rest@ =~= orig.skip(k + 1).reverse());
            assert(orig.take(k + 1).drop_last() =~= orig.take(k as int));
            self.insert(x);
            k = k + 1;
        }
        assert(orig.skip(k as int).len() == 0);
        assert(orig.take(k as int) =~= orig);
    }

    /// The effect keys of all items, each once, in the order first met.
    pub fn get_all_effects(&self) -> (v: Vec<String>)
        ensures
            strings_view(v@) == first_occurrences(all_effect_keys(self.entries())),
            strings_view(v@).no_duplicates(),
            forall|k: Seq<char>| #[trigger] strings_view(v@).contains(k) <==> all_effect_keys(self.entries()).contains(k),
    {
        let mut all: Vec<String> = Vec::new();
        let mut i: usize = 0;
        while i < self.items.len()
            invariant
                i <= self.items@.len(),
                strings_view(all@) == all_effect_keys(self.items@.take(i as int)),
            decreases self.items@.len() - i,
        {
            assert(self.items@.take(i + 1).drop_last() =~= self.items@.take(i as int));
            let keys = self.items[i].get_effects();
            let ghost before = all@;
            let mut j: usize = 0;
            while j < keys.len()
                invariant
                    j <= keys@.len(),
                    strings_view(all@) == strings_view(before) + strings_view(keys@).take(j as int),
                decreases keys@.len() - j,
            {
                let ghost b2 = all@;
                all.push(keys[j].clone());
                assert(strings_view(all@) =~= strings_view(b2).push(keys@[j as int]@));
                assert(strings_view(keys@).take(j + 1) =~= strings_view(keys@).take(j as int).push(keys@[j as int]@));
                j = j + 1;
            }
            assert(strings_view(keys@).take(j as int) =~= strings_view(keys@));
            i = i + 1;
        }
        assert(self.items@.take(i as int) =~= self.items@);
        let v = unique(&all);
        proof {
            lemma_first_occurrences(all_effect_keys(self.entries()));
        }
        v
    }

    /// The types with "_01" appended of all items, each once, in the order
    /// first met: the tempering tables to read.
    pub fn unique_full_types(&self) -> (v: Vec<String>)
        ensures
            strings_view(v@) == first_occurrences(self.entries().map_values(|d: DataType| data_type_code(d) + "_01"@)),
    {
        let mut all: Vec<String> = Vec::new();
        let mut i: usize = 0;
        while i < self.items.len()
            invariant
                i <= self.items@.len(),
                strings_view(all@) == self.items@.take(i as int).map_values(|d: DataType| data_type_code(d) + "_01"@),
            decreases self.items@.len() - i,
        {
            let ghost before = all@;
            let t = self.items[i].get_full_type();
            all.push(t);
            assert(strings_view(all@) =~= strings_view(before).push(t@));
            assert(self.items@.take(i + 1) =~= self.items@.take(i as int).push(self.items@[i as int]));
            assert(strings_view(all@) =~= self.items@.take(i + 1).map_values(|d: DataType| data_type_code(d) + "_01"@));
            i = i + 1;
        }
        assert(self.items@.take(i as int) =~= self.items@);
        unique(&all)
    }

    /// The types of all items, each once, in the order first met: the
    /// quality tables to read.
    pub fn unique_types(&self) -> (v: Vec<String>)
        ensures
            strings_view(v@) == first_occurrences(self.entries().map_values(|d: DataType| data_type_code(d))),
    {
        let mut all: Vec<String> = Vec::new();
        let mut i: usize = 0;
        while i < self.items.len()
            invariant
                i <= self.items@.len(),
                strings_view(all@) == self.items@.take(i as int).map_values(|d: DataType| data_type_code(d)),
            decreases self.items@.len() - i,
        {
            let ghost before = all@;
            let t = self.items[i].get_type();
            all.push(t);
            assert(strings_view(all@) =~= strings_view(before).push(t@));
            assert(self.items@.take(i + 1) =~= self.items@.take(i as int).push(self.items@[i as int]));
            assert(strings_view(all@) =~= self.items@.take(i + 1).map_values(|d: DataType| data_type_code(d)));
            i = i + 1;
        }
        assert(self.items@.take(i as int) =~= self.items@);
        unique(&all)
    }
}

/// The effect keys of the items `s`, item by item, repeats included.
pub open spec fn all_effect_keys(s: Seq<DataType>) -> Seq<Seq<char>>
    decreases s.len(),
{
    if s.len() == 0 {
        Seq::empty()
    } else {
        all_effect_keys(s.drop_last()) + first_occurrences(effect_key_seq(s.last()))
    }
}

/// Reads every item of a Weapon table and attaches to each its locale, its
/// skill's locale and its set.  Fails as the reading of the table does.
pub fn prepare_weapons(
    data: &[u8],
    format: DataFormat,
    locales: &Vec<Locale>,
    skill_locales: &Vec<Locale>,
    item_sets: &Vec<ItemSet>,
) -> (r: Result<Vec<DataType>, TableError>)
    requires
        data@.len() <= usize::MAX / 8,
    ensures
        match spec_header(data@) {
            Ok(h) => match r {
                Ok(v) => all_readable::<Weapon>(data@, h, format) && v@.len() == h.1 && forall|i: int|
                    0 <= i < v@.len() ==> #[trigger] prepared_weapon(
                        v@[i],
                        spec_record(data@, h, format, i, weapon_kinds(h.0.len())),
                        table_view(locales@),
                        table_view(skill_locales@),
                        sets_view(item_sets@),
                    ),
                Err(e) => !all_readable::<Weapon>(data@, h, format) && e == TableError::UnexpectedEnd,
            },
            Err(he) => r == Err::<Vec<DataType>, TableError>(he),
        },
{
    let read = read_table::<Weapon>(data, format);
    let items = match read {
        Ok(v) => v,
        Err(e) => return Err(e),
    };
    let ghost h = match spec_header(data@) {
        Ok(h) => h,
        Err(_) => arbitrary(),
    };
    let ghost orig = items@;
    proof {
        assert forall|i: int| 0 <= i < orig.len() implies #[trigger] orig[i].fields_read_from(
            spec_record(data@, h, format, i, weapon_kinds(h.0.len())),
        ) && orig[i].locale is None && orig[i].skill_locale is None by {
            assert(orig[i].read_from(spec_record(data@, h, format, i, Weapon::record_kinds(h)), h));
        }
    }
    let mut rest = reversed(items);
    let mut out: Vec<DataType> = Vec::new();
    while rest.len() > 0
        invariant
            rest@.len() <= orig.len(),
            rest@ == orig.skip(out@.len() as int).reverse(),
            out@.len() + rest@.len() == orig.len(),
            forall|i: int| 0 <= i < orig.len() ==> #[trigger] orig[i].fields_read_from(
                spec_record(data@, h, format, i, weapon_kinds(h.0.len())),
            ) && orig[i].locale is None && orig[i].skill_locale is None,
            forall|i: int| 0 <= i < out@.len() ==> #[trigger] prepared_weapon(
                out@[i],
                spec_record(data@, h, format, i, weapon_kinds(h.0.len())),
                table_view(locales@),
                table_view(skill_locales@),
                sets_view(item_sets@),
            ),
        decreases rest@.len(),
    {
        let ghost k = out@.len() as int;
        let mut x = rest.pop().unwrap();
        assert(x == orig[k]) by {
            assert(orig.skip(k).reverse().last() == orig.skip(k)[0]);
        }
        assert(rest@ =~= orig.skip(k + 1).reverse());
        assert(orig[k].fields_read_from(spec_record(data@, h, format, k, weapon_kinds(h.0.len()))));
        x.set_locale(locales, skill_locales);
        x.set_item_set(item_sets);
        let d = DataType::Weapon(x);
        assert(prepared_weapon(
            d,
            spec_record(data@, h, format, k, weapon_kinds(h.0.len())),
            table_view(locales@),
            table_view(skill_locales@),
            sets_view(item_sets@),
        ));
        out.push(d);
    }
    Ok(out)
}

/// Reads every item of a Accessory table and attaches to each its locale, its
/// skill's locale and its set.  Fails as the reading of the table does.
pub fn prepare_accessories(
    data: &[u8],
    format: DataFormat,
    locales: &Vec<Locale>,
    skill_locales: &Vec<Locale>,
    item_sets: &Vec<ItemSet>,
) -> (r: Result<Vec<DataType>, TableError>)
    requires
        data@.len() <= usize::MAX / 8,
    ensures
        match spec_header(data@) {
            Ok(h) => match r {
                Ok(v) => all_readable::<Accessory>(data@, h, format) && v@.len() == h.1 && forall|i: int|
                    0 <= i < v@.len() ==> #[trigger] prepared_accessory(
                        v@[i],
                        spec_record(data@, h, format, i, accessory_kinds(h.0.len())),
                        table_view(locales@),
                        table_view(skill_locales@),
                        sets_view(item_sets@),
                    ),
                Err(e) => !all_readable::<Accessory>(data@, h, format) && e == TableError::UnexpectedEnd,
            },
            Err(he) => r == Err::<Vec<DataType>, TableError>(he),
        },
{
    let read = read_table::<Accessory>(data, format);
    let items = match read {
        Ok(v) => v,
        Err(e) => return Err(e),
    };
    let ghost h = match spec_header(data@) {
        Ok(h) => h,
        Err(_) => arbitrary(),
    };
    let ghost orig = items@;
    proof {
        assert forall|i: int| 0 <= i < orig.len() implies #[trigger] orig[i].fields_read_from(
            spec_record(data@, h, format, i, accessory_kinds(h.0.len())),
        ) && orig[i].locale is None && orig[i].skill_locale is None by {
            assert(orig[i].read_from(spec_record(data@, h, format, i, Accessory::record_kinds(h)), h));
        }
    }
    let mut rest = reversed(items);
    let mut out: Vec<DataType> = Vec::new();
    while rest.len() > 0
        invariant
            rest@.len() <= orig.len(),
            rest@ == orig.skip(out@.len() as int).reverse(),
            out@.len() + rest@.len() == orig.len(),
            forall|i: int| 0 <= i < orig.len() ==> #[trigger] orig[i].fields_read_from(
                spec_record(data@, h, format, i, accessory_kinds(h.0.len())),
            ) && orig[i].locale is None && orig[i].skill_locale is None,
            forall|i: int| 0 <= i < out@.len() ==> #[trigger] prepared_accessory(
                out@[i],
                spec_record(data@, h, format, i, accessory_kinds(h.0.len())),
                table_view(locales@),
                table_view(skill_locales@),
                sets_view(item_sets@),
            ),
        decreases rest@.len(),
    {
        let ghost k = out@.len() as int;
        let mut x = rest.pop().unwrap();
        assert(x == orig[k]) by {
            assert(orig.skip(k).reverse().last() == orig.skip(k)[0]);
        }
        assert(rest@ =~= orig.skip(k + 1).reverse());
        assert(orig[k].fields_read_from(spec_record(data@, h, format, k, accessory_kinds(h.0.len()))));
        x.set_locale(locales, skill_locales);
        x.set_item_set(item_sets);
        let d = DataType::Accessory(x);
        assert(prepared_accessory(
            d,
            spec_record(data@, h, format, k, accessory_kinds(h.0.len())),
            table_view(locales@),
            table_view(skill_locales@),
            sets_view(item_sets@),
        ));
        out.push(d);
    }
    Ok(out)
}

/// Reads every item of a SecondaryWeapon table and attaches to each its locale, its
/// skill's locale and its set.  Fails as the reading of the table does.
pub fn prepare_secondary_weapons(
    data: &[u8],
    format: DataFormat,
    locales: &Vec<Locale>,
    skill_locales: &Vec<Locale>,
    item_sets: &Vec<ItemSet>,
) -> (r: Result<Vec<DataType>, TableError>)
    requires
        data@.len() <= usize::MAX / 8,
    ensures
        match spec_header(data@) {
            Ok(h) => match r {
                Ok(v) => all_readable::<SecondaryWeapon>(data@, h, format) && v@.len() == h.1 && forall|i: int|
                    0 <= i < v@.len() ==> #[trigger] prepared_secondary_weapon(
                        v@[i],
                        spec_record(data@, h, format, i, secondary_weapon_kinds(h.0.len())),
                        table_view(locales@),
                        table_view(skill_locales@),
                        sets_view(item_sets@),
                    ),
                Err(e) => !all_readable::<SecondaryWeapon>(data@, h, format) && e == TableError::UnexpectedEnd,
            },
            Err(he) => r == Err::<Vec<DataType>, TableError>(he),
        },
{
    let read = read_table::<SecondaryWeapon>(data, format);
    let items = match read {
        Ok(v) => v,
        Err(e) => return Err(e),
    };
    let ghost h = match spec_header(data@) {
        Ok(h) => h,
        Err(_) => arbitrary(),
    };
    let ghost orig = items@;
    proof {
        assert forall|i: int| 0 <= i < orig.len() implies #[trigger] orig[i].fields_read_from(
            spec_record(data@, h, format, i, secondary_weapon_kinds(h.0.len())),
        ) && orig[i].locale is None && orig[i].skill_locale is None by {
            assert(orig[i].read_from(spec_record(data@, h, format, i, SecondaryWeapon::record_kinds(h)), h));
        }
    }
    let mut rest = reversed(items);
    let mut out: Vec<DataType> = Vec::new();
    while rest.len() > 0
        invariant
            rest@.len() <= orig.len(),
            rest@ == orig.skip(out@.len() as int).reverse(),
            out@.len() + rest@.len() == orig.len(),
            forall|i: int| 0 <= i < orig.len() ==> #[trigger] orig[i].fields_read_from(
                spec_record(data@, h, format, i, secondary_weapon_kinds(h.0.len())),
            ) && orig[i].locale is None && orig[i].skill_locale is None,
            forall|i: int| 0 <= i < out@.len() ==> #[trigger] prepared_secondary_weapon(
                out@[i],
                spec_record(data@, h, format, i, secondary_weapon_kinds(h.0.len())),
                table_view(locales@),
                table_view(skill_locales@),
                sets_view(item_sets@),
            ),
        decreases rest@.len(),
    {
        let ghost k = out@.len() as int;
        let mut x = rest.pop().unwrap();
        assert(x == orig[k]) by {
            assert(orig.skip(k).reverse().last() == orig.skip(k)[0]);
        }
        assert(rest@ =~= orig.skip(k + 1).reverse());
        assert(orig[k].fields_read_from(spec_record(data@, h, format, k, secondary_weapon_kinds(h.0.len()))));
        x.set_locale(locales, skill_locales);
        x.set_item_set(item_sets);
        let d = DataType::SecondaryWeapon(x);
        assert(prepared_secondary_weapon(
            d,
            spec_record(data@, h, format, k, secondary_weapon_kinds(h.0.len())),
            table_view(locales@),
            table_view(skill_locales@),
            sets_view(item_sets@),
        ));
        out.push(d);
    }
    Ok(out)
}

} // verus!

verus! {

impl GameData {
    /// The position of the item with id `id`.
    pub fn index_of(&self, id: &str) -> (r: Option<usize>)
        requires
            self.wf(),
        ensures
            match r {
                Some(i) => ids_of(self.entries()).contains(id@) && i as int == ids_of(self.entries()).index_of(id@),
                None => !ids_of(self.entries()).contains(id@),
            },
    {
        match id_set_index_of(&self.ids, id) {
            Some(i) => {
                proof {
                    crate::game_data_view::lemma_index_of_unique(ids_of(self.items@), id@, i as int);
                }
                Some(i)
            },
            None => None,
        }
    }
}

} // verus!

verus! {

/// Adding an item to a catalog whose ids are distinct keeps them distinct;
/// afterwards the item is found by its id, every other item is still
/// there, and the catalog grew by one exactly when the id was new.
pub proof fn law_insert_then_get(s: Seq<DataType>, d: DataType)
    requires
        ids_of(s).no_duplicates(),
    ensures
        ids_of(insert_entry(s, d)).no_duplicates(),
        insert_entry(s, d).contains(d),
        forall|i: int|
            0 <= i < insert_entry(s, d).len() && data_id(#[trigger] insert_entry(s, d)[i]) == data_id(d) ==> insert_entry(
                s,
                d,
            )[i] == d,
        forall|e: DataType| s.contains(e) && data_id(e) != data_id(d) ==> #[trigger] insert_entry(s, d).contains(e),
        insert_entry(s, d).len() == if ids_of(s).contains(data_id(d)) {
            s.len()
        } else {
            s.len() + 1
        },
{
    let r = insert_entry(s, d);
    if ids_of(s).contains(data_id(d)) {
        let k = choose|k: int| 0 <= k < ids_of(s).len() && ids_of(s)[k] == data_id(d);
        assert(0 <= k < s.len() && data_id(s[k]) == data_id(d));
        let j = choose|j: int| 0 <= j < s.len() && data_id(#[trigger] s[j]) == data_id(d);
        assert(ids_of(s)[j] == ids_of(s)[k]);
        assert(r == s.update(j, d));
        assert(r[j] == d);
        assert(ids_of(r) =~= ids_of(s));
        assert forall|i: int| 0 <= i < r.len() && data_id(#[trigger] r[i]) == data_id(d) implies r[i] == d by {
            if i != j {
                assert(ids_of(s)[i] == ids_of(s)[j]);
            }
        }
        assert forall|e: DataType| s.contains(e) && data_id(e) != data_id(d) implies #[trigger] r.contains(e) by {
            let m = choose|m: int| 0 <= m < s.len() && s[m] == e;
            assert(m != j);
            assert(r[m] == e);
        }
    } else {
        assert(r == s.push(d));
        assert(r[s.len() as int] == d);
        assert(ids_of(r) =~= ids_of(s).push(data_id(d)));
        assert forall|a: int, b: int| 0 <= a < b < ids_of(r).len() implies ids_of(r)[a] != ids_of(r)[b] by {
            if b == s.len() {
                assert(ids_of(s)[a] == ids_of(r)[a]);
            }
        }
        assert forall|i: int| 0 <= i < r.len() && data_id(#[trigger] r[i]) == data_id(d) implies r[i] == d by {
            if i < s.len() {
                assert(ids_of(s)[i] == data_id(d));
            }
        }
        assert forall|e: DataType| s.contains(e) && data_id(e) != data_id(d) implies #[trigger] r.contains(e) by {
            let m = choose|m: int| 0 <= m < s.len() && s[m] == e;
            assert(r[m] == e);
        }
    }
}

} // verus!
