//! Fellow equipment, as the fellow equipment table holds them.
use vstd::prelude::*;

use crate::effects::ItemEffect;
use crate::fields::{
    effect_view, field_bits, field_classes, field_effect, field_flag, field_grade, field_nonzero_bits, field_text,
    field_u16, field_u8, field_upper, get_bits, get_classes, get_effect, get_flag, get_grade, get_nonzero_bits,
    get_text, get_u16, get_u8, get_upper,
};
use crate::game_data::locale::{find_locale, locale_lookup, locale_view, table_view, Locale};
use crate::game_data::AbstractItem;
use crate::kinds::{ClassSet, DataFormat, Grade};
use crate::table::{
    read_record, record_readable, spec_record, table_ok, FieldKind, HeaderView, RawField, RawValue, TableError,
    TableHeader,
};
use crate::game_data::item_set::{find_item_set, first_set_with, set_view, sets_view, ItemSet};

verus! {

/// A piece of fellow equipment.  Numbers the table stores as `f32` are kept as their bit
/// patterns.
#[derive(Debug)]
pub struct FellowEquip {
    pub item_set: Option<ItemSet>,
    pub locale: Option<Locale>,
    pub skill_locale: Option<Locale>,
    pub id: String,
    pub name: String,
    pub development_use: u32,
    pub required_level: u8,
    pub restricted_level: u32,
    pub item_level: u16,
    pub usable_class: ClassSet,
    pub grade: Option<Grade>,
    pub fellow_equip_type: String,
    pub durability: u32,
    pub purchase_price: u32,
    pub disposal_price: u32,
    pub max_ep_plus: Option<u32>,
    pub equip_effect_1: Option<ItemEffect>,
    pub equip_effect_2: Option<ItemEffect>,
    pub equip_effect_3: Option<ItemEffect>,
    pub equip_effect_4: Option<ItemEffect>,
    pub variable_option_1: String,
    pub variable_option_min_1: u32,
    pub variable_option_max_1: u32,
    pub variable_option_2: String,
    pub variable_option_min_2: u32,
    pub variable_option_max_2: u32,
    pub no_drop: u32,
    pub untradeable: bool,
    pub unsellable: bool,
    pub indestructible: bool,
    pub drop_level_check: String,
    pub binding: String,
    pub binding_target: String,
    pub binding_release_count: u32,
    pub usage_restriction: String,
    pub dyeable: u32,
    pub sale_agency_category: String,
    pub usage_period: u32,
    pub contents_level: u32,
    pub unified_channel_disabled: u32,
    pub equip_condition: u32,
}

/// How a record of this table is read: text at tags 0, 1, 6, 8, 13, 14, 15, 16,
/// 17, 20, 27, 28, 29, 31, 33; numbers at tags 2, 3, 4, 5, 7, 9, 10, 11, 12,
/// 18, 19, 21, 22, 23, 24, 25, 26, 30, 32, 34, 35, 36, 37; nothing else.
pub open spec fn fellow_equip_kind(t: int) -> FieldKind {
    if t == 0 || t == 1 || t == 6 || t == 8 || t == 13 || t == 14 || t == 15 || t == 16
        || t == 17 || t == 20 || t == 27 || t == 28 || t == 29 || t == 31 || t == 33 {
        FieldKind::Text
    } else if t == 2 || t == 3 || t == 4 || t == 5 || t == 7 || t == 9 || t == 10 || t == 11
        || t == 12 || t == 18 || t == 19 || t == 21 || t == 22 || t == 23 || t == 24
        || t == 25 || t == 26 || t == 30 || t == 32 || t == 34 || t == 35 || t == 36
        || t == 37 {
        FieldKind::Number
    } else {
        FieldKind::Skip
    }
}

/// The kinds of the tags of a table with `n` tags.
pub open spec fn fellow_equip_kinds(n: nat) -> Seq<FieldKind> {
    Seq::new(n, |t: int| fellow_equip_kind(t))
}

impl FellowEquip {
    /// Whether each field read from the table is what the record `r` holds
    /// at its tag.
    pub open spec fn fields_read_from(&self, r: Seq<RawValue>) -> bool {
        &&& self.id@ == field_upper(r, 0)
        &&& self.name@ == field_text(r, 1)
        &&& self.development_use == field_bits(r, 2)
        &&& self.required_level == field_u8(r, 3)
        &&& self.restricted_level == field_bits(r, 4)
        &&& self.item_level == field_u16(r, 5)
        &&& self.usable_class@ == field_classes(r, 6)
        &&& self.grade == field_grade(r, 7)
        &&& self.fellow_equip_type@ == field_text(r, 8)
        &&& self.durability == field_bits(r, 9)
        &&& self.purchase_price == field_bits(r, 10)
        &&& self.disposal_price == field_bits(r, 11)
        &&& self.max_ep_plus == field_nonzero_bits(r, 12)
        &&& effect_view(self.equip_effect_1) == field_effect(r, 13)
        &&& effect_view(self.equip_effect_2) == field_effect(r, 14)
        &&& effect_view(self.equip_effect_3) == field_effect(r, 15)
        &&& effect_view(self.equip_effect_4) == field_effect(r, 16)
        &&& self.variable_option_1@ == field_text(r, 17)
        &&& self.variable_option_min_1 == field_bits(r, 18)
        &&& self.variable_option_max_1 == field_bits(r, 19)
        &&& self.variable_option_2@ == field_text(r, 20)
        &&& self.variable_option_min_2 == field_bits(r, 21)
        &&& self.variable_option_max_2 == field_bits(r, 22)
        &&& self.no_drop == field_bits(r, 23)
        &&& self.untradeable == field_flag(r, 24)
        &&& self.unsellable == field_flag(r, 25)
        &&& self.indestructible == field_flag(r, 26)
        &&& self.drop_level_check@ == field_text(r, 27)
        &&& self.binding@ == field_text(r, 28)
        &&& self.binding_target@ == field_text(r, 29)
        &&& self.binding_release_count == field_bits(r, 30)
        &&& self.usage_restriction@ == field_text(r, 31)
        &&& self.dyeable == field_bits(r, 32)
        &&& self.sale_agency_category@ == field_text(r, 33)
        &&& self.usage_period == field_bits(r, 34)
        &&& self.contents_level == field_bits(r, 35)
        &&& self.unified_channel_disabled == field_bits(r, 36)
        &&& self.equip_condition == field_bits(r, 37)
    }

    /// Whether this value is what reading the record `r` gives: its fields
    /// as `r` holds them, and nothing attached yet.
    pub open spec fn is_read_from(&self, r: Seq<RawValue>) -> bool {
        &&& self.fields_read_from(r)
        &&& self.item_set is None
        &&& self.locale is None
        &&& self.skill_locale is None
    }

    /// Whether the fields read from the table are equal in `self` and `other`.
    pub open spec fn same_fields(&self, other: &Self) -> bool {
        &&& self.id == other.id
        &&& self.name == other.name
        &&& self.development_use == other.development_use
        &&& self.required_level == other.required_level
        &&& self.restricted_level == other.restricted_level
        &&& self.item_level == other.item_level
        &&& self.usable_class == other.usable_class
        &&& self.grade == other.grade
        &&& self.fellow_equip_type == other.fellow_equip_type
        &&& self.durability == other.durability
        &&& self.purchase_price == other.purchase_price
        &&& self.disposal_price == other.disposal_price
        &&& self.max_ep_plus == other.max_ep_plus
        &&& self.equip_effect_1 == other.equip_effect_1
        &&& self.equip_effect_2 == other.equip_effect_2
        &&& self.equip_effect_3 == other.equip_effect_3
        &&& self.equip_effect_4 == other.equip_effect_4
        &&& self.variable_option_1 == other.variable_option_1
        &&& self.variable_option_min_1 == other.variable_option_min_1
        &&& self.variable_option_max_1 == other.variable_option_max_1
        &&& self.variable_option_2 == other.variable_option_2
        &&& self.variable_option_min_2 == other.variable_option_min_2
        &&& self.variable_option_max_2 == other.variable_option_max_2
        &&& self.no_drop == other.no_drop
        &&& self.untradeable == other.untradeable
        &&& self.unsellable == other.unsellable
        &&& self.indestructible == other.indestructible
        &&& self.drop_level_check == other.drop_level_check
        &&& self.binding == other.binding
        &&& self.binding_target == other.binding_target
        &&& self.binding_release_count == other.binding_release_count
        &&& self.usage_restriction == other.usage_restriction
        &&& self.dyeable == other.dyeable
        &&& self.sale_agency_category == other.sale_agency_category
        &&& self.usage_period == other.usage_period
        &&& self.contents_level == other.contents_level
        &&& self.unified_channel_disabled == other.unified_channel_disabled
        &&& self.equip_condition == other.equip_condition
    }

    /// The kind of tag `t`.
    pub fn kind_at(t: usize) -> (k: FieldKind)
        ensures
            k == fellow_equip_kind(t as int),
    {
        if t == 0 || t == 1 || t == 6 || t == 8 || t == 13 || t == 14 || t == 15 || t == 16
            || t == 17 || t == 20 || t == 27 || t == 28 || t == 29 || t == 31 || t == 33 {
            FieldKind::Text
        } else if t == 2 || t == 3 || t == 4 || t == 5 || t == 7 || t == 9 || t == 10 || t == 11
            || t == 12 || t == 18 || t == 19 || t == 21 || t == 22 || t == 23 || t == 24
            || t == 25 || t == 26 || t == 30 || t == 32 || t == 34 || t == 35 || t == 36
            || t == 37 {
            FieldKind::Number
        } else {
            FieldKind::Skip
        }
    }

    /// The kinds of the `n` tags of a record.
    pub fn kinds(n: usize) -> (v: Vec<FieldKind>)
        ensures
            v@ == fellow_equip_kinds(n as nat),
    {
        let mut v: Vec<FieldKind> = Vec::new();
        let mut t: usize = 0;
        while t < n
            invariant
                t <= n,
                v@ == fellow_equip_kinds(t as nat),
            decreases n - t,
        {
            v.push(Self::kind_at(t));
            assert(v@ =~= fellow_equip_kinds((t + 1) as nat));
            t = t + 1;
        }
        v
    }

    /// The value the fields `rec` hold.
    pub fn from_record(rec: &Vec<RawField>) -> (x: FellowEquip)
        ensures
            x.is_read_from(rec@.map_values(|f: RawField| f@)),
    {
        FellowEquip {
            item_set: None,
            locale: None,
            skill_locale: None,
            id: get_upper(rec, 0),
            name: get_text(rec, 1),
            development_use: get_bits(rec, 2),
            required_level: get_u8(rec, 3),
            restricted_level: get_bits(rec, 4),
            item_level: get_u16(rec, 5),
            usable_class: get_classes(rec, 6),
            grade: get_grade(rec, 7),
            fellow_equip_type: get_text(rec, 8),
            durability: get_bits(rec, 9),
            purchase_price: get_bits(rec, 10),
            disposal_price: get_bits(rec, 11),
            max_ep_plus: get_nonzero_bits(rec, 12),
            equip_effect_1: get_effect(rec, 13),
            equip_effect_2: get_effect(rec, 14),
            equip_effect_3: get_effect(rec, 15),
            equip_effect_4: get_effect(rec, 16),
            variable_option_1: get_text(rec, 17),
            variable_option_min_1: get_bits(rec, 18),
            variable_option_max_1: get_bits(rec, 19),
            variable_option_2: get_text(rec, 20),
            variable_option_min_2: get_bits(rec, 21),
            variable_option_max_2: get_bits(rec, 22),
            no_drop: get_bits(rec, 23),
            untradeable: get_flag(rec, 24),
            unsellable: get_flag(rec, 25),
            indestructible: get_flag(rec, 26),
            drop_level_check: get_text(rec, 27),
            binding: get_text(rec, 28),
            binding_target: get_text(rec, 29),
            binding_release_count: get_bits(rec, 30),
            usage_restriction: get_text(rec, 31),
            dyeable: get_bits(rec, 32),
            sale_agency_category: get_text(rec, 33),
            usage_period: get_bits(rec, 34),
            contents_level: get_bits(rec, 35),
            unified_channel_disabled: get_bits(rec, 36),
            equip_condition: get_bits(rec, 37),
        }
    }

    /// Attaches the locale that `locales` gives for the id.
    pub fn set_locale(&mut self, locales: &Vec<Locale>)
        ensures
            final(self).same_fields(old(self)),
            locale_view(final(self).locale) == locale_lookup(table_view(locales@), old(self).id@),
    {
        self.locale = find_locale(locales, self.id.as_str());
    }

    /// Attaches the first of `item_sets` that lists this item.
    pub fn set_item_set(&mut self, item_sets: &Vec<ItemSet>)
        ensures
            final(self).same_fields(old(self)),
            final(self).locale == old(self).locale,
            set_view(final(self).item_set) == first_set_with(sets_view(item_sets@), old(self).id@),
    {
        self.item_set = find_item_set(item_sets, self.id.as_str());
    }
}

impl AbstractItem for FellowEquip {
    open spec fn record_kinds(h: HeaderView) -> Seq<FieldKind> {
        fellow_equip_kinds(h.0.len())
    }

    open spec fn read_from(&self, r: Seq<RawValue>, h: HeaderView) -> bool {
        self.is_read_from(r)
    }

    fn read(data: &[u8], header: &TableHeader, format: DataFormat, item_idx: usize) -> (r: Result<FellowEquip, TableError>) {
        let kinds = Self::kinds(header.tag_count());
        match read_record(data, header, format, item_idx, &kinds) {
            Ok(rec) => Ok(Self::from_record(&rec)),
            Err(e) => Err(e),
        }
    }
}

} // verus!

verus! {

/// Where each field of a fellow equipment read from a record of the fellow equipment table comes
/// from: the value the record holds at the tag that table gives the field.
pub proof fn law_fellow_equip_field_tags(x: FellowEquip, r: Seq<RawValue>)
    requires
        x.is_read_from(r),
    ensures
        x.id@ == field_upper(r, 0),
        x.name@ == field_text(r, 1),
        x.development_use == field_bits(r, 2),
        x.required_level == field_u8(r, 3),
        x.restricted_level == field_bits(r, 4),
        x.item_level == field_u16(r, 5),
        x.usable_class@ == field_classes(r, 6),
        x.grade == field_grade(r, 7),
        x.fellow_equip_type@ == field_text(r, 8),
        x.durability == field_bits(r, 9),
        x.purchase_price == field_bits(r, 10),
        x.disposal_price == field_bits(r, 11),
        x.max_ep_plus == field_nonzero_bits(r, 12),
        effect_view(x.equip_effect_1) == field_effect(r, 13),
        effect_view(x.equip_effect_2) == field_effect(r, 14),
        effect_view(x.equip_effect_3) == field_effect(r, 15),
        effect_view(x.equip_effect_4) == field_effect(r, 16),
        x.variable_option_1@ == field_text(r, 17),
        x.variable_option_min_1 == field_bits(r, 18),
        x.variable_option_max_1 == field_bits(r, 19),
        x.variable_option_2@ == field_text(r, 20),
        x.variable_option_min_2 == field_bits(r, 21),
        x.variable_option_max_2 == field_bits(r, 22),
        x.no_drop == field_bits(r, 23),
        x.untradeable == field_flag(r, 24),
        x.unsellable == field_flag(r, 25),
        x.indestructible == field_flag(r, 26),
        x.drop_level_check@ == field_text(r, 27),
        x.binding@ == field_text(r, 28),
        x.binding_target@ == field_text(r, 29),
        x.binding_release_count == field_bits(r, 30),
        x.usage_restriction@ == field_text(r, 31),
        x.dyeable == field_bits(r, 32),
        x.sale_agency_category@ == field_text(r, 33),
        x.usage_period == field_bits(r, 34),
        x.contents_level == field_bits(r, 35),
        x.unified_channel_disabled == field_bits(r, 36),
        x.equip_condition == field_bits(r, 37),
{
}

} // verus!
