//! Gems, as the gem table holds them.
use vstd::prelude::*;

use crate::effects::ItemEffect;
use crate::fields::{
    effect_view, field_bits, field_effect, field_flag, field_grade, field_text, field_u16, field_u8, field_upper,
    get_bits, get_effect, get_flag, get_grade, get_text, get_u16, get_u8, get_upper,
};
use crate::game_data::locale::{find_locale, locale_lookup, locale_view, table_view, Locale};
use crate::game_data::AbstractItem;
use crate::kinds::{DataFormat, Grade};
use crate::table::{
    read_record, record_readable, spec_record, table_ok, FieldKind, HeaderView, RawField, RawValue, TableError,
    TableHeader,
};

verus! {

/// A gem.  Numbers the table stores as `f32` are kept as their bit
/// patterns.
#[derive(Debug)]
pub struct Gem {
    pub locale: Option<Locale>,
    pub id: String,
    pub name: String,
    pub grade: Option<Grade>,
    pub item_level: u16,
    pub required_level: u8,
    pub attribute_type: String,
    pub enhancement_type: String,
    pub creature_grade: String,
    pub soul_stone_color: String,
    pub equip_effect_1: Option<ItemEffect>,
    pub equip_effect_2: Option<ItemEffect>,
    pub equip_effect_3: Option<ItemEffect>,
    pub equip_effect_4: Option<ItemEffect>,
    pub skill_effect: String,
    pub soul_stone_equip_chance: u32,
    pub soul_stone_remove_cost: u32,
    pub purchase_price: u32,
    pub disposal_price: u32,
    pub stack_count: u32,
    pub no_trade: bool,
    pub no_sell: bool,
    pub no_destroy: bool,
    pub drop_level_check: String,
    pub binding: String,
    pub usage_restriction: String,
    pub sales_agency_category: String,
    pub gem_extraction_cost: u32,
    pub drop_level_check_ignore: u32,
    pub currency_settings_id: String,
    pub contents_level: u32,
    pub unified_channel_disabled: u32,
}

/// How a record of this table is read: text at tags 0, 1, 5, 6, 7, 8, 9, 10,
/// 11, 12, 13, 22, 23, 24, 25, 28; numbers at tags 2, 3, 4, 14, 15, 16, 17, 18,
/// 19, 20, 21, 26, 27, 29, 30; nothing else.
pub open spec fn gem_kind(t: int) -> FieldKind {
    if t == 0 || t == 1 || t == 5 || t == 6 || t == 7 || t == 8 || t == 9 || t == 10
        || t == 11 || t == 12 || t == 13 || t == 22 || t == 23 || t == 24 || t == 25
        || t == 28 {
        FieldKind::Text
    } else if t == 2 || t == 3 || t == 4 || t == 14 || t == 15 || t == 16 || t == 17 || t == 18
        || t == 19 || t == 20 || t == 21 || t == 26 || t == 27 || t == 29 || t == 30 {
        FieldKind::Number
    } else {
        FieldKind::Skip
    }
}

/// The kinds of the tags of a table with `n` tags.
pub open spec fn gem_kinds(n: nat) -> Seq<FieldKind> {
    Seq::new(n, |t: int| gem_kind(t))
}

impl Gem {
    /// Whether each field read from the table is what the record `r` holds
    /// at its tag.
    pub open spec fn fields_read_from(&self, r: Seq<RawValue>) -> bool {
        &&& self.id@ == field_upper(r, 0)
        &&& self.name@ == field_text(r, 1)
        &&& self.grade == field_grade(r, 2)
        &&& self.item_level == field_u16(r, 3)
        &&& self.required_level == field_u8(r, 4)
        &&& self.attribute_type@ == field_text(r, 5)
        &&& self.enhancement_type@ == field_text(r, 6)
        &&& self.creature_grade@ == field_text(r, 7)
        &&& self.soul_stone_color@ == field_text(r, 8)
        &&& effect_view(self.equip_effect_1) == field_effect(r, 9)
        &&& effect_view(self.equip_effect_2) == field_effect(r, 10)
        &&& effect_view(self.equip_effect_3) == field_effect(r, 11)
        &&& effect_view(self.equip_effect_4) == field_effect(r, 12)
        &&& self.skill_effect@ == field_text(r, 13)
        &&& self.soul_stone_equip_chance == field_bits(r, 14)
        &&& self.soul_stone_remove_cost == field_bits(r, 15)
        &&& self.purchase_price == field_bits(r, 16)
        &&& self.disposal_price == field_bits(r, 17)
        &&& self.stack_count == field_bits(r, 18)
        &&& self.no_trade == field_flag(r, 19)
        &&& self.no_sell == field_flag(r, 20)
        &&& self.no_destroy == field_flag(r, 21)
        &&& self.drop_level_check@ == field_text(r, 22)
        &&& self.binding@ == field_text(r, 23)
        &&& self.usage_restriction@ == field_text(r, 24)
        &&& self.sales_agency_category@ == field_text(r, 25)
        &&& self.gem_extraction_cost == field_bits(r, 26)
        &&& self.drop_level_check_ignore == field_bits(r, 27)
        &&& self.currency_settings_id@ == field_text(r, 28)
        &&& self.contents_level == field_bits(r, 29)
        &&& self.unified_channel_disabled == field_bits(r, 30)
    }

    /// Whether this value is what reading the record `r` gives: its fields
    /// as `r` holds them, and nothing attached yet.
    pub open spec fn is_read_from(&self, r: Seq<RawValue>) -> bool {
        &&& self.fields_read_from(r)
        &&& self.locale is None
    }

    /// Whether the fields read from the table are equal in `self` and `other`.
    pub open spec fn same_fields(&self, other: &Self) -> bool {
        &&& self.id == other.id
        &&& self.name == other.name
        &&& self.grade == other.grade
        &&& self.item_level == other.item_level
        &&& self.required_level == other.required_level
        &&& self.attribute_type == other.attribute_type
        &&& self.enhancement_type == other.enhancement_type
        &&& self.creature_grade == other.creature_grade
        &&& self.soul_stone_color == other.soul_stone_color
        &&& self.equip_effect_1 == other.equip_effect_1
        &&& self.equip_effect_2 == other.equip_effect_2
        &&& self.equip_effect_3 == other.equip_effect_3
        &&& self.equip_effect_4 == other.equip_effect_4
        &&& self.skill_effect == other.skill_effect
        &&& self.soul_stone_equip_chance == other.soul_stone_equip_chance
        &&& self.soul_stone_remove_cost == other.soul_stone_remove_cost
        &&& self.purchase_price == other.purchase_price
        &&& self.disposal_price == other.disposal_price
        &&& self.stack_count == other.stack_count
        &&& self.no_trade == other.no_trade
        &&& self.no_sell == other.no_sell
        &&& self.no_destroy == other.no_destroy
        &&& self.drop_level_check == other.drop_level_check
        &&& self.binding == other.binding
        &&& self.usage_restriction == other.usage_restriction
        &&& self.sales_agency_category == other.sales_agency_category
        &&& self.gem_extraction_cost == other.gem_extraction_cost
        &&& self.drop_level_check_ignore == other.drop_level_check_ignore
        &&& self.currency_settings_id == other.currency_settings_id
        &&& self.contents_level == other.contents_level
        &&& self.unified_channel_disabled == other.unified_channel_disabled
    }

    /// The kind of tag `t`.
    pub fn kind_at(t: usize) -> (k: FieldKind)
        ensures
            k == gem_kind(t as int),
    {
        if t == 0 || t == 1 || t == 5 || t == 6 || t == 7 || t == 8 || t == 9 || t == 10
            || t == 11 || t == 12 || t == 13 || t == 22 || t == 23 || t == 24 || t == 25
            || t == 28 {
            FieldKind::Text
        } else if t == 2 || t == 3 || t == 4 || t == 14 || t == 15 || t == 16 || t == 17 || t == 18
            || t == 19 || t == 20 || t == 21 || t == 26 || t == 27 || t == 29 || t == 30 {
            FieldKind::Number
        } else {
            FieldKind::Skip
        }
    }

    /// The kinds of the `n` tags of a record.
    pub fn kinds(n: usize) -> (v: Vec<FieldKind>)
        ensures
            v@ == gem_kinds(n as nat),
    {
        let mut v: Vec<FieldKind> = Vec::new();
        let mut t: usize = 0;
        while t < n
            invariant
                t <= n,
                v@ == gem_kinds(t as nat),
            decreases n - t,
        {
            v.push(Self::kind_at(t));
            assert(v@ =~= gem_kinds((t + 1) as nat));
            t = t + 1;
        }
        v
    }

    /// The value the fields `rec` hold.
    pub fn from_record(rec: &Vec<RawField>) -> (x: Gem)
        ensures
            x.is_read_from(rec@.map_values(|f: RawField| f@)),
    {
        Gem {
            locale: None,
            id: get_upper(rec, 0),
            name: get_text(rec, 1),
            grade: get_grade(rec, 2),
            item_level: get_u16(rec, 3),
            required_level: get_u8(rec, 4),
            attribute_type: get_text(rec, 5),
            enhancement_type: get_text(rec, 6),
            creature_grade: get_text(rec, 7),
            soul_stone_color: get_text(rec, 8),
            equip_effect_1: get_effect(rec, 9),
            equip_effect_2: get_effect(rec, 10),
            equip_effect_3: get_effect(rec, 11),
            equip_effect_4: get_effect(rec, 12),
            skill_effect: get_text(rec, 13),
            soul_stone_equip_chance: get_bits(rec, 14),
            soul_stone_remove_cost: get_bits(rec, 15),
            purchase_price: get_bits(rec, 16),
            disposal_price: get_bits(rec, 17),
            stack_count: get_bits(rec, 18),
            no_trade: get_flag(rec, 19),
            no_sell: get_flag(rec, 20),
            no_destroy: get_flag(rec, 21),
            drop_level_check: get_text(rec, 22),
            binding: get_text(rec, 23),
            usage_restriction: get_text(rec, 24),
            sales_agency_category: get_text(rec, 25),
            gem_extraction_cost: get_bits(rec, 26),
            drop_level_check_ignore: get_bits(rec, 27),
            currency_settings_id: get_text(rec, 28),
            contents_level: get_bits(rec, 29),
            unified_channel_disabled: get_bits(rec, 30),
        }
    }

    /// Attaches the locale that `locales` gives for the id.
    pub fn set_locale(&mut self, locales: &Vec<Locale>)
        ensures
            final(self).same_fields(old(self)),
            locale_view(final(self).locale) == locale_lookup(table_view(locales@), old(self).id@),
    {
        self.locale = find_locale(locales, self.id.as_str());
    }
}

impl AbstractItem for Gem {
    open spec fn record_kinds(h: HeaderView) -> Seq<FieldKind> {
        gem_kinds(h.0.len())
    }

    open spec fn read_from(&self, r: Seq<RawValue>, h: HeaderView) -> bool {
        self.is_read_from(r)
    }

    fn read(data: &[u8], header: &TableHeader, format: DataFormat, item_idx: usize) -> (r: Result<Gem, TableError>) {
        let kinds = Self::kinds(header.tag_count());
        match read_record(data, header, format, item_idx, &kinds) {
            Ok(rec) => Ok(Self::from_record(&rec)),
            Err(e) => Err(e),
        }
    }
}

} // verus!

verus! {

/// Where each field of a gem read from a record of the gem table comes
/// from: the value the record holds at the tag that table gives the field.
pub proof fn law_gem_field_tags(x: Gem, r: Seq<RawValue>)
    requires
        x.is_read_from(r),
    ensures
        x.id@ == field_upper(r, 0),
        x.name@ == field_text(r, 1),
        x.grade == field_grade(r, 2),
        x.item_level == field_u16(r, 3),
        x.required_level == field_u8(r, 4),
        x.attribute_type@ == field_text(r, 5),
        x.enhancement_type@ == field_text(r, 6),
        x.creature_grade@ == field_text(r, 7),
        x.soul_stone_color@ == field_text(r, 8),
        effect_view(x.equip_effect_1) == field_effect(r, 9),
        effect_view(x.equip_effect_2) == field_effect(r, 10),
        effect_view(x.equip_effect_3) == field_effect(r, 11),
        effect_view(x.equip_effect_4) == field_effect(r, 12),
        x.skill_effect@ == field_text(r, 13),
        x.soul_stone_equip_chance == field_bits(r, 14),
        x.soul_stone_remove_cost == field_bits(r, 15),
        x.purchase_price == field_bits(r, 16),
        x.disposal_price == field_bits(r, 17),
        x.stack_count == field_bits(r, 18),
        x.no_trade == field_flag(r, 19),
        x.no_sell == field_flag(r, 20),
        x.no_destroy == field_flag(r, 21),
        x.drop_level_check@ == field_text(r, 22),
        x.binding@ == field_text(r, 23),
        x.usage_restriction@ == field_text(r, 24),
        x.sales_agency_category@ == field_text(r, 25),
        x.gem_extraction_cost == field_bits(r, 26),
        x.drop_level_check_ignore == field_bits(r, 27),
        x.currency_settings_id@ == field_text(r, 28),
        x.contents_level == field_bits(r, 29),
        x.unified_channel_disabled == field_bits(r, 30),
{
}

} // verus!
