//! Boosts, as the boost table holds them.
use vstd::prelude::*;

use crate::effects::ItemEffect;
use crate::fields::{
    effect_view, field_bits, field_effect, field_flag, field_grade, field_text, field_u16, field_u8, field_upper,
    get_bits, get_effect, get_flag, get_grade, get_text, get_u16, get_u8, get_upper,
};
use crate::game_data::locale::{find_locale, locale_lookup, locale_view, table_view, Locale};
use crate::game_data::AbstractItem;
use crate::kinds::{DataFormat, Grade};
use crate::table::{
    read_record, record_readable, spec_record, table_ok, FieldKind, HeaderView, RawField, RawValue, TableError,
    TableHeader,
};

verus! {

/// A boost.  Numbers the table stores as `f32` are kept as their bit
/// patterns.
#[derive(Debug)]
pub struct Boost {
    pub locale: Option<Locale>,
    pub description_locale: Option<Locale>,
    pub number: u32,
    pub id: String,
    pub name: String,
    pub required_level: u8,
    pub limit_level: u32,
    pub item_level: u16,
    pub consume_type: String,
    pub grade: Option<Grade>,
    pub purchase_price: u32,
    pub disposal_price: u32,
    pub equip_effect_1: Option<ItemEffect>,
    pub equip_effect_2: Option<ItemEffect>,
    pub equip_effect_3: Option<ItemEffect>,
    pub equip_effect_4: Option<ItemEffect>,
    pub no_drop: u32,
    pub no_trade: bool,
    pub no_sell: bool,
    pub no_destroy: bool,
    pub drop_level_check: String,
    pub binding: String,
    pub binding_target: String,
    pub binding_release_count: u32,
    pub usage_restriction: String,
    pub consignment_category: String,
    pub skill_effect: String,
    pub stack_count: u32,
    pub create_count: u32,
    pub usage_period: u32,
    pub cash: u32,
    pub contents_level: u32,
    pub no_unified_channel: u32,
    pub purchase_limit: u32,
    pub group: u32,
    pub rank: u32,
    pub true_keeping: u32,
    pub area_type: String,
    pub usage_area: String,
}

/// How a record of this table is read: text at tags 1, 2, 6, 8, 11, 12, 13, 14,
/// 19, 20, 21, 23, 24, 25, 36, 37; numbers at tags 0, 3, 4, 5, 7, 9, 10, 15,
/// 16, 17, 18, 22, 26, 27, 28, 29, 30, 31, 32, 33, 34, 35; nothing else.
pub open spec fn boost_kind(t: int) -> FieldKind {
    if t == 1 || t == 2 || t == 6 || t == 8 || t == 11 || t == 12 || t == 13 || t == 14
        || t == 19 || t == 20 || t == 21 || t == 23 || t == 24 || t == 25 || t == 36
        || t == 37 {
        FieldKind::Text
    } else if t == 0 || t == 3 || t == 4 || t == 5 || t == 7 || t == 9 || t == 10 || t == 15
        || t == 16 || t == 17 || t == 18 || t == 22 || t == 26 || t == 27 || t == 28
        || t == 29 || t == 30 || t == 31 || t == 32 || t == 33 || t == 34 || t == 35 {
        FieldKind::Number
    } else {
        FieldKind::Skip
    }
}

/// The kinds of the tags of a table with `n` tags.
pub open spec fn boost_kinds(n: nat) -> Seq<FieldKind> {
    Seq::new(n, |t: int| boost_kind(t))
}

impl Boost {
    /// Whether each field read from the table is what the record `r` holds
    /// at its tag.
    pub open spec fn fields_read_from(&self, r: Seq<RawValue>) -> bool {
        &&& self.number == field_bits(r, 0)
        &&& self.id@ == field_upper(r, 1)
        &&& self.name@ == field_text(r, 2)
        &&& self.required_level == field_u8(r, 3)
        &&& self.limit_level == field_bits(r, 4)
        &&& self.item_level == field_u16(r, 5)
        &&& self.consume_type@ == field_text(r, 6)
        &&& self.grade == field_grade(r, 7)
        &&& self.purchase_price == field_bits(r, 9)
        &&& self.disposal_price == field_bits(r, 10)
        &&& effect_view(self.equip_effect_1) == field_effect(r, 11)
        &&& effect_view(self.equip_effect_2) == field_effect(r, 12)
        &&& effect_view(self.equip_effect_3) == field_effect(r, 13)
        &&& effect_view(self.equip_effect_4) == field_effect(r, 14)
        &&& self.no_drop == field_bits(r, 15)
        &&& self.no_trade == field_flag(r, 16)
        &&& self.no_sell == field_flag(r, 17)
        &&& self.no_destroy == field_flag(r, 18)
        &&& self.drop_level_check@ == field_text(r, 19)
        &&& self.binding@ == field_text(r, 20)
        &&& self.binding_target@ == field_text(r, 21)
        &&& self.binding_release_count == field_bits(r, 22)
        &&& self.usage_restriction@ == field_text(r, 23)
        &&& self.consignment_category@ == field_text(r, 24)
        &&& self.skill_effect@ == field_text(r, 25)
        &&& self.stack_count == field_bits(r, 26)
        &&& self.create_count == field_bits(r, 27)
        &&& self.usage_period == field_bits(r, 28)
        &&& self.cash == field_bits(r, 29)
        &&& self.contents_level == field_bits(r, 30)
        &&& self.no_unified_channel == field_bits(r, 31)
        &&& self.purchase_limit == field_bits(r, 32)
        &&& self.group == field_bits(r, 33)
        &&& self.rank == field_bits(r, 34)
        &&& self.true_keeping == field_bits(r, 35)
        &&& self.area_type@ == field_text(r, 36)
        &&& self.usage_area@ == field_text(r, 37)
    }

    /// Whether this value is what reading the record `r` gives: its fields
    /// as `r` holds them, and nothing attached yet.
    pub open spec fn is_read_from(&self, r: Seq<RawValue>) -> bool {
        &&& self.fields_read_from(r)
        &&& self.locale is None
        &&& self.description_locale is None
    }

    /// Whether the fields read from the table are equal in `self` and `other`.
    pub open spec fn same_fields(&self, other: &Self) -> bool {
        &&& self.number == other.number
        &&& self.id == other.id
        &&& self.name == other.name
        &&& self.required_level == other.required_level
        &&& self.limit_level == other.limit_level
        &&& self.item_level == other.item_level
        &&& self.consume_type == other.consume_type
        &&& self.grade == other.grade
        &&& self.purchase_price == other.purchase_price
        &&& self.disposal_price == other.disposal_price
        &&& self.equip_effect_1 == other.equip_effect_1
        &&& self.equip_effect_2 == other.equip_effect_2
        &&& self.equip_effect_3 == other.equip_effect_3
        &&& self.equip_effect_4 == other.equip_effect_4
        &&& self.no_drop == other.no_drop
        &&& self.no_trade == other.no_trade
        &&& self.no_sell == other.no_sell
        &&& self.no_destroy == other.no_destroy
        &&& self.drop_level_check == other.drop_level_check
        &&& self.binding == other.binding
        &&& self.binding_target == other.binding_target
        &&& self.binding_release_count == other.binding_release_count
        &&& self.usage_restriction == other.usage_restriction
        &&& self.consignment_category == other.consignment_category
        &&& self.skill_effect == other.skill_effect
        &&& self.stack_count == other.stack_count
        &&& self.create_count == other.create_count
        &&& self.usage_period == other.usage_period
        &&& self.cash == other.cash
        &&& self.contents_level == other.contents_level
        &&& self.no_unified_channel == other.no_unified_channel
        &&& self.purchase_limit == other.purchase_limit
        &&& self.group == other.group
        &&& self.rank == other.rank
        &&& self.true_keeping == other.true_keeping
        &&& self.area_type == other.area_type
        &&& self.usage_area == other.usage_area
    }

    /// The kind of tag `t`.
    pub fn kind_at(t: usize) -> (k: FieldKind)
        ensures
            k == boost_kind(t as int),
    {
        if t == 1 || t == 2 || t == 6 || t == 8 || t == 11 || t == 12 || t == 13 || t == 14
            || t == 19 || t == 20 || t == 21 || t == 23 || t == 24 || t == 25 || t == 36
            || t == 37 {
            FieldKind::Text
        } else if t == 0 || t == 3 || t == 4 || t == 5 || t == 7 || t == 9 || t == 10 || t == 15
            || t == 16 || t == 17 || t == 18 || t == 22 || t == 26 || t == 27 || t == 28
            || t == 29 || t == 30 || t == 31 || t == 32 || t == 33 || t == 34 || t == 35 {
            FieldKind::Number
        } else {
            FieldKind::Skip
        }
    }

    /// The kinds of the `n` tags of a record.
    pub fn kinds(n: usize) -> (v: Vec<FieldKind>)
        ensures
            v@ == boost_kinds(n as nat),
    {
        let mut v: Vec<FieldKind> = Vec::new();
        let mut t: usize = 0;
        while t < n
            invariant
                t <= n,
                v@ == boost_kinds(t as nat),
            decreases n - t,
        {
            v.push(Self::kind_at(t));
            assert(v@ =~= boost_kinds((t + 1) as nat));
            t = t + 1;
        }
        v
    }

    /// The value the fields `rec` hold.
    pub fn from_record(rec: &Vec<RawField>) -> (x: Boost)
        ensures
            x.is_read_from(rec@.map_values(|f: RawField| f@)),
    {
        Boost {
            locale: None,
            description_locale: None,
            number: get_bits(rec, 0),
            id: get_upper(rec, 1),
            name: get_text(rec, 2),
            required_level: get_u8(rec, 3),
            limit_level: get_bits(rec, 4),
            item_level: get_u16(rec, 5),
            consume_type: get_text(rec, 6),
            grade: get_grade(rec, 7),
            purchase_price: get_bits(rec, 9),
            disposal_price: get_bits(rec, 10),
            equip_effect_1: get_effect(rec, 11),
            equip_effect_2: get_effect(rec, 12),
            equip_effect_3: get_effect(rec, 13),
            equip_effect_4: get_effect(rec, 14),
            no_drop: get_bits(rec, 15),
            no_trade: get_flag(rec, 16),
            no_sell: get_flag(rec, 17),
            no_destroy: get_flag(rec, 18),
            drop_level_check: get_text(rec, 19),
            binding: get_text(rec, 20),
            binding_target: get_text(rec, 21),
            binding_release_count: get_bits(rec, 22),
            usage_restriction: get_text(rec, 23),
            consignment_category: get_text(rec, 24),
            skill_effect: get_text(rec, 25),
            stack_count: get_bits(rec, 26),
            create_count: get_bits(rec, 27),
            usage_period: get_bits(rec, 28),
            cash: get_bits(rec, 29),
            contents_level: get_bits(rec, 30),
            no_unified_channel: get_bits(rec, 31),
            purchase_limit: get_bits(rec, 32),
            group: get_bits(rec, 33),
            rank: get_bits(rec, 34),
            true_keeping: get_bits(rec, 35),
            area_type: get_text(rec, 36),
            usage_area: get_text(rec, 37),
        }
    }

    /// Attaches the locales that `locales` gives for the id and for the id
    /// with "_DESCRIPTION" appended.
    pub fn set_locale(&mut self, locales: &Vec<Locale>)
        ensures
            final(self).same_fields(old(self)),
            locale_view(final(self).locale) == locale_lookup(table_view(locales@), old(self).id@),
            locale_view(final(self).description_locale) == locale_lookup(
                table_view(locales@),
                old(self).id@ + "_DESCRIPTION"@,
            ),
    {
        self.locale = find_locale(locales, self.id.as_str());
        let mut key = self.id.clone();
        key.append("_DESCRIPTION");
        self.description_locale = find_locale(locales, key.as_str());
    }
}

impl AbstractItem for Boost {
    open spec fn record_kinds(h: HeaderView) -> Seq<FieldKind> {
        boost_kinds(h.0.len())
    }

    open spec fn read_from(&self, r: Seq<RawValue>, h: HeaderView) -> bool {
        self.is_read_from(r)
    }

    fn read(data: &[u8], header: &TableHeader, format: DataFormat, item_idx: usize) -> (r: Result<Boost, TableError>) {
        let kinds = Self::kinds(header.tag_count());
        match read_record(data, header, format, item_idx, &kinds) {
            Ok(rec) => Ok(Self::from_record(&rec)),
            Err(e) => Err(e),
        }
    }
}

} // verus!

verus! {

/// Where each field of a boost read from a record of the boost table comes
/// from: the value the record holds at the tag that table gives the field.
pub proof fn law_boost_field_tags(x: Boost, r: Seq<RawValue>)
    requires
        x.is_read_from(r),
    ensures
        x.number == field_bits(r, 0),
        x.id@ == field_upper(r, 1),
        x.name@ == field_text(r, 2),
        x.required_level == field_u8(r, 3),
        x.limit_level == field_bits(r, 4),
        x.item_level == field_u16(r, 5),
        x.consume_type@ == field_text(r, 6),
        x.grade == field_grade(r, 7),
        x.purchase_price == field_bits(r, 9),
        x.disposal_price == field_bits(r, 10),
        effect_view(x.equip_effect_1) == field_effect(r, 11),
        effect_view(x.equip_effect_2) == field_effect(r, 12),
        effect_view(x.equip_effect_3) == field_effect(r, 13),
        effect_view(x.equip_effect_4) == field_effect(r, 14),
        x.no_drop == field_bits(r, 15),
        x.no_trade == field_flag(r, 16),
        x.no_sell == field_flag(r, 17),
        x.no_destroy == field_flag(r, 18),
        x.drop_level_check@ == field_text(r, 19),
        x.binding@ == field_text(r, 20),
        x.binding_target@ == field_text(r, 21),
        x.binding_release_count == field_bits(r, 22),
        x.usage_restriction@ == field_text(r, 23),
        x.consignment_category@ == field_text(r, 24),
        x.skill_effect@ == field_text(r, 25),
        x.stack_count == field_bits(r, 26),
        x.create_count == field_bits(r, 27),
        x.usage_period == field_bits(r, 28),
        x.cash == field_bits(r, 29),
        x.contents_level == field_bits(r, 30),
        x.no_unified_channel == field_bits(r, 31),
        x.purchase_limit == field_bits(r, 32),
        x.group == field_bits(r, 33),
        x.rank == field_bits(r, 34),
        x.true_keeping == field_bits(r, 35),
        x.area_type@ == field_text(r, 36),
        x.usage_area@ == field_text(r, 37),
{
}

} // verus!
