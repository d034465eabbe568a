//! Sealed fellows, as the sealed fellow table holds them; their ranged effects are kept as written.
use vstd::prelude::*;

use crate::fields::{
    field_bits, field_flag, field_grade, field_step_effect, field_text, field_u16, field_u8, field_upper, get_bits,
    get_flag, get_grade, get_step_effect, get_text, get_u16, get_u8, get_upper, opt_view,
};
use crate::game_data::locale::{find_locale, locale_lookup, locale_view, table_view, Locale};
use crate::game_data::AbstractItem;
use crate::kinds::{DataFormat, Grade};
use crate::table::{
    read_record, record_readable, spec_record, table_ok, FieldKind, HeaderView, RawField, RawValue, TableError,
    TableHeader,
};

verus! {

/// A sealed fellow.  Numbers the table stores as `f32` are kept as their bit
/// patterns.
#[derive(Debug)]
pub struct SealedFellow {
    pub locale: Option<Locale>,
    pub id: String,
    pub name: String,
    pub grade: Option<Grade>,
    pub grade_plus: u32,
    pub seal_type: String,
    pub item_level: u16,
    pub attribute_type: String,
    pub enhancement_type: String,
    pub creature_grade: String,
    pub sealed_fellow_effect_1: Option<String>,
    pub sealed_fellow_effect_2: Option<String>,
    pub sealed_fellow_effect_3: Option<String>,
    pub max_enhancement_sealed_fellow_effect: Option<String>,
    pub rf_grade: u8,
    pub rf_effect: u32,
    pub skill_effect: String,
    pub purchase_price: u32,
    pub disposal_price: u32,
    pub no_trade: bool,
    pub no_sell: bool,
    pub no_destroy: bool,
    pub drop_level_check: String,
    pub binding: String,
    pub usage_restriction: String,
    pub characteristic_power: u16,
    pub usage_period: u32,
    pub consignment_category: String,
    pub integrated_channel_disabled: u32,
    pub stack_count: u32,
    pub exp_weight: u32,
}

/// How a record of this table is read: text at tags 0, 1, 4, 6, 7, 8, 9, 10,
/// 11, 12, 15, 21, 22, 23, 26; numbers at tags 2, 3, 5, 13, 14, 16, 17, 18, 19,
/// 20, 24, 25, 27, 28, 29; nothing else.
pub open spec fn sealed_fellow_kind(t: int) -> FieldKind {
    if t == 0 || t == 1 || t == 4 || t == 6 || t == 7 || t == 8 || t == 9 || t == 10
        || t == 11 || t == 12 || t == 15 || t == 21 || t == 22 || t == 23 || t == 26 {
        FieldKind::Text
    } else if t == 2 || t == 3 || t == 5 || t == 13 || t == 14 || t == 16 || t == 17 || t == 18
        || t == 19 || t == 20 || t == 24 || t == 25 || t == 27 || t == 28 || t == 29 {
        FieldKind::Number
    } else {
        FieldKind::Skip
    }
}

/// The kinds of the tags of a table with `n` tags.
pub open spec fn sealed_fellow_kinds(n: nat) -> Seq<FieldKind> {
    Seq::new(n, |t: int| sealed_fellow_kind(t))
}

impl SealedFellow {
    /// Whether each field read from the table is what the record `r` holds
    /// at its tag.
    pub open spec fn fields_read_from(&self, r: Seq<RawValue>) -> bool {
        &&& self.id@ == field_upper(r, 0)
        &&& self.name@ == field_text(r, 1)
        &&& self.grade == field_grade(r, 2)
        &&& self.grade_plus == field_bits(r, 3)
        &&& self.seal_type@ == field_text(r, 4)
        &&& self.item_level == field_u16(r, 5)
        &&& self.attribute_type@ == field_text(r, 6)
        &&& self.enhancement_type@ == field_text(r, 7)
        &&& self.creature_grade@ == field_text(r, 8)
        &&& opt_view(self.sealed_fellow_effect_1) == field_step_effect(r, 9)
        &&& opt_view(self.sealed_fellow_effect_2) == field_step_effect(r, 10)
        &&& opt_view(self.sealed_fellow_effect_3) == field_step_effect(r, 11)
        &&& opt_view(self.max_enhancement_sealed_fellow_effect) == field_step_effect(r, 12)
        &&& self.rf_grade == field_u8(r, 13)
        &&& self.rf_effect == field_bits(r, 14)
        &&& self.skill_effect@ == field_text(r, 15)
        &&& self.purchase_price == field_bits(r, 16)
        &&& self.disposal_price == field_bits(r, 17)
        &&& self.no_trade == field_flag(r, 18)
        &&& self.no_sell == field_flag(r, 19)
        &&& self.no_destroy == field_flag(r, 20)
        &&& self.drop_level_check@ == field_text(r, 21)
        &&& self.binding@ == field_text(r, 22)
        &&& self.usage_restriction@ == field_text(r, 23)
        &&& self.characteristic_power == field_u16(r, 24)
        &&& self.usage_period == field_bits(r, 25)
        &&& self.consignment_category@ == field_text(r, 26)
        &&& self.integrated_channel_disabled == field_bits(r, 27)
        &&& self.stack_count == field_bits(r, 28)
        &&& self.exp_weight == field_bits(r, 29)
    }

    /// Whether this value is what reading the record `r` gives: its fields
    /// as `r` holds them, and nothing attached yet.
    pub open spec fn is_read_from(&self, r: Seq<RawValue>) -> bool {
        &&& self.fields_read_from(r)
        &&& self.locale is None
    }

    /// Whether the fields read from the table are equal in `self` and `other`.
    pub open spec fn same_fields(&self, other: &Self) -> bool {
        &&& self.id == other.id
        &&& self.name == other.name
        &&& self.grade == other.grade
        &&& self.grade_plus == other.grade_plus
        &&& self.seal_type == other.seal_type
        &&& self.item_level == other.item_level
        &&& self.attribute_type == other.attribute_type
        &&& self.enhancement_type == other.enhancement_type
        &&& self.creature_grade == other.creature_grade
        &&& self.sealed_fellow_effect_1 == other.sealed_fellow_effect_1
        &&& self.sealed_fellow_effect_2 == other.sealed_fellow_effect_2
        &&& self.sealed_fellow_effect_3 == other.sealed_fellow_effect_3
        &&& self.max_enhancement_sealed_fellow_effect == other.max_enhancement_sealed_fellow_effect
        &&& self.rf_grade == other.rf_grade
        &&& self.rf_effect == other.rf_effect
        &&& self.skill_effect == other.skill_effect
        &&& self.purchase_price == other.purchase_price
        &&& self.disposal_price == other.disposal_price
        &&& self.no_trade == other.no_trade
        &&& self.no_sell == other.no_sell
        &&& self.no_destroy == other.no_destroy
        &&& self.drop_level_check == other.drop_level_check
        &&& self.binding == other.binding
        &&& self.usage_restriction == other.usage_restriction
        &&& self.characteristic_power == other.characteristic_power
        &&& self.usage_period == other.usage_period
        &&& self.consignment_category == other.consignment_category
        &&& self.integrated_channel_disabled == other.integrated_channel_disabled
        &&& self.stack_count == other.stack_count
        &&& self.exp_weight == other.exp_weight
    }

    /// The kind of tag `t`.
    pub fn kind_at(t: usize) -> (k: FieldKind)
        ensures
            k == sealed_fellow_kind(t as int),
    {
        if t == 0 || t == 1 || t == 4 || t == 6 || t == 7 || t == 8 || t == 9 || t == 10
            || t == 11 || t == 12 || t == 15 || t == 21 || t == 22 || t == 23 || t == 26 {
            FieldKind::Text
        } else if t == 2 || t == 3 || t == 5 || t == 13 || t == 14 || t == 16 || t == 17 || t == 18
            || t == 19 || t == 20 || t == 24 || t == 25 || t == 27 || t == 28 || t == 29 {
            FieldKind::Number
        } else {
            FieldKind::Skip
        }
    }

    /// The kinds of the `n` tags of a record.
    pub fn kinds(n: usize) -> (v: Vec<FieldKind>)
        ensures
            v@ == sealed_fellow_kinds(n as nat),
    {
        let mut v: Vec<FieldKind> = Vec::new();
        let mut t: usize = 0;
        while t < n
            invariant
                t <= n,
                v@ == sealed_fellow_kinds(t as nat),
            decreases n - t,
        {
            v.push(Self::kind_at(t));
            assert(v@ =~= sealed_fellow_kinds((t + 1) as nat));
            t = t + 1;
        }
        v
    }

    /// The value the fields `rec` hold.
    pub fn from_record(rec: &Vec<RawField>) -> (x: SealedFellow)
        ensures
            x.is_read_from(rec@.map_values(|f: RawField| f@)),
    {
        SealedFellow {
            locale: None,
            id: get_upper(rec, 0),
            name: get_text(rec, 1),
            grade: get_grade(rec, 2),
            grade_plus: get_bits(rec, 3),
            seal_type: get_text(rec, 4),
            item_level: get_u16(rec, 5),
            attribute_type: get_text(rec, 6),
            enhancement_type: get_text(rec, 7),
            creature_grade: get_text(rec, 8),
            sealed_fellow_effect_1: get_step_effect(rec, 9),
            sealed_fellow_effect_2: get_step_effect(rec, 10),
            sealed_fellow_effect_3: get_step_effect(rec, 11),
            max_enhancement_sealed_fellow_effect: get_step_effect(rec, 12),
            rf_grade: get_u8(rec, 13),
            rf_effect: get_bits(rec, 14),
            skill_effect: get_text(rec, 15),
            purchase_price: get_bits(rec, 16),
            disposal_price: get_bits(rec, 17),
            no_trade: get_flag(rec, 18),
            no_sell: get_flag(rec, 19),
            no_destroy: get_flag(rec, 20),
            drop_level_check: get_text(rec, 21),
            binding: get_text(rec, 22),
            usage_restriction: get_text(rec, 23),
            characteristic_power: get_u16(rec, 24),
            usage_period: get_bits(rec, 25),
            consignment_category: get_text(rec, 26),
            integrated_channel_disabled: get_bits(rec, 27),
            stack_count: get_bits(rec, 28),
            exp_weight: get_bits(rec, 29),
        }
    }

    /// Attaches the locale that `locales` gives for the id.
    pub fn set_locale(&mut self, locales: &Vec<Locale>)
        ensures
            final(self).same_fields(old(self)),
            locale_view(final(self).locale) == locale_lookup(table_view(locales@), old(self).id@),
    {
        self.locale = find_locale(locales, self.id.as_str());
    }
}

impl AbstractItem for SealedFellow {
    open spec fn record_kinds(h: HeaderView) -> Seq<FieldKind> {
        sealed_fellow_kinds(h.0.len())
    }

    open spec fn read_from(&self, r: Seq<RawValue>, h: HeaderView) -> bool {
        self.is_read_from(r)
    }

    fn read(data: &[u8], header: &TableHeader, format: DataFormat, item_idx: usize) -> (r: Result<SealedFellow, TableError>) {
        let kinds = Self::kinds(header.tag_count());
        match read_record(data, header, format, item_idx, &kinds) {
            Ok(rec) => Ok(Self::from_record(&rec)),
            Err(e) => Err(e),
        }
    }
}

} // verus!

verus! {

/// Where each field of a sealed fellow read from a record of the sealed fellow table comes
/// from: the value the record holds at the tag that table gives the field.
pub proof fn law_sealed_fellow_field_tags(x: SealedFellow, r: Seq<RawValue>)
    requires
        x.is_read_from(r),
    ensures
        x.id@ == field_upper(r, 0),
        x.name@ == field_text(r, 1),
        x.grade == field_grade(r, 2),
        x.grade_plus == field_bits(r, 3),
        x.seal_type@ == field_text(r, 4),
        x.item_level == field_u16(r, 5),
        x.attribute_type@ == field_text(r, 6),
        x.enhancement_type@ == field_text(r, 7),
        x.creature_grade@ == field_text(r, 8),
        opt_view(x.sealed_fellow_effect_1) == field_step_effect(r, 9),
        opt_view(x.sealed_fellow_effect_2) == field_step_effect(r, 10),
        opt_view(x.sealed_fellow_effect_3) == field_step_effect(r, 11),
        opt_view(x.max_enhancement_sealed_fellow_effect) == field_step_effect(r, 12),
        x.rf_grade == field_u8(r, 13),
        x.rf_effect == field_bits(r, 14),
        x.skill_effect@ == field_text(r, 15),
        x.purchase_price == field_bits(r, 16),
        x.disposal_price == field_bits(r, 17),
        x.no_trade == field_flag(r, 18),
        x.no_sell == field_flag(r, 19),
        x.no_destroy == field_flag(r, 20),
        x.drop_level_check@ == field_text(r, 21),
        x.binding@ == field_text(r, 22),
        x.usage_restriction@ == field_text(r, 23),
        x.characteristic_power == field_u16(r, 24),
        x.usage_period == field_bits(r, 25),
        x.consignment_category@ == field_text(r, 26),
        x.integrated_channel_disabled == field_bits(r, 27),
        x.stack_count == field_bits(r, 28),
        x.exp_weight == field_bits(r, 29),
{
}

} // verus!
