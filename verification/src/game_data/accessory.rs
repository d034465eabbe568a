//! Accessories, as the accessory table holds them.
use vstd::prelude::*;

use crate::effects::ItemEffect;
use crate::fields::{
    effect_view, field_bits, field_classes, field_effect, field_grade, field_lower, field_skill_described,
    field_text, field_u16, field_u8, field_upper, get_bits, get_classes, get_effect, get_grade, get_lower,
    get_skill_described, get_text, get_u16, get_u8, get_upper, opt_view,
};
use crate::game_data::locale::{find_locale, locale_lookup, locale_view, table_view, Locale};
use crate::game_data::AbstractItem;
use crate::kinds::{ClassSet, DataFormat, Grade};
use crate::table::{
    read_record, record_readable, spec_record, table_ok, FieldKind, HeaderView, RawField, RawValue, TableError,
    TableHeader,
};
use crate::game_data::item_set::{find_item_set, first_set_with, set_view, sets_view, ItemSet};
use crate::game_data::locale::{shown, shown_text};
use crate::kinds::Language;

verus! {

/// An accessory.  Numbers the table stores as `f32` are kept as their bit
/// patterns.
#[derive(Debug)]
pub struct Accessory {
    pub item_set: Option<ItemSet>,
    pub locale: Option<Locale>,
    pub skill_locale: Option<Locale>,
    pub id: String,
    pub name: String,
    pub development_use: u32,
    pub required_level: u32,
    pub restricted_level: u32,
    pub item_level: u16,
    pub usable_class: ClassSet,
    pub random_apply_class: String,
    pub usable_gender: String,
    pub grade: Option<Grade>,
    pub accessory_type: String,
    pub durability: u32,
    pub purchase_price: u32,
    pub disposal_price: u32,
    pub physical_min_attack: u32,
    pub physical_max_attack: u32,
    pub magic_defense: u32,
    pub equip_effect_1: Option<ItemEffect>,
    pub equip_effect_2: Option<ItemEffect>,
    pub equip_effect_3: Option<ItemEffect>,
    pub equip_effect_4: Option<ItemEffect>,
    pub random_option_enabled: u32,
    pub random_option_count_min: u8,
    pub random_option_count_max: u8,
    pub option_apply_ratio: String,
    pub variable_attribute: String,
    pub variable_attribute_min: u32,
    pub variable_attribute_max: u32,
    pub enhancement_limit: u8,
    pub enhancement_probability: String,
    pub no_drop: u32,
    pub no_trade: u32,
    pub no_disposal: u32,
    pub no_destroy: u32,
    pub drop_level_check: String,
    pub binding: String,
    pub binding_target: String,
    pub binding_release_count: u32,
    pub usage_restriction: String,
    pub dyeable: u32,
    pub sales_agency_category: String,
    pub skill_effect: Option<String>,
    pub ignore_drop_level_check: u32,
    pub usage_period: u32,
    pub grade_up_code_key: String,
    pub grade_up_result: String,
    pub disassembly_id: String,
    pub extraction_id: String,
    pub sealed_fellow_equip_slot_max: u32,
    pub use_level_option: u32,
    pub level_weight: u32,
    pub overrise_max: u8,
    pub overrise_id: String,
    pub overrise_id_2: String,
    pub overrise_id_3: String,
    pub contents_level: u32,
    pub integrated_channel_disabled: u32,
    pub reverse_enhancement_limit: u8,
    pub level_up: u32,
    pub item_exp: u32,
    pub overrise_material_id1: String,
    pub overrise_material_id2: String,
}

/// How a record of this table is read: text at tags 0, 1, 6, 7, 8, 10, 17, 18,
/// 19, 20, 24, 25, 29, 34, 35, 36, 38, 40, 41, 44, 45, 46, 47, 52, 53, 54, 60,
/// 61; numbers at tags 2, 3, 4, 5, 9, 11, 12, 13, 14, 15, 16, 21, 22, 23, 26,
/// 27, 28, 30, 31, 32, 33, 37, 39, 42, 43, 48, 49, 50, 51, 55, 56, 57, 58, 59;
/// nothing else.
pub open spec fn accessory_kind(t: int) -> FieldKind {
    if t == 0 || t == 1 || t == 6 || t == 7 || t == 8 || t == 10 || t == 17 || t == 18
        || t == 19 || t == 20 || t == 24 || t == 25 || t == 29 || t == 34 || t == 35
        || t == 36 || t == 38 || t == 40 || t == 41 || t == 44 || t == 45 || t == 46
        || t == 47 || t == 52 || t == 53 || t == 54 || t == 60 || t == 61 {
        FieldKind::Text
    } else if t == 2 || t == 3 || t == 4 || t == 5 || t == 9 || t == 11 || t == 12 || t == 13
        || t == 14 || t == 15 || t == 16 || t == 21 || t == 22 || t == 23 || t == 26
        || t == 27 || t == 28 || t == 30 || t == 31 || t == 32 || t == 33 || t == 37
        || t == 39 || t == 42 || t == 43 || t == 48 || t == 49 || t == 50 || t == 51
        || t == 55 || t == 56 || t == 57 || t == 58 || t == 59 {
        FieldKind::Number
    } else {
        FieldKind::Skip
    }
}

/// The kinds of the tags of a table with `n` tags.
pub open spec fn accessory_kinds(n: nat) -> Seq<FieldKind> {
    Seq::new(n, |t: int| accessory_kind(t))
}

impl Accessory {
    /// Whether each field read from the table is what the record `r` holds
    /// at its tag.
    pub open spec fn fields_read_from(&self, r: Seq<RawValue>) -> bool {
        &&& self.id@ == field_upper(r, 0)
        &&& self.name@ == field_text(r, 1)
        &&& self.development_use == field_bits(r, 2)
        &&& self.required_level == field_bits(r, 3)
        &&& self.restricted_level == field_bits(r, 4)
        &&& self.item_level == field_u16(r, 5)
        &&& self.usable_class@ == field_classes(r, 6)
        &&& self.random_apply_class@ == field_text(r, 7)
        &&& self.usable_gender@ == field_text(r, 8)
        &&& self.grade == field_grade(r, 9)
        &&& self.accessory_type@ == field_lower(r, 10)
        &&& self.durability == field_bits(r, 11)
        &&& self.purchase_price == field_bits(r, 12)
        &&& self.disposal_price == field_bits(r, 13)
        &&& self.physical_min_attack == field_bits(r, 14)
        &&& self.physical_max_attack == field_bits(r, 15)
        &&& self.magic_defense == field_bits(r, 16)
        &&& effect_view(self.equip_effect_1) == field_effect(r, 17)
        &&& effect_view(self.equip_effect_2) == field_effect(r, 18)
        &&& effect_view(self.equip_effect_3) == field_effect(r, 19)
        &&& effect_view(self.equip_effect_4) == field_effect(r, 20)
        &&& self.random_option_enabled == field_bits(r, 21)
        &&& self.random_option_count_min == field_u8(r, 22)
        &&& self.random_option_count_max == field_u8(r, 23)
        &&& self.option_apply_ratio@ == field_text(r, 24)
        &&& self.variable_attribute@ == field_text(r, 25)
        &&& self.variable_attribute_min == field_bits(r, 26)
        &&& self.variable_attribute_max == field_bits(r, 27)
        &&& self.enhancement_limit == field_u8(r, 28)
        &&& self.enhancement_probability@ == field_text(r, 29)
        &&& self.no_drop == field_bits(r, 30)
        &&& self.no_trade == field_bits(r, 31)
        &&& self.no_disposal == field_bits(r, 32)
        &&& self.no_destroy == field_bits(r, 33)
        &&& self.drop_level_check@ == field_text(r, 34)
        &&& self.binding@ == field_text(r, 35)
        &&& self.binding_target@ == field_text(r, 36)
        &&& self.binding_release_count == field_bits(r, 37)
        &&& self.usage_restriction@ == field_text(r, 38)
        &&& self.dyeable == field_bits(r, 39)
        &&& self.sales_agency_category@ == field_text(r, 40)
        &&& opt_view(self.skill_effect) == field_skill_described(r, 41)
        &&& self.ignore_drop_level_check == field_bits(r, 42)
        &&& self.usage_period == field_bits(r, 43)
        &&& self.grade_up_code_key@ == field_text(r, 44)
        &&& self.grade_up_result@ == field_text(r, 45)
        &&& self.disassembly_id@ == field_text(r, 46)
        &&& self.extraction_id@ == field_text(r, 47)
        &&& self.sealed_fellow_equip_slot_max == field_bits(r, 48)
        &&& self.use_level_option == field_bits(r, 49)
        &&& self.level_weight == field_bits(r, 50)
        &&& self.overrise_max == field_u8(r, 51)
        &&& self.overrise_id@ == field_text(r, 52)
        &&& self.overrise_id_2@ == field_text(r, 53)
        &&& self.overrise_id_3@ == field_text(r, 54)
        &&& self.contents_level == field_bits(r, 55)
        &&& self.integrated_channel_disabled == field_bits(r, 56)
        &&& self.reverse_enhancement_limit == field_u8(r, 57)
        &&& self.level_up == field_bits(r, 58)
        &&& self.item_exp == field_bits(r, 59)
        &&& self.overrise_material_id1@ == field_text(r, 60)
        &&& self.overrise_material_id2@ == field_text(r, 61)
    }

    /// Whether this value is what reading the record `r` gives: its fields
    /// as `r` holds them, and nothing attached yet.
    pub open spec fn is_read_from(&self, r: Seq<RawValue>) -> bool {
        &&& self.fields_read_from(r)
        &&& self.item_set is None
        &&& self.locale is None
        &&& self.skill_locale is None
    }

    /// Whether the fields read from the table are equal in `self` and `other`.
    pub open spec fn same_fields(&self, other: &Self) -> bool {
        &&& self.id == other.id
        &&& self.name == other.name
        &&& self.development_use == other.development_use
        &&& self.required_level == other.required_level
        &&& self.restricted_level == other.restricted_level
        &&& self.item_level == other.item_level
        &&& self.usable_class == other.usable_class
        &&& self.random_apply_class == other.random_apply_class
        &&& self.usable_gender == other.usable_gender
        &&& self.grade == other.grade
        &&& self.accessory_type == other.accessory_type
        &&& self.durability == other.durability
        &&& self.purchase_price == other.purchase_price
        &&& self.disposal_price == other.disposal_price
        &&& self.physical_min_attack == other.physical_min_attack
        &&& self.physical_max_attack == other.physical_max_attack
        &&& self.magic_defense == other.magic_defense
        &&& self.equip_effect_1 == other.equip_effect_1
        &&& self.equip_effect_2 == other.equip_effect_2
        &&& self.equip_effect_3 == other.equip_effect_3
        &&& self.equip_effect_4 == other.equip_effect_4
        &&& self.random_option_enabled == other.random_option_enabled
        &&& self.random_option_count_min == other.random_option_count_min
        &&& self.random_option_count_max == other.random_option_count_max
        &&& self.option_apply_ratio == other.option_apply_ratio
        &&& self.variable_attribute == other.variable_attribute
        &&& self.variable_attribute_min == other.variable_attribute_min
        &&& self.variable_attribute_max == other.variable_attribute_max
        &&& self.enhancement_limit == other.enhancement_limit
        &&& self.enhancement_probability == other.enhancement_probability
        &&& self.no_drop == other.no_drop
        &&& self.no_trade == other.no_trade
        &&& self.no_disposal == other.no_disposal
        &&& self.no_destroy == other.no_destroy
        &&& self.drop_level_check == other.drop_level_check
        &&& self.binding == other.binding
        &&& self.binding_target == other.binding_target
        &&& self.binding_release_count == other.binding_release_count
        &&& self.usage_restriction == other.usage_restriction
        &&& self.dyeable == other.dyeable
        &&& self.sales_agency_category == other.sales_agency_category
        &&& self.skill_effect == other.skill_effect
        &&& self.ignore_drop_level_check == other.ignore_drop_level_check
        &&& self.usage_period == other.usage_period
        &&& self.grade_up_code_key == other.grade_up_code_key
        &&& self.grade_up_result == other.grade_up_result
        &&& self.disassembly_id == other.disassembly_id
        &&& self.extraction_id == other.extraction_id
        &&& self.sealed_fellow_equip_slot_max == other.sealed_fellow_equip_slot_max
        &&& self.use_level_option == other.use_level_option
        &&& self.level_weight == other.level_weight
        &&& self.overrise_max == other.overrise_max
        &&& self.overrise_id == other.overrise_id
        &&& self.overrise_id_2 == other.overrise_id_2
        &&& self.overrise_id_3 == other.overrise_id_3
        &&& self.contents_level == other.contents_level
        &&& self.integrated_channel_disabled == other.integrated_channel_disabled
        &&& self.reverse_enhancement_limit == other.reverse_enhancement_limit
        &&& self.level_up == other.level_up
        &&& self.item_exp == other.item_exp
        &&& self.overrise_material_id1 == other.overrise_material_id1
        &&& self.overrise_material_id2 == other.overrise_material_id2
    }

    /// The kind of tag `t`.
    pub fn kind_at(t: usize) -> (k: FieldKind)
        ensures
            k == accessory_kind(t as int),
    {
        if t == 0 || t == 1 || t == 6 || t == 7 || t == 8 || t == 10 || t == 17 || t == 18
            || t == 19 || t == 20 || t == 24 || t == 25 || t == 29 || t == 34 || t == 35
            || t == 36 || t == 38 || t == 40 || t == 41 || t == 44 || t == 45 || t == 46
            || t == 47 || t == 52 || t == 53 || t == 54 || t == 60 || t == 61 {
            FieldKind::Text
        } else if t == 2 || t == 3 || t == 4 || t == 5 || t == 9 || t == 11 || t == 12 || t == 13
            || t == 14 || t == 15 || t == 16 || t == 21 || t == 22 || t == 23 || t == 26
            || t == 27 || t == 28 || t == 30 || t == 31 || t == 32 || t == 33 || t == 37
            || t == 39 || t == 42 || t == 43 || t == 48 || t == 49 || t == 50 || t == 51
            || t == 55 || t == 56 || t == 57 || t == 58 || t == 59 {
            FieldKind::Number
        } else {
            FieldKind::Skip
        }
    }

    /// The kinds of the `n` tags of a record.
    pub fn kinds(n: usize) -> (v: Vec<FieldKind>)
        ensures
            v@ == accessory_kinds(n as nat),
    {
        let mut v: Vec<FieldKind> = Vec::new();
        let mut t: usize = 0;
        while t < n
            invariant
                t <= n,
                v@ == accessory_kinds(t as nat),
            decreases n - t,
        {
            v.push(Self::kind_at(t));
            assert(v@ =~= accessory_kinds((t + 1) as nat));
            t = t + 1;
        }
        v
    }

    /// The value the fields `rec` hold.
    pub fn from_record(rec: &Vec<RawField>) -> (x: Accessory)
        ensures
            x.is_read_from(rec@.map_values(|f: RawField| f@)),
    {
        Accessory {
            item_set: None,
            locale: None,
            skill_locale: None,
            id: get_upper(rec, 0),
            name: get_text(rec, 1),
            development_use: get_bits(rec, 2),
            required_level: get_bits(rec, 3),
            restricted_level: get_bits(rec, 4),
            item_level: get_u16(rec, 5),
            usable_class: get_classes(rec, 6),
            random_apply_class: get_text(rec, 7),
            usable_gender: get_text(rec, 8),
            grade: get_grade(rec, 9),
            accessory_type: get_lower(rec, 10),
            durability: get_bits(rec, 11),
            purchase_price: get_bits(rec, 12),
            disposal_price: get_bits(rec, 13),
            physical_min_attack: get_bits(rec, 14),
            physical_max_attack: get_bits(rec, 15),
            magic_defense: get_bits(rec, 16),
            equip_effect_1: get_effect(rec, 17),
            equip_effect_2: get_effect(rec, 18),
            equip_effect_3: get_effect(rec, 19),
            equip_effect_4: get_effect(rec, 20),
            random_option_enabled: get_bits(rec, 21),
            random_option_count_min: get_u8(rec, 22),
            random_option_count_max: get_u8(rec, 23),
            option_apply_ratio: get_text(rec, 24),
            variable_attribute: get_text(rec, 25),
            variable_attribute_min: get_bits(rec, 26),
            variable_attribute_max: get_bits(rec, 27),
            enhancement_limit: get_u8(rec, 28),
            enhancement_probability: get_text(rec, 29),
            no_drop: get_bits(rec, 30),
            no_trade: get_bits(rec, 31),
            no_disposal: get_bits(rec, 32),
            no_destroy: get_bits(rec, 33),
            drop_level_check: get_text(rec, 34),
            binding: get_text(rec, 35),
            binding_target: get_text(rec, 36),
            binding_release_count: get_bits(rec, 37),
            usage_restriction: get_text(rec, 38),
            dyeable: get_bits(rec, 39),
            sales_agency_category: get_text(rec, 40),
            skill_effect: get_skill_described(rec, 41),
            ignore_drop_level_check: get_bits(rec, 42),
            usage_period: get_bits(rec, 43),
            grade_up_code_key: get_text(rec, 44),
            grade_up_result: get_text(rec, 45),
            disassembly_id: get_text(rec, 46),
            extraction_id: get_text(rec, 47),
            sealed_fellow_equip_slot_max: get_bits(rec, 48),
            use_level_option: get_bits(rec, 49),
            level_weight: get_bits(rec, 50),
            overrise_max: get_u8(rec, 51),
            overrise_id: get_text(rec, 52),
            overrise_id_2: get_text(rec, 53),
            overrise_id_3: get_text(rec, 54),
            contents_level: get_bits(rec, 55),
            integrated_channel_disabled: get_bits(rec, 56),
            reverse_enhancement_limit: get_u8(rec, 57),
            level_up: get_bits(rec, 58),
            item_exp: get_bits(rec, 59),
            overrise_material_id1: get_text(rec, 60),
            overrise_material_id2: get_text(rec, 61),
        }
    }

    /// Attaches the locale that `locales` gives for the id and, when there
    /// is a skill, the one that `skill_locales` gives for the skill.
    pub fn set_locale(&mut self, locales: &Vec<Locale>, skill_locales: &Vec<Locale>)
        ensures
            final(self).same_fields(old(self)),
            final(self).item_set == old(self).item_set,
            locale_view(final(self).locale) == locale_lookup(table_view(locales@), old(self).id@),
            locale_view(final(self).skill_locale) == match old(self).skill_effect {
                Some(s) => locale_lookup(table_view(skill_locales@), s@),
                None => locale_view(old(self).skill_locale),
            },
    {
        self.locale = find_locale(locales, self.id.as_str());
        let skill = self.skill_effect.clone();
        match skill {
            Some(s) => {
                self.skill_locale = find_locale(skill_locales, s.as_str());
            },
            None => {},
        }
    }

    /// Attaches the first of `item_sets` that lists this item.
    pub fn set_item_set(&mut self, item_sets: &Vec<ItemSet>)
        ensures
            final(self).same_fields(old(self)),
            final(self).locale == old(self).locale,
            final(self).skill_locale == old(self).skill_locale,
            set_view(final(self).item_set) == first_set_with(sets_view(item_sets@), old(self).id@),
    {
        self.item_set = find_item_set(item_sets, self.id.as_str());
    }

    /// The type with "_01" appended, as the tempering tables are named.
    pub fn get_full_type(&self) -> (s: String)
        ensures
            s@ == self.accessory_type@ + "_01"@,
    {
        let mut s = self.accessory_type.clone();
        s.append("_01");
        s
    }

    /// The type, as the quality tables are named.
    pub fn get_type(&self) -> (s: String)
        ensures
            s@ == self.accessory_type@,
    {
        self.accessory_type.clone()
    }

    /// The name of the skill in `language`: its locale's text when there is
    /// a non-empty one, else the skill reference itself.
    pub fn get_skill_locale(&self, language: Language) -> (r: Option<String>)
        ensures
            opt_view(r) == match shown_text(locale_view(self.skill_locale), language) {
                Some(t) => Some(t),
                None => opt_view(self.skill_effect),
            },
    {
        match shown(&self.skill_locale, language) {
            Some(t) => Some(t),
            None => self.skill_effect.clone(),
        }
    }
}

impl AbstractItem for Accessory {
    open spec fn record_kinds(h: HeaderView) -> Seq<FieldKind> {
        accessory_kinds(h.0.len())
    }

    open spec fn read_from(&self, r: Seq<RawValue>, h: HeaderView) -> bool {
        self.is_read_from(r)
    }

    fn read(data: &[u8], header: &TableHeader, format: DataFormat, item_idx: usize) -> (r: Result<Accessory, TableError>) {
        let kinds = Self::kinds(header.tag_count());
        match read_record(data, header, format, item_idx, &kinds) {
            Ok(rec) => Ok(Self::from_record(&rec)),
            Err(e) => Err(e),
        }
    }
}

} // verus!

verus! {

/// Where each field of an accessory read from a record of the accessory table comes
/// from: the value the record holds at the tag that table gives the field.
pub proof fn law_accessory_field_tags(x: Accessory, r: Seq<RawValue>)
    requires
        x.is_read_from(r),
    ensures
        x.id@ == field_upper(r, 0),
        x.name@ == field_text(r, 1),
        x.development_use == field_bits(r, 2),
        x.required_level == field_bits(r, 3),
        x.restricted_level == field_bits(r, 4),
        x.item_level == field_u16(r, 5),
        x.usable_class@ == field_classes(r, 6),
        x.random_apply_class@ == field_text(r, 7),
        x.usable_gender@ == field_text(r, 8),
        x.grade == field_grade(r, 9),
        x.accessory_type@ == field_lower(r, 10),
        x.durability == field_bits(r, 11),
        x.purchase_price == field_bits(r, 12),
        x.disposal_price == field_bits(r, 13),
        x.physical_min_attack == field_bits(r, 14),
        x.physical_max_attack == field_bits(r, 15),
        x.magic_defense == field_bits(r, 16),
        effect_view(x.equip_effect_1) == field_effect(r, 17),
        effect_view(x.equip_effect_2) == field_effect(r, 18),
        effect_view(x.equip_effect_3) == field_effect(r, 19),
        effect_view(x.equip_effect_4) == field_effect(r, 20),
        x.random_option_enabled == field_bits(r, 21),
        x.random_option_count_min == field_u8(r, 22),
        x.random_option_count_max == field_u8(r, 23),
        x.option_apply_ratio@ == field_text(r, 24),
        x.variable_attribute@ == field_text(r, 25),
        x.variable_attribute_min == field_bits(r, 26),
        x.variable_attribute_max == field_bits(r, 27),
        x.enhancement_limit == field_u8(r, 28),
        x.enhancement_probability@ == field_text(r, 29),
        x.no_drop == field_bits(r, 30),
        x.no_trade == field_bits(r, 31),
        x.no_disposal == field_bits(r, 32),
        x.no_destroy == field_bits(r, 33),
        x.drop_level_check@ == field_text(r, 34),
        x.binding@ == field_text(r, 35),
        x.binding_target@ == field_text(r, 36),
        x.binding_release_count == field_bits(r, 37),
        x.usage_restriction@ == field_text(r, 38),
        x.dyeable == field_bits(r, 39),
        x.sales_agency_category@ == field_text(r, 40),
        opt_view(x.skill_effect) == field_skill_described(r, 41),
        x.ignore_drop_level_check == field_bits(r, 42),
        x.usage_period == field_bits(r, 43),
        x.grade_up_code_key@ == field_text(r, 44),
        x.grade_up_result@ == field_text(r, 45),
        x.disassembly_id@ == field_text(r, 46),
        x.extraction_id@ == field_text(r, 47),
        x.sealed_fellow_equip_slot_max == field_bits(r, 48),
        x.use_level_option == field_bits(r, 49),
        x.level_weight == field_bits(r, 50),
        x.overrise_max == field_u8(r, 51),
        x.overrise_id@ == field_text(r, 52),
        x.overrise_id_2@ == field_text(r, 53),
        x.overrise_id_3@ == field_text(r, 54),
        x.contents_level == field_bits(r, 55),
        x.integrated_channel_disabled == field_bits(r, 56),
        x.reverse_enhancement_limit == field_u8(r, 57),
        x.level_up == field_bits(r, 58),
        x.item_exp == field_bits(r, 59),
        x.overrise_material_id1@ == field_text(r, 60),
        x.overrise_material_id2@ == field_text(r, 61),
{
}

} // verus!
