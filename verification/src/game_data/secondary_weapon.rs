//! Secondary weapons, as the secondary weapon table holds them.
use vstd::prelude::*;

use crate::effects::ItemEffect;
use crate::fields::{
    effect_view, field_bits, field_classes, field_effect, field_grade, field_lower, field_skill_described,
    field_text, field_u16, field_u8, field_upper, get_bits, get_classes, get_effect, get_grade, get_lower,
    get_skill_described, get_text, get_u16, get_u8, get_upper, opt_view,
};
use crate::game_data::locale::{find_locale, locale_lookup, locale_view, table_view, Locale};
use crate::game_data::AbstractItem;
use crate::kinds::{ClassSet, DataFormat, Grade};
use crate::table::{
    read_record, record_readable, spec_record, table_ok, FieldKind, HeaderView, RawField, RawValue, TableError,
    TableHeader,
};
use crate::game_data::item_set::{find_item_set, first_set_with, set_view, sets_view, ItemSet};
use crate::game_data::locale::{shown, shown_text};
use crate::kinds::Language;

verus! {

/// A secondary weapon.  Numbers the table stores as `f32` are kept as their bit
/// patterns.
#[derive(Debug)]
pub struct SecondaryWeapon {
    pub item_set: Option<ItemSet>,
    pub locale: Option<Locale>,
    pub skill_locale: Option<Locale>,
    pub id: String,
    pub name: String,
    pub for_development: u32,
    pub required_level: u32,
    pub level_restriction: u32,
    pub item_level: u16,
    pub usable_class: ClassSet,
    pub randomly_applied_class: String,
    pub usable_gender: String,
    pub grade: Option<Grade>,
    pub equipment_slot: String,
    pub weapon_type: String,
    pub reuse_time: u32,
    pub attribute_type: String,
    pub defense_attribute_gauge: u32,
    pub physical_defense: u32,
    pub magical_defense: u32,
    pub block_damage_reduction: u32,
    pub durability: u32,
    pub purchase_price: u32,
    pub disposal_price: u32,
    pub equip_effect_1: Option<ItemEffect>,
    pub equip_effect_2: Option<ItemEffect>,
    pub equip_effect_3: Option<ItemEffect>,
    pub equip_effect_4: Option<ItemEffect>,
    pub random_option_enabled: u32,
    pub random_option_count_min: u8,
    pub random_option_count_max: u8,
    pub option_apply_ratio: String,
    pub variable_option: String,
    pub variable_option_min: u32,
    pub variable_option_max: u32,
    pub enchant_limit: u8,
    pub enchant_probability: String,
    pub no_drop: u32,
    pub no_trade: u32,
    pub no_disposal: u32,
    pub indestructible: u32,
    pub drop_level_check: String,
    pub binding: String,
    pub binding_target: String,
    pub binding_release_count: u32,
    pub use_restriction: String,
    pub dyeable: u32,
    pub consignment_category: String,
    pub skill_effect: Option<String>,
    pub ignore_drop_level_check: u32,
    pub usage_period: u32,
    pub grade_up_code_key: String,
    pub grade_up_result: String,
    pub disassembly_id: String,
    pub extraction_id: String,
    pub use_level_option: u32,
    pub level_weight: u32,
    pub overrise_max: u8,
    pub overrise_id1: String,
    pub overrise_id2: String,
    pub overrise_id3: String,
    pub contents_level: u32,
    pub integrated_channel_disabled: u32,
    pub reverse_enchant_limit: u8,
    pub level_up: u32,
    pub item_exp: u32,
    pub seal_overlap_enabled: u32,
    pub overrise_material_id1: String,
    pub overrise_material_id2: String,
}

/// How a record of this table is read: text at tags 0, 1, 6, 7, 8, 10, 11, 13,
/// 21, 22, 23, 24, 28, 29, 33, 38, 39, 40, 42, 44, 45, 48, 49, 50, 51, 55, 56,
/// 57, 64, 65; a number at every other tag.
pub open spec fn secondary_weapon_kind(t: int) -> FieldKind {
    if t == 0 || t == 1 || t == 6 || t == 7 || t == 8 || t == 10 || t == 11 || t == 13
        || t == 21 || t == 22 || t == 23 || t == 24 || t == 28 || t == 29 || t == 33
        || t == 38 || t == 39 || t == 40 || t == 42 || t == 44 || t == 45 || t == 48
        || t == 49 || t == 50 || t == 51 || t == 55 || t == 56 || t == 57 || t == 64
        || t == 65 {
        FieldKind::Text
    } else {
        FieldKind::Number
    }
}

/// The kinds of the tags of a table with `n` tags.
pub open spec fn secondary_weapon_kinds(n: nat) -> Seq<FieldKind> {
    Seq::new(n, |t: int| secondary_weapon_kind(t))
}

impl SecondaryWeapon {
    /// Whether each field read from the table is what the record `r` holds
    /// at its tag.
    pub open spec fn fields_read_from(&self, r: Seq<RawValue>) -> bool {
        &&& self.id@ == field_upper(r, 0)
        &&& self.name@ == field_text(r, 1)
        &&& self.for_development == field_bits(r, 2)
        &&& self.required_level == field_bits(r, 3)
        &&& self.level_restriction == field_bits(r, 4)
        &&& self.item_level == field_u16(r, 5)
        &&& self.usable_class@ == field_classes(r, 6)
        &&& self.randomly_applied_class@ == field_text(r, 7)
        &&& self.usable_gender@ == field_text(r, 8)
        &&& self.grade == field_grade(r, 9)
        &&& self.equipment_slot@ == field_text(r, 10)
        &&& self.weapon_type@ == field_lower(r, 11)
        &&& self.reuse_time == field_bits(r, 12)
        &&& self.attribute_type@ == field_text(r, 13)
        &&& self.defense_attribute_gauge == field_bits(r, 14)
        &&& self.physical_defense == field_bits(r, 15)
        &&& self.magical_defense == field_bits(r, 16)
        &&& self.block_damage_reduction == field_bits(r, 17)
        &&& self.durability == field_bits(r, 18)
        &&& self.purchase_price == field_bits(r, 19)
        &&& self.disposal_price == field_bits(r, 20)
        &&& effect_view(self.equip_effect_1) == field_effect(r, 21)
        &&& effect_view(self.equip_effect_2) == field_effect(r, 22)
        &&& effect_view(self.equip_effect_3) == field_effect(r, 23)
        &&& effect_view(self.equip_effect_4) == field_effect(r, 24)
        &&& self.random_option_enabled == field_bits(r, 25)
        &&& self.random_option_count_min == field_u8(r, 26)
        &&& self.random_option_count_max == field_u8(r, 27)
        &&& self.option_apply_ratio@ == field_text(r, 28)
        &&& self.variable_option@ == field_text(r, 29)
        &&& self.variable_option_min == field_bits(r, 30)
        &&& self.variable_option_max == field_bits(r, 31)
        &&& self.enchant_limit == field_u8(r, 32)
        &&& self.enchant_probability@ == field_text(r, 33)
        &&& self.no_drop == field_bits(r, 34)
        &&& self.no_trade == field_bits(r, 35)
        &&& self.no_disposal == field_bits(r, 36)
        &&& self.indestructible == field_bits(r, 37)
        &&& self.drop_level_check@ == field_text(r, 38)
        &&& self.binding@ == field_text(r, 39)
        &&& self.binding_target@ == field_text(r, 40)
        &&& self.binding_release_count == field_bits(r, 41)
        &&& self.use_restriction@ == field_text(r, 42)
        &&& self.dyeable == field_bits(r, 43)
        &&& self.consignment_category@ == field_text(r, 44)
        &&& opt_view(self.skill_effect) == field_skill_described(r, 45)
        &&& self.ignore_drop_level_check == field_bits(r, 46)
        &&& self.usage_period == field_bits(r, 47)
        &&& self.grade_up_code_key@ == field_text(r, 48)
        &&& self.grade_up_result@ == field_text(r, 49)
        &&& self.disassembly_id@ == field_text(r, 50)
        &&& self.extraction_id@ == field_text(r, 51)
        &&& self.use_level_option == field_bits(r, 52)
        &&& self.level_weight == field_bits(r, 53)
        &&& self.overrise_max == field_u8(r, 54)
        &&& self.overrise_id1@ == field_text(r, 55)
        &&& self.overrise_id2@ == field_text(r, 56)
        &&& self.overrise_id3@ == field_text(r, 57)
        &&& self.contents_level == field_bits(r, 58)
        &&& self.integrated_channel_disabled == field_bits(r, 59)
        &&& self.reverse_enchant_limit == field_u8(r, 60)
        &&& self.level_up == field_bits(r, 61)
        &&& self.item_exp == field_bits(r, 62)
        &&& self.seal_overlap_enabled == field_bits(r, 63)
        &&& self.overrise_material_id1@ == field_text(r, 64)
        &&& self.overrise_material_id2@ == field_text(r, 65)
    }

    /// Whether this value is what reading the record `r` gives: its fields
    /// as `r` holds them, and nothing attached yet.
    pub open spec fn is_read_from(&self, r: Seq<RawValue>) -> bool {
        &&& self.fields_read_from(r)
        &&& self.item_set is None
        &&& self.locale is None
        &&& self.skill_locale is None
    }

    /// Whether the fields read from the table are equal in `self` and `other`.
    pub open spec fn same_fields(&self, other: &Self) -> bool {
        &&& self.id == other.id
        &&& self.name == other.name
        &&& self.for_development == other.for_development
        &&& self.required_level == other.required_level
        &&& self.level_restriction == other.level_restriction
        &&& self.item_level == other.item_level
        &&& self.usable_class == other.usable_class
        &&& self.randomly_applied_class == other.randomly_applied_class
        &&& self.usable_gender == other.usable_gender
        &&& self.grade == other.grade
        &&& self.equipment_slot == other.equipment_slot
        &&& self.weapon_type == other.weapon_type
        &&& self.reuse_time == other.reuse_time
        &&& self.attribute_type == other.attribute_type
        &&& self.defense_attribute_gauge == other.defense_attribute_gauge
        &&& self.physical_defense == other.physical_defense
        &&& self.magical_defense == other.magical_defense
        &&& self.block_damage_reduction == other.block_damage_reduction
        &&& self.durability == other.durability
        &&& self.purchase_price == other.purchase_price
        &&& self.disposal_price == other.disposal_price
        &&& self.equip_effect_1 == other.equip_effect_1
        &&& self.equip_effect_2 == other.equip_effect_2
        &&& self.equip_effect_3 == other.equip_effect_3
        &&& self.equip_effect_4 == other.equip_effect_4
        &&& self.random_option_enabled == other.random_option_enabled
        &&& self.random_option_count_min == other.random_option_count_min
        &&& self.random_option_count_max == other.random_option_count_max
        &&& self.option_apply_ratio == other.option_apply_ratio
        &&& self.variable_option == other.variable_option
        &&& self.variable_option_min == other.variable_option_min
        &&& self.variable_option_max == other.variable_option_max
        &&& self.enchant_limit == other.enchant_limit
        &&& self.enchant_probability == other.enchant_probability
        &&& self.no_drop == other.no_drop
        &&& self.no_trade == other.no_trade
        &&& self.no_disposal == other.no_disposal
        &&& self.indestructible == other.indestructible
        &&& self.drop_level_check == other.drop_level_check
        &&& self.binding == other.binding
        &&& self.binding_target == other.binding_target
        &&& self.binding_release_count == other.binding_release_count
        &&& self.use_restriction == other.use_restriction
        &&& self.dyeable == other.dyeable
        &&& self.consignment_category == other.consignment_category
        &&& self.skill_effect == other.skill_effect
        &&& self.ignore_drop_level_check == other.ignore_drop_level_check
        &&& self.usage_period == other.usage_period
        &&& self.grade_up_code_key == other.grade_up_code_key
        &&& self.grade_up_result == other.grade_up_result
        &&& self.disassembly_id == other.disassembly_id
        &&& self.extraction_id == other.extraction_id
        &&& self.use_level_option == other.use_level_option
        &&& self.level_weight == other.level_weight
        &&& self.overrise_max == other.overrise_max
        &&& self.overrise_id1 == other.overrise_id1
        &&& self.overrise_id2 == other.overrise_id2
        &&& self.overrise_id3 == other.overrise_id3
        &&& self.contents_level == other.contents_level
        &&& self.integrated_channel_disabled == other.integrated_channel_disabled
        &&& self.reverse_enchant_limit == other.reverse_enchant_limit
        &&& self.level_up == other.level_up
        &&& self.item_exp == other.item_exp
        &&& self.seal_overlap_enabled == other.seal_overlap_enabled
        &&& self.overrise_material_id1 == other.overrise_material_id1
        &&& self.overrise_material_id2 == other.overrise_material_id2
    }

    /// The kind of tag `t`.
    pub fn kind_at(t: usize) -> (k: FieldKind)
        ensures
            k == secondary_weapon_kind(t as int),
    {
        if t == 0 || t == 1 || t == 6 || t == 7 || t == 8 || t == 10 || t == 11 || t == 13
            || t == 21 || t == 22 || t == 23 || t == 24 || t == 28 || t == 29 || t == 33
            || t == 38 || t == 39 || t == 40 || t == 42 || t == 44 || t == 45 || t == 48
            || t == 49 || t == 50 || t == 51 || t == 55 || t == 56 || t == 57 || t == 64
            || t == 65 {
            FieldKind::Text
        } else {
            FieldKind::Number
        }
    }

    /// The kinds of the `n` tags of a record.
    pub fn kinds(n: usize) -> (v: Vec<FieldKind>)
        ensures
            v@ == secondary_weapon_kinds(n as nat),
    {
        let mut v: Vec<FieldKind> = Vec::new();
        let mut t: usize = 0;
        while t < n
            invariant
                t <= n,
                v@ == secondary_weapon_kinds(t as nat),
            decreases n - t,
        {
            v.push(Self::kind_at(t));
            assert(v@ =~= secondary_weapon_kinds((t + 1) as nat));
            t = t + 1;
        }
        v
    }

    /// The value the fields `rec` hold.
    pub fn from_record(rec: &Vec<RawField>) -> (x: SecondaryWeapon)
        ensures
            x.is_read_from(rec@.map_values(|f: RawField| f@)),
    {
        SecondaryWeapon {
            item_set: None,
            locale: None,
            skill_locale: None,
            id: get_upper(rec, 0),
            name: get_text(rec, 1),
            for_development: get_bits(rec, 2),
            required_level: get_bits(rec, 3),
            level_restriction: get_bits(rec, 4),
            item_level: get_u16(rec, 5),
            usable_class: get_classes(rec, 6),
            randomly_applied_class: get_text(rec, 7),
            usable_gender: get_text(rec, 8),
            grade: get_grade(rec, 9),
            equipment_slot: get_text(rec, 10),
            weapon_type: get_lower(rec, 11),
            reuse_time: get_bits(rec, 12),
            attribute_type: get_text(rec, 13),
            defense_attribute_gauge: get_bits(rec, 14),
            physical_defense: get_bits(rec, 15),
            magical_defense: get_bits(rec, 16),
            block_damage_reduction: get_bits(rec, 17),
            durability: get_bits(rec, 18),
            purchase_price: get_bits(rec, 19),
            disposal_price: get_bits(rec, 20),
            equip_effect_1: get_effect(rec, 21),
            equip_effect_2: get_effect(rec, 22),
            equip_effect_3: get_effect(rec, 23),
            equip_effect_4: get_effect(rec, 24),
            random_option_enabled: get_bits(rec, 25),
            random_option_count_min: get_u8(rec, 26),
            random_option_count_max: get_u8(rec, 27),
            option_apply_ratio: get_text(rec, 28),
            variable_option: get_text(rec, 29),
            variable_option_min: get_bits(rec, 30),
            variable_option_max: get_bits(rec, 31),
            enchant_limit: get_u8(rec, 32),
            enchant_probability: get_text(rec, 33),
            no_drop: get_bits(rec, 34),
            no_trade: get_bits(rec, 35),
            no_disposal: get_bits(rec, 36),
            indestructible: get_bits(rec, 37),
            drop_level_check: get_text(rec, 38),
            binding: get_text(rec, 39),
            binding_target: get_text(rec, 40),
            binding_release_count: get_bits(rec, 41),
            use_restriction: get_text(rec, 42),
            dyeable: get_bits(rec, 43),
            consignment_category: get_text(rec, 44),
            skill_effect: get_skill_described(rec, 45),
            ignore_drop_level_check: get_bits(rec, 46),
            usage_period: get_bits(rec, 47),
            grade_up_code_key: get_text(rec, 48),
            grade_up_result: get_text(rec, 49),
            disassembly_id: get_text(rec, 50),
            extraction_id: get_text(rec, 51),
            use_level_option: get_bits(rec, 52),
            level_weight: get_bits(rec, 53),
            overrise_max: get_u8(rec, 54),
            overrise_id1: get_text(rec, 55),
            overrise_id2: get_text(rec, 56),
            overrise_id3: get_text(rec, 57),
            contents_level: get_bits(rec, 58),
            integrated_channel_disabled: get_bits(rec, 59),
            reverse_enchant_limit: get_u8(rec, 60),
            level_up: get_bits(rec, 61),
            item_exp: get_bits(rec, 62),
            seal_overlap_enabled: get_bits(rec, 63),
            overrise_material_id1: get_text(rec, 64),
            overrise_material_id2: get_text(rec, 65),
        }
    }

    /// Attaches the locale that `locales` gives for the id and, when there
    /// is a skill, the one that `skill_locales` gives for the skill.
    pub fn set_locale(&mut self, locales: &Vec<Locale>, skill_locales: &Vec<Locale>)
        ensures
            final(self).same_fields(old(self)),
            final(self).item_set == old(self).item_set,
            locale_view(final(self).locale) == locale_lookup(table_view(locales@), old(self).id@),
            locale_view(final(self).skill_locale) == match old(self).skill_effect {
                Some(s) => locale_lookup(table_view(skill_locales@), s@),
                None => locale_view(old(self).skill_locale),
            },
    {
        self.locale = find_locale(locales, self.id.as_str());
        let skill = self.skill_effect.clone();
        match skill {
            Some(s) => {
                self.skill_locale = find_locale(skill_locales, s.as_str());
            },
            None => {},
        }
    }

    /// Attaches the first of `item_sets` that lists this item.
    pub fn set_item_set(&mut self, item_sets: &Vec<ItemSet>)
        ensures
            final(self).same_fields(old(self)),
            final(self).locale == old(self).locale,
            final(self).skill_locale == old(self).skill_locale,
            set_view(final(self).item_set) == first_set_with(sets_view(item_sets@), old(self).id@),
    {
        self.item_set = find_item_set(item_sets, self.id.as_str());
    }

    /// The type with "_01" appended, as the tempering tables are named.
    pub fn get_full_type(&self) -> (s: String)
        ensures
            s@ == self.weapon_type@ + "_01"@,
    {
        let mut s = self.weapon_type.clone();
        s.append("_01");
        s
    }

    /// The type, as the quality tables are named.
    pub fn get_type(&self) -> (s: String)
        ensures
            s@ == self.weapon_type@,
    {
        self.weapon_type.clone()
    }

    /// The name of the skill in `language`: its locale's text when there is
    /// a non-empty one, else the skill reference itself.
    pub fn get_skill_locale(&self, language: Language) -> (r: Option<String>)
        ensures
            opt_view(r) == match shown_text(locale_view(self.skill_locale), language) {
                Some(t) => Some(t),
                None => opt_view(self.skill_effect),
            },
    {
        match shown(&self.skill_locale, language) {
            Some(t) => Some(t),
            None => self.skill_effect.clone(),
        }
    }
}

impl AbstractItem for SecondaryWeapon {
    open spec fn record_kinds(h: HeaderView) -> Seq<FieldKind> {
        secondary_weapon_kinds(h.0.len())
    }

    open spec fn read_from(&self, r: Seq<RawValue>, h: HeaderView) -> bool {
        self.is_read_from(r)
    }

    fn read(data: &[u8], header: &TableHeader, format: DataFormat, item_idx: usize) -> (r: Result<SecondaryWeapon, TableError>) {
        let kinds = Self::kinds(header.tag_count());
        match read_record(data, header, format, item_idx, &kinds) {
            Ok(rec) => Ok(Self::from_record(&rec)),
            Err(e) => Err(e),
        }
    }
}

} // verus!

verus! {

/// Where each field of a secondary weapon read from a record of the secondary weapon table comes
/// from: the value the record holds at the tag that table gives the field.
pub proof fn law_secondary_weapon_field_tags(x: SecondaryWeapon, r: Seq<RawValue>)
    requires
        x.is_read_from(r),
    ensures
        x.id@ == field_upper(r, 0),
        x.name@ == field_text(r, 1),
        x.for_development == field_bits(r, 2),
        x.required_level == field_bits(r, 3),
        x.level_restriction == field_bits(r, 4),
        x.item_level == field_u16(r, 5),
        x.usable_class@ == field_classes(r, 6),
        x.randomly_applied_class@ == field_text(r, 7),
        x.usable_gender@ == field_text(r, 8),
        x.grade == field_grade(r, 9),
        x.equipment_slot@ == field_text(r, 10),
        x.weapon_type@ == field_lower(r, 11),
        x.reuse_time == field_bits(r, 12),
        x.attribute_type@ == field_text(r, 13),
        x.defense_attribute_gauge == field_bits(r, 14),
        x.physical_defense == field_bits(r, 15),
        x.magical_defense == field_bits(r, 16),
        x.block_damage_reduction == field_bits(r, 17),
        x.durability == field_bits(r, 18),
        x.purchase_price == field_bits(r, 19),
        x.disposal_price == field_bits(r, 20),
        effect_view(x.equip_effect_1) == field_effect(r, 21),
        effect_view(x.equip_effect_2) == field_effect(r, 22),
        effect_view(x.equip_effect_3) == field_effect(r, 23),
        effect_view(x.equip_effect_4) == field_effect(r, 24),
        x.random_option_enabled == field_bits(r, 25),
        x.random_option_count_min == field_u8(r, 26),
        x.random_option_count_max == field_u8(r, 27),
        x.option_apply_ratio@ == field_text(r, 28),
        x.variable_option@ == field_text(r, 29),
        x.variable_option_min == field_bits(r, 30),
        x.variable_option_max == field_bits(r, 31),
        x.enchant_limit == field_u8(r, 32),
        x.enchant_probability@ == field_text(r, 33),
        x.no_drop == field_bits(r, 34),
        x.no_trade == field_bits(r, 35),
        x.no_disposal == field_bits(r, 36),
        x.indestructible == field_bits(r, 37),
        x.drop_level_check@ == field_text(r, 38),
        x.binding@ == field_text(r, 39),
        x.binding_target@ == field_text(r, 40),
        x.binding_release_count == field_bits(r, 41),
        x.use_restriction@ == field_text(r, 42),
        x.dyeable == field_bits(r, 43),
        x.consignment_category@ == field_text(r, 44),
        opt_view(x.skill_effect) == field_skill_described(r, 45),
        x.ignore_drop_level_check == field_bits(r, 46),
        x.usage_period == field_bits(r, 47),
        x.grade_up_code_key@ == field_text(r, 48),
        x.grade_up_result@ == field_text(r, 49),
        x.disassembly_id@ == field_text(r, 50),
        x.extraction_id@ == field_text(r, 51),
        x.use_level_option == field_bits(r, 52),
        x.level_weight == field_bits(r, 53),
        x.overrise_max == field_u8(r, 54),
        x.overrise_id1@ == field_text(r, 55),
        x.overrise_id2@ == field_text(r, 56),
        x.overrise_id3@ == field_text(r, 57),
        x.contents_level == field_bits(r, 58),
        x.integrated_channel_disabled == field_bits(r, 59),
        x.reverse_enchant_limit == field_u8(r, 60),
        x.level_up == field_bits(r, 61),
        x.item_exp == field_bits(r, 62),
        x.seal_overlap_enabled == field_bits(r, 63),
        x.overrise_material_id1@ == field_text(r, 64),
        x.overrise_material_id2@ == field_text(r, 65),
{
}

} // verus!
