//! Weapons, as the weapon table holds them.
use vstd::prelude::*;

use crate::effects::ItemEffect;
use crate::fields::{
    effect_view, field_bits, field_classes, field_effect, field_flag, field_grade, field_lower, field_skill_dotted,
    field_text, field_u16, field_u8, field_upper, get_bits, get_classes, get_effect, get_flag, get_grade, get_lower,
    get_skill_dotted, get_text, get_u16, get_u8, get_upper, opt_view,
};
use crate::game_data::locale::{find_locale, locale_lookup, locale_view, table_view, Locale};
use crate::game_data::AbstractItem;
use crate::kinds::{ClassSet, DataFormat, Grade};
use crate::table::{
    read_record, record_readable, spec_record, table_ok, FieldKind, HeaderView, RawField, RawValue, TableError,
    TableHeader,
};
use crate::game_data::item_set::{find_item_set, first_set_with, set_view, sets_view, ItemSet};
use crate::game_data::locale::{shown, shown_text};
use crate::kinds::Language;

verus! {

/// A weapon.  Numbers the table stores as `f32` are kept as their bit
/// patterns.
#[derive(Debug)]
pub struct Weapon {
    pub item_set: Option<ItemSet>,
    pub locale: Option<Locale>,
    pub skill_locale: Option<Locale>,
    pub id: String,
    pub name: String,
    pub for_development: u32,
    pub required_level: u8,
    pub level_restriction: u32,
    pub item_level: u16,
    pub usable_class: ClassSet,
    pub randomly_applied_class: String,
    pub usable_gender: String,
    pub grade: Option<Grade>,
    pub equipment_slot: String,
    pub weapon_type: String,
    pub attack_range_type: String,
    pub attribute_type: String,
    pub gauge_increase_amount: u32,
    pub range: u32,
    pub air_range: u32,
    pub min_attack: u32,
    pub max_attack: u32,
    pub projectile_speed: u32,
    pub attack_speed: u32,
    pub durability: u32,
    pub purchase_price: u32,
    pub sell_price: u32,
    pub phys_accuracy: u32,
    pub magic_accuracy: u32,
    pub phys_crit_rate: u32,
    pub magic_crit_rate: u32,
    pub phys_crit_damage: u32,
    pub magic_crit_damage: u32,
    pub block_rate: u32,
    pub equip_effect_1: Option<ItemEffect>,
    pub equip_effect_2: Option<ItemEffect>,
    pub equip_effect_3: Option<ItemEffect>,
    pub equip_effect_4: Option<ItemEffect>,
    pub random_option_applied: u32,
    pub min_random_options: u8,
    pub max_random_options: u8,
    pub application_rate: u32,
    pub apply_slots_on_drop: u32,
    pub min_sealed_slots: u32,
    pub max_sealed_slots: u32,
    pub min_crafting_seal_slots: u8,
    pub max_crafting_seal_slots: u8,
    pub seal_slots_on_great_crafting_success: String,
    pub min_variable_stat: u32,
    pub max_variable_stat: u32,
    pub sealed_slots_count: u32,
    pub soul_stone1: String,
    pub soul_stone2: String,
    pub soul_stone3: String,
    pub enhancement_limit: u8,
    pub enhancement_chance: String,
    pub cannot_drop: u32,
    pub cannot_trade: bool,
    pub cannot_sell: bool,
    pub indestructible: bool,
    pub level_check_on_drop: String,
    pub binding: String,
    pub bind_target: String,
    pub bind_removal_count: u32,
    pub usage_restriction: String,
    pub dyeable: u32,
    pub auction_category: String,
    pub skill_effect: Option<String>,
    pub ignore_level_check_on_drop: u32,
    pub usage_period: u32,
    pub grade_up_code_key: String,
    pub grade_up_result: String,
    pub disassembly_id: String,
    pub extraction_id: String,
    pub use_level_option: u32,
    pub level_weight: u32,
    pub overrise_max: u8,
    pub overrise_id1: String,
    pub overrise_id2: String,
    pub overrise_id3: String,
    pub contents_level: u32,
    pub not_usable_in_unified_channel: u32,
    pub reverse_enhancement_limit: u8,
    pub awaken_check: u32,
    pub awaken_bead1: String,
    pub awaken_nead2: String,
    pub level_up: u32,
    pub item_exp: u32,
    pub seal_stone_reequip_allowed: u32,
    pub weapon_charge: u32,
    pub max_charge: u32,
    pub overrise_material_id1: String,
    pub overrise_material_id2: String,
}

/// How a record of this table is read: text at tags 0, 1, 6, 7, 8, 10, 11, 12,
/// 13, 31, 32, 33, 34, 44, 48, 49, 50, 52, 57, 58, 59, 61, 63, 64, 67, 68, 69,
/// 70, 74, 75, 76, 81, 82, 88, 89; a number at every other tag.
pub open spec fn weapon_kind(t: int) -> FieldKind {
    if t == 0 || t == 1 || t == 6 || t == 7 || t == 8 || t == 10 || t == 11 || t == 12
        || t == 13 || t == 31 || t == 32 || t == 33 || t == 34 || t == 44 || t == 48
        || t == 49 || t == 50 || t == 52 || t == 57 || t == 58 || t == 59 || t == 61
        || t == 63 || t == 64 || t == 67 || t == 68 || t == 69 || t == 70 || t == 74
        || t == 75 || t == 76 || t == 81 || t == 82 || t == 88 || t == 89 {
        FieldKind::Text
    } else {
        FieldKind::Number
    }
}

/// The kinds of the tags of a table with `n` tags.
pub open spec fn weapon_kinds(n: nat) -> Seq<FieldKind> {
    Seq::new(n, |t: int| weapon_kind(t))
}

impl Weapon {
    /// Whether each field read from the table is what the record `r` holds
    /// at its tag.
    pub open spec fn fields_read_from(&self, r: Seq<RawValue>) -> bool {
        &&& self.id@ == field_upper(r, 0)
        &&& self.name@ == field_text(r, 1)
        &&& self.for_development == field_bits(r, 2)
        &&& self.required_level == field_u8(r, 3)
        &&& self.level_restriction == field_bits(r, 4)
        &&& self.item_level == field_u16(r, 5)
        &&& self.usable_class@ == field_classes(r, 6)
        &&& self.randomly_applied_class@ == field_text(r, 7)
        &&& self.usable_gender@ == field_text(r, 8)
        &&& self.grade == field_grade(r, 9)
        &&& self.equipment_slot@ == field_text(r, 10)
        &&& self.weapon_type@ == field_lower(r, 11)
        &&& self.attack_range_type@ == field_text(r, 12)
        &&& self.attribute_type@ == field_text(r, 13)
        &&& self.gauge_increase_amount == field_bits(r, 14)
        &&& self.range == field_bits(r, 15)
        &&& self.air_range == field_bits(r, 16)
        &&& self.min_attack == field_bits(r, 17)
        &&& self.max_attack == field_bits(r, 18)
        &&& self.projectile_speed == field_bits(r, 19)
        &&& self.attack_speed == field_bits(r, 20)
        &&& self.durability == field_bits(r, 21)
        &&& self.purchase_price == field_bits(r, 22)
        &&& self.sell_price == field_bits(r, 23)
        &&& self.phys_accuracy == field_bits(r, 24)
        &&& self.magic_accuracy == field_bits(r, 25)
        &&& self.phys_crit_rate == field_bits(r, 26)
        &&& self.magic_crit_rate == field_bits(r, 27)
        &&& self.phys_crit_damage == field_bits(r, 28)
        &&& self.magic_crit_damage == field_bits(r, 29)
        &&& self.block_rate == field_bits(r, 30)
        &&& effect_view(self.equip_effect_1) == field_effect(r, 31)
        &&& effect_view(self.equip_effect_2) == field_effect(r, 32)
        &&& effect_view(self.equip_effect_3) == field_effect(r, 33)
        &&& effect_view(self.equip_effect_4) == field_effect(r, 34)
        &&& self.random_option_applied == field_bits(r, 35)
        &&& self.min_random_options == field_u8(r, 36)
        &&& self.max_random_options == field_u8(r, 37)
        &&& self.application_rate == field_bits(r, 38)
        &&& self.apply_slots_on_drop == field_bits(r, 39)
        &&& self.min_sealed_slots == field_bits(r, 40)
        &&& self.max_sealed_slots == field_bits(r, 41)
        &&& self.min_crafting_seal_slots == field_u8(r, 42)
        &&& self.max_crafting_seal_slots == field_u8(r, 43)
        &&& self.seal_slots_on_great_crafting_success@ == field_text(r, 44)
        &&& self.min_variable_stat == field_bits(r, 45)
        &&& self.max_variable_stat == field_bits(r, 46)
        &&& self.sealed_slots_count == field_bits(r, 47)
        &&& self.soul_stone1@ == field_text(r, 48)
        &&& self.soul_stone2@ == field_text(r, 49)
        &&& self.soul_stone3@ == field_text(r, 50)
        &&& self.enhancement_limit == field_u8(r, 51)
        &&& self.enhancement_chance@ == field_text(r, 52)
        &&& self.cannot_drop == field_bits(r, 53)
        &&& self.cannot_trade == field_flag(r, 54)
        &&& self.cannot_sell == field_flag(r, 55)
        &&& self.indestructible == field_flag(r, 56)
        &&& self.level_check_on_drop@ == field_text(r, 57)
        &&& self.binding@ == field_text(r, 58)
        &&& self.bind_target@ == field_text(r, 59)
        &&& self.bind_removal_count == field_bits(r, 60)
        &&& self.usage_restriction@ == field_text(r, 61)
        &&& self.dyeable == field_bits(r, 62)
        &&& self.auction_category@ == field_text(r, 63)
        &&& opt_view(self.skill_effect) == field_skill_dotted(r, 64)
        &&& self.ignore_level_check_on_drop == field_bits(r, 65)
        &&& self.usage_period == field_bits(r, 66)
        &&& self.grade_up_code_key@ == field_text(r, 67)
        &&& self.grade_up_result@ == field_text(r, 68)
        &&& self.disassembly_id@ == field_text(r, 69)
        &&& self.extraction_id@ == field_text(r, 70)
        &&& self.use_level_option == field_bits(r, 71)
        &&& self.level_weight == field_bits(r, 72)
        &&& self.overrise_max == field_u8(r, 73)
        &&& self.overrise_id1@ == field_text(r, 74)
        &&& self.overrise_id2@ == field_text(r, 75)
        &&& self.overrise_id3@ == field_text(r, 76)
        &&& self.contents_level == field_bits(r, 77)
        &&& self.not_usable_in_unified_channel == field_bits(r, 78)
        &&& self.reverse_enhancement_limit == field_u8(r, 79)
        &&& self.awaken_check == field_bits(r, 80)
        &&& self.awaken_bead1@ == field_text(r, 81)
        &&& self.awaken_nead2@ == field_text(r, 82)
        &&& self.level_up == field_bits(r, 83)
        &&& self.item_exp == field_bits(r, 84)
        &&& self.seal_stone_reequip_allowed == field_bits(r, 85)
        &&& self.weapon_charge == field_bits(r, 86)
        &&& self.max_charge == field_bits(r, 87)
        &&& self.overrise_material_id1@ == field_text(r, 88)
        &&& self.overrise_material_id2@ == field_text(r, 89)
    }

    /// Whether this value is what reading the record `r` gives: its fields
    /// as `r` holds them, and nothing attached yet.
    pub open spec fn is_read_from(&self, r: Seq<RawValue>) -> bool {
        &&& self.fields_read_from(r)
        &&& self.item_set is None
        &&& self.locale is None
        &&& self.skill_locale is None
    }

    /// Whether the fields read from the table are equal in `self` and `other`.
    pub open spec fn same_fields(&self, other: &Self) -> bool {
        &&& self.id == other.id
        &&& self.name == other.name
        &&& self.for_development == other.for_development
        &&& self.required_level == other.required_level
        &&& self.level_restriction == other.level_restriction
        &&& self.item_level == other.item_level
        &&& self.usable_class == other.usable_class
        &&& self.randomly_applied_class == other.randomly_applied_class
        &&& self.usable_gender == other.usable_gender
        &&& self.grade == other.grade
        &&& self.equipment_slot == other.equipment_slot
        &&& self.weapon_type == other.weapon_type
        &&& self.attack_range_type == other.attack_range_type
        &&& self.attribute_type == other.attribute_type
        &&& self.gauge_increase_amount == other.gauge_increase_amount
        &&& self.range == other.range
        &&& self.air_range == other.air_range
        &&& self.min_attack == other.min_attack
        &&& self.max_attack == other.max_attack
        &&& self.projectile_speed == other.projectile_speed
        &&& self.attack_speed == other.attack_speed
        &&& self.durability == other.durability
        &&& self.purchase_price == other.purchase_price
        &&& self.sell_price == other.sell_price
        &&& self.phys_accuracy == other.phys_accuracy
        &&& self.magic_accuracy == other.magic_accuracy
        &&& self.phys_crit_rate == other.phys_crit_rate
        &&& self.magic_crit_rate == other.magic_crit_rate
        &&& self.phys_crit_damage == other.phys_crit_damage
        &&& self.magic_crit_damage == other.magic_crit_damage
        &&& self.block_rate == other.block_rate
        &&& self.equip_effect_1 == other.equip_effect_1
        &&& self.equip_effect_2 == other.equip_effect_2
        &&& self.equip_effect_3 == other.equip_effect_3
        &&& self.equip_effect_4 == other.equip_effect_4
        &&& self.random_option_applied == other.random_option_applied
        &&& self.min_random_options == other.min_random_options
        &&& self.max_random_options == other.max_random_options
        &&& self.application_rate == other.application_rate
        &&& self.apply_slots_on_drop == other.apply_slots_on_drop
        &&& self.min_sealed_slots == other.min_sealed_slots
        &&& self.max_sealed_slots == other.max_sealed_slots
        &&& self.min_crafting_seal_slots == other.min_crafting_seal_slots
        &&& self.max_crafting_seal_slots == other.max_crafting_seal_slots
        &&& self.seal_slots_on_great_crafting_success == other.seal_slots_on_great_crafting_success
        &&& self.min_variable_stat == other.min_variable_stat
        &&& self.max_variable_stat == other.max_variable_stat
        &&& self.sealed_slots_count == other.sealed_slots_count
        &&& self.soul_stone1 == other.soul_stone1
        &&& self.soul_stone2 == other.soul_stone2
        &&& self.soul_stone3 == other.soul_stone3
        &&& self.enhancement_limit == other.enhancement_limit
        &&& self.enhancement_chance == other.enhancement_chance
        &&& self.cannot_drop == other.cannot_drop
        &&& self.cannot_trade == other.cannot_trade
        &&& self.cannot_sell == other.cannot_sell
        &&& self.indestructible == other.indestructible
        &&& self.level_check_on_drop == other.level_check_on_drop
        &&& self.binding == other.binding
        &&& self.bind_target == other.bind_target
        &&& self.bind_removal_count == other.bind_removal_count
        &&& self.usage_restriction == other.usage_restriction
        &&& self.dyeable == other.dyeable
        &&& self.auction_category == other.auction_category
        &&& self.skill_effect == other.skill_effect
        &&& self.ignore_level_check_on_drop == other.ignore_level_check_on_drop
        &&& self.usage_period == other.usage_period
        &&& self.grade_up_code_key == other.grade_up_code_key
        &&& self.grade_up_result == other.grade_up_result
        &&& self.disassembly_id == other.disassembly_id
        &&& self.extraction_id == other.extraction_id
        &&& self.use_level_option == other.use_level_option
        &&& self.level_weight == other.level_weight
        &&& self.overrise_max == other.overrise_max
        &&& self.overrise_id1 == other.overrise_id1
        &&& self.overrise_id2 == other.overrise_id2
        &&& self.overrise_id3 == other.overrise_id3
        &&& self.contents_level == other.contents_level
        &&& self.not_usable_in_unified_channel == other.not_usable_in_unified_channel
        &&& self.reverse_enhancement_limit == other.reverse_enhancement_limit
        &&& self.awaken_check == other.awaken_check
        &&& self.awaken_bead1 == other.awaken_bead1
        &&& self.awaken_nead2 == other.awaken_nead2
        &&& self.level_up == other.level_up
        &&& self.item_exp == other.item_exp
        &&& self.seal_stone_reequip_allowed == other.seal_stone_reequip_allowed
        &&& self.weapon_charge == other.weapon_charge
        &&& self.max_charge == other.max_charge
        &&& self.overrise_material_id1 == other.overrise_material_id1
        &&& self.overrise_material_id2 == other.overrise_material_id2
    }

    /// The kind of tag `t`.
    pub fn kind_at(t: usize) -> (k: FieldKind)
        ensures
            k == weapon_kind(t as int),
    {
        if t == 0 || t == 1 || t == 6 || t == 7 || t == 8 || t == 10 || t == 11 || t == 12
            || t == 13 || t == 31 || t == 32 || t == 33 || t == 34 || t == 44 || t == 48
            || t == 49 || t == 50 || t == 52 || t == 57 || t == 58 || t == 59 || t == 61
            || t == 63 || t == 64 || t == 67 || t == 68 || t == 69 || t == 70 || t == 74
            || t == 75 || t == 76 || t == 81 || t == 82 || t == 88 || t == 89 {
            FieldKind::Text
        } else {
            FieldKind::Number
        }
    }

    /// The kinds of the `n` tags of a record.
    pub fn kinds(n: usize) -> (v: Vec<FieldKind>)
        ensures
            v@ == weapon_kinds(n as nat),
    {
        let mut v: Vec<FieldKind> = Vec::new();
        let mut t: usize = 0;
        while t < n
            invariant
                t <= n,
                v@ == weapon_kinds(t as nat),
            decreases n - t,
        {
            v.push(Self::kind_at(t));
            assert(v@ =~= weapon_kinds((t + 1) as nat));
            t = t + 1;
        }
        v
    }

    /// The value the fields `rec` hold.
    pub fn from_record(rec: &Vec<RawField>) -> (x: Weapon)
        ensures
            x.is_read_from(rec@.map_values(|f: RawField| f@)),
    {
        Weapon {
            item_set: None,
            locale: None,
            skill_locale: None,
            id: get_upper(rec, 0),
            name: get_text(rec, 1),
            for_development: get_bits(rec, 2),
            required_level: get_u8(rec, 3),
            level_restriction: get_bits(rec, 4),
            item_level: get_u16(rec, 5),
            usable_class: get_classes(rec, 6),
            randomly_applied_class: get_text(rec, 7),
            usable_gender: get_text(rec, 8),
            grade: get_grade(rec, 9),
            equipment_slot: get_text(rec, 10),
            weapon_type: get_lower(rec, 11),
            attack_range_type: get_text(rec, 12),
            attribute_type: get_text(rec, 13),
            gauge_increase_amount: get_bits(rec, 14),
            range: get_bits(rec, 15),
            air_range: get_bits(rec, 16),
            min_attack: get_bits(rec, 17),
            max_attack: get_bits(rec, 18),
            projectile_speed: get_bits(rec, 19),
            attack_speed: get_bits(rec, 20),
            durability: get_bits(rec, 21),
            purchase_price: get_bits(rec, 22),
            sell_price: get_bits(rec, 23),
            phys_accuracy: get_bits(rec, 24),
            magic_accuracy: get_bits(rec, 25),
            phys_crit_rate: get_bits(rec, 26),
            magic_crit_rate: get_bits(rec, 27),
            phys_crit_damage: get_bits(rec, 28),
            magic_crit_damage: get_bits(rec, 29),
            block_rate: get_bits(rec, 30),
            equip_effect_1: get_effect(rec, 31),
            equip_effect_2: get_effect(rec, 32),
            equip_effect_3: get_effect(rec, 33),
            equip_effect_4: get_effect(rec, 34),
            random_option_applied: get_bits(rec, 35),
            min_random_options: get_u8(rec, 36),
            max_random_options: get_u8(rec, 37),
            application_rate: get_bits(rec, 38),
            apply_slots_on_drop: get_bits(rec, 39),
            min_sealed_slots: get_bits(rec, 40),
            max_sealed_slots: get_bits(rec, 41),
            min_crafting_seal_slots: get_u8(rec, 42),
            max_crafting_seal_slots: get_u8(rec, 43),
            seal_slots_on_great_crafting_success: get_text(rec, 44),
            min_variable_stat: get_bits(rec, 45),
            max_variable_stat: get_bits(rec, 46),
            sealed_slots_count: get_bits(rec, 47),
            soul_stone1: get_text(rec, 48),
            soul_stone2: get_text(rec, 49),
            soul_stone3: get_text(rec, 50),
            enhancement_limit: get_u8(rec, 51),
            enhancement_chance: get_text(rec, 52),
            cannot_drop: get_bits(rec, 53),
            cannot_trade: get_flag(rec, 54),
            cannot_sell: get_flag(rec, 55),
            indestructible: get_flag(rec, 56),
            level_check_on_drop: get_text(rec, 57),
            binding: get_text(rec, 58),
            bind_target: get_text(rec, 59),
            bind_removal_count: get_bits(rec, 60),
            usage_restriction: get_text(rec, 61),
            dyeable: get_bits(rec, 62),
            auction_category: get_text(rec, 63),
            skill_effect: get_skill_dotted(rec, 64),
            ignore_level_check_on_drop: get_bits(rec, 65),
            usage_period: get_bits(rec, 66),
            grade_up_code_key: get_text(rec, 67),
            grade_up_result: get_text(rec, 68),
            disassembly_id: get_text(rec, 69),
            extraction_id: get_text(rec, 70),
            use_level_option: get_bits(rec, 71),
            level_weight: get_bits(rec, 72),
            overrise_max: get_u8(rec, 73),
            overrise_id1: get_text(rec, 74),
            overrise_id2: get_text(rec, 75),
            overrise_id3: get_text(rec, 76),
            contents_level: get_bits(rec, 77),
            not_usable_in_unified_channel: get_bits(rec, 78),
            reverse_enhancement_limit: get_u8(rec, 79),
            awaken_check: get_bits(rec, 80),
            awaken_bead1: get_text(rec, 81),
            awaken_nead2: get_text(rec, 82),
            level_up: get_bits(rec, 83),
            item_exp: get_bits(rec, 84),
            seal_stone_reequip_allowed: get_bits(rec, 85),
            weapon_charge: get_bits(rec, 86),
            max_charge: get_bits(rec, 87),
            overrise_material_id1: get_text(rec, 88),
            overrise_material_id2: get_text(rec, 89),
        }
    }

    /// Attaches the locale that `locales` gives for the id and, when there
    /// is a skill, the one that `skill_locales` gives for the skill.
    pub fn set_locale(&mut self, locales: &Vec<Locale>, skill_locales: &Vec<Locale>)
        ensures
            final(self).same_fields(old(self)),
            final(self).item_set == old(self).item_set,
            locale_view(final(self).locale) == locale_lookup(table_view(locales@), old(self).id@),
            locale_view(final(self).skill_locale) == match old(self).skill_effect {
                Some(s) => locale_lookup(table_view(skill_locales@), s@),
                None => locale_view(old(self).skill_locale),
            },
    {
        self.locale = find_locale(locales, self.id.as_str());
        let skill = self.skill_effect.clone();
        match skill {
            Some(s) => {
                self.skill_locale = find_locale(skill_locales, s.as_str());
            },
            None => {},
        }
    }

    /// Attaches the first of `item_sets` that lists this item.
    pub fn set_item_set(&mut self, item_sets: &Vec<ItemSet>)
        ensures
            final(self).same_fields(old(self)),
            final(self).locale == old(self).locale,
            final(self).skill_locale == old(self).skill_locale,
            set_view(final(self).item_set) == first_set_with(sets_view(item_sets@), old(self).id@),
    {
        self.item_set = find_item_set(item_sets, self.id.as_str());
    }

    /// The type with "_01" appended, as the tempering tables are named.
    pub fn get_full_type(&self) -> (s: String)
        ensures
            s@ == self.weapon_type@ + "_01"@,
    {
        let mut s = self.weapon_type.clone();
        s.append("_01");
        s
    }

    /// The type, as the quality tables are named.
    pub fn get_type(&self) -> (s: String)
        ensures
            s@ == self.weapon_type@,
    {
        self.weapon_type.clone()
    }

    /// The name of the skill in `language`: its locale's text when there is
    /// a non-empty one, else the skill reference itself.
    pub fn get_skill_locale(&self, language: Language) -> (r: Option<String>)
        ensures
            opt_view(r) == match shown_text(locale_view(self.skill_locale), language) {
                Some(t) => Some(t),
                None => opt_view(self.skill_effect),
            },
    {
        match shown(&self.skill_locale, language) {
            Some(t) => Some(t),
            None => self.skill_effect.clone(),
        }
    }
}

impl AbstractItem for Weapon {
    open spec fn record_kinds(h: HeaderView) -> Seq<FieldKind> {
        weapon_kinds(h.0.len())
    }

    open spec fn read_from(&self, r: Seq<RawValue>, h: HeaderView) -> bool {
        self.is_read_from(r)
    }

    fn read(data: &[u8], header: &TableHeader, format: DataFormat, item_idx: usize) -> (r: Result<Weapon, TableError>) {
        let kinds = Self::kinds(header.tag_count());
        match read_record(data, header, format, item_idx, &kinds) {
            Ok(rec) => Ok(Self::from_record(&rec)),
            Err(e) => Err(e),
        }
    }
}

} // verus!

verus! {

/// Where each field of a weapon read from a record of the weapon table comes
/// from: the value the record holds at the tag that table gives the field.
pub proof fn law_weapon_field_tags(x: Weapon, r: Seq<RawValue>)
    requires
        x.is_read_from(r),
    ensures
        x.id@ == field_upper(r, 0),
        x.name@ == field_text(r, 1),
        x.for_development == field_bits(r, 2),
        x.required_level == field_u8(r, 3),
        x.level_restriction == field_bits(r, 4),
        x.item_level == field_u16(r, 5),
        x.usable_class@ == field_classes(r, 6),
        x.randomly_applied_class@ == field_text(r, 7),
        x.usable_gender@ == field_text(r, 8),
        x.grade == field_grade(r, 9),
        x.equipment_slot@ == field_text(r, 10),
        x.weapon_type@ == field_lower(r, 11),
        x.attack_range_type@ == field_text(r, 12),
        x.attribute_type@ == field_text(r, 13),
        x.gauge_increase_amount == field_bits(r, 14),
        x.range == field_bits(r, 15),
        x.air_range == field_bits(r, 16),
        x.min_attack == field_bits(r, 17),
        x.max_attack == field_bits(r, 18),
        x.projectile_speed == field_bits(r, 19),
        x.attack_speed == field_bits(r, 20),
        x.durability == field_bits(r, 21),
        x.purchase_price == field_bits(r, 22),
        x.sell_price == field_bits(r, 23),
        x.phys_accuracy == field_bits(r, 24),
        x.magic_accuracy == field_bits(r, 25),
        x.phys_crit_rate == field_bits(r, 26),
        x.magic_crit_rate == field_bits(r, 27),
        x.phys_crit_damage == field_bits(r, 28),
        x.magic_crit_damage == field_bits(r, 29),
        x.block_rate == field_bits(r, 30),
        effect_view(x.equip_effect_1) == field_effect(r, 31),
        effect_view(x.equip_effect_2) == field_effect(r, 32),
        effect_view(x.equip_effect_3) == field_effect(r, 33),
        effect_view(x.equip_effect_4) == field_effect(r, 34),
        x.random_option_applied == field_bits(r, 35),
        x.min_random_options == field_u8(r, 36),
        x.max_random_options == field_u8(r, 37),
        x.application_rate == field_bits(r, 38),
        x.apply_slots_on_drop == field_bits(r, 39),
        x.min_sealed_slots == field_bits(r, 40),
        x.max_sealed_slots == field_bits(r, 41),
        x.min_crafting_seal_slots == field_u8(r, 42),
        x.max_crafting_seal_slots == field_u8(r, 43),
        x.seal_slots_on_great_crafting_success@ == field_text(r, 44),
        x.min_variable_stat == field_bits(r, 45),
        x.max_variable_stat == field_bits(r, 46),
        x.sealed_slots_count == field_bits(r, 47),
        x.soul_stone1@ == field_text(r, 48),
        x.soul_stone2@ == field_text(r, 49),
        x.soul_stone3@ == field_text(r, 50),
        x.enhancement_limit == field_u8(r, 51),
        x.enhancement_chance@ == field_text(r, 52),
        x.cannot_drop == field_bits(r, 53),
        x.cannot_trade == field_flag(r, 54),
        x.cannot_sell == field_flag(r, 55),
        x.indestructible == field_flag(r, 56),
        x.level_check_on_drop@ == field_text(r, 57),
        x.binding@ == field_text(r, 58),
        x.bind_target@ == field_text(r, 59),
        x.bind_removal_count == field_bits(r, 60),
        x.usage_restriction@ == field_text(r, 61),
        x.dyeable == field_bits(r, 62),
        x.auction_category@ == field_text(r, 63),
        opt_view(x.skill_effect) == field_skill_dotted(r, 64),
        x.ignore_level_check_on_drop == field_bits(r, 65),
        x.usage_period == field_bits(r, 66),
        x.grade_up_code_key@ == field_text(r, 67),
        x.grade_up_result@ == field_text(r, 68),
        x.disassembly_id@ == field_text(r, 69),
        x.extraction_id@ == field_text(r, 70),
        x.use_level_option == field_bits(r, 71),
        x.level_weight == field_bits(r, 72),
        x.overrise_max == field_u8(r, 73),
        x.overrise_id1@ == field_text(r, 74),
        x.overrise_id2@ == field_text(r, 75),
        x.overrise_id3@ == field_text(r, 76),
        x.contents_level == field_bits(r, 77),
        x.not_usable_in_unified_channel == field_bits(r, 78),
        x.reverse_enhancement_limit == field_u8(r, 79),
        x.awaken_check == field_bits(r, 80),
        x.awaken_bead1@ == field_text(r, 81),
        x.awaken_nead2@ == field_text(r, 82),
        x.level_up == field_bits(r, 83),
        x.item_exp == field_bits(r, 84),
        x.seal_stone_reequip_allowed == field_bits(r, 85),
        x.weapon_charge == field_bits(r, 86),
        x.max_charge == field_bits(r, 87),
        x.overrise_material_id1@ == field_text(r, 88),
        x.overrise_material_id2@ == field_text(r, 89),
{
}

} // verus!
