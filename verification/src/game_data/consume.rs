//! Consumables, as the consumable table holds them.
use vstd::prelude::*;

use crate::fields::{
    field_bits, field_classes, field_flag, field_grade, field_skill_upper, field_text, field_u8, field_upper,
    get_bits, get_classes, get_flag, get_grade, get_skill_upper, get_text, get_u8, get_upper, opt_view,
};
use crate::game_data::locale::{find_locale, locale_lookup, locale_view, table_view, Locale};
use crate::game_data::AbstractItem;
use crate::kinds::{ClassSet, DataFormat, Grade};
use crate::table::{
    read_record, record_readable, spec_record, table_ok, FieldKind, HeaderView, RawField, RawValue, TableError,
    TableHeader,
};

verus! {

/// A consumable.  Numbers the table stores as `f32` are kept as their bit
/// patterns.
#[derive(Debug)]
pub struct Consume {
    pub locale: Option<Locale>,
    pub description_locale: Option<Locale>,
    pub id: String,
    pub name: String,
    pub development_cost: u32,
    pub consumption_type: String,
    pub usable_class: ClassSet,
    pub usable_gender: String,
    pub toggle_share: u32,
    pub grade: Option<Grade>,
    pub grade_plus: u32,
    pub required_level: u8,
    pub limit_level: u32,
    pub item_level: u32,
    pub usage_effect: String,
    pub min_random_enhancement_level: u32,
    pub max_random_enhancement_level: u32,
    pub random_enhancement_probability: String,
    pub enhancement_penalty_prevention_condition: String,
    pub enhancement_fixed_probability: u32,
    pub enhancement_additional_probability: u32,
    pub min_enhancement_possible_level: u32,
    pub max_enhancement_possible_level: u32,
    pub enhancement_target: String,
    pub extractable: u32,
    pub taming_correction: u32,
    pub usable_monster_level: u32,
    pub attribute_type: String,
    pub creature_grade: String,
    pub color: String,
    pub durability: u32,
    pub cooldown_share: u32,
    pub cooldown: u32,
    pub same_type_cooldown_no_share: u32,
    pub purchase_price: u32,
    pub disposal_price: u32,
    pub stack_count: u32,
    pub creation_count: u32,
    pub scenario: String,
    pub area_type: String,
    pub usage_area: String,
    pub magic_stone_skill: String,
    pub magic_stone_skill_level: u32,
    pub magic_stone_equip_effect_1: String,
    pub magic_stone_equip_effect_2: String,
    pub magic_stone_equip_effect_3: String,
    pub magic_stone_equip_effect_4: String,
    pub magic_stone_equip_effect_5: String,
    pub skill_effect: Option<String>,
    pub no_drop: u32,
    pub untradeable: bool,
    pub unsellable: bool,
    pub indestructible: bool,
    pub true_keeping: u32,
    pub drop_level_check: String,
    pub binding: String,
    pub binding_target: String,
    pub binding_release_count: u32,
    pub consumption_limit: u32,
    pub usage_restriction: String,
    pub sales_agent_category: String,
    pub creation_item: String,
    pub warp_map: String,
    pub warp_coordinates: String,
    pub combination_result: String,
    pub disappearance_time: u32,
    pub seed_type: String,
    pub required_farm_level: u32,
    pub crop_object: String,
    pub creation_fellow: String,
    pub usage_period: u32,
    pub cash: u32,
    pub fellow_experience: u32,
    pub monster_summon: String,
    pub summon_time: u32,
    pub drop_level_check_ignore: u32,
    pub fellow_base_grade: String,
    pub gd_grade: String,
    pub raid_check: u32,
    pub contents_level: u32,
    pub engrave: u32,
    pub character_level: u32,
    pub purchase_limit: u32,
    pub unified_channel_disabled: u32,
    pub enhancement_possible_grade: String,
    pub enhancement_attempt_min_level: u32,
    pub enhancement_attempt_max_level: u32,
    pub disassembly_id: String,
    pub pvp_channel_usage: String,
    pub unusable_area: String,
    pub currency_settings_id: String,
}

/// How a record of this table is read: text at tags 0, 1, 3, 4, 5, 12, 15, 16,
/// 21, 25, 26, 27, 36, 37, 38, 39, 41, 42, 43, 44, 45, 46, 52, 53, 54, 57, 58,
/// 59, 60, 61, 62, 64, 66, 67, 71, 74, 75, 82, 85, 86, 87, 88; numbers at tags
/// 2, 6, 7, 8, 9, 10, 11, 13, 14, 17, 18, 19, 20, 22, 23, 24, 28, 29, 30, 31,
/// 32, 33, 34, 35, 40, 47, 48, 49, 50, 51, 55, 56, 63, 65, 68, 69, 70, 72, 73,
/// 76, 77, 78, 79, 80, 81, 83, 84; nothing else.
pub open spec fn consume_kind(t: int) -> FieldKind {
    if t == 0 || t == 1 || t == 3 || t == 4 || t == 5 || t == 12 || t == 15 || t == 16
        || t == 21 || t == 25 || t == 26 || t == 27 || t == 36 || t == 37 || t == 38
        || t == 39 || t == 41 || t == 42 || t == 43 || t == 44 || t == 45 || t == 46
        || t == 52 || t == 53 || t == 54 || t == 57 || t == 58 || t == 59 || t == 60
        || t == 61 || t == 62 || t == 64 || t == 66 || t == 67 || t == 71 || t == 74
        || t == 75 || t == 82 || t == 85 || t == 86 || t == 87 || t == 88 {
        FieldKind::Text
    } else if t == 2 || t == 6 || t == 7 || t == 8 || t == 9 || t == 10 || t == 11 || t == 13
        || t == 14 || t == 17 || t == 18 || t == 19 || t == 20 || t == 22 || t == 23
        || t == 24 || t == 28 || t == 29 || t == 30 || t == 31 || t == 32 || t == 33
        || t == 34 || t == 35 || t == 40 || t == 47 || t == 48 || t == 49 || t == 50
        || t == 51 || t == 55 || t == 56 || t == 63 || t == 65 || t == 68 || t == 69
        || t == 70 || t == 72 || t == 73 || t == 76 || t == 77 || t == 78 || t == 79
        || t == 80 || t == 81 || t == 83 || t == 84 {
        FieldKind::Number
    } else {
        FieldKind::Skip
    }
}

/// The kinds of the tags of a table with `n` tags.
pub open spec fn consume_kinds(n: nat) -> Seq<FieldKind> {
    Seq::new(n, |t: int| consume_kind(t))
}

impl Consume {
    /// Whether each field read from the table is what the record `r` holds
    /// at its tag.
    pub open spec fn fields_read_from(&self, r: Seq<RawValue>) -> bool {
        &&& self.id@ == field_upper(r, 0)
        &&& self.name@ == field_text(r, 1)
        &&& self.development_cost == field_bits(r, 2)
        &&& self.consumption_type@ == field_text(r, 3)
        &&& self.usable_class@ == field_classes(r, 4)
        &&& self.usable_gender@ == field_text(r, 5)
        &&& self.toggle_share == field_bits(r, 6)
        &&& self.grade == field_grade(r, 7)
        &&& self.grade_plus == field_bits(r, 8)
        &&& self.required_level == field_u8(r, 9)
        &&& self.limit_level == field_bits(r, 10)
        &&& self.item_level == field_bits(r, 11)
        &&& self.usage_effect@ == field_text(r, 12)
        &&& self.min_random_enhancement_level == field_bits(r, 13)
        &&& self.max_random_enhancement_level == field_bits(r, 14)
        &&& self.random_enhancement_probability@ == field_text(r, 15)
        &&& self.enhancement_penalty_prevention_condition@ == field_text(r, 16)
        &&& self.enhancement_fixed_probability == field_bits(r, 17)
        &&& self.enhancement_additional_probability == field_bits(r, 18)
        &&& self.min_enhancement_possible_level == field_bits(r, 19)
        &&& self.max_enhancement_possible_level == field_bits(r, 20)
        &&& self.enhancement_target@ == field_text(r, 21)
        &&& self.extractable == field_bits(r, 22)
        &&& self.taming_correction == field_bits(r, 23)
        &&& self.usable_monster_level == field_bits(r, 24)
        &&& self.attribute_type@ == field_text(r, 25)
        &&& self.creature_grade@ == field_text(r, 26)
        &&& self.color@ == field_text(r, 27)
        &&& self.durability == field_bits(r, 28)
        &&& self.cooldown_share == field_bits(r, 29)
        &&& self.cooldown == field_bits(r, 30)
        &&& self.same_type_cooldown_no_share == field_bits(r, 31)
        &&& self.purchase_price == field_bits(r, 32)
        &&& self.disposal_price == field_bits(r, 33)
        &&& self.stack_count == field_bits(r, 34)
        &&& self.creation_count == field_bits(r, 35)
        &&& self.scenario@ == field_text(r, 36)
        &&& self.area_type@ == field_text(r, 37)
        &&& self.usage_area@ == field_text(r, 38)
        &&& self.magic_stone_skill@ == field_text(r, 39)
        &&& self.magic_stone_skill_level == field_bits(r, 40)
        &&& self.magic_stone_equip_effect_1@ == field_text(r, 41)
        &&& self.magic_stone_equip_effect_2@ == field_text(r, 42)
        &&& self.magic_stone_equip_effect_3@ == field_text(r, 43)
        &&& self.magic_stone_equip_effect_4@ == field_text(r, 44)
        &&& self.magic_stone_equip_effect_5@ == field_text(r, 45)
        &&& opt_view(self.skill_effect) == field_skill_upper(r, 46)
        &&& self.no_drop == field_bits(r, 47)
        &&& self.untradeable == field_flag(r, 48)
        &&& self.unsellable == field_flag(r, 49)
        &&& self.indestructible == field_flag(r, 50)
        &&& self.true_keeping == field_bits(r, 51)
        &&& self.drop_level_check@ == field_text(r, 52)
        &&& self.binding@ == field_text(r, 53)
        &&& self.binding_target@ == field_text(r, 54)
        &&& self.binding_release_count == field_bits(r, 55)
        &&& self.consumption_limit == field_bits(r, 56)
        &&& self.usage_restriction@ == field_text(r, 57)
        &&& self.sales_agent_category@ == field_text(r, 58)
        &&& self.creation_item@ == field_text(r, 59)
        &&& self.warp_map@ == field_text(r, 60)
        &&& self.warp_coordinates@ == field_text(r, 61)
        &&& self.combination_result@ == field_text(r, 62)
        &&& self.disappearance_time == field_bits(r, 63)
        &&& self.seed_type@ == field_text(r, 64)
        &&& self.required_farm_level == field_bits(r, 65)
        &&& self.crop_object@ == field_text(r, 66)
        &&& self.creation_fellow@ == field_text(r, 67)
        &&& self.usage_period == field_bits(r, 68)
        &&& self.cash == field_bits(r, 69)
        &&& self.fellow_experience == field_bits(r, 70)
        &&& self.monster_summon@ == field_text(r, 71)
        &&& self.summon_time == field_bits(r, 72)
        &&& self.drop_level_check_ignore == field_bits(r, 73)
        &&& self.fellow_base_grade@ == field_text(r, 74)
        &&& self.gd_grade@ == field_text(r, 75)
        &&& self.raid_check == field_bits(r, 76)
        &&& self.contents_level == field_bits(r, 77)
        &&& self.engrave == field_bits(r, 78)
        &&& self.character_level == field_bits(r, 79)
        &&& self.purchase_limit == field_bits(r, 80)
        &&& self.unified_channel_disabled == field_bits(r, 81)
        &&& self.enhancement_possible_grade@ == field_text(r, 82)
        &&& self.enhancement_attempt_min_level == field_bits(r, 83)
        &&& self.enhancement_attempt_max_level == field_bits(r, 84)
        &&& self.disassembly_id@ == field_text(r, 85)
        &&& self.pvp_channel_usage@ == field_text(r, 86)
        &&& self.unusable_area@ == field_text(r, 87)
        &&& self.currency_settings_id@ == field_text(r, 88)
    }

    /// Whether this value is what reading the record `r` gives: its fields
    /// as `r` holds them, and nothing attached yet.
    pub open spec fn is_read_from(&self, r: Seq<RawValue>) -> bool {
        &&& self.fields_read_from(r)
        &&& self.locale is None
        &&& self.description_locale is None
    }

    /// Whether the fields read from the table are equal in `self` and `other`.
    pub open spec fn same_fields(&self, other: &Self) -> bool {
        &&& self.id == other.id
        &&& self.name == other.name
        &&& self.development_cost == other.development_cost
        &&& self.consumption_type == other.consumption_type
        &&& self.usable_class == other.usable_class
        &&& self.usable_gender == other.usable_gender
        &&& self.toggle_share == other.toggle_share
        &&& self.grade == other.grade
        &&& self.grade_plus == other.grade_plus
        &&& self.required_level == other.required_level
        &&& self.limit_level == other.limit_level
        &&& self.item_level == other.item_level
        &&& self.usage_effect == other.usage_effect
        &&& self.min_random_enhancement_level == other.min_random_enhancement_level
        &&& self.max_random_enhancement_level == other.max_random_enhancement_level
        &&& self.random_enhancement_probability == other.random_enhancement_probability
        &&& self.enhancement_penalty_prevention_condition == other.enhancement_penalty_prevention_condition
        &&& self.enhancement_fixed_probability == other.enhancement_fixed_probability
        &&& self.enhancement_additional_probability == other.enhancement_additional_probability
        &&& self.min_enhancement_possible_level == other.min_enhancement_possible_level
        &&& self.max_enhancement_possible_level == other.max_enhancement_possible_level
        &&& self.enhancement_target == other.enhancement_target
        &&& self.extractable == other.extractable
        &&& self.taming_correction == other.taming_correction
        &&& self.usable_monster_level == other.usable_monster_level
        &&& self.attribute_type == other.attribute_type
        &&& self.creature_grade == other.creature_grade
        &&& self.color == other.color
        &&& self.durability == other.durability
        &&& self.cooldown_share == other.cooldown_share
        &&& self.cooldown == other.cooldown
        &&& self.same_type_cooldown_no_share == other.same_type_cooldown_no_share
        &&& self.purchase_price == other.purchase_price
        &&& self.disposal_price == other.disposal_price
        &&& self.stack_count == other.stack_count
        &&& self.creation_count == other.creation_count
        &&& self.scenario == other.scenario
        &&& self.area_type == other.area_type
        &&& self.usage_area == other.usage_area
        &&& self.magic_stone_skill == other.magic_stone_skill
        &&& self.magic_stone_skill_level == other.magic_stone_skill_level
        &&& self.magic_stone_equip_effect_1 == other.magic_stone_equip_effect_1
        &&& self.magic_stone_equip_effect_2 == other.magic_stone_equip_effect_2
        &&& self.magic_stone_equip_effect_3 == other.magic_stone_equip_effect_3
        &&& self.magic_stone_equip_effect_4 == other.magic_stone_equip_effect_4
        &&& self.magic_stone_equip_effect_5 == other.magic_stone_equip_effect_5
        &&& self.skill_effect == other.skill_effect
        &&& self.no_drop == other.no_drop
        &&& self.untradeable == other.untradeable
        &&& self.unsellable == other.unsellable
        &&& self.indestructible == other.indestructible
        &&& self.true_keeping == other.true_keeping
        &&& self.drop_level_check == other.drop_level_check
        &&& self.binding == other.binding
        &&& self.binding_target == other.binding_target
        &&& self.binding_release_count == other.binding_release_count
        &&& self.consumption_limit == other.consumption_limit
        &&& self.usage_restriction == other.usage_restriction
        &&& self.sales_agent_category == other.sales_agent_category
        &&& self.creation_item == other.creation_item
        &&& self.warp_map == other.warp_map
        &&& self.warp_coordinates == other.warp_coordinates
        &&& self.combination_result == other.combination_result
        &&& self.disappearance_time == other.disappearance_time
        &&& self.seed_type == other.seed_type
        &&& self.required_farm_level == other.required_farm_level
        &&& self.crop_object == other.crop_object
        &&& self.creation_fellow == other.creation_fellow
        &&& self.usage_period == other.usage_period
        &&& self.cash == other.cash
        &&& self.fellow_experience == other.fellow_experience
        &&& self.monster_summon == other.monster_summon
        &&& self.summon_time == other.summon_time
        &&& self.drop_level_check_ignore == other.drop_level_check_ignore
        &&& self.fellow_base_grade == other.fellow_base_grade
        &&& self.gd_grade == other.gd_grade
        &&& self.raid_check == other.raid_check
        &&& self.contents_level == other.contents_level
        &&& self.engrave == other.engrave
        &&& self.character_level == other.character_level
        &&& self.purchase_limit == other.purchase_limit
        &&& self.unified_channel_disabled == other.unified_channel_disabled
        &&& self.enhancement_possible_grade == other.enhancement_possible_grade
        &&& self.enhancement_attempt_min_level == other.enhancement_attempt_min_level
        &&& self.enhancement_attempt_max_level == other.enhancement_attempt_max_level
        &&& self.disassembly_id == other.disassembly_id
        &&& self.pvp_channel_usage == other.pvp_channel_usage
        &&& self.unusable_area == other.unusable_area
        &&& self.currency_settings_id == other.currency_settings_id
    }

    /// The kind of tag `t`.
    pub fn kind_at(t: usize) -> (k: FieldKind)
        ensures
            k == consume_kind(t as int),
    {
        if t == 0 || t == 1 || t == 3 || t == 4 || t == 5 || t == 12 || t == 15 || t == 16
            || t == 21 || t == 25 || t == 26 || t == 27 || t == 36 || t == 37 || t == 38
            || t == 39 || t == 41 || t == 42 || t == 43 || t == 44 || t == 45 || t == 46
            || t == 52 || t == 53 || t == 54 || t == 57 || t == 58 || t == 59 || t == 60
            || t == 61 || t == 62 || t == 64 || t == 66 || t == 67 || t == 71 || t == 74
            || t == 75 || t == 82 || t == 85 || t == 86 || t == 87 || t == 88 {
            FieldKind::Text
        } else if t == 2 || t == 6 || t == 7 || t == 8 || t == 9 || t == 10 || t == 11 || t == 13
            || t == 14 || t == 17 || t == 18 || t == 19 || t == 20 || t == 22 || t == 23
            || t == 24 || t == 28 || t == 29 || t == 30 || t == 31 || t == 32 || t == 33
            || t == 34 || t == 35 || t == 40 || t == 47 || t == 48 || t == 49 || t == 50
            || t == 51 || t == 55 || t == 56 || t == 63 || t == 65 || t == 68 || t == 69
            || t == 70 || t == 72 || t == 73 || t == 76 || t == 77 || t == 78 || t == 79
            || t == 80 || t == 81 || t == 83 || t == 84 {
            FieldKind::Number
        } else {
            FieldKind::Skip
        }
    }

    /// The kinds of the `n` tags of a record.
    pub fn kinds(n: usize) -> (v: Vec<FieldKind>)
        ensures
            v@ == consume_kinds(n as nat),
    {
        let mut v: Vec<FieldKind> = Vec::new();
        let mut t: usize = 0;
        while t < n
            invariant
                t <= n,
                v@ == consume_kinds(t as nat),
            decreases n - t,
        {
            v.push(Self::kind_at(t));
            assert(v@ =~= consume_kinds((t + 1) as nat));
            t = t + 1;
        }
        v
    }

    /// The value the fields `rec` hold.
    pub fn from_record(rec: &Vec<RawField>) -> (x: Consume)
        ensures
            x.is_read_from(rec@.map_values(|f: RawField| f@)),
    {
        Consume {
            locale: None,
            description_locale: None,
            id: get_upper(rec, 0),
            name: get_text(rec, 1),
            development_cost: get_bits(rec, 2),
            consumption_type: get_text(rec, 3),
            usable_class: get_classes(rec, 4),
            usable_gender: get_text(rec, 5),
            toggle_share: get_bits(rec, 6),
            grade: get_grade(rec, 7),
            grade_plus: get_bits(rec, 8),
            required_level: get_u8(rec, 9),
            limit_level: get_bits(rec, 10),
            item_level: get_bits(rec, 11),
            usage_effect: get_text(rec, 12),
            min_random_enhancement_level: get_bits(rec, 13),
            max_random_enhancement_level: get_bits(rec, 14),
            random_enhancement_probability: get_text(rec, 15),
            enhancement_penalty_prevention_condition: get_text(rec, 16),
            enhancement_fixed_probability: get_bits(rec, 17),
            enhancement_additional_probability: get_bits(rec, 18),
            min_enhancement_possible_level: get_bits(rec, 19),
            max_enhancement_possible_level: get_bits(rec, 20),
            enhancement_target: get_text(rec, 21),
            extractable: get_bits(rec, 22),
            taming_correction: get_bits(rec, 23),
            usable_monster_level: get_bits(rec, 24),
            attribute_type: get_text(rec, 25),
            creature_grade: get_text(rec, 26),
            color: get_text(rec, 27),
            durability: get_bits(rec, 28),
            cooldown_share: get_bits(rec, 29),
            cooldown: get_bits(rec, 30),
            same_type_cooldown_no_share: get_bits(rec, 31),
            purchase_price: get_bits(rec, 32),
            disposal_price: get_bits(rec, 33),
            stack_count: get_bits(rec, 34),
            creation_count: get_bits(rec, 35),
            scenario: get_text(rec, 36),
            area_type: get_text(rec, 37),
            usage_area: get_text(rec, 38),
            magic_stone_skill: get_text(rec, 39),
            magic_stone_skill_level: get_bits(rec, 40),
            magic_stone_equip_effect_1: get_text(rec, 41),
            magic_stone_equip_effect_2: get_text(rec, 42),
            magic_stone_equip_effect_3: get_text(rec, 43),
            magic_stone_equip_effect_4: get_text(rec, 44),
            magic_stone_equip_effect_5: get_text(rec, 45),
            skill_effect: get_skill_upper(rec, 46),
            no_drop: get_bits(rec, 47),
            untradeable: get_flag(rec, 48),
            unsellable: get_flag(rec, 49),
            indestructible: get_flag(rec, 50),
            true_keeping: get_bits(rec, 51),
            drop_level_check: get_text(rec, 52),
            binding: get_text(rec, 53),
            binding_target: get_text(rec, 54),
            binding_release_count: get_bits(rec, 55),
            consumption_limit: get_bits(rec, 56),
            usage_restriction: get_text(rec, 57),
            sales_agent_category: get_text(rec, 58),
            creation_item: get_text(rec, 59),
            warp_map: get_text(rec, 60),
            warp_coordinates: get_text(rec, 61),
            combination_result: get_text(rec, 62),
            disappearance_time: get_bits(rec, 63),
            seed_type: get_text(rec, 64),
            required_farm_level: get_bits(rec, 65),
            crop_object: get_text(rec, 66),
            creation_fellow: get_text(rec, 67),
            usage_period: get_bits(rec, 68),
            cash: get_bits(rec, 69),
            fellow_experience: get_bits(rec, 70),
            monster_summon: get_text(rec, 71),
            summon_time: get_bits(rec, 72),
            drop_level_check_ignore: get_bits(rec, 73),
            fellow_base_grade: get_text(rec, 74),
            gd_grade: get_text(rec, 75),
            raid_check: get_bits(rec, 76),
            contents_level: get_bits(rec, 77),
            engrave: get_bits(rec, 78),
            character_level: get_bits(rec, 79),
            purchase_limit: get_bits(rec, 80),
            unified_channel_disabled: get_bits(rec, 81),
            enhancement_possible_grade: get_text(rec, 82),
            enhancement_attempt_min_level: get_bits(rec, 83),
            enhancement_attempt_max_level: get_bits(rec, 84),
            disassembly_id: get_text(rec, 85),
            pvp_channel_usage: get_text(rec, 86),
            unusable_area: get_text(rec, 87),
            currency_settings_id: get_text(rec, 88),
        }
    }

    /// Attaches the locales that `locales` gives for the id and for the id
    /// with "_DESCRIPTION" appended.
    pub fn set_locale(&mut self, locales: &Vec<Locale>)
        ensures
            final(self).same_fields(old(self)),
            locale_view(final(self).locale) == locale_lookup(table_view(locales@), old(self).id@),
            locale_view(final(self).description_locale) == locale_lookup(
                table_view(locales@),
                old(self).id@ + "_DESCRIPTION"@,
            ),
    {
        self.locale = find_locale(locales, self.id.as_str());
        let mut key = self.id.clone();
        key.append("_DESCRIPTION");
        self.description_locale = find_locale(locales, key.as_str());
    }
}

impl AbstractItem for Consume {
    open spec fn record_kinds(h: HeaderView) -> Seq<FieldKind> {
        consume_kinds(h.0.len())
    }

    open spec fn read_from(&self, r: Seq<RawValue>, h: HeaderView) -> bool {
        self.is_read_from(r)
    }

    fn read(data: &[u8], header: &TableHeader, format: DataFormat, item_idx: usize) -> (r: Result<Consume, TableError>) {
        let kinds = Self::kinds(header.tag_count());
        match read_record(data, header, format, item_idx, &kinds) {
            Ok(rec) => Ok(Self::from_record(&rec)),
            Err(e) => Err(e),
        }
    }
}

} // verus!

verus! {

/// Where each field of a consumable read from a record of the consumable table comes
/// from: the value the record holds at the tag that table gives the field.
pub proof fn law_consume_field_tags(x: Consume, r: Seq<RawValue>)
    requires
        x.is_read_from(r),
    ensures
        x.id@ == field_upper(r, 0),
        x.name@ == field_text(r, 1),
        x.development_cost == field_bits(r, 2),
        x.consumption_type@ == field_text(r, 3),
        x.usable_class@ == field_classes(r, 4),
        x.usable_gender@ == field_text(r, 5),
        x.toggle_share == field_bits(r, 6),
        x.grade == field_grade(r, 7),
        x.grade_plus == field_bits(r, 8),
        x.required_level == field_u8(r, 9),
        x.limit_level == field_bits(r, 10),
        x.item_level == field_bits(r, 11),
        x.usage_effect@ == field_text(r, 12),
        x.min_random_enhancement_level == field_bits(r, 13),
        x.max_random_enhancement_level == field_bits(r, 14),
        x.random_enhancement_probability@ == field_text(r, 15),
        x.enhancement_penalty_prevention_condition@ == field_text(r, 16),
        x.enhancement_fixed_probability == field_bits(r, 17),
        x.enhancement_additional_probability == field_bits(r, 18),
        x.min_enhancement_possible_level == field_bits(r, 19),
        x.max_enhancement_possible_level == field_bits(r, 20),
        x.enhancement_target@ == field_text(r, 21),
        x.extractable == field_bits(r, 22),
        x.taming_correction == field_bits(r, 23),
        x.usable_monster_level == field_bits(r, 24),
        x.attribute_type@ == field_text(r, 25),
        x.creature_grade@ == field_text(r, 26),
        x.color@ == field_text(r, 27),
        x.durability == field_bits(r, 28),
        x.cooldown_share == field_bits(r, 29),
        x.cooldown == field_bits(r, 30),
        x.same_type_cooldown_no_share == field_bits(r, 31),
        x.purchase_price == field_bits(r, 32),
        x.disposal_price == field_bits(r, 33),
        x.stack_count == field_bits(r, 34),
        x.creation_count == field_bits(r, 35),
        x.scenario@ == field_text(r, 36),
        x.area_type@ == field_text(r, 37),
        x.usage_area@ == field_text(r, 38),
        x.magic_stone_skill@ == field_text(r, 39),
        x.magic_stone_skill_level == field_bits(r, 40),
        x.magic_stone_equip_effect_1@ == field_text(r, 41),
        x.magic_stone_equip_effect_2@ == field_text(r, 42),
        x.magic_stone_equip_effect_3@ == field_text(r, 43),
        x.magic_stone_equip_effect_4@ == field_text(r, 44),
        x.magic_stone_equip_effect_5@ == field_text(r, 45),
        opt_view(x.skill_effect) == field_skill_upper(r, 46),
        x.no_drop == field_bits(r, 47),
        x.untradeable == field_flag(r, 48),
        x.unsellable == field_flag(r, 49),
        x.indestructible == field_flag(r, 50),
        x.true_keeping == field_bits(r, 51),
        x.drop_level_check@ == field_text(r, 52),
        x.binding@ == field_text(r, 53),
        x.binding_target@ == field_text(r, 54),
        x.binding_release_count == field_bits(r, 55),
        x.consumption_limit == field_bits(r, 56),
        x.usage_restriction@ == field_text(r, 57),
        x.sales_agent_category@ == field_text(r, 58),
        x.creation_item@ == field_text(r, 59),
        x.warp_map@ == field_text(r, 60),
        x.warp_coordinates@ == field_text(r, 61),
        x.combination_result@ == field_text(r, 62),
        x.disappearance_time == field_bits(r, 63),
        x.seed_type@ == field_text(r, 64),
        x.required_farm_level == field_bits(r, 65),
        x.crop_object@ == field_text(r, 66),
        x.creation_fellow@ == field_text(r, 67),
        x.usage_period == field_bits(r, 68),
        x.cash == field_bits(r, 69),
        x.fellow_experience == field_bits(r, 70),
        x.monster_summon@ == field_text(r, 71),
        x.summon_time == field_bits(r, 72),
        x.drop_level_check_ignore == field_bits(r, 73),
        x.fellow_base_grade@ == field_text(r, 74),
        x.gd_grade@ == field_text(r, 75),
        x.raid_check == field_bits(r, 76),
        x.contents_level == field_bits(r, 77),
        x.engrave == field_bits(r, 78),
        x.character_level == field_bits(r, 79),
        x.purchase_limit == field_bits(r, 80),
        x.unified_channel_disabled == field_bits(r, 81),
        x.enhancement_possible_grade@ == field_text(r, 82),
        x.enhancement_attempt_min_level == field_bits(r, 83),
        x.enhancement_attempt_max_level == field_bits(r, 84),
        x.disassembly_id@ == field_text(r, 85),
        x.pvp_channel_usage@ == field_text(r, 86),
        x.unusable_area@ == field_text(r, 87),
        x.currency_settings_id@ == field_text(r, 88),
{
}

} // verus!
