//! Crafting recipes, as the recipe table holds them.
use vstd::prelude::*;

use crate::fields::{
    field_bits, field_flag, field_grade, field_recipe_type, field_text, field_u8, field_upper, get_bits, get_flag,
    get_grade, get_recipe_type, get_text, get_u8, get_upper,
};
use crate::game_data::locale::{find_locale, locale_lookup, locale_view, table_view, Locale};
use crate::game_data::AbstractItem;
use crate::kinds::{DataFormat, Grade, RecipeType};
use crate::table::{
    read_record, record_readable, spec_record, table_ok, FieldKind, HeaderView, RawField, RawValue, TableError,
    TableHeader,
};

verus! {

/// A recipe.  Numbers the table stores as `f32` are kept as their bit
/// patterns.
#[derive(Debug)]
pub struct Recipe {
    pub locale: Option<Locale>,
    pub id: String,
    pub name: String,
    pub grade: Option<Grade>,
    pub recipe_category: String,
    pub recipe_type: Option<RecipeType>,
    pub item_level: u32,
    pub required_stage: u8,
    pub required_proficiency: u32,
    pub required_level: u8,
    pub crafted_item_id: String,
    pub crafted_item_name: String,
    pub cooldown: u32,
    pub buy_price: u32,
    pub sell_price: u32,
    pub stack_size: u32,
    pub learned_skill: String,
    pub skill_level_required: u32,
    pub untradeable: bool,
    pub unsellable: bool,
    pub indestructible: bool,
    pub drop_level_check: String,
    pub binding: String,
    pub usage_restriction: String,
    pub market_category: String,
    pub ignore_drop_level_check: u32,
    pub contents_level: u32,
    pub disable_unified_channel: u32,
    pub inheritance_enhance_condition: u32,
    pub inheritance_transcend_condition: u32,
    pub currency_settings_id: String,
}

/// How a record of this table is read: text at tags 0, 1, 3, 4, 9, 10, 15, 20,
/// 21, 22, 23, 29; numbers at tags 2, 5, 6, 7, 8, 11, 12, 13, 14, 16, 17, 18,
/// 19, 24, 25, 26, 27, 28; nothing else.
pub open spec fn recipe_kind(t: int) -> FieldKind {
    if t == 0 || t == 1 || t == 3 || t == 4 || t == 9 || t == 10 || t == 15 || t == 20
        || t == 21 || t == 22 || t == 23 || t == 29 {
        FieldKind::Text
    } else if t == 2 || t == 5 || t == 6 || t == 7 || t == 8 || t == 11 || t == 12 || t == 13
        || t == 14 || t == 16 || t == 17 || t == 18 || t == 19 || t == 24 || t == 25
        || t == 26 || t == 27 || t == 28 {
        FieldKind::Number
    } else {
        FieldKind::Skip
    }
}

/// The kinds of the tags of a table with `n` tags.
pub open spec fn recipe_kinds(n: nat) -> Seq<FieldKind> {
    Seq::new(n, |t: int| recipe_kind(t))
}

impl Recipe {
    /// Whether each field read from the table is what the record `r` holds
    /// at its tag.
    pub open spec fn fields_read_from(&self, r: Seq<RawValue>) -> bool {
        &&& self.id@ == field_upper(r, 0)
        &&& self.name@ == field_text(r, 1)
        &&& self.grade == field_grade(r, 2)
        &&& self.recipe_category@ == field_text(r, 3)
        &&& self.recipe_type == field_recipe_type(r, 4)
        &&& self.item_level == field_bits(r, 5)
        &&& self.required_stage == field_u8(r, 6)
        &&& self.required_proficiency == field_bits(r, 7)
        &&& self.required_level == field_u8(r, 8)
        &&& self.crafted_item_id@ == field_upper(r, 9)
        &&& self.crafted_item_name@ == field_text(r, 10)
        &&& self.cooldown == field_bits(r, 11)
        &&& self.buy_price == field_bits(r, 12)
        &&& self.sell_price == field_bits(r, 13)
        &&& self.stack_size == field_bits(r, 14)
        &&& self.learned_skill@ == field_text(r, 15)
        &&& self.skill_level_required == field_bits(r, 16)
        &&& self.untradeable == field_flag(r, 17)
        &&& self.unsellable == field_flag(r, 18)
        &&& self.indestructible == field_flag(r, 19)
        &&& self.drop_level_check@ == field_text(r, 20)
        &&& self.binding@ == field_text(r, 21)
        &&& self.usage_restriction@ == field_text(r, 22)
        &&& self.market_category@ == field_text(r, 23)
        &&& self.ignore_drop_level_check == field_bits(r, 24)
        &&& self.contents_level == field_bits(r, 25)
        &&& self.disable_unified_channel == field_bits(r, 26)
        &&& self.inheritance_enhance_condition == field_bits(r, 27)
        &&& self.inheritance_transcend_condition == field_bits(r, 28)
        &&& self.currency_settings_id@ == field_text(r, 29)
    }

    /// Whether this value is what reading the record `r` gives: its fields
    /// as `r` holds them, and nothing attached yet.
    pub open spec fn is_read_from(&self, r: Seq<RawValue>) -> bool {
        &&& self.fields_read_from(r)
        &&& self.locale is None
    }

    /// Whether the fields read from the table are equal in `self` and `other`.
    pub open spec fn same_fields(&self, other: &Self) -> bool {
        &&& self.id == other.id
        &&& self.name == other.name
        &&& self.grade == other.grade
        &&& self.recipe_category == other.recipe_category
        &&& self.recipe_type == other.recipe_type
        &&& self.item_level == other.item_level
        &&& self.required_stage == other.required_stage
        &&& self.required_proficiency == other.required_proficiency
        &&& self.required_level == other.required_level
        &&& self.crafted_item_id == other.crafted_item_id
        &&& self.crafted_item_name == other.crafted_item_name
        &&& self.cooldown == other.cooldown
        &&& self.buy_price == other.buy_price
        &&& self.sell_price == other.sell_price
        &&& self.stack_size == other.stack_size
        &&& self.learned_skill == other.learned_skill
        &&& self.skill_level_required == other.skill_level_required
        &&& self.untradeable == other.untradeable
        &&& self.unsellable == other.unsellable
        &&& self.indestructible == other.indestructible
        &&& self.drop_level_check == other.drop_level_check
        &&& self.binding == other.binding
        &&& self.usage_restriction == other.usage_restriction
        &&& self.market_category == other.market_category
        &&& self.ignore_drop_level_check == other.ignore_drop_level_check
        &&& self.contents_level == other.contents_level
        &&& self.disable_unified_channel == other.disable_unified_channel
        &&& self.inheritance_enhance_condition == other.inheritance_enhance_condition
        &&& self.inheritance_transcend_condition == other.inheritance_transcend_condition
        &&& self.currency_settings_id == other.currency_settings_id
    }

    /// The kind of tag `t`.
    pub fn kind_at(t: usize) -> (k: FieldKind)
        ensures
            k == recipe_kind(t as int),
    {
        if t == 0 || t == 1 || t == 3 || t == 4 || t == 9 || t == 10 || t == 15 || t == 20
            || t == 21 || t == 22 || t == 23 || t == 29 {
            FieldKind::Text
        } else if t == 2 || t == 5 || t == 6 || t == 7 || t == 8 || t == 11 || t == 12 || t == 13
            || t == 14 || t == 16 || t == 17 || t == 18 || t == 19 || t == 24 || t == 25
            || t == 26 || t == 27 || t == 28 {
            FieldKind::Number
        } else {
            FieldKind::Skip
        }
    }

    /// The kinds of the `n` tags of a record.
    pub fn kinds(n: usize) -> (v: Vec<FieldKind>)
        ensures
            v@ == recipe_kinds(n as nat),
    {
        let mut v: Vec<FieldKind> = Vec::new();
        let mut t: usize = 0;
        while t < n
            invariant
                t <= n,
                v@ == recipe_kinds(t as nat),
            decreases n - t,
        {
            v.push(Self::kind_at(t));
            assert(v@ =~= recipe_kinds((t + 1) as nat));
            t = t + 1;
        }
        v
    }

    /// The value the fields `rec` hold.
    pub fn from_record(rec: &Vec<RawField>) -> (x: Recipe)
        ensures
            x.is_read_from(rec@.map_values(|f: RawField| f@)),
    {
        Recipe {
            locale: None,
            id: get_upper(rec, 0),
            name: get_text(rec, 1),
            grade: get_grade(rec, 2),
            recipe_category: get_text(rec, 3),
            recipe_type: get_recipe_type(rec, 4),
            item_level: get_bits(rec, 5),
            required_stage: get_u8(rec, 6),
            required_proficiency: get_bits(rec, 7),
            required_level: get_u8(rec, 8),
            crafted_item_id: get_upper(rec, 9),
            crafted_item_name: get_text(rec, 10),
            cooldown: get_bits(rec, 11),
            buy_price: get_bits(rec, 12),
            sell_price: get_bits(rec, 13),
            stack_size: get_bits(rec, 14),
            learned_skill: get_text(rec, 15),
            skill_level_required: get_bits(rec, 16),
            untradeable: get_flag(rec, 17),
            unsellable: get_flag(rec, 18),
            indestructible: get_flag(rec, 19),
            drop_level_check: get_text(rec, 20),
            binding: get_text(rec, 21),
            usage_restriction: get_text(rec, 22),
            market_category: get_text(rec, 23),
            ignore_drop_level_check: get_bits(rec, 24),
            contents_level: get_bits(rec, 25),
            disable_unified_channel: get_bits(rec, 26),
            inheritance_enhance_condition: get_bits(rec, 27),
            inheritance_transcend_condition: get_bits(rec, 28),
            currency_settings_id: get_text(rec, 29),
        }
    }

    /// Attaches the locale that `locales` gives for the id.
    pub fn set_locale(&mut self, locales: &Vec<Locale>)
        ensures
            final(self).same_fields(old(self)),
            locale_view(final(self).locale) == locale_lookup(table_view(locales@), old(self).id@),
    {
        self.locale = find_locale(locales, self.id.as_str());
    }
}

impl AbstractItem for Recipe {
    open spec fn record_kinds(h: HeaderView) -> Seq<FieldKind> {
        recipe_kinds(h.0.len())
    }

    open spec fn read_from(&self, r: Seq<RawValue>, h: HeaderView) -> bool {
        self.is_read_from(r)
    }

    fn read(data: &[u8], header: &TableHeader, format: DataFormat, item_idx: usize) -> (r: Result<Recipe, TableError>) {
        let kinds = Self::kinds(header.tag_count());
        match read_record(data, header, format, item_idx, &kinds) {
            Ok(rec) => Ok(Self::from_record(&rec)),
            Err(e) => Err(e),
        }
    }
}

} // verus!

verus! {

/// Where each field of a recipe read from a record of the recipe table comes
/// from: the value the record holds at the tag that table gives the field.
pub proof fn law_recipe_field_tags(x: Recipe, r: Seq<RawValue>)
    requires
        x.is_read_from(r),
    ensures
        x.id@ == field_upper(r, 0),
        x.name@ == field_text(r, 1),
        x.grade == field_grade(r, 2),
        x.recipe_category@ == field_text(r, 3),
        x.recipe_type == field_recipe_type(r, 4),
        x.item_level == field_bits(r, 5),
        x.required_stage == field_u8(r, 6),
        x.required_proficiency == field_bits(r, 7),
        x.required_level == field_u8(r, 8),
        x.crafted_item_id@ == field_upper(r, 9),
        x.crafted_item_name@ == field_text(r, 10),
        x.cooldown == field_bits(r, 11),
        x.buy_price == field_bits(r, 12),
        x.sell_price == field_bits(r, 13),
        x.stack_size == field_bits(r, 14),
        x.learned_skill@ == field_text(r, 15),
        x.skill_level_required == field_bits(r, 16),
        x.untradeable == field_flag(r, 17),
        x.unsellable == field_flag(r, 18),
        x.indestructible == field_flag(r, 19),
        x.drop_level_check@ == field_text(r, 20),
        x.binding@ == field_text(r, 21),
        x.usage_restriction@ == field_text(r, 22),
        x.market_category@ == field_text(r, 23),
        x.ignore_drop_level_check == field_bits(r, 24),
        x.contents_level == field_bits(r, 25),
        x.disable_unified_channel == field_bits(r, 26),
        x.inheritance_enhance_condition == field_bits(r, 27),
        x.inheritance_transcend_condition == field_bits(r, 28),
        x.currency_settings_id@ == field_text(r, 29),
{
}

} // verus!
