//! Skill books, as the skill book table holds them.
use vstd::prelude::*;

use crate::fields::{
    field_bits, field_classes, field_flag, field_grade, field_text, field_u16, field_u8, field_upper, get_bits,
    get_classes, get_flag, get_grade, get_text, get_u16, get_u8, get_upper,
};
use crate::game_data::locale::{find_locale, locale_lookup, locale_view, table_view, Locale};
use crate::game_data::AbstractItem;
use crate::kinds::{ClassSet, DataFormat, Grade};
use crate::table::{
    read_record, record_readable, spec_record, table_ok, FieldKind, HeaderView, RawField, RawValue, TableError,
    TableHeader,
};

verus! {

/// A skill book.  Numbers the table stores as `f32` are kept as their bit
/// patterns.
#[derive(Debug)]
pub struct SkillBook {
    pub locale: Option<Locale>,
    pub id: String,
    pub name: String,
    pub grade: Option<Grade>,
    pub required_level: u8,
    pub item_level: u16,
    pub cooldown: u32,
    pub buy_price: u32,
    pub sell_price: u32,
    pub stack_size: u32,
    pub learned_skill: String,
    pub learned_skill_level: u32,
    pub no_trade: bool,
    pub no_sell: bool,
    pub no_destroy: bool,
    pub drop_level_check: String,
    pub binding: String,
    pub usage_restriction: String,
    pub class: String,
    pub usable_class: ClassSet,
    pub sale_agency_category: String,
    pub contents_level: u32,
    pub unified_channel_disabled: u32,
}

/// How a record of this table is read: text at tags 0, 1, 9, 14, 15, 16, 17,
/// 18, 19; numbers at tags 2, 3, 4, 5, 6, 7, 8, 10, 11, 12, 13, 20, 21; nothing
/// else.
pub open spec fn skill_book_kind(t: int) -> FieldKind {
    if t == 0 || t == 1 || t == 9 || t == 14 || t == 15 || t == 16 || t == 17 || t == 18
        || t == 19 {
        FieldKind::Text
    } else if t == 2 || t == 3 || t == 4 || t == 5 || t == 6 || t == 7 || t == 8 || t == 10
        || t == 11 || t == 12 || t == 13 || t == 20 || t == 21 {
        FieldKind::Number
    } else {
        FieldKind::Skip
    }
}

/// The kinds of the tags of a table with `n` tags.
pub open spec fn skill_book_kinds(n: nat) -> Seq<FieldKind> {
    Seq::new(n, |t: int| skill_book_kind(t))
}

impl SkillBook {
    /// Whether each field read from the table is what the record `r` holds
    /// at its tag.
    pub open spec fn fields_read_from(&self, r: Seq<RawValue>) -> bool {
        &&& self.id@ == field_upper(r, 0)
        &&& self.name@ == field_text(r, 1)
        &&& self.grade == field_grade(r, 2)
        &&& self.required_level == field_u8(r, 3)
        &&& self.item_level == field_u16(r, 4)
        &&& self.cooldown == field_bits(r, 5)
        &&& self.buy_price == field_bits(r, 6)
        &&& self.sell_price == field_bits(r, 7)
        &&& self.stack_size == field_bits(r, 8)
        &&& self.learned_skill@ == field_text(r, 9)
        &&& self.learned_skill_level == field_bits(r, 10)
        &&& self.no_trade == field_flag(r, 11)
        &&& self.no_sell == field_flag(r, 12)
        &&& self.no_destroy == field_flag(r, 13)
        &&& self.drop_level_check@ == field_text(r, 14)
        &&& self.binding@ == field_text(r, 15)
        &&& self.usage_restriction@ == field_text(r, 16)
        &&& self.class@ == field_text(r, 17)
        &&& self.usable_class@ == field_classes(r, 18)
        &&& self.sale_agency_category@ == field_text(r, 19)
        &&& self.contents_level == field_bits(r, 20)
        &&& self.unified_channel_disabled == field_bits(r, 21)
    }

    /// Whether this value is what reading the record `r` gives: its fields
    /// as `r` holds them, and nothing attached yet.
    pub open spec fn is_read_from(&self, r: Seq<RawValue>) -> bool {
        &&& self.fields_read_from(r)
        &&& self.locale is None
    }

    /// Whether the fields read from the table are equal in `self` and `other`.
    pub open spec fn same_fields(&self, other: &Self) -> bool {
        &&& self.id == other.id
        &&& self.name == other.name
        &&& self.grade == other.grade
        &&& self.required_level == other.required_level
        &&& self.item_level == other.item_level
        &&& self.cooldown == other.cooldown
        &&& self.buy_price == other.buy_price
        &&& self.sell_price == other.sell_price
        &&& self.stack_size == other.stack_size
        &&& self.learned_skill == other.learned_skill
        &&& self.learned_skill_level == other.learned_skill_level
        &&& self.no_trade == other.no_trade
        &&& self.no_sell == other.no_sell
        &&& self.no_destroy == other.no_destroy
        &&& self.drop_level_check == other.drop_level_check
        &&& self.binding == other.binding
        &&& self.usage_restriction == other.usage_restriction
        &&& self.class == other.class
        &&& self.usable_class == other.usable_class
        &&& self.sale_agency_category == other.sale_agency_category
        &&& self.contents_level == other.contents_level
        &&& self.unified_channel_disabled == other.unified_channel_disabled
    }

    /// The kind of tag `t`.
    pub fn kind_at(t: usize) -> (k: FieldKind)
        ensures
            k == skill_book_kind(t as int),
    {
        if t == 0 || t == 1 || t == 9 || t == 14 || t == 15 || t == 16 || t == 17 || t == 18
            || t == 19 {
            FieldKind::Text
        } else if t == 2 || t == 3 || t == 4 || t == 5 || t == 6 || t == 7 || t == 8 || t == 10
            || t == 11 || t == 12 || t == 13 || t == 20 || t == 21 {
            FieldKind::Number
        } else {
            FieldKind::Skip
        }
    }

    /// The kinds of the `n` tags of a record.
    pub fn kinds(n: usize) -> (v: Vec<FieldKind>)
        ensures
            v@ == skill_book_kinds(n as nat),
    {
        let mut v: Vec<FieldKind> = Vec::new();
        let mut t: usize = 0;
        while t < n
            invariant
                t <= n,
                v@ == skill_book_kinds(t as nat),
            decreases n - t,
        {
            v.push(Self::kind_at(t));
            assert(v@ =~= skill_book_kinds((t + 1) as nat));
            t = t + 1;
        }
        v
    }

    /// The value the fields `rec` hold.
    pub fn from_record(rec: &Vec<RawField>) -> (x: SkillBook)
        ensures
            x.is_read_from(rec@.map_values(|f: RawField| f@)),
    {
        SkillBook {
            locale: None,
            id: get_upper(rec, 0),
            name: get_text(rec, 1),
            grade: get_grade(rec, 2),
            required_level: get_u8(rec, 3),
            item_level: get_u16(rec, 4),
            cooldown: get_bits(rec, 5),
            buy_price: get_bits(rec, 6),
            sell_price: get_bits(rec, 7),
            stack_size: get_bits(rec, 8),
            learned_skill: get_text(rec, 9),
            learned_skill_level: get_bits(rec, 10),
            no_trade: get_flag(rec, 11),
            no_sell: get_flag(rec, 12),
            no_destroy: get_flag(rec, 13),
            drop_level_check: get_text(rec, 14),
            binding: get_text(rec, 15),
            usage_restriction: get_text(rec, 16),
            class: get_text(rec, 17),
            usable_class: get_classes(rec, 18),
            sale_agency_category: get_text(rec, 19),
            contents_level: get_bits(rec, 20),
            unified_channel_disabled: get_bits(rec, 21),
        }
    }

    /// Attaches the locale that `locales` gives for the id.
    pub fn set_locale(&mut self, locales: &Vec<Locale>)
        ensures
            final(self).same_fields(old(self)),
            locale_view(final(self).locale) == locale_lookup(table_view(locales@), old(self).id@),
    {
        self.locale = find_locale(locales, self.id.as_str());
    }
}

impl AbstractItem for SkillBook {
    open spec fn record_kinds(h: HeaderView) -> Seq<FieldKind> {
        skill_book_kinds(h.0.len())
    }

    open spec fn read_from(&self, r: Seq<RawValue>, h: HeaderView) -> bool {
        self.is_read_from(r)
    }

    fn read(data: &[u8], header: &TableHeader, format: DataFormat, item_idx: usize) -> (r: Result<SkillBook, TableError>) {
        let kinds = Self::kinds(header.tag_count());
        match read_record(data, header, format, item_idx, &kinds) {
            Ok(rec) => Ok(Self::from_record(&rec)),
            Err(e) => Err(e),
        }
    }
}

} // verus!

verus! {

/// Where each field of a skill book read from a record of the skill book table comes
/// from: the value the record holds at the tag that table gives the field.
pub proof fn law_skill_book_field_tags(x: SkillBook, r: Seq<RawValue>)
    requires
        x.is_read_from(r),
    ensures
        x.id@ == field_upper(r, 0),
        x.name@ == field_text(r, 1),
        x.grade == field_grade(r, 2),
        x.required_level == field_u8(r, 3),
        x.item_level == field_u16(r, 4),
        x.cooldown == field_bits(r, 5),
        x.buy_price == field_bits(r, 6),
        x.sell_price == field_bits(r, 7),
        x.stack_size == field_bits(r, 8),
        x.learned_skill@ == field_text(r, 9),
        x.learned_skill_level == field_bits(r, 10),
        x.no_trade == field_flag(r, 11),
        x.no_sell == field_flag(r, 12),
        x.no_destroy == field_flag(r, 13),
        x.drop_level_check@ == field_text(r, 14),
        x.binding@ == field_text(r, 15),
        x.usage_restriction@ == field_text(r, 16),
        x.class@ == field_text(r, 17),
        x.usable_class@ == field_classes(r, 18),
        x.sale_agency_category@ == field_text(r, 19),
        x.contents_level == field_bits(r, 20),
        x.unified_channel_disabled == field_bits(r, 21),
{
}

} // verus!
