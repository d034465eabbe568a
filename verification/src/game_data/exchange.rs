//! Exchange goods, as the exchange table holds them.
use vstd::prelude::*;

use crate::fields::{
    field_bits, field_flag, field_grade, field_text, field_upper, get_bits, get_flag, get_grade, get_text, get_upper,
};
use crate::game_data::locale::{find_locale, locale_lookup, locale_view, table_view, Locale};
use crate::game_data::AbstractItem;
use crate::kinds::{DataFormat, Grade};
use crate::table::{
    read_record, record_readable, spec_record, table_ok, FieldKind, HeaderView, RawField, RawValue, TableError,
    TableHeader,
};

verus! {

/// An exchange good.  Numbers the table stores as `f32` are kept as their bit
/// patterns.
#[derive(Debug)]
pub struct Exchange {
    pub locale: Option<Locale>,
    pub description_locale: Option<Locale>,
    pub id: String,
    pub name: String,
    pub grade: Option<Grade>,
    pub purchase_price: u32,
    pub disposal_price: u32,
    pub stack_count: u32,
    pub untradeable: bool,
    pub unsellable: bool,
    pub indestructible: bool,
    pub drop_level_check: String,
    pub binding: String,
    pub drop_level_check_ignored: u32,
    pub usage_period: u32,
    pub consignment_category: String,
    pub purchase_limit: u32,
    pub unified_channel_disabled: u32,
    pub f17: String,
}

/// How a record of this table is read: text at tags 0, 1, 9, 10, 13, 16;
/// numbers at tags 2, 3, 4, 5, 6, 7, 8, 11, 12, 14, 15; nothing else.
pub open spec fn exchange_kind(t: int) -> FieldKind {
    if t == 0 || t == 1 || t == 9 || t == 10 || t == 13 || t == 16 {
        FieldKind::Text
    } else if t == 2 || t == 3 || t == 4 || t == 5 || t == 6 || t == 7 || t == 8 || t == 11
        || t == 12 || t == 14 || t == 15 {
        FieldKind::Number
    } else {
        FieldKind::Skip
    }
}

/// The kinds of the tags of a table with `n` tags.
pub open spec fn exchange_kinds(n: nat) -> Seq<FieldKind> {
    Seq::new(n, |t: int| exchange_kind(t))
}

impl Exchange {
    /// Whether each field read from the table is what the record `r` holds
    /// at its tag.
    pub open spec fn fields_read_from(&self, r: Seq<RawValue>) -> bool {
        &&& self.id@ == field_upper(r, 0)
        &&& self.name@ == field_text(r, 1)
        &&& self.grade == field_grade(r, 2)
        &&& self.purchase_price == field_bits(r, 3)
        &&& self.disposal_price == field_bits(r, 4)
        &&& self.stack_count == field_bits(r, 5)
        &&& self.untradeable == field_flag(r, 6)
        &&& self.unsellable == field_flag(r, 7)
        &&& self.indestructible == field_flag(r, 8)
        &&& self.drop_level_check@ == field_text(r, 9)
        &&& self.binding@ == field_text(r, 10)
        &&& self.drop_level_check_ignored == field_bits(r, 11)
        &&& self.usage_period == field_bits(r, 12)
        &&& self.consignment_category@ == field_text(r, 13)
        &&& self.purchase_limit == field_bits(r, 14)
        &&& self.unified_channel_disabled == field_bits(r, 15)
        &&& self.f17@ == field_text(r, 16)
    }

    /// Whether this value is what reading the record `r` gives: its fields
    /// as `r` holds them, and nothing attached yet.
    pub open spec fn is_read_from(&self, r: Seq<RawValue>) -> bool {
        &&& self.fields_read_from(r)
        &&& self.locale is None
        &&& self.description_locale is None
    }

    /// Whether the fields read from the table are equal in `self` and `other`.
    pub open spec fn same_fields(&self, other: &Self) -> bool {
        &&& self.id == other.id
        &&& self.name == other.name
        &&& self.grade == other.grade
        &&& self.purchase_price == other.purchase_price
        &&& self.disposal_price == other.disposal_price
        &&& self.stack_count == other.stack_count
        &&& self.untradeable == other.untradeable
        &&& self.unsellable == other.unsellable
        &&& self.indestructible == other.indestructible
        &&& self.drop_level_check == other.drop_level_check
        &&& self.binding == other.binding
        &&& self.drop_level_check_ignored == other.drop_level_check_ignored
        &&& self.usage_period == other.usage_period
        &&& self.consignment_category == other.consignment_category
        &&& self.purchase_limit == other.purchase_limit
        &&& self.unified_channel_disabled == other.unified_channel_disabled
        &&& self.f17 == other.f17
    }

    /// The kind of tag `t`.
    pub fn kind_at(t: usize) -> (k: FieldKind)
        ensures
            k == exchange_kind(t as int),
    {
        if t == 0 || t == 1 || t == 9 || t == 10 || t == 13 || t == 16 {
            FieldKind::Text
        } else if t == 2 || t == 3 || t == 4 || t == 5 || t == 6 || t == 7 || t == 8 || t == 11
            || t == 12 || t == 14 || t == 15 {
            FieldKind::Number
        } else {
            FieldKind::Skip
        }
    }

    /// The kinds of the `n` tags of a record.
    pub fn kinds(n: usize) -> (v: Vec<FieldKind>)
        ensures
            v@ == exchange_kinds(n as nat),
    {
        let mut v: Vec<FieldKind> = Vec::new();
        let mut t: usize = 0;
        while t < n
            invariant
                t <= n,
                v@ == exchange_kinds(t as nat),
            decreases n - t,
        {
            v.push(Self::kind_at(t));
            assert(v@ =~= exchange_kinds((t + 1) as nat));
            t = t + 1;
        }
        v
    }

    /// The value the fields `rec` hold.
    pub fn from_record(rec: &Vec<RawField>) -> (x: Exchange)
        ensures
            x.is_read_from(rec@.map_values(|f: RawField| f@)),
    {
        Exchange {
            locale: None,
            description_locale: None,
            id: get_upper(rec, 0),
            name: get_text(rec, 1),
            grade: get_grade(rec, 2),
            purchase_price: get_bits(rec, 3),
            disposal_price: get_bits(rec, 4),
            stack_count: get_bits(rec, 5),
            untradeable: get_flag(rec, 6),
            unsellable: get_flag(rec, 7),
            indestructible: get_flag(rec, 8),
            drop_level_check: get_text(rec, 9),
            binding: get_text(rec, 10),
            drop_level_check_ignored: get_bits(rec, 11),
            usage_period: get_bits(rec, 12),
            consignment_category: get_text(rec, 13),
            purchase_limit: get_bits(rec, 14),
            unified_channel_disabled: get_bits(rec, 15),
            f17: get_text(rec, 16),
        }
    }

    /// Attaches the locales that `locales` gives for the id and for the id
    /// with "_DESCRIPTION" appended.
    pub fn set_locale(&mut self, locales: &Vec<Locale>)
        ensures
            final(self).same_fields(old(self)),
            locale_view(final(self).locale) == locale_lookup(table_view(locales@), old(self).id@),
            locale_view(final(self).description_locale) == locale_lookup(
                table_view(locales@),
                old(self).id@ + "_DESCRIPTION"@,
            ),
    {
        self.locale = find_locale(locales, self.id.as_str());
        let mut key = self.id.clone();
        key.append("_DESCRIPTION");
        self.description_locale = find_locale(locales, key.as_str());
    }
}

impl AbstractItem for Exchange {
    open spec fn record_kinds(h: HeaderView) -> Seq<FieldKind> {
        exchange_kinds(h.0.len())
    }

    open spec fn read_from(&self, r: Seq<RawValue>, h: HeaderView) -> bool {
        self.is_read_from(r)
    }

    fn read(data: &[u8], header: &TableHeader, format: DataFormat, item_idx: usize) -> (r: Result<Exchange, TableError>) {
        let kinds = Self::kinds(header.tag_count());
        match read_record(data, header, format, item_idx, &kinds) {
            Ok(rec) => Ok(Self::from_record(&rec)),
            Err(e) => Err(e),
        }
    }
}

} // verus!

verus! {

/// Where each field of an exchange read from a record of the exchange table comes
/// from: the value the record holds at the tag that table gives the field.
pub proof fn law_exchange_field_tags(x: Exchange, r: Seq<RawValue>)
    requires
        x.is_read_from(r),
    ensures
        x.id@ == field_upper(r, 0),
        x.name@ == field_text(r, 1),
        x.grade == field_grade(r, 2),
        x.purchase_price == field_bits(r, 3),
        x.disposal_price == field_bits(r, 4),
        x.stack_count == field_bits(r, 5),
        x.untradeable == field_flag(r, 6),
        x.unsellable == field_flag(r, 7),
        x.indestructible == field_flag(r, 8),
        x.drop_level_check@ == field_text(r, 9),
        x.binding@ == field_text(r, 10),
        x.drop_level_check_ignored == field_bits(r, 11),
        x.usage_period == field_bits(r, 12),
        x.consignment_category@ == field_text(r, 13),
        x.purchase_limit == field_bits(r, 14),
        x.unified_channel_disabled == field_bits(r, 15),
        x.f17@ == field_text(r, 16),
{
}

} // verus!
