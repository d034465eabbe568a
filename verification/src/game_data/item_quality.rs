//! The quality table of an item type: per level, the fixed effects and
//! variable bonuses of intermediate and advanced quality.
use vstd::prelude::*;

use crate::effects::ItemEffect;
use crate::fields::{effect_view, field_bits, field_effect, field_u16, get_bits, get_effect, get_u16};
use crate::kinds::DataFormat;
use crate::game_data::AbstractItem;
use crate::table::{HeaderView, read_record, record_readable, spec_record, table_ok, FieldKind, RawField, RawValue, TableError, TableHeader};

verus! {

/// The quality bonuses of one level.  The bonuses are `f32` values kept
/// as their bit patterns.
#[derive(Debug)]
pub struct ItemQuality {
    pub level: u16,
    pub intermediate_fixed_effect: Option<ItemEffect>,
    pub intermediate_variable_effect_bonus: u32,
    pub advanced_fixed_effect: Option<ItemEffect>,
    pub advanced_variable_effect_bonus: u32,
}

/// How a quality record is read: numbers at tags 0, 2 and 4, texts at
/// tags 1 and 3, nothing else.
pub open spec fn quality_kind(t: int) -> FieldKind {
    if t == 0 || t == 2 || t == 4 {
        FieldKind::Number
    } else if t == 1 || t == 3 {
        FieldKind::Text
    } else {
        FieldKind::Skip
    }
}

/// The kinds of the tags of a quality table with `n` tags.
pub open spec fn quality_kinds(n: nat) -> Seq<FieldKind> {
    Seq::new(n, |t: int| quality_kind(t))
}

impl ItemQuality {
    /// Whether each field is what the record `r` holds at its tag.
    pub open spec fn is_read_from(&self, r: Seq<RawValue>) -> bool {
        &&& self.level == field_u16(r, 0)
        &&& effect_view(self.intermediate_fixed_effect) == field_effect(r, 1)
        &&& self.intermediate_variable_effect_bonus == field_bits(r, 2)
        &&& effect_view(self.advanced_fixed_effect) == field_effect(r, 3)
        &&& self.advanced_variable_effect_bonus == field_bits(r, 4)
    }

    /// The kinds of the `n` tags of a quality record.
    pub fn kinds(n: usize) -> (v: Vec<FieldKind>)
        ensures
            v@ == quality_kinds(n as nat),
    {
        let mut v: Vec<FieldKind> = Vec::new();
        let mut t: usize = 0;
        while t < n
            invariant
                t <= n,
                v@ == quality_kinds(t as nat),
            decreases n - t,
        {
            let k = if t == 0 || t == 2 || t == 4 {
                FieldKind::Number
            } else if t == 1 || t == 3 {
                FieldKind::Text
            } else {
                FieldKind::Skip
            };
            v.push(k);
            assert(v@ =~= quality_kinds((t + 1) as nat));
            t = t + 1;
        }
        v
    }

    /// The quality the fields `rec` hold.
    pub fn from_record(rec: &Vec<RawField>) -> (q: ItemQuality)
        ensures
            q.is_read_from(rec@.map_values(|f: RawField| f@)),
    {
        ItemQuality {
            level: get_u16(rec, 0),
            intermediate_fixed_effect: get_effect(rec, 1),
            intermediate_variable_effect_bonus: get_bits(rec, 2),
            advanced_fixed_effect: get_effect(rec, 3),
            advanced_variable_effect_bonus: get_bits(rec, 4),
        }
    }

    /// A copy of this quality.
    pub fn duplicate(&self) -> (r: ItemQuality)
        ensures
            r.level == self.level,
            effect_view(r.intermediate_fixed_effect) == effect_view(self.intermediate_fixed_effect),
            r.intermediate_variable_effect_bonus == self.intermediate_variable_effect_bonus,
            effect_view(r.advanced_fixed_effect) == effect_view(self.advanced_fixed_effect),
            r.advanced_variable_effect_bonus == self.advanced_variable_effect_bonus,
    {
        ItemQuality {
            level: self.level,
            intermediate_fixed_effect: match &self.intermediate_fixed_effect {
                Some(e) => Some(e.duplicate()),
                None => None,
            },
            intermediate_variable_effect_bonus: self.intermediate_variable_effect_bonus,
            advanced_fixed_effect: match &self.advanced_fixed_effect {
                Some(e) => Some(e.duplicate()),
                None => None,
            },
            advanced_variable_effect_bonus: self.advanced_variable_effect_bonus,
        }
    }
}


impl AbstractItem for ItemQuality {
    open spec fn record_kinds(h: HeaderView) -> Seq<FieldKind> {
        quality_kinds(h.0.len())
    }

    open spec fn read_from(&self, r: Seq<RawValue>, h: HeaderView) -> bool {
        self.is_read_from(r)
    }

    fn read(data: &[u8], header: &TableHeader, format: DataFormat, item_idx: usize) -> (r: Result<ItemQuality, TableError>)
    {
        let kinds = Self::kinds(header.tag_count());
        match read_record(data, header, format, item_idx, &kinds) {
            Ok(rec) => Ok(Self::from_record(&rec)),
            Err(e) => Err(e),
        }
    }
}

} // verus!

verus! {

/// Where each field of a quality record read from a record of the quality table comes
/// from: the value the record holds at the tag that table gives the field.
pub proof fn law_item_quality_field_tags(x: ItemQuality, r: Seq<RawValue>)
    requires
        x.is_read_from(r),
    ensures
        x.level == field_u16(r, 0),
        effect_view(x.intermediate_fixed_effect) == field_effect(r, 1),
        x.intermediate_variable_effect_bonus == field_bits(r, 2),
        effect_view(x.advanced_fixed_effect) == field_effect(r, 3),
        x.advanced_variable_effect_bonus == field_bits(r, 4),
{
}

} // verus!
