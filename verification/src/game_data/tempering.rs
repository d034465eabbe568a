//! The tempering table of an item type: per level, thirty steps of attack
//! ratio, defense, defense ratio and spell ratio.
use vstd::prelude::*;

use crate::fields::{field_bits, field_u16, get_bits, get_u16};
use crate::kinds::DataFormat;
use crate::game_data::AbstractItem;
use crate::table::{HeaderView, read_record, record_readable, spec_record, table_ok, FieldKind, RawField, RawValue, TableError, TableHeader};

verus! {

broadcast use vstd::array::group_array_axioms;

/// The tempering values of one level.  Each value is an `f32` kept as its
/// bit pattern; the steps that a table does not hold stay zero.
#[derive(Debug)]
pub struct Tempering {
    pub level: u16,
    pub attack_ratios: [u32; 30],
    pub defenses: [u32; 30],
    pub defense_ratios: [u32; 30],
    pub spell_ratios: [u32; 30],
}

/// Whether a table with `n` tags holds all four kinds of values.
pub open spec fn is_full_layout(n: int) -> bool {
    n == 121
}

/// Whether a table with `n` tags holds defenses and defense ratios only.
pub open spec fn is_defense_layout(n: int) -> bool {
    n == 106 || n == 61 || n == 101 || n == 111
}

/// How a tempering record with `n` tags is read: every tag is a number when
/// the layout is known, and nothing is read otherwise.
pub open spec fn tempering_kind(n: int, t: int) -> FieldKind {
    if is_full_layout(n) {
        FieldKind::Number
    } else if is_defense_layout(n) && t < 61 {
        FieldKind::Number
    } else {
        FieldKind::Skip
    }
}

/// The kinds of the tags of a tempering table with `n` tags.
pub open spec fn tempering_kinds(n: nat) -> Seq<FieldKind> {
    Seq::new(n, |t: int| tempering_kind(n as int, t))
}

/// The thirty numbers of `r` from tag `base` on.
pub open spec fn steps_at(r: Seq<RawValue>, base: int) -> Seq<u32> {
    Seq::new(30, |i: int| field_bits(r, base + i))
}

/// Thirty zeros.
pub open spec fn no_steps() -> Seq<u32> {
    Seq::new(30, |i: int| 0u32)
}

impl Tempering {
    /// Whether each field is what a record `r` of a table with `n` tags
    /// holds: with 121 tags the level and the four blocks of thirty in
    /// order; with 106, 61, 101 or 111 tags the level, then defenses and
    /// defense ratios; with any other count nothing.
    pub open spec fn is_read_from(&self, r: Seq<RawValue>, n: int) -> bool {
        if is_full_layout(n) {
            &&& self.level == field_u16(r, 0)
            &&& self.attack_ratios@ == steps_at(r, 1)
            &&& self.defenses@ == steps_at(r, 31)
            &&& self.defense_ratios@ == steps_at(r, 61)
            &&& self.spell_ratios@ == steps_at(r, 91)
        } else if is_defense_layout(n) {
            &&& self.level == field_u16(r, 0)
            &&& self.attack_ratios@ == no_steps()
            &&& self.defenses@ == steps_at(r, 1)
            &&& self.defense_ratios@ == steps_at(r, 31)
            &&& self.spell_ratios@ == no_steps()
        } else {
            &&& self.level == 0
            &&& self.attack_ratios@ == no_steps()
            &&& self.defenses@ == no_steps()
            &&& self.defense_ratios@ == no_steps()
            &&& self.spell_ratios@ == no_steps()
        }
    }

    /// The kinds of the `n` tags of a tempering record.
    pub fn kinds(n: usize) -> (v: Vec<FieldKind>)
        ensures
            v@ == tempering_kinds(n as nat),
    {
        let full = n == 121;
        let defense = n == 106 || n == 61 || n == 101 || n == 111;
        let mut v: Vec<FieldKind> = Vec::new();
        let mut t: usize = 0;
        while t < n
            invariant
                t <= n,
                full == is_full_layout(n as int),
                defense == is_defense_layout(n as int),
                v@ == Seq::new(t as nat, |k: int| tempering_kind(n as int, k)),
            decreases n - t,
        {
            let k = if full {
                FieldKind::Number
            } else if defense && t < 61 {
                FieldKind::Number
            } else {
                FieldKind::Skip
            };
            v.push(k);
            assert(v@ =~= Seq::new((t + 1) as nat, |k: int| tempering_kind(n as int, k)));
            t = t + 1;
        }
        v
    }

    /// The thirty numbers of `rec` from tag `base` on.
    pub fn steps_of(rec: &Vec<RawField>, base: usize) -> (a: [u32; 30])
        requires
            base <= usize::MAX - 30,
        ensures
            a@ == steps_at(rec@.map_values(|f: RawField| f@), base as int),
    {
        let mut a: [u32; 30] = [0u32; 30];
        let mut i: usize = 0;
        while i < 30
            invariant
                i <= 30,
                base <= usize::MAX - 30,
                a@.len() == 30,
                forall|k: int| 0 <= k < i ==> a@[k] == field_bits(rec@.map_values(|f: RawField| f@), base + k),
            decreases 30 - i,
        {
            a[i] = get_bits(rec, base + i);
            i = i + 1;
        }
        assert(a@ =~= steps_at(rec@.map_values(|f: RawField| f@), base as int));
        a
    }

    /// The tempering the fields `rec` of a table with `n` tags hold.
    pub fn from_record(rec: &Vec<RawField>, n: usize) -> (x: Tempering)
        ensures
            x.is_read_from(rec@.map_values(|f: RawField| f@), n as int),
    {
        let zeros: [u32; 30] = [0u32; 30];
        assert(zeros@ =~= no_steps());
        if n == 121 {
            Tempering {
                level: get_u16(rec, 0),
                attack_ratios: Self::steps_of(rec, 1),
                defenses: Self::steps_of(rec, 31),
                defense_ratios: Self::steps_of(rec, 61),
                spell_ratios: Self::steps_of(rec, 91),
            }
        } else if n == 106 || n == 61 || n == 101 || n == 111 {
            Tempering {
                level: get_u16(rec, 0),
                attack_ratios: zeros,
                defenses: Self::steps_of(rec, 1),
                defense_ratios: Self::steps_of(rec, 31),
                spell_ratios: [0u32; 30],
            }
        } else {
            Tempering {
                level: 0,
                attack_ratios: zeros,
                defenses: [0u32; 30],
                defense_ratios: [0u32; 30],
                spell_ratios: [0u32; 30],
            }
        }
    }

}


impl AbstractItem for Tempering {
    open spec fn record_kinds(h: HeaderView) -> Seq<FieldKind> {
        tempering_kinds(h.0.len())
    }

    open spec fn read_from(&self, r: Seq<RawValue>, h: HeaderView) -> bool {
        self.is_read_from(r, h.0.len() as int)
    }

    fn read(data: &[u8], header: &TableHeader, format: DataFormat, item_idx: usize) -> (r: Result<Tempering, TableError>)
    {
        let n = header.tag_count();
        let kinds = Self::kinds(n);
        match read_record(data, header, format, item_idx, &kinds) {
            Ok(rec) => Ok(Self::from_record(&rec, n)),
            Err(e) => Err(e),
        }
    }
}

} // verus!

verus! {

/// Where each value of a tempering level comes from, for a record `r` of a
/// table with `n` tags: with 121 tags the level at tag 0, then the attack
/// ratio of step `k` at tag 1 + k, the defense at 31 + k, the defense ratio
/// at 61 + k and the spell ratio at 91 + k; with 106, 61, 101 or 111 tags
/// the level at 0, the defense at 1 + k and the defense ratio at 31 + k,
/// the ratios of attacks and spells zero; with any other count all zero.
pub proof fn law_tempering_tags(x: Tempering, r: Seq<RawValue>, n: int, k: int)
    requires
        x.is_read_from(r, n),
        0 <= k < 30,
    ensures
        x.attack_ratios@.len() == 30 && x.defenses@.len() == 30 && x.defense_ratios@.len() == 30
            && x.spell_ratios@.len() == 30,
        n == 121 ==> x.level == field_u16(r, 0) && x.attack_ratios@[k] == field_bits(r, 1 + k) && x.defenses@[k]
            == field_bits(r, 31 + k) && x.defense_ratios@[k] == field_bits(r, 61 + k) && x.spell_ratios@[k]
            == field_bits(r, 91 + k),
        (n == 106 || n == 61 || n == 101 || n == 111) ==> x.level == field_u16(r, 0) && x.attack_ratios@[k] == 0
            && x.defenses@[k] == field_bits(r, 1 + k) && x.defense_ratios@[k] == field_bits(r, 31 + k)
            && x.spell_ratios@[k] == 0,
        !(n == 121 || n == 106 || n == 61 || n == 101 || n == 111) ==> x.level == 0 && x.attack_ratios@[k] == 0
            && x.defenses@[k] == 0 && x.defense_ratios@[k] == 0 && x.spell_ratios@[k] == 0,
{
}

} // verus!
