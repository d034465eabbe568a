//! The random options of a grade: per level, the lists of ranged effects
//! that an item can roll, common ones and those of each class.
use vstd::prelude::*;

use crate::effects::{spec_min_max_parsed, ItemMinMaxEffect};
use crate::fields::{field_u16, get_text, get_u16, has};
use crate::kinds::DataFormat;
use crate::game_data::AbstractItem;
use crate::table::{HeaderView, read_record, record_readable, spec_record, table_ok, text_of, FieldKind, RawField, RawValue, TableError, TableHeader};
use crate::text::{chars_of, split, split_char, string_of};

verus! {

/// The view of a ranged effect.
pub type MinMaxView = (Seq<char>, Option<(Seq<char>, Seq<char>, Seq<char>)>);

/// The views of a list of ranged effects.
pub open spec fn min_max_view(v: Seq<ItemMinMaxEffect>) -> Seq<MinMaxView> {
    v.map_values(|e: ItemMinMaxEffect| e@)
}

/// The ranged effects a comma-separated text lists, one per piece.
pub open spec fn min_max_list(s: Seq<char>) -> Seq<MinMaxView> {
    split_char(s, ',').map_values(|p: Seq<char>| (p, spec_min_max_parsed(p)))
}

/// The ranged effects listed at tag `i`; none when the tag is absent.
pub open spec fn field_min_max(r: Seq<RawValue>, i: int) -> Seq<MinMaxView> {
    if has(r, i) {
        min_max_list(text_of(r[i]))
    } else {
        Seq::empty()
    }
}

/// The ranged effects listed at `i`.
pub fn get_min_max(rec: &Vec<RawField>, i: usize) -> (v: Vec<ItemMinMaxEffect>)
    ensures
        min_max_view(v@) == field_min_max(rec@.map_values(|f: RawField| f@), i as int),
{
    let ghost r = rec@.map_values(|f: RawField| f@);
    let mut v: Vec<ItemMinMaxEffect> = Vec::new();
    if i < rec.len() {
        let t = get_text(rec, i);
        let c = chars_of(t.as_str());
        let parts = split(&c, ',');
        let ghost pieces = split_char(text_of(r[i as int]), ',');
        let mut k: usize = 0;
        while k < parts.len()
            invariant
                k <= parts@.len(),
                parts@.len() == pieces.len(),
                forall|j: int| 0 <= j < parts@.len() ==> #[trigger] parts@[j]@ == pieces[j],
                min_max_view(v@) == pieces.take(k as int).map_values(|p: Seq<char>| (p, spec_min_max_parsed(p))),
            decreases parts.len() - k,
        {
            let piece = string_of(&parts[k]);
            assert(piece@ == pieces[k as int]);
            let e = ItemMinMaxEffect::new(piece.as_str());
            let ghost before = v@;
            v.push(e);
            assert(v@ == before.push(e));
            assert(min_max_view(v@) =~= min_max_view(before).push(e@));
            assert(pieces.take(k + 1) =~= pieces.take(k as int).push(pieces[k as int]));
            assert(min_max_view(v@) =~= pieces.take(k + 1).map_values(|p: Seq<char>| (p, spec_min_max_parsed(p))));
            k = k + 1;
        }
        assert(pieces.take(k as int) =~= pieces);
    } else {
        assert(min_max_view(v@) =~= Seq::<MinMaxView>::empty());
    }
    v
}

/// The options of one level.
#[derive(Debug)]
pub struct ItemOption {
    pub level: u16,
    pub effect1: Vec<ItemMinMaxEffect>,
    pub effect2: Vec<ItemMinMaxEffect>,
    pub special_effect: Vec<ItemMinMaxEffect>,
    pub wr_effect1: Vec<ItemMinMaxEffect>,
    pub wr_effect2: Vec<ItemMinMaxEffect>,
    pub gd_effect1: Vec<ItemMinMaxEffect>,
    pub gd_effect2: Vec<ItemMinMaxEffect>,
    pub tf_effect1: Vec<ItemMinMaxEffect>,
    pub tf_effect2: Vec<ItemMinMaxEffect>,
    pub pr_effect1: Vec<ItemMinMaxEffect>,
    pub pr_effect2: Vec<ItemMinMaxEffect>,
    pub wz_effect1: Vec<ItemMinMaxEffect>,
    pub wz_effect2: Vec<ItemMinMaxEffect>,
    pub ac_effect1: Vec<ItemMinMaxEffect>,
    pub ac_effect2: Vec<ItemMinMaxEffect>,
    pub do_effect1: Vec<ItemMinMaxEffect>,
    pub do_effect2: Vec<ItemMinMaxEffect>,
}

/// How an option record is read: the level at tag 0, the seventeen lists at
/// tags 1 to 17, nothing else.
pub open spec fn option_kind(t: int) -> FieldKind {
    if t == 0 {
        FieldKind::Number
    } else if 1 <= t <= 17 {
        FieldKind::Text
    } else {
        FieldKind::Skip
    }
}

/// The kinds of the tags of an option table with `n` tags.
pub open spec fn option_kinds(n: nat) -> Seq<FieldKind> {
    Seq::new(n, |t: int| option_kind(t))
}

impl ItemOption {
    /// The list at position `i`, 1 to 17, in the order of the fields.
    pub open spec fn list(&self, i: int) -> Seq<MinMaxView> {
        if i == 1 {
            min_max_view(self.effect1@)
        } else if i == 2 {
            min_max_view(self.effect2@)
        } else if i == 3 {
            min_max_view(self.special_effect@)
        } else if i == 4 {
            min_max_view(self.wr_effect1@)
        } else if i == 5 {
            min_max_view(self.wr_effect2@)
        } else if i == 6 {
            min_max_view(self.gd_effect1@)
        } else if i == 7 {
            min_max_view(self.gd_effect2@)
        } else if i == 8 {
            min_max_view(self.tf_effect1@)
        } else if i == 9 {
            min_max_view(self.tf_effect2@)
        } else if i == 10 {
            min_max_view(self.pr_effect1@)
        } else if i == 11 {
            min_max_view(self.pr_effect2@)
        } else if i == 12 {
            min_max_view(self.wz_effect1@)
        } else if i == 13 {
            min_max_view(self.wz_effect2@)
        } else if i == 14 {
            min_max_view(self.ac_effect1@)
        } else if i == 15 {
            min_max_view(self.ac_effect2@)
        } else if i == 16 {
            min_max_view(self.do_effect1@)
        } else if i == 17 {
            min_max_view(self.do_effect2@)
        } else {
            Seq::empty()
        }
    }

    /// The list at position `i`, 1 to 17.
    pub fn list_ref(&self, i: usize) -> (r: &Vec<ItemMinMaxEffect>)
        requires
            1 <= i <= 17,
        ensures
            min_max_view(r@) == self.list(i as int),
    {
        if i == 1 {
            &self.effect1
        } else if i == 2 {
            &self.effect2
        } else if i == 3 {
            &self.special_effect
        } else if i == 4 {
            &self.wr_effect1
        } else if i == 5 {
            &self.wr_effect2
        } else if i == 6 {
            &self.gd_effect1
        } else if i == 7 {
            &self.gd_effect2
        } else if i == 8 {
            &self.tf_effect1
        } else if i == 9 {
            &self.tf_effect2
        } else if i == 10 {
            &self.pr_effect1
        } else if i == 11 {
            &self.pr_effect2
        } else if i == 12 {
            &self.wz_effect1
        } else if i == 13 {
            &self.wz_effect2
        } else if i == 14 {
            &self.ac_effect1
        } else if i == 15 {
            &self.ac_effect2
        } else if i == 16 {
            &self.do_effect1
        } else {
            &self.do_effect2
        }
    }

    /// Whether each field is what the record `r` holds at its tag.
    pub open spec fn is_read_from(&self, r: Seq<RawValue>) -> bool {
        &&& self.level == field_u16(r, 0)
        &&& min_max_view(self.effect1@) == field_min_max(r, 1)
        &&& min_max_view(self.effect2@) == field_min_max(r, 2)
        &&& min_max_view(self.special_effect@) == field_min_max(r, 3)
        &&& min_max_view(self.wr_effect1@) == field_min_max(r, 4)
        &&& min_max_view(self.wr_effect2@) == field_min_max(r, 5)
        &&& min_max_view(self.gd_effect1@) == field_min_max(r, 6)
        &&& min_max_view(self.gd_effect2@) == field_min_max(r, 7)
        &&& min_max_view(self.tf_effect1@) == field_min_max(r, 8)
        &&& min_max_view(self.tf_effect2@) == field_min_max(r, 9)
        &&& min_max_view(self.pr_effect1@) == field_min_max(r, 10)
        &&& min_max_view(self.pr_effect2@) == field_min_max(r, 11)
        &&& min_max_view(self.wz_effect1@) == field_min_max(r, 12)
        &&& min_max_view(self.wz_effect2@) == field_min_max(r, 13)
        &&& min_max_view(self.ac_effect1@) == field_min_max(r, 14)
        &&& min_max_view(self.ac_effect2@) == field_min_max(r, 15)
        &&& min_max_view(self.do_effect1@) == field_min_max(r, 16)
        &&& min_max_view(self.do_effect2@) == field_min_max(r, 17)
    }

    /// The kinds of the `n` tags of an option record.
    pub fn kinds(n: usize) -> (v: Vec<FieldKind>)
        ensures
            v@ == option_kinds(n as nat),
    {
        let mut v: Vec<FieldKind> = Vec::new();
        let mut t: usize = 0;
        while t < n
            invariant
                t <= n,
                v@ == option_kinds(t as nat),
            decreases n - t,
        {
            let k = if t == 0 {
                FieldKind::Number
            } else if 1 <= t && t <= 17 {
                FieldKind::Text
            } else {
                FieldKind::Skip
            };
            v.push(k);
            assert(v@ =~= option_kinds((t + 1) as nat));
            t = t + 1;
        }
        v
    }

    /// The options the fields `rec` hold.
    pub fn from_record(rec: &Vec<RawField>) -> (o: ItemOption)
        ensures
            o.is_read_from(rec@.map_values(|f: RawField| f@)),
    {
        ItemOption {
            level: get_u16(rec, 0),
            effect1: get_min_max(rec, 1),
            effect2: get_min_max(rec, 2),
            special_effect: get_min_max(rec, 3),
            wr_effect1: get_min_max(rec, 4),
            wr_effect2: get_min_max(rec, 5),
            gd_effect1: get_min_max(rec, 6),
            gd_effect2: get_min_max(rec, 7),
            tf_effect1: get_min_max(rec, 8),
            tf_effect2: get_min_max(rec, 9),
            pr_effect1: get_min_max(rec, 10),
            pr_effect2: get_min_max(rec, 11),
            wz_effect1: get_min_max(rec, 12),
            wz_effect2: get_min_max(rec, 13),
            ac_effect1: get_min_max(rec, 14),
            ac_effect2: get_min_max(rec, 15),
            do_effect1: get_min_max(rec, 16),
            do_effect2: get_min_max(rec, 17),
        }
    }

}


impl AbstractItem for ItemOption {
    open spec fn record_kinds(h: HeaderView) -> Seq<FieldKind> {
        option_kinds(h.0.len())
    }

    open spec fn read_from(&self, r: Seq<RawValue>, h: HeaderView) -> bool {
        self.is_read_from(r)
    }

    fn read(data: &[u8], header: &TableHeader, format: DataFormat, item_idx: usize) -> (r: Result<ItemOption, TableError>)
    {
        let kinds = Self::kinds(header.tag_count());
        match read_record(data, header, format, item_idx, &kinds) {
            Ok(rec) => Ok(Self::from_record(&rec)),
            Err(e) => Err(e),
        }
    }
}

} // verus!

verus! {

/// Where each field of an option record read from a record of the option table comes
/// from: the value the record holds at the tag that table gives the field.
pub proof fn law_item_option_field_tags(x: ItemOption, r: Seq<RawValue>)
    requires
        x.is_read_from(r),
    ensures
        x.level == field_u16(r, 0),
        min_max_view(x.effect1@) == field_min_max(r, 1),
        min_max_view(x.effect2@) == field_min_max(r, 2),
        min_max_view(x.special_effect@) == field_min_max(r, 3),
        min_max_view(x.wr_effect1@) == field_min_max(r, 4),
        min_max_view(x.wr_effect2@) == field_min_max(r, 5),
        min_max_view(x.gd_effect1@) == field_min_max(r, 6),
        min_max_view(x.gd_effect2@) == field_min_max(r, 7),
        min_max_view(x.tf_effect1@) == field_min_max(r, 8),
        min_max_view(x.tf_effect2@) == field_min_max(r, 9),
        min_max_view(x.pr_effect1@) == field_min_max(r, 10),
        min_max_view(x.pr_effect2@) == field_min_max(r, 11),
        min_max_view(x.wz_effect1@) == field_min_max(r, 12),
        min_max_view(x.wz_effect2@) == field_min_max(r, 13),
        min_max_view(x.ac_effect1@) == field_min_max(r, 14),
        min_max_view(x.ac_effect2@) == field_min_max(r, 15),
        min_max_view(x.do_effect1@) == field_min_max(r, 16),
        min_max_view(x.do_effect2@) == field_min_max(r, 17),
{
}

} // verus!
