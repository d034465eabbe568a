//! The resource record of an item: its id, icon name and, for materials,
//! the crafting types that use it.
use vstd::prelude::*;

use crate::fields::{field_text, field_upper, get_text, get_upper, has, opt_view};
use crate::kinds::DataFormat;
use crate::outside::key_index;
use crate::game_data::AbstractItem;
use crate::table::{HeaderView, read_record, record_readable, spec_record, table_ok, FieldKind, RawField, RawValue, TableError, TableHeader};

verus! {

/// An item's resources.
#[derive(Debug)]
pub struct ItemRes {
    pub id: String,
    pub icon: String,
    pub using_recipe_type: Option<String>,
}

impl View for ItemRes {
    type V = (Seq<char>, Seq<char>, Option<Seq<char>>);

    open spec fn view(&self) -> Self::V {
        (self.id@, self.icon@, opt_view(self.using_recipe_type))
    }
}

/// How a resource record is read: the id at tag 0; the recipe types at
/// tag 11 when the table has 17 tags; the icon at the tag named "icon",
/// unless that is tag 0 or 11; nothing else.
pub open spec fn res_kind(t: int, n: int, icon: Option<int>) -> FieldKind {
    if t == 0 {
        FieldKind::Text
    } else if t == 11 {
        if n == 17 {
            FieldKind::Text
        } else {
            FieldKind::Skip
        }
    } else if icon == Some(t) {
        FieldKind::Text
    } else {
        FieldKind::Skip
    }
}

/// The resources a record holds, `icon` being the position of the tag
/// named "icon".
pub open spec fn spec_item_res(rec: Seq<RawValue>, icon: Option<int>) -> (Seq<char>, Seq<char>, Option<Seq<char>>) {
    let id = field_upper(rec, 0);
    let icon_text = match icon {
        Some(i) => if i != 0 && i != 11 && has(rec, i) {
            field_text(rec, i)
        } else {
            Seq::empty()
        },
        None => Seq::empty(),
    };
    let recipe = if rec.len() == 17 && has(rec, 11) {
        Some(field_text(rec, 11))
    } else {
        None
    };
    (id, icon_text, recipe)
}

/// The position of the tag named "icon" in the header `h`.
pub open spec fn icon_tag(h: (crate::table::Definitions, nat, Seq<u32>, int)) -> Option<int> {
    key_index(h.0, "icon"@)
}

impl ItemRes {
    /// The kinds of the `n` tags of a resource record.
    pub fn kinds(n: usize, icon: Option<usize>) -> (v: Vec<FieldKind>)
        ensures
            v@ == Seq::new(n as nat, |t: int| res_kind(t, n as int, match icon { Some(i) => Some(i as int), None => None })),
    {
        let ghost ic = match icon { Some(i) => Some(i as int), None => None::<int> };
        let mut v: Vec<FieldKind> = Vec::new();
        let mut t: usize = 0;
        while t < n
            invariant
                t <= n,
                ic == match icon { Some(i) => Some(i as int), None => None::<int> },
                v@ == Seq::new(t as nat, |k: int| res_kind(k, n as int, ic)),
            decreases n - t,
        {
            let k = if t == 0 {
                FieldKind::Text
            } else if t == 11 {
                if n == 17 { FieldKind::Text } else { FieldKind::Skip }
            } else {
                match icon {
                    Some(i) => if i == t { FieldKind::Text } else { FieldKind::Skip },
                    None => FieldKind::Skip,
                }
            };
            v.push(k);
            assert(v@ =~= Seq::new((t + 1) as nat, |k: int| res_kind(k, n as int, ic)));
            t = t + 1;
        }
        v
    }

    /// The resources the fields `rec` hold.
    pub fn from_record(rec: &Vec<RawField>, icon: Option<usize>) -> (r: ItemRes)
        ensures
            r@ == spec_item_res(rec@.map_values(|f: RawField| f@), match icon { Some(i) => Some(i as int), None => None }),
    {
        let id = get_upper(rec, 0);
        let icon_text = match icon {
            Some(i) => if i != 0 && i != 11 && i < rec.len() { get_text(rec, i) } else { String::new() },
            None => String::new(),
        };
        let using_recipe_type = if rec.len() == 17 && 11 < rec.len() { Some(get_text(rec, 11)) } else { None };
        ItemRes { id, icon: icon_text, using_recipe_type }
    }

}


impl AbstractItem for ItemRes {
    open spec fn record_kinds(h: HeaderView) -> Seq<FieldKind> {
        Seq::new(h.0.len(), |t: int| res_kind(t, h.0.len() as int, icon_tag(h)))
    }

    open spec fn read_from(&self, r: Seq<RawValue>, h: HeaderView) -> bool {
        self@ == spec_item_res(r, icon_tag(h))
    }

    fn read(data: &[u8], header: &TableHeader, format: DataFormat, item_idx: usize) -> (r: Result<ItemRes, TableError>)
    {
        let icon = header.index_of("icon");
        let n = header.tag_count();
        let kinds = Self::kinds(n, icon);
        let ghost ic = match icon { Some(i) => Some(i as int), None => None::<int> };
        assert(ic == icon_tag(header@));
        assert(kinds@ =~= Seq::new(header@.0.len(), |t: int| res_kind(t, header@.0.len() as int, icon_tag(header@))));
        match read_record(data, header, format, item_idx, &kinds) {
            Ok(rec) => Ok(Self::from_record(&rec, icon)),
            Err(e) => Err(e),
        }
    }
}

} // verus!

verus! {

/// The views of a table of resources.
pub open spec fn res_view(t: Seq<ItemRes>) -> Seq<(Seq<char>, Seq<char>, Option<Seq<char>>)> {
    t.map_values(|r: ItemRes| r@)
}

/// The resources a table gives for `id`: the last one read with that id,
/// as inserting each in turn into a map by id leaves it.
pub open spec fn res_lookup(t: Seq<(Seq<char>, Seq<char>, Option<Seq<char>>)>, id: Seq<char>) -> Option<
    (Seq<char>, Seq<char>, Option<Seq<char>>),
>
    decreases t.len(),
{
    if t.len() == 0 {
        None
    } else if t.last().0 == id {
        Some(t.last())
    } else {
        res_lookup(t.drop_last(), id)
    }
}

/// The resources the table gives for `id`, if any.
pub fn find_res<'a>(table: &'a Vec<ItemRes>, id: &str) -> (r: Option<&'a ItemRes>)
    ensures
        match r {
            Some(x) => res_lookup(res_view(table@), id@) == Some(x@),
            None => res_lookup(res_view(table@), id@) is None,
        },
{
    let mut i: usize = table.len();
    assert(table@.take(i as int) =~= table@);
    while i > 0
        invariant
            i <= table@.len(),
            res_lookup(res_view(table@), id@) == res_lookup(res_view(table@.take(i as int)), id@),
        decreases i,
    {
        let r = &table[i - 1];
        assert(res_view(table@.take(i as int)).drop_last() =~= res_view(table@.take(i - 1)));
        if crate::outside::str_eq(r.id.as_str(), id) {
            return Some(r);
        }
        i = i - 1;
    }
    None
}

} // verus!
