//! The records of the game's data tables, and the reading of a whole table.
pub mod accessory;
pub mod boost;
pub mod catalog;
pub mod consume;
pub mod exchange;
pub mod fellow_equip;
pub mod filters;
pub mod gem;
pub mod item_option;
pub mod item_quality;
pub mod item_res;
pub mod item_set;
pub mod items;
pub mod levels;
pub mod locale;
pub mod material;
pub mod option_pick;
pub mod paths;
pub mod product;
pub mod recipe;
pub mod sealed_fellow;
pub mod secondary_weapon;
pub mod skill_book;
pub mod tempering;
pub mod weapon;

use vstd::prelude::*;

use crate::kinds::DataFormat;
use crate::table::{
    read_header, record_readable, spec_header, spec_record, table_ok, FieldKind, HeaderView, RawValue, TableError,
    TableHeader,
};

verus! {

/// A record type of a data table: how its fields are read, and what a value
/// read from a record is.
pub trait AbstractItem: Sized {
    /// The kinds of the tags of a record, in a table whose header is `h`.
    spec fn record_kinds(h: HeaderView) -> Seq<FieldKind>;

    /// Whether this value is what reading the record `r` of a table whose
    /// header is `h` gives.
    spec fn read_from(&self, r: Seq<RawValue>, h: HeaderView) -> bool;

    /// Reads item `item_idx`; fails exactly when a field the record needs
    /// cannot be read.
    fn read(data: &[u8], header: &TableHeader, format: DataFormat, item_idx: usize) -> (r: Result<Self, TableError>)
        requires
            table_ok(data@, header@),
            item_idx < header@.1,
        ensures
            match r {
                Ok(x) => record_readable(data@, header@, format, item_idx as int, Self::record_kinds(header@))
                    && x.read_from(spec_record(data@, header@, format, item_idx as int, Self::record_kinds(header@)), header@),
                Err(e) => !record_readable(data@, header@, format, item_idx as int, Self::record_kinds(header@))
                    && e == TableError::UnexpectedEnd,
            },
    ;
}

/// Whether every item of the table `d` with header `h` can be read as `X`.
pub open spec fn all_readable<X: AbstractItem>(d: Seq<u8>, h: HeaderView, format: DataFormat) -> bool {
    forall|i: int| 0 <= i < h.1 ==> #[trigger] record_readable(d, h, format, i, X::record_kinds(h))
}

/// Whether `v` holds, in order, every item of the table `d` with header `h`.
pub open spec fn holds_all<X: AbstractItem>(v: Seq<X>, d: Seq<u8>, h: HeaderView, format: DataFormat) -> bool {
    &&& v.len() == h.1
    &&& forall|i: int| 0 <= i < v.len() ==> #[trigger] v[i].read_from(spec_record(d, h, format, i, X::record_kinds(h)), h)
}

/// Reads every item of a table, in order.  Fails with the header's error
/// when the header cannot be read, and with `UnexpectedEnd` when an item
/// cannot.
pub fn read_table<X: AbstractItem>(data: &[u8], format: DataFormat) -> (r: Result<Vec<X>, TableError>)
    requires
        data@.len() <= usize::MAX / 8,
    ensures
        match spec_header(data@) {
            Ok(h) => match r {
                Ok(v) => all_readable::<X>(data@, h, format) && holds_all(v@, data@, h, format),
                Err(e) => !all_readable::<X>(data@, h, format) && e == TableError::UnexpectedEnd,
            },
            Err(he) => r == Err::<Vec<X>, TableError>(he),
        },
{
    let header = match read_header(data) {
        Ok(h) => h,
        Err(e) => return Err(e),
    };
    let n = header.item_count();
    let mut v: Vec<X> = Vec::new();
    let mut i: usize = 0;
    while i < n
        invariant
            n == header@.1,
            i <= n,
            table_ok(data@, header@),
            spec_header(data@) == Ok::<HeaderView, TableError>(header@),
            v@.len() == i,
            forall|k: int| 0 <= k < i ==> #[trigger] record_readable(data@, header@, format, k, X::record_kinds(header@)),
            forall|k: int| 0 <= k < i ==> #[trigger] v@[k].read_from(
                spec_record(data@, header@, format, k, X::record_kinds(header@)),
                header@,
            ),
        decreases n - i,
    {
        match X::read(data, &header, format, i) {
            Ok(x) => {
                v.push(x);
            },
            Err(e) => {
                return Err(e);
            },
        }
        i = i + 1;
    }
    Ok(v)
}

} // verus!
