//! The per-level tables: tempering, options and quality, each kept by the
//! level its values are for.
use vstd::prelude::*;

use std::collections::HashMap;

use crate::game_data::catalog::reversed;
use crate::game_data::item_option::ItemOption;
use crate::game_data::item_quality::ItemQuality;
use crate::game_data::tempering::Tempering;
use crate::game_data::{all_readable, holds_all, read_table};
use crate::kinds::DataFormat;
use crate::table::{spec_header, TableError};

verus! {

broadcast use vstd::std_specs::hash::group_hash_axioms;

/// The ItemQuality values of `s` by level: each level holds the last value read
/// with it, as inserting each in turn into a map by level leaves it.
pub open spec fn quality_levels(s: Seq<ItemQuality>) -> Map<u16, ItemQuality>
    decreases s.len(),
{
    if s.len() == 0 {
        Map::empty()
    } else {
        quality_levels(s.drop_last()).insert(s.last().level, s.last())
    }
}

/// Every level of `s` has a value and no other level has one; the value a
/// level holds was read with that level; a value added last is the one its
/// level holds.
pub proof fn law_quality_levels(s: Seq<ItemQuality>, x: ItemQuality)
    ensures
        forall|l: u16| #[trigger] quality_levels(s).contains_key(l) <==> exists|i: int| 0 <= i < s.len() && s[i].level == l,
        forall|l: u16| #[trigger] quality_levels(s).contains_key(l) ==> quality_levels(s)[l].level == l,
        quality_levels(s.push(x))[x.level] == x,
    decreases s.len(),
{
    assert(s.push(x).drop_last() =~= s);
    if s.len() > 0 {
        let p = s.drop_last();
        let y = s.last();
        law_quality_levels(p, y);
        assert(quality_levels(s) == quality_levels(p).insert(y.level, y));
        assert forall|l: u16| #[trigger] quality_levels(s).contains_key(l) <==> exists|i: int|
            0 <= i < s.len() && s[i].level == l by {
            if l == y.level {
                assert(s[s.len() - 1].level == l);
            } else {
                if exists|i: int| 0 <= i < p.len() && p[i].level == l {
                    let i = choose|i: int| 0 <= i < p.len() && p[i].level == l;
                    assert(s[i].level == l);
                }
                if exists|i: int| 0 <= i < s.len() && s[i].level == l {
                    let i = choose|i: int| 0 <= i < s.len() && s[i].level == l;
                    assert(i < p.len());
                    assert(p[i].level == l);
                }
            }
        }
        assert forall|l: u16| #[trigger] quality_levels(s).contains_key(l) implies quality_levels(s)[l].level == l by {
            if l != y.level {
                assert(quality_levels(p).contains_key(l));
            }
        }
    } else {
        assert(quality_levels(s) =~= Map::<u16, ItemQuality>::empty());
    }
}

/// The values of `items` by level.
pub fn quality_by_level(items: Vec<ItemQuality>) -> (m: HashMap<u16, ItemQuality>)
    ensures
        m@ == quality_levels(items@),
{
    let n = items.len();
    let ghost orig = items@;
    let mut rest = reversed(items);
    let mut m: HashMap<u16, ItemQuality> = HashMap::new();
    let mut k: usize = 0;
    assert(orig.take(0) =~= Seq::<ItemQuality>::empty());
    while rest.len() > 0
        invariant
            orig.len() == n,
            k <= n,
            rest@.len() + k == n,
            rest@ == orig.skip(k as int).reverse(),
            m@ == quality_levels(orig.take(k as int)),
        decreases rest@.len(),
    {
        let x = rest.pop().unwrap();
        assert(x == orig[k as int]) by {
            assert(orig.skip(k as int).reverse().last() == orig.skip(k as int)[0]);
        }
        assert(rest@ =~= orig.skip(k + 1).reverse());
        assert(orig.take(k + 1).drop_last() =~= orig.take(k as int));
        m.insert(x.level, x);
        k = k + 1;
    }
    assert(orig.take(k as int) =~= orig);
    m
}

/// Reads a table of ItemQuality values and keeps them by level.  Fails as the
/// reading of the table does.
pub fn read_items_quality(data: &[u8], format: DataFormat) -> (r: Result<HashMap<u16, ItemQuality>, TableError>)
    requires
        data@.len() <= usize::MAX / 8,
    ensures
        match spec_header(data@) {
            Ok(h) => match r {
                Ok(m) => all_readable::<ItemQuality>(data@, h, format) && exists|v: Seq<ItemQuality>|
                    holds_all(v, data@, h, format) && m@ == #[trigger] quality_levels(v),
                Err(e) => !all_readable::<ItemQuality>(data@, h, format) && e == TableError::UnexpectedEnd,
            },
            Err(he) => r is Err && r->Err_0 == he,
        },
{
    match read_table::<ItemQuality>(data, format) {
        Ok(v) => {
            let ghost items = v@;
            let m = quality_by_level(v);
            assert(holds_all(items, data@, spec_header(data@)->Ok_0, format) && m@ == quality_levels(items));
            Ok(m)
        },
        Err(e) => Err(e),
    }
}

/// The ItemOption values of `s` by level: each level holds the last value read
/// with it, as inserting each in turn into a map by level leaves it.
pub open spec fn option_levels(s: Seq<ItemOption>) -> Map<u16, ItemOption>
    decreases s.len(),
{
    if s.len() == 0 {
        Map::empty()
    } else {
        option_levels(s.drop_last()).insert(s.last().level, s.last())
    }
}

/// Every level of `s` has a value and no other level has one; the value a
/// level holds was read with that level; a value added last is the one its
/// level holds.
pub proof fn law_option_levels(s: Seq<ItemOption>, x: ItemOption)
    ensures
        forall|l: u16| #[trigger] option_levels(s).contains_key(l) <==> exists|i: int| 0 <= i < s.len() && s[i].level == l,
        forall|l: u16| #[trigger] option_levels(s).contains_key(l) ==> option_levels(s)[l].level == l,
        option_levels(s.push(x))[x.level] == x,
    decreases s.len(),
{
    assert(s.push(x).drop_last() =~= s);
    if s.len() > 0 {
        let p = s.drop_last();
        let y = s.last();
        law_option_levels(p, y);
        assert(option_levels(s) == option_levels(p).insert(y.level, y));
        assert forall|l: u16| #[trigger] option_levels(s).contains_key(l) <==> exists|i: int|
            0 <= i < s.len() && s[i].level == l by {
            if l == y.level {
                assert(s[s.len() - 1].level == l);
            } else {
                if exists|i: int| 0 <= i < p.len() && p[i].level == l {
                    let i = choose|i: int| 0 <= i < p.len() && p[i].level == l;
                    assert(s[i].level == l);
                }
                if exists|i: int| 0 <= i < s.len() && s[i].level == l {
                    let i = choose|i: int| 0 <= i < s.len() && s[i].level == l;
                    assert(i < p.len());
                    assert(p[i].level == l);
                }
            }
        }
        assert forall|l: u16| #[trigger] option_levels(s).contains_key(l) implies option_levels(s)[l].level == l by {
            if l != y.level {
                assert(option_levels(p).contains_key(l));
            }
        }
    } else {
        assert(option_levels(s) =~= Map::<u16, ItemOption>::empty());
    }
}

/// The values of `items` by level.
pub fn option_by_level(items: Vec<ItemOption>) -> (m: HashMap<u16, ItemOption>)
    ensures
        m@ == option_levels(items@),
{
    let n = items.len();
    let ghost orig = items@;
    let mut rest = reversed(items);
    let mut m: HashMap<u16, ItemOption> = HashMap::new();
    let mut k: usize = 0;
    assert(orig.take(0) =~= Seq::<ItemOption>::empty());
    while rest.len() > 0
        invariant
            orig.len() == n,
            k <= n,
            rest@.len() + k == n,
            rest@ == orig.skip(k as int).reverse(),
            m@ == option_levels(orig.take(k as int)),
        decreases rest@.len(),
    {
        let x = rest.pop().unwrap();
        assert(x == orig[k as int]) by {
            assert(orig.skip(k as int).reverse().last() == orig.skip(k as int)[0]);
        }
        assert(rest@ =~= orig.skip(k + 1).reverse());
        assert(orig.take(k + 1).drop_last() =~= orig.take(k as int));
        m.insert(x.level, x);
        k = k + 1;
    }
    assert(orig.take(k as int) =~= orig);
    m
}

/// Reads a table of ItemOption values and keeps them by level.  Fails as the
/// reading of the table does.
pub fn read_effects(data: &[u8], format: DataFormat) -> (r: Result<HashMap<u16, ItemOption>, TableError>)
    requires
        data@.len() <= usize::MAX / 8,
    ensures
        match spec_header(data@) {
            Ok(h) => match r {
                Ok(m) => all_readable::<ItemOption>(data@, h, format) && exists|v: Seq<ItemOption>|
                    holds_all(v, data@, h, format) && m@ == #[trigger] option_levels(v),
                Err(e) => !all_readable::<ItemOption>(data@, h, format) && e == TableError::UnexpectedEnd,
            },
            Err(he) => r is Err && r->Err_0 == he,
        },
{
    match read_table::<ItemOption>(data, format) {
        Ok(v) => {
            let ghost items = v@;
            let m = option_by_level(v);
            assert(holds_all(items, data@, spec_header(data@)->Ok_0, format) && m@ == option_levels(items));
            Ok(m)
        },
        Err(e) => Err(e),
    }
}

/// The Tempering values of `s` by level: each level holds the last value read
/// with it, as inserting each in turn into a map by level leaves it.
pub open spec fn tempering_levels(s: Seq<Tempering>) -> Map<u16, Tempering>
    decreases s.len(),
{
    if s.len() == 0 {
        Map::empty()
    } else {
        tempering_levels(s.drop_last()).insert(s.last().level, s.last())
    }
}

/// Every level of `s` has a value and no other level has one; the value a
/// level holds was read with that level; a value added last is the one its
/// level holds.
pub proof fn law_tempering_levels(s: Seq<Tempering>, x: Tempering)
    ensures
        forall|l: u16| #[trigger] tempering_levels(s).contains_key(l) <==> exists|i: int| 0 <= i < s.len() && s[i].level == l,
        forall|l: u16| #[trigger] tempering_levels(s).contains_key(l) ==> tempering_levels(s)[l].level == l,
        tempering_levels(s.push(x))[x.level] == x,
    decreases s.len(),
{
    assert(s.push(x).drop_last() =~= s);
    if s.len() > 0 {
        let p = s.drop_last();
        let y = s.last();
        law_tempering_levels(p, y);
        assert(tempering_levels(s) == tempering_levels(p).insert(y.level, y));
        assert forall|l: u16| #[trigger] tempering_levels(s).contains_key(l) <==> exists|i: int|
            0 <= i < s.len() && s[i].level == l by {
            if l == y.level {
                assert(s[s.len() - 1].level == l);
            } else {
                if exists|i: int| 0 <= i < p.len() && p[i].level == l {
                    let i = choose|i: int| 0 <= i < p.len() && p[i].level == l;
                    assert(s[i].level == l);
                }
                if exists|i: int| 0 <= i < s.len() && s[i].level == l {
                    let i = choose|i: int| 0 <= i < s.len() && s[i].level == l;
                    assert(i < p.len());
                    assert(p[i].level == l);
                }
            }
        }
        assert forall|l: u16| #[trigger] tempering_levels(s).contains_key(l) implies tempering_levels(s)[l].level == l by {
            if l != y.level {
                assert(tempering_levels(p).contains_key(l));
            }
        }
    } else {
        assert(tempering_levels(s) =~= Map::<u16, Tempering>::empty());
    }
}

/// The values of `items` by level.
pub fn tempering_by_level(items: Vec<Tempering>) -> (m: HashMap<u16, Tempering>)
    ensures
        m@ == tempering_levels(items@),
{
    let n = items.len();
    let ghost orig = items@;
    let mut rest = reversed(items);
    let mut m: HashMap<u16, Tempering> = HashMap::new();
    let mut k: usize = 0;
    assert(orig.take(0) =~= Seq::<Tempering>::empty());
    while rest.len() > 0
        invariant
            orig.len() == n,
            k <= n,
            rest@.len() + k == n,
            rest@ == orig.skip(k as int).reverse(),
            m@ == tempering_levels(orig.take(k as int)),
        decreases rest@.len(),
    {
        let x = rest.pop().unwrap();
        assert(x == orig[k as int]) by {
            assert(orig.skip(k as int).reverse().last() == orig.skip(k as int)[0]);
        }
        assert(rest@ =~= orig.skip(k + 1).reverse());
        assert(orig.take(k + 1).drop_last() =~= orig.take(k as int));
        m.insert(x.level, x);
        k = k + 1;
    }
    assert(orig.take(k as int) =~= orig);
    m
}

/// Reads a table of Tempering values and keeps them by level.  Fails as the
/// reading of the table does.
pub fn read_tempering(data: &[u8], format: DataFormat) -> (r: Result<HashMap<u16, Tempering>, TableError>)
    requires
        data@.len() <= usize::MAX / 8,
    ensures
        match spec_header(data@) {
            Ok(h) => match r {
                Ok(m) => all_readable::<Tempering>(data@, h, format) && exists|v: Seq<Tempering>|
                    holds_all(v, data@, h, format) && m@ == #[trigger] tempering_levels(v),
                Err(e) => !all_readable::<Tempering>(data@, h, format) && e == TableError::UnexpectedEnd,
            },
            Err(he) => r is Err && r->Err_0 == he,
        },
{
    match read_table::<Tempering>(data, format) {
        Ok(v) => {
            let ghost items = v@;
            let m = tempering_by_level(v);
            assert(holds_all(items, data@, spec_header(data@)->Ok_0, format) && m@ == tempering_levels(items));
            Ok(m)
        },
        Err(e) => Err(e),
    }
}

} // verus!
