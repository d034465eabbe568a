//! Which of an option table's ranged effects an item can roll: picked by
//! the item's sub-type, from the common lists and from the lists of the
//! class that wears it.
use vstd::prelude::*;

use crate::effects::ItemMinMaxEffect;
use crate::game_data::item_option::{min_max_view, ItemOption, MinMaxView};
use crate::kinds::{spec_armor_slot, spec_sub_type, ArmorClassKind, ArmorTypes, ClassSet, GameClass, ItemSubType};

verus! {

/// One of the lists an effect is picked from: the two common lists, or the
/// two lists of the wearer's class.
#[derive(Debug, Clone, Copy, PartialEq, Eq, Structural)]
pub enum OptionList {
    Common1,
    Common2,
    Class1,
    Class2,
}

/// The picks of a sub-type: which list, and which position in it, in the
/// order the effects are offered.
pub open spec fn option_picks(st: ItemSubType) -> Seq<(OptionList, int)> {
    match st {
        ItemSubType::Necklage => seq![(OptionList::Common2, 0int), (OptionList::Common2, 1int), (OptionList::Common2, 9int), (OptionList::Common1, 0int), (OptionList::Common1, 4int), (OptionList::Common2, 4int), (OptionList::Common2, 10int), (OptionList::Common2, 3int), (OptionList::Common2, 2int), (OptionList::Common2, 5int)],
        ItemSubType::Ring => seq![(OptionList::Common1, 10int), (OptionList::Common1, 1int), (OptionList::Common1, 3int), (OptionList::Common1, 7int), (OptionList::Common1, 11int), (OptionList::Common2, 6int), (OptionList::Common2, 8int), (OptionList::Common1, 9int), (OptionList::Common2, 7int), (OptionList::Common1, 8int)],
        ItemSubType::Dagger => seq![(OptionList::Class1, 0int), (OptionList::Class1, 1int), (OptionList::Class1, 2int), (OptionList::Class2, 0int), (OptionList::Class2, 1int), (OptionList::Class1, 5int)],
        ItemSubType::Sword | ItemSubType::Greatsword => seq![(OptionList::Class1, 0int), (OptionList::Class1, 2int), (OptionList::Class2, 0int), (OptionList::Class2, 1int), (OptionList::Class1, 5int)],
        ItemSubType::Lance => seq![(OptionList::Common1, 0int), (OptionList::Common1, 1int), (OptionList::Common1, 2int), (OptionList::Common1, 3int), (OptionList::Common1, 4int), (OptionList::Common2, 0int), (OptionList::Common2, 1int), (OptionList::Common1, 5int), (OptionList::Common2, 10int), (OptionList::Common1, 6int), (OptionList::Common2, 2int), (OptionList::Common2, 3int)],
        ItemSubType::Crossbow => seq![(OptionList::Common1, 0int), (OptionList::Common1, 1int), (OptionList::Common1, 2int), (OptionList::Common1, 3int), (OptionList::Common1, 4int), (OptionList::Common2, 0int), (OptionList::Common2, 1int), (OptionList::Common1, 5int), (OptionList::Common1, 11int), (OptionList::Common1, 6int), (OptionList::Common2, 2int), (OptionList::Common2, 3int)],
        ItemSubType::Scepter | ItemSubType::Bow | ItemSubType::Staff | ItemSubType::Wand => seq![(OptionList::Class1, 2int), (OptionList::Class1, 3int), (OptionList::Class1, 4int), (OptionList::Class2, 2int), (OptionList::Class2, 3int), (OptionList::Class1, 6int)],
        ItemSubType::Shield => seq![(OptionList::Class1, 0int), (OptionList::Class1, 2int), (OptionList::Class1, 9int), (OptionList::Class2, 6int), (OptionList::Class2, 9int), (OptionList::Class1, 8int)],
        ItemSubType::Vambrace => seq![(OptionList::Class1, 2int), (OptionList::Class1, 3int), (OptionList::Class1, 4int), (OptionList::Class1, 8int), (OptionList::Class2, 5int), (OptionList::Class2, 9int), (OptionList::Class1, 10int)],
        ItemSubType::TeddyBear | ItemSubType::Crest => seq![(OptionList::Class1, 2int), (OptionList::Class1, 3int), (OptionList::Class1, 4int), (OptionList::Class1, 9int), (OptionList::Class2, 5int), (OptionList::Class2, 8int)],
        ItemSubType::Armor(ArmorClassKind::Physical(ArmorTypes::Helmet)) => seq![(OptionList::Class1, 0int), (OptionList::Class1, 1int), (OptionList::Class1, 2int), (OptionList::Class1, 3int), (OptionList::Class1, 4int), (OptionList::Class1, 7int), (OptionList::Class2, 9int), (OptionList::Class1, 9int), (OptionList::Class1, 8int)],
        ItemSubType::Armor(ArmorClassKind::Physical(ArmorTypes::Pauldron)) => seq![(OptionList::Class1, 0int), (OptionList::Class1, 1int), (OptionList::Class1, 2int), (OptionList::Class1, 3int), (OptionList::Class1, 4int), (OptionList::Class1, 7int), (OptionList::Class2, 10int), (OptionList::Class1, 11int), (OptionList::Class1, 8int)],
        ItemSubType::Armor(ArmorClassKind::Physical(ArmorTypes::Armor)) => seq![(OptionList::Class1, 0int), (OptionList::Class1, 1int), (OptionList::Class1, 2int), (OptionList::Class1, 3int), (OptionList::Class1, 4int), (OptionList::Class1, 7int), (OptionList::Class1, 9int), (OptionList::Class1, 10int), (OptionList::Class1, 8int)],
        ItemSubType::Armor(ArmorClassKind::Physical(ArmorTypes::Gloves)) => seq![(OptionList::Class1, 0int), (OptionList::Class1, 1int), (OptionList::Class1, 2int), (OptionList::Class1, 3int), (OptionList::Class1, 4int), (OptionList::Class1, 7int), (OptionList::Class2, 1int), (OptionList::Class2, 0int), (OptionList::Class1, 8int)],
        ItemSubType::Armor(ArmorClassKind::Physical(ArmorTypes::Boots)) => seq![(OptionList::Class1, 0int), (OptionList::Class1, 1int), (OptionList::Class1, 2int), (OptionList::Class1, 3int), (OptionList::Class1, 4int), (OptionList::Class1, 7int), (OptionList::Class1, 10int), (OptionList::Class1, 8int)],
        ItemSubType::Armor(ArmorClassKind::Magic(ArmorTypes::Helmet)) => seq![(OptionList::Class1, 0int), (OptionList::Class1, 1int), (OptionList::Class1, 2int), (OptionList::Class1, 3int), (OptionList::Class1, 4int), (OptionList::Class1, 7int), (OptionList::Class2, 9int), (OptionList::Class1, 8int), (OptionList::Class1, 10int)],
        ItemSubType::Armor(ArmorClassKind::Magic(ArmorTypes::Pauldron)) => seq![(OptionList::Class1, 0int), (OptionList::Class1, 1int), (OptionList::Class1, 2int), (OptionList::Class1, 3int), (OptionList::Class1, 4int), (OptionList::Class1, 7int), (OptionList::Class2, 10int), (OptionList::Class1, 11int), (OptionList::Class1, 10int)],
        ItemSubType::Armor(ArmorClassKind::Magic(ArmorTypes::Armor)) => seq![(OptionList::Class1, 0int), (OptionList::Class1, 1int), (OptionList::Class1, 2int), (OptionList::Class1, 3int), (OptionList::Class1, 4int), (OptionList::Class1, 7int), (OptionList::Class1, 8int), (OptionList::Class1, 9int), (OptionList::Class1, 10int)],
        ItemSubType::Armor(ArmorClassKind::Magic(ArmorTypes::Gloves)) => seq![(OptionList::Class1, 0int), (OptionList::Class1, 1int), (OptionList::Class1, 2int), (OptionList::Class1, 3int), (OptionList::Class1, 4int), (OptionList::Class1, 7int), (OptionList::Class2, 3int), (OptionList::Class2, 2int), (OptionList::Class1, 10int)],
        ItemSubType::Armor(ArmorClassKind::Magic(ArmorTypes::Boots)) => seq![(OptionList::Class1, 0int), (OptionList::Class1, 1int), (OptionList::Class1, 2int), (OptionList::Class1, 3int), (OptionList::Class1, 4int), (OptionList::Class1, 7int), (OptionList::Class1, 9int), (OptionList::Class1, 10int)],
    }
}

/// Whether the picks of a sub-type use the class lists.
pub open spec fn needs_class_lists(st: ItemSubType) -> bool {
    match st {
        ItemSubType::Necklage | ItemSubType::Ring | ItemSubType::Lance | ItemSubType::Crossbow => false,
        _ => true,
    }
}

/// The position in the option record of the first of the two lists of the
/// classes `c`: only a set of one class, or Magician with Wizard, has lists.
pub open spec fn class_lists(c: Set<GameClass>) -> Option<int> {
    if c == set![GameClass::Berserker] {
        Some(4)
    } else if c == set![GameClass::Guardian] {
        Some(6)
    } else if c == set![GameClass::Magician, GameClass::Wizard] {
        Some(12)
    } else if c == set![GameClass::Trickster] {
        Some(16)
    } else if c == set![GameClass::Assassin] {
        Some(8)
    } else if c == set![GameClass::Priest] {
        Some(10)
    } else if c == set![GameClass::Ranger] {
        Some(14)
    } else {
        None
    }
}

/// The list `l` of the option `o`, the class lists starting at `pair`.
pub open spec fn list_of(o: ItemOption, pair: Option<int>, l: OptionList) -> Seq<MinMaxView> {
    match l {
        OptionList::Common1 => o.list(1),
        OptionList::Common2 => o.list(2),
        OptionList::Class1 => match pair {
            Some(p) => o.list(p),
            None => Seq::empty(),
        },
        OptionList::Class2 => match pair {
            Some(p) => o.list(p + 1),
            None => Seq::empty(),
        },
    }
}

/// The effects the picks `ps` find, skipping positions past a list's end.
pub open spec fn picked(o: ItemOption, pair: Option<int>, ps: Seq<(OptionList, int)>) -> Seq<MinMaxView>
    decreases ps.len(),
{
    if ps.len() == 0 {
        Seq::empty()
    } else {
        let l = list_of(o, pair, ps.last().0);
        let i = ps.last().1;
        if 0 <= i < l.len() {
            picked(o, pair, ps.drop_last()).push(l[i])
        } else {
            picked(o, pair, ps.drop_last())
        }
    }
}

/// The effects an item of sub-type code `sub`, worn by the classes `c`, can
/// roll: none when the code is unknown, when the sub-type needs class lists
/// and the classes have none, or when no pick finds an effect.
pub open spec fn spec_check_item_option(o: ItemOption, c: Set<GameClass>, sub: Seq<char>) -> Option<Seq<MinMaxView>> {
    match spec_sub_type(sub) {
        None => None,
        Some(st) => if needs_class_lists(st) && class_lists(c) is None {
            None
        } else {
            let p = picked(o, class_lists(c), option_picks(st));
            if p.len() == 0 {
                None
            } else {
                Some(p)
            }
        },
    }
}

/// The picks of a sub-type.
pub fn picks_for(st: ItemSubType) -> (v: Vec<(OptionList, usize)>)
    ensures
        v@.map_values(|p: (OptionList, usize)| (p.0, p.1 as int)) == option_picks(st),
{
    let v = match st {
            ItemSubType::Necklage => vec![(OptionList::Common2, 0usize), (OptionList::Common2, 1usize), (OptionList::Common2, 9usize), (OptionList::Common1, 0usize), (OptionList::Common1, 4usize), (OptionList::Common2, 4usize), (OptionList::Common2, 10usize), (OptionList::Common2, 3usize), (OptionList::Common2, 2usize), (OptionList::Common2, 5usize)],
            ItemSubType::Ring => vec![(OptionList::Common1, 10usize), (OptionList::Common1, 1usize), (OptionList::Common1, 3usize), (OptionList::Common1, 7usize), (OptionList::Common1, 11usize), (OptionList::Common2, 6usize), (OptionList::Common2, 8usize), (OptionList::Common1, 9usize), (OptionList::Common2, 7usize), (OptionList::Common1, 8usize)],
            ItemSubType::Dagger => vec![(OptionList::Class1, 0usize), (OptionList::Class1, 1usize), (OptionList::Class1, 2usize), (OptionList::Class2, 0usize), (OptionList::Class2, 1usize), (OptionList::Class1, 5usize)],
            ItemSubType::Sword | ItemSubType::Greatsword => vec![(OptionList::Class1, 0usize), (OptionList::Class1, 2usize), (OptionList::Class2, 0usize), (OptionList::Class2, 1usize), (OptionList::Class1, 5usize)],
            ItemSubType::Lance => vec![(OptionList::Common1, 0usize), (OptionList::Common1, 1usize), (OptionList::Common1, 2usize), (OptionList::Common1, 3usize), (OptionList::Common1, 4usize), (OptionList::Common2, 0usize), (OptionList::Common2, 1usize), (OptionList::Common1, 5usize), (OptionList::Common2, 10usize), (OptionList::Common1, 6usize), (OptionList::Common2, 2usize), (OptionList::Common2, 3usize)],
            ItemSubType::Crossbow => vec![(OptionList::Common1, 0usize), (OptionList::Common1, 1usize), (OptionList::Common1, 2usize), (OptionList::Common1, 3usize), (OptionList::Common1, 4usize), (OptionList::Common2, 0usize), (OptionList::Common2, 1usize), (OptionList::Common1, 5usize), (OptionList::Common1, 11usize), (OptionList::Common1, 6usize), (OptionList::Common2, 2usize), (OptionList::Common2, 3usize)],
            ItemSubType::Scepter | ItemSubType::Bow | ItemSubType::Staff | ItemSubType::Wand => vec![(OptionList::Class1, 2usize), (OptionList::Class1, 3usize), (OptionList::Class1, 4usize), (OptionList::Class2, 2usize), (OptionList::Class2, 3usize), (OptionList::Class1, 6usize)],
            ItemSubType::Shield => vec![(OptionList::Class1, 0usize), (OptionList::Class1, 2usize), (OptionList::Class1, 9usize), (OptionList::Class2, 6usize), (OptionList::Class2, 9usize), (OptionList::Class1, 8usize)],
            ItemSubType::Vambrace => vec![(OptionList::Class1, 2usize), (OptionList::Class1, 3usize), (OptionList::Class1, 4usize), (OptionList::Class1, 8usize), (OptionList::Class2, 5usize), (OptionList::Class2, 9usize), (OptionList::Class1, 10usize)],
            ItemSubType::TeddyBear | ItemSubType::Crest => vec![(OptionList::Class1, 2usize), (OptionList::Class1, 3usize), (OptionList::Class1, 4usize), (OptionList::Class1, 9usize), (OptionList::Class2, 5usize), (OptionList::Class2, 8usize)],
            ItemSubType::Armor(ArmorClassKind::Physical(ArmorTypes::Helmet)) => vec![(OptionList::Class1, 0usize), (OptionList::Class1, 1usize), (OptionList::Class1, 2usize), (OptionList::Class1, 3usize), (OptionList::Class1, 4usize), (OptionList::Class1, 7usize), (OptionList::Class2, 9usize), (OptionList::Class1, 9usize), (OptionList::Class1, 8usize)],
            ItemSubType::Armor(ArmorClassKind::Physical(ArmorTypes::Pauldron)) => vec![(OptionList::Class1, 0usize), (OptionList::Class1, 1usize), (OptionList::Class1, 2usize), (OptionList::Class1, 3usize), (OptionList::Class1, 4usize), (OptionList::Class1, 7usize), (OptionList::Class2, 10usize), (OptionList::Class1, 11usize), (OptionList::Class1, 8usize)],
            ItemSubType::Armor(ArmorClassKind::Physical(ArmorTypes::Armor)) => vec![(OptionList::Class1, 0usize), (OptionList::Class1, 1usize), (OptionList::Class1, 2usize), (OptionList::Class1, 3usize), (OptionList::Class1, 4usize), (OptionList::Class1, 7usize), (OptionList::Class1, 9usize), (OptionList::Class1, 10usize), (OptionList::Class1, 8usize)],
            ItemSubType::Armor(ArmorClassKind::Physical(ArmorTypes::Gloves)) => vec![(OptionList::Class1, 0usize), (OptionList::Class1, 1usize), (OptionList::Class1, 2usize), (OptionList::Class1, 3usize), (OptionList::Class1, 4usize), (OptionList::Class1, 7usize), (OptionList::Class2, 1usize), (OptionList::Class2, 0usize), (OptionList::Class1, 8usize)],
            ItemSubType::Armor(ArmorClassKind::Physical(ArmorTypes::Boots)) => vec![(OptionList::Class1, 0usize), (OptionList::Class1, 1usize), (OptionList::Class1, 2usize), (OptionList::Class1, 3usize), (OptionList::Class1, 4usize), (OptionList::Class1, 7usize), (OptionList::Class1, 10usize), (OptionList::Class1, 8usize)],
            ItemSubType::Armor(ArmorClassKind::Magic(ArmorTypes::Helmet)) => vec![(OptionList::Class1, 0usize), (OptionList::Class1, 1usize), (OptionList::Class1, 2usize), (OptionList::Class1, 3usize), (OptionList::Class1, 4usize), (OptionList::Class1, 7usize), (OptionList::Class2, 9usize), (OptionList::Class1, 8usize), (OptionList::Class1, 10usize)],
            ItemSubType::Armor(ArmorClassKind::Magic(ArmorTypes::Pauldron)) => vec![(OptionList::Class1, 0usize), (OptionList::Class1, 1usize), (OptionList::Class1, 2usize), (OptionList::Class1, 3usize), (OptionList::Class1, 4usize), (OptionList::Class1, 7usize), (OptionList::Class2, 10usize), (OptionList::Class1, 11usize), (OptionList::Class1, 10usize)],
            ItemSubType::Armor(ArmorClassKind::Magic(ArmorTypes::Armor)) => vec![(OptionList::Class1, 0usize), (OptionList::Class1, 1usize), (OptionList::Class1, 2usize), (OptionList::Class1, 3usize), (OptionList::Class1, 4usize), (OptionList::Class1, 7usize), (OptionList::Class1, 8usize), (OptionList::Class1, 9usize), (OptionList::Class1, 10usize)],
            ItemSubType::Armor(ArmorClassKind::Magic(ArmorTypes::Gloves)) => vec![(OptionList::Class1, 0usize), (OptionList::Class1, 1usize), (OptionList::Class1, 2usize), (OptionList::Class1, 3usize), (OptionList::Class1, 4usize), (OptionList::Class1, 7usize), (OptionList::Class2, 3usize), (OptionList::Class2, 2usize), (OptionList::Class1, 10usize)],
            ItemSubType::Armor(ArmorClassKind::Magic(ArmorTypes::Boots)) => vec![(OptionList::Class1, 0usize), (OptionList::Class1, 1usize), (OptionList::Class1, 2usize), (OptionList::Class1, 3usize), (OptionList::Class1, 4usize), (OptionList::Class1, 7usize), (OptionList::Class1, 9usize), (OptionList::Class1, 10usize)],
    };
    assert(v@.map_values(|p: (OptionList, usize)| (p.0, p.1 as int)) =~= option_picks(st));
    v
}

/// The position of the first class list of `c`.
pub fn class_lists_of(c: &ClassSet) -> (r: Option<usize>)
    ensures
        match r {
            Some(p) => class_lists(c@) == Some(p as int),
            None => class_lists(c@) is None,
        },
{
    if c.is_only(GameClass::Berserker) {
        Some(4)
    } else if c.is_only(GameClass::Guardian) {
        Some(6)
    } else if c.is_pair(GameClass::Magician, GameClass::Wizard) {
        Some(12)
    } else if c.is_only(GameClass::Trickster) {
        Some(16)
    } else if c.is_only(GameClass::Assassin) {
        Some(8)
    } else if c.is_only(GameClass::Priest) {
        Some(10)
    } else if c.is_only(GameClass::Ranger) {
        Some(14)
    } else {
        None
    }
}

/// Whether the picks of a sub-type use the class lists.
pub fn uses_class_lists(st: ItemSubType) -> (b: bool)
    ensures
        b == needs_class_lists(st),
{
    match st {
        ItemSubType::Necklage | ItemSubType::Ring | ItemSubType::Lance | ItemSubType::Crossbow => false,
        _ => true,
    }
}

impl GameClass {
    /// The ranged effects an item of sub-type code `item_sub_type`, worn by
    /// `usable_class`, can roll with the options `option`.
    pub fn check_item_option(option: &ItemOption, usable_class: &ClassSet, item_sub_type: &str) -> (r: Option<
        Vec<ItemMinMaxEffect>,
    >)
        ensures
            match r {
                Some(v) => spec_check_item_option(*option, usable_class@, item_sub_type@) == Some(min_max_view(v@)),
                None => spec_check_item_option(*option, usable_class@, item_sub_type@) is None,
            },
    {
        let st = match ItemSubType::try_from(item_sub_type) {
            Ok(t) => t,
            Err(_) => return None,
        };
        let pair = class_lists_of(usable_class);
        if uses_class_lists(st) && pair.is_none() {
            return None;
        }
        let ghost gp = match pair {
            Some(p) => Some(p as int),
            None => None::<int>,
        };
        let picks = picks_for(st);
        let ghost ps = option_picks(st);
        let none: Vec<ItemMinMaxEffect> = Vec::new();
        assert(min_max_view(none@) =~= Seq::<MinMaxView>::empty());
        let mut out: Vec<ItemMinMaxEffect> = Vec::new();
        let mut k: usize = 0;
        while k < picks.len()
            invariant
                k <= picks@.len(),
                picks@.map_values(|p: (OptionList, usize)| (p.0, p.1 as int)) == ps,
                gp == class_lists(usable_class@),
                pair is Some ==> pair->0 == 4 || pair->0 == 6 || pair->0 == 8 || pair->0 == 10 || pair->0 == 12
                    || pair->0 == 14 || pair->0 == 16,
                none@.len() == 0,
                gp == match pair {
                    Some(p) => Some(p as int),
                    None => None::<int>,
                },
                min_max_view(out@) == picked(*option, gp, ps.take(k as int)),
            decreases picks@.len() - k,
        {
            let (l, i) = picks[k];
            assert(ps[k as int] == (l, i as int));
            let list = match l {
                OptionList::Common1 => option.list_ref(1),
                OptionList::Common2 => option.list_ref(2),
                OptionList::Class1 => match pair {
                    Some(p) => option.list_ref(p),
                    None => &none,
                },
                OptionList::Class2 => match pair {
                    Some(p) => option.list_ref(p + 1),
                    None => &none,
                },
            };
            assert(min_max_view(list@) == list_of(*option, gp, l));
            assert(ps.take(k + 1).drop_last() =~= ps.take(k as int));
            if i < list.len() {
                let ghost before = out@;
                out.push(list[i].duplicate());
                assert(min_max_view(out@) =~= min_max_view(before).push(min_max_view(list@)[i as int]));
            }
            k = k + 1;
        }
        assert(ps.take(k as int) =~= ps);
        if out.len() == 0 {
            None
        } else {
            Some(out)
        }
    }
}

} // verus!

verus! {

/// Every effect picked for an item is one of the option's lists' effects,
/// and no more are picked than there are picks.
pub proof fn law_picked_from_lists(o: ItemOption, pair: Option<int>, ps: Seq<(OptionList, int)>)
    ensures
        picked(o, pair, ps).len() <= ps.len(),
        forall|i: int| 0 <= i < picked(o, pair, ps).len() ==> exists|k: int|
            0 <= k < ps.len() && list_of(o, pair, ps[k].0).contains(#[trigger] picked(o, pair, ps)[i]),
    decreases ps.len(),
{
    if ps.len() > 0 {
        let q = ps.drop_last();
        law_picked_from_lists(o, pair, q);
        let p = picked(o, pair, q);
        let l = list_of(o, pair, ps.last().0);
        let j = ps.last().1;
        assert forall|i: int| 0 <= i < picked(o, pair, ps).len() implies exists|k: int|
            0 <= k < ps.len() && list_of(o, pair, ps[k].0).contains(#[trigger] picked(o, pair, ps)[i]) by {
            if i < p.len() {
                assert(picked(o, pair, ps)[i] == p[i]);
                let k = choose|k: int| 0 <= k < q.len() && list_of(o, pair, q[k].0).contains(p[i]);
                assert(ps[k] == q[k]);
            } else {
                assert(0 <= j < l.len());
                assert(picked(o, pair, ps)[i] == l[j]);
                assert(l.contains(l[j]));
                assert(ps[ps.len() - 1] == ps.last());
            }
        }
    }
}

} // verus!

verus! {

/// The two-letter codes the sub-type codes of the data files are compared
/// against, and the armor families, spelled out.
proof fn lemma_code_letters()
    ensures
        "ne"@ == seq!['n', 'e'],
        "ri"@ == seq!['r', 'i'],
        "d1"@ == seq!['d', '1'],
        "s1"@ == seq!['s', '1'],
        "s2"@ == seq!['s', '2'],
        "m1"@ == seq!['m', '1'],
        "m2"@ == seq!['m', '2'],
        "l2"@ == seq!['l', '2'],
        "c2"@ == seq!['c', '2'],
        "b1"@ == seq!['b', '1'],
        "w1"@ == seq!['w', '1'],
        "sd"@ == seq!['s', 'd'],
        "at"@ == seq!['a', 't'],
        "ga"@ == seq!['g', 'a'],
        "tb"@ == seq!['t', 'b'],
        "ha"@ == seq!['h', 'a'],
        "sh"@ == seq!['s', 'h'],
        "ja"@ == seq!['j', 'a'],
        "gl"@ == seq!['g', 'l'],
        "bo"@ == seq!['b', 'o'],
        "pl"@ == seq!['p', 'l'],
        "ch"@ == seq!['c', 'h'],
        "le"@ == seq!['l', 'e'],
        "cl"@ == seq!['c', 'l'],
        "pl_"@ == seq!['p', 'l', '_'],
        "ch_"@ == seq!['c', 'h', '_'],
        "le_"@ == seq!['l', 'e', '_'],
        "cl_"@ == seq!['c', 'l', '_'],
        "pl_ha"@ == seq!['p', 'l', '_', 'h', 'a'],
        "pl_sh"@ == seq!['p', 'l', '_', 's', 'h'],
        "pl_ja"@ == seq!['p', 'l', '_', 'j', 'a'],
        "pl_gl"@ == seq!['p', 'l', '_', 'g', 'l'],
        "pl_bo"@ == seq!['p', 'l', '_', 'b', 'o'],
        "ch_ha"@ == seq!['c', 'h', '_', 'h', 'a'],
        "ch_sh"@ == seq!['c', 'h', '_', 's', 'h'],
        "ch_ja"@ == seq!['c', 'h', '_', 'j', 'a'],
        "ch_gl"@ == seq!['c', 'h', '_', 'g', 'l'],
        "ch_bo"@ == seq!['c', 'h', '_', 'b', 'o'],
        "le_ha"@ == seq!['l', 'e', '_', 'h', 'a'],
        "le_sh"@ == seq!['l', 'e', '_', 's', 'h'],
        "le_ja"@ == seq!['l', 'e', '_', 'j', 'a'],
        "le_gl"@ == seq!['l', 'e', '_', 'g', 'l'],
        "le_bo"@ == seq!['l', 'e', '_', 'b', 'o'],
        "cl_ha"@ == seq!['c', 'l', '_', 'h', 'a'],
        "cl_sh"@ == seq!['c', 'l', '_', 's', 'h'],
        "cl_ja"@ == seq!['c', 'l', '_', 'j', 'a'],
        "cl_gl"@ == seq!['c', 'l', '_', 'g', 'l'],
        "cl_bo"@ == seq!['c', 'l', '_', 'b', 'o'],
{
    reveal_strlit("ne");
    reveal_strlit("ri");
    reveal_strlit("d1");
    reveal_strlit("s1");
    reveal_strlit("s2");
    reveal_strlit("m1");
    reveal_strlit("m2");
    reveal_strlit("l2");
    reveal_strlit("c2");
    reveal_strlit("b1");
    reveal_strlit("w1");
    reveal_strlit("sd");
    reveal_strlit("at");
    reveal_strlit("ga");
    reveal_strlit("tb");
    reveal_strlit("ha");
    reveal_strlit("sh");
    reveal_strlit("ja");
    reveal_strlit("gl");
    reveal_strlit("bo");
    reveal_strlit("pl");
    reveal_strlit("ch");
    reveal_strlit("le");
    reveal_strlit("cl");
    reveal_strlit("pl_");
    reveal_strlit("ch_");
    reveal_strlit("le_");
    reveal_strlit("cl_");
    reveal_strlit("pl_ha");
    reveal_strlit("pl_sh");
    reveal_strlit("pl_ja");
    reveal_strlit("pl_gl");
    reveal_strlit("pl_bo");
    reveal_strlit("ch_ha");
    reveal_strlit("ch_sh");
    reveal_strlit("ch_ja");
    reveal_strlit("ch_gl");
    reveal_strlit("ch_bo");
    reveal_strlit("le_ha");
    reveal_strlit("le_sh");
    reveal_strlit("le_ja");
    reveal_strlit("le_gl");
    reveal_strlit("le_bo");
    reveal_strlit("cl_ha");
    reveal_strlit("cl_sh");
    reveal_strlit("cl_ja");
    reveal_strlit("cl_gl");
    reveal_strlit("cl_bo");
}

/// The sub-type of an armor code: family `f` (written with its underscore
/// as `fu`) and slot `x`.
proof fn lemma_armor_code(fu: Seq<char>, f: Seq<char>, x: Seq<char>)
    requires
        spec_armor_slot(x) is Some,
        fu.len() == 3,
        fu[2] == '_',
        fu.take(2) == f,
    ensures
        spec_sub_type(fu + x) == if f == "pl"@ || f == "ch"@ {
            Some(ItemSubType::Armor(ArmorClassKind::Physical(spec_armor_slot(x)->0)))
        } else if f == "le"@ || f == "cl"@ {
            Some(ItemSubType::Armor(ArmorClassKind::Magic(spec_armor_slot(x)->0)))
        } else {
            None
        },
{
    lemma_code_letters();
    let s = fu + x;
    assert(x.len() == 2);
    assert(s.len() == 5);
    assert(s[2] == '_');
    assert(s.skip(3) =~= x);
    assert(s.take(2) =~= f);
}

/// Codes that name sub-types with the same picks roll the same effects: the
/// physical armor families "pl" and "ch", and the magic ones "le" and "cl",
/// for each slot; the swords "s1" and "s2"; the casters' and archers'
/// weapons "m1", "m2", "b1" and "w1"; and the crest "at" and teddy bear
/// "tb".
pub proof fn law_same_picks_same_effects(o: ItemOption, c: Set<GameClass>, x: Seq<char>)
    ensures
        spec_armor_slot(x) is Some ==> spec_check_item_option(o, c, "pl_"@ + x) == spec_check_item_option(
            o,
            c,
            "ch_"@ + x,
        ),
        spec_armor_slot(x) is Some ==> spec_check_item_option(o, c, "le_"@ + x) == spec_check_item_option(
            o,
            c,
            "cl_"@ + x,
        ),
        spec_check_item_option(o, c, "s1"@) == spec_check_item_option(o, c, "s2"@),
        spec_check_item_option(o, c, "m1"@) == spec_check_item_option(o, c, "m2"@),
        spec_check_item_option(o, c, "m2"@) == spec_check_item_option(o, c, "b1"@),
        spec_check_item_option(o, c, "b1"@) == spec_check_item_option(o, c, "w1"@),
        spec_check_item_option(o, c, "at"@) == spec_check_item_option(o, c, "tb"@),
{
    lemma_code_letters();
    if spec_armor_slot(x) is Some {
        assert("pl_"@.take(2) =~= "pl"@);
        lemma_armor_code("pl_"@, "pl"@, x);
        assert("ch_"@.take(2) =~= "ch"@);
        lemma_armor_code("ch_"@, "ch"@, x);
        assert("le_"@.take(2) =~= "le"@);
        lemma_armor_code("le_"@, "le"@, x);
        assert("cl_"@.take(2) =~= "cl"@);
        lemma_armor_code("cl_"@, "cl"@, x);
    }
}

} // verus!

verus! {

/// When every pick finds its list long enough, the picked effects are the
/// picked positions of those lists, one per pick, in order.
proof fn lemma_picked_all(o: ItemOption, pair: Option<int>, ps: Seq<(OptionList, int)>)
    requires
        forall|k: int| 0 <= k < ps.len() ==> 0 <= #[trigger] ps[k].1 < list_of(o, pair, ps[k].0).len(),
    ensures
        picked(o, pair, ps) == Seq::new(ps.len(), |k: int| list_of(o, pair, ps[k].0)[ps[k].1]),
    decreases ps.len(),
{
    if ps.len() > 0 {
        let q = ps.drop_last();
        assert forall|k: int| 0 <= k < q.len() implies 0 <= #[trigger] q[k].1 < list_of(o, pair, q[k].0).len() by {
            assert(q[k] == ps[k]);
        }
        lemma_picked_all(o, pair, q);
        assert(0 <= ps[ps.len() - 1].1 < list_of(o, pair, ps[ps.len() - 1].0).len());
        assert(picked(o, pair, ps) =~= Seq::new(ps.len(), |k: int| list_of(o, pair, ps[k].0)[ps[k].1]));
    }
}

/// The class lists a wearer picks from: a Berserker alone the WR lists, a
/// Guardian alone the GD lists, a Magician with a Wizard the WZ lists, a
/// Trickster alone the DO lists, an Assassin alone the TF lists, a Priest
/// alone the PR lists, a Ranger alone the AC lists; no class, or two classes
/// other than Magician with Wizard, have none.
pub proof fn law_class_lists(o: ItemOption, a: GameClass, b: GameClass)
    ensures
        class_lists(set![GameClass::Berserker]) matches Some(p) && o.list(p) == min_max_view(o.wr_effect1@) && o.list(
            p + 1,
        ) == min_max_view(o.wr_effect2@),
        class_lists(set![GameClass::Guardian]) matches Some(p) && o.list(p) == min_max_view(o.gd_effect1@) && o.list(
            p + 1,
        ) == min_max_view(o.gd_effect2@),
        class_lists(set![GameClass::Magician, GameClass::Wizard]) matches Some(p) && o.list(p) == min_max_view(
            o.wz_effect1@,
        ) && o.list(p + 1) == min_max_view(o.wz_effect2@),
        class_lists(set![GameClass::Trickster]) matches Some(p) && o.list(p) == min_max_view(o.do_effect1@) && o.list(
            p + 1,
        ) == min_max_view(o.do_effect2@),
        class_lists(set![GameClass::Assassin]) matches Some(p) && o.list(p) == min_max_view(o.tf_effect1@) && o.list(
            p + 1,
        ) == min_max_view(o.tf_effect2@),
        class_lists(set![GameClass::Priest]) matches Some(p) && o.list(p) == min_max_view(o.pr_effect1@) && o.list(
            p + 1,
        ) == min_max_view(o.pr_effect2@),
        class_lists(set![GameClass::Ranger]) matches Some(p) && o.list(p) == min_max_view(o.ac_effect1@) && o.list(
            p + 1,
        ) == min_max_view(o.ac_effect2@),
        class_lists(Set::<GameClass>::empty()) is None,
        a != b && set![a, b] != set![GameClass::Magician, GameClass::Wizard] ==> class_lists(set![a, b]) is None,
{
    let two = set![a, b];
    assert(two.contains(a) && two.contains(b));
    assert(set![GameClass::Berserker].contains(GameClass::Berserker));
    assert(set![GameClass::Guardian].contains(GameClass::Guardian));
    assert(set![GameClass::Trickster].contains(GameClass::Trickster));
    assert(set![GameClass::Assassin].contains(GameClass::Assassin));
    assert(set![GameClass::Priest].contains(GameClass::Priest));
    assert(set![GameClass::Ranger].contains(GameClass::Ranger));
    assert(set![GameClass::Magician, GameClass::Wizard].contains(GameClass::Magician));
    assert(set![GameClass::Berserker] != set![GameClass::Guardian]);
    assert(set![GameClass::Berserker] != set![GameClass::Magician, GameClass::Wizard]);
    assert(set![GameClass::Guardian] != set![GameClass::Magician, GameClass::Wizard]);
}

/// The sub-types whose picks use the class lists give nothing to a wearer
/// without class lists; those that use only the common lists give the same
/// to every wearer.
pub proof fn law_class_lists_needed(o: ItemOption, c: Set<GameClass>, d: Set<GameClass>, code: Seq<char>)
    ensures
        spec_sub_type(code) matches Some(st) && class_lists(c) is None && !(st == ItemSubType::Necklage || st
            == ItemSubType::Ring || st == ItemSubType::Lance || st == ItemSubType::Crossbow) ==> spec_check_item_option(
            o,
            c,
            code,
        ) is None,
        spec_sub_type(code) matches Some(st) && (st == ItemSubType::Necklage || st == ItemSubType::Ring || st
            == ItemSubType::Lance || st == ItemSubType::Crossbow) ==> spec_check_item_option(o, c, code)
            == spec_check_item_option(o, d, code),
{
    if let Some(st) = spec_sub_type(code) {
        if st == ItemSubType::Necklage || st == ItemSubType::Ring || st == ItemSubType::Lance || st
            == ItemSubType::Crossbow {
            let ps = option_picks(st);
            assert forall|k: int| 0 <= k < ps.len() implies #[trigger] ps[k].0 == OptionList::Common1 || ps[k].0
                == OptionList::Common2 by {
            }
            lemma_picks_common(o, class_lists(c), class_lists(d), ps);
        }
    }
}

/// Picks from the common lists alone find the same, whatever the class lists.
proof fn lemma_picks_common(o: ItemOption, p: Option<int>, q: Option<int>, ps: Seq<(OptionList, int)>)
    requires
        forall|k: int| 0 <= k < ps.len() ==> #[trigger] ps[k].0 == OptionList::Common1 || ps[k].0
            == OptionList::Common2,
    ensures
        picked(o, p, ps) == picked(o, q, ps),
    decreases ps.len(),
{
    if ps.len() > 0 {
        let r = ps.drop_last();
        assert forall|k: int| 0 <= k < r.len() implies #[trigger] r[k].0 == OptionList::Common1 || r[k].0
            == OptionList::Common2 by {
            assert(r[k] == ps[k]);
        }
        lemma_picks_common(o, p, q, r);
        assert(ps[ps.len() - 1] == ps.last());
    }
}

/// A necklace, code "ne", rolls in this order: the second common list at 0, the
/// second common list at 1, the second common list at 9, the first common list
/// at 0, the first common list at 4, the second common list at 4, the second
/// common list at 10, the second common list at 3, the second common list at 2,
/// the second common list at 5. Only the common lists count, whatever the
/// class; each is taken long enough.
pub proof fn law_necklace_picks(o: ItemOption, c: Set<GameClass>)
    requires
        o.effect1@.len() >= 12,
        o.effect2@.len() >= 11,
    ensures
        spec_check_item_option(o, c, "ne"@) == Some(
            seq![min_max_view(o.effect2@)[0], min_max_view(o.effect2@)[1], min_max_view(o.effect2@)[9], min_max_view(o.effect1@)[0], min_max_view(o.effect1@)[4], min_max_view(o.effect2@)[4], min_max_view(o.effect2@)[10], min_max_view(o.effect2@)[3], min_max_view(o.effect2@)[2], min_max_view(o.effect2@)[5]],
        ),
{
    lemma_code_letters();
    let pair = class_lists(c);
    assert(spec_sub_type("ne"@) == Some(ItemSubType::Necklage));
    let ps = option_picks(ItemSubType::Necklage);
    assert forall|k: int| 0 <= k < ps.len() implies 0 <= #[trigger] ps[k].1 < list_of(o, pair, ps[k].0).len() by {
    }
    lemma_picked_all(o, pair, ps);
    assert(picked(o, pair, ps) =~= seq![min_max_view(o.effect2@)[0], min_max_view(o.effect2@)[1], min_max_view(o.effect2@)[9], min_max_view(o.effect1@)[0], min_max_view(o.effect1@)[4], min_max_view(o.effect2@)[4], min_max_view(o.effect2@)[10], min_max_view(o.effect2@)[3], min_max_view(o.effect2@)[2], min_max_view(o.effect2@)[5]]);
}

/// A ring, code "ri", rolls in this order: the first common list at 10, the
/// first common list at 1, the first common list at 3, the first common list at
/// 7, the first common list at 11, the second common list at 6, the second
/// common list at 8, the first common list at 9, the second common list at 7,
/// the first common list at 8. Only the common lists count, whatever the class;
/// each is taken long enough.
pub proof fn law_ring_picks(o: ItemOption, c: Set<GameClass>)
    requires
        o.effect1@.len() >= 12,
        o.effect2@.len() >= 11,
    ensures
        spec_check_item_option(o, c, "ri"@) == Some(
            seq![min_max_view(o.effect1@)[10], min_max_view(o.effect1@)[1], min_max_view(o.effect1@)[3], min_max_view(o.effect1@)[7], min_max_view(o.effect1@)[11], min_max_view(o.effect2@)[6], min_max_view(o.effect2@)[8], min_max_view(o.effect1@)[9], min_max_view(o.effect2@)[7], min_max_view(o.effect1@)[8]],
        ),
{
    lemma_code_letters();
    let pair = class_lists(c);
    assert(spec_sub_type("ri"@) == Some(ItemSubType::Ring));
    let ps = option_picks(ItemSubType::Ring);
    assert forall|k: int| 0 <= k < ps.len() implies 0 <= #[trigger] ps[k].1 < list_of(o, pair, ps[k].0).len() by {
    }
    lemma_picked_all(o, pair, ps);
    assert(picked(o, pair, ps) =~= seq![min_max_view(o.effect1@)[10], min_max_view(o.effect1@)[1], min_max_view(o.effect1@)[3], min_max_view(o.effect1@)[7], min_max_view(o.effect1@)[11], min_max_view(o.effect2@)[6], min_max_view(o.effect2@)[8], min_max_view(o.effect1@)[9], min_max_view(o.effect2@)[7], min_max_view(o.effect1@)[8]]);
}

/// A dagger, code "d1", rolls in this order: the class's first list at 0, the
/// class's first list at 1, the class's first list at 2, the class's second
/// list at 0, the class's second list at 1, the class's first list at 5. It
/// needs the wearer to have class lists; each list is taken long enough.
pub proof fn law_dagger_picks(o: ItemOption, c: Set<GameClass>, p: int)
    requires
        class_lists(c) == Some(p),
        o.list(p).len() >= 12,
        o.list(p + 1).len() >= 11,
    ensures
        spec_check_item_option(o, c, "d1"@) == Some(
            seq![o.list(p)[0], o.list(p)[1], o.list(p)[2], o.list(p + 1)[0], o.list(p + 1)[1], o.list(p)[5]],
        ),
{
    lemma_code_letters();
    let pair = class_lists(c);
    assert(spec_sub_type("d1"@) == Some(ItemSubType::Dagger));
    let ps = option_picks(ItemSubType::Dagger);
    assert forall|k: int| 0 <= k < ps.len() implies 0 <= #[trigger] ps[k].1 < list_of(o, pair, ps[k].0).len() by {
    }
    lemma_picked_all(o, pair, ps);
    assert(picked(o, pair, ps) =~= seq![o.list(p)[0], o.list(p)[1], o.list(p)[2], o.list(p + 1)[0], o.list(p + 1)[1], o.list(p)[5]]);
}

/// A sword or greatsword, code "s1" and "s2", rolls in this order: the class's
/// first list at 0, the class's first list at 2, the class's second list at 0,
/// the class's second list at 1, the class's first list at 5. It needs the
/// wearer to have class lists; each list is taken long enough.
pub proof fn law_sword_greatsword_picks(o: ItemOption, c: Set<GameClass>, p: int)
    requires
        class_lists(c) == Some(p),
        o.list(p).len() >= 12,
        o.list(p + 1).len() >= 11,
    ensures
        spec_check_item_option(o, c, "s1"@) == Some(
            seq![o.list(p)[0], o.list(p)[2], o.list(p + 1)[0], o.list(p + 1)[1], o.list(p)[5]],
        ),
        spec_check_item_option(o, c, "s2"@) == Some(
            seq![o.list(p)[0], o.list(p)[2], o.list(p + 1)[0], o.list(p + 1)[1], o.list(p)[5]],
        ),
{
    lemma_code_letters();
    let pair = class_lists(c);
    assert(spec_sub_type("s1"@) == Some(ItemSubType::Sword));
    assert(spec_sub_type("s2"@) == Some(ItemSubType::Greatsword));
    let ps = option_picks(ItemSubType::Sword);
    assert forall|k: int| 0 <= k < ps.len() implies 0 <= #[trigger] ps[k].1 < list_of(o, pair, ps[k].0).len() by {
    }
    lemma_picked_all(o, pair, ps);
    assert(picked(o, pair, ps) =~= seq![o.list(p)[0], o.list(p)[2], o.list(p + 1)[0], o.list(p + 1)[1], o.list(p)[5]]);
    assert(option_picks(ItemSubType::Greatsword) == ps);
}

/// A lance, code "l2", rolls in this order: the first common list at 0, the
/// first common list at 1, the first common list at 2, the first common list at
/// 3, the first common list at 4, the second common list at 0, the second
/// common list at 1, the first common list at 5, the second common list at 10,
/// the first common list at 6, the second common list at 2, the second common
/// list at 3. Only the common lists count, whatever the class; each is taken
/// long enough.
pub proof fn law_lance_picks(o: ItemOption, c: Set<GameClass>)
    requires
        o.effect1@.len() >= 12,
        o.effect2@.len() >= 11,
    ensures
        spec_check_item_option(o, c, "l2"@) == Some(
            seq![min_max_view(o.effect1@)[0], min_max_view(o.effect1@)[1], min_max_view(o.effect1@)[2], min_max_view(o.effect1@)[3], min_max_view(o.effect1@)[4], min_max_view(o.effect2@)[0], min_max_view(o.effect2@)[1], min_max_view(o.effect1@)[5], min_max_view(o.effect2@)[10], min_max_view(o.effect1@)[6], min_max_view(o.effect2@)[2], min_max_view(o.effect2@)[3]],
        ),
{
    lemma_code_letters();
    let pair = class_lists(c);
    assert(spec_sub_type("l2"@) == Some(ItemSubType::Lance));
    let ps = option_picks(ItemSubType::Lance);
    assert forall|k: int| 0 <= k < ps.len() implies 0 <= #[trigger] ps[k].1 < list_of(o, pair, ps[k].0).len() by {
    }
    lemma_picked_all(o, pair, ps);
    assert(picked(o, pair, ps) =~= seq![min_max_view(o.effect1@)[0], min_max_view(o.effect1@)[1], min_max_view(o.effect1@)[2], min_max_view(o.effect1@)[3], min_max_view(o.effect1@)[4], min_max_view(o.effect2@)[0], min_max_view(o.effect2@)[1], min_max_view(o.effect1@)[5], min_max_view(o.effect2@)[10], min_max_view(o.effect1@)[6], min_max_view(o.effect2@)[2], min_max_view(o.effect2@)[3]]);
}

/// A crossbow, code "c2", rolls in this order: the first common list at 0, the
/// first common list at 1, the first common list at 2, the first common list at
/// 3, the first common list at 4, the second common list at 0, the second
/// common list at 1, the first common list at 5, the first common list at 11,
/// the first common list at 6, the second common list at 2, the second common
/// list at 3. Only the common lists count, whatever the class; each is taken
/// long enough.
pub proof fn law_crossbow_picks(o: ItemOption, c: Set<GameClass>)
    requires
        o.effect1@.len() >= 12,
        o.effect2@.len() >= 11,
    ensures
        spec_check_item_option(o, c, "c2"@) == Some(
            seq![min_max_view(o.effect1@)[0], min_max_view(o.effect1@)[1], min_max_view(o.effect1@)[2], min_max_view(o.effect1@)[3], min_max_view(o.effect1@)[4], min_max_view(o.effect2@)[0], min_max_view(o.effect2@)[1], min_max_view(o.effect1@)[5], min_max_view(o.effect1@)[11], min_max_view(o.effect1@)[6], min_max_view(o.effect2@)[2], min_max_view(o.effect2@)[3]],
        ),
{
    lemma_code_letters();
    let pair = class_lists(c);
    assert(spec_sub_type("c2"@) == Some(ItemSubType::Crossbow));
    let ps = option_picks(ItemSubType::Crossbow);
    assert forall|k: int| 0 <= k < ps.len() implies 0 <= #[trigger] ps[k].1 < list_of(o, pair, ps[k].0).len() by {
    }
    lemma_picked_all(o, pair, ps);
    assert(picked(o, pair, ps) =~= seq![min_max_view(o.effect1@)[0], min_max_view(o.effect1@)[1], min_max_view(o.effect1@)[2], min_max_view(o.effect1@)[3], min_max_view(o.effect1@)[4], min_max_view(o.effect2@)[0], min_max_view(o.effect2@)[1], min_max_view(o.effect1@)[5], min_max_view(o.effect1@)[11], min_max_view(o.effect1@)[6], min_max_view(o.effect2@)[2], min_max_view(o.effect2@)[3]]);
}

/// A scepter or bow or staff or wand, code "m1" and "b1" and "m2" and "w1",
/// rolls in this order: the class's first list at 2, the class's first list at
/// 3, the class's first list at 4, the class's second list at 2, the class's
/// second list at 3, the class's first list at 6. It needs the wearer to have
/// class lists; each list is taken long enough.
pub proof fn law_scepter_bow_staff_wand_picks(o: ItemOption, c: Set<GameClass>, p: int)
    requires
        class_lists(c) == Some(p),
        o.list(p).len() >= 12,
        o.list(p + 1).len() >= 11,
    ensures
        spec_check_item_option(o, c, "m1"@) == Some(
            seq![o.list(p)[2], o.list(p)[3], o.list(p)[4], o.list(p + 1)[2], o.list(p + 1)[3], o.list(p)[6]],
        ),
        spec_check_item_option(o, c, "b1"@) == Some(
            seq![o.list(p)[2], o.list(p)[3], o.list(p)[4], o.list(p + 1)[2], o.list(p + 1)[3], o.list(p)[6]],
        ),
        spec_check_item_option(o, c, "m2"@) == Some(
            seq![o.list(p)[2], o.list(p)[3], o.list(p)[4], o.list(p + 1)[2], o.list(p + 1)[3], o.list(p)[6]],
        ),
        spec_check_item_option(o, c, "w1"@) == Some(
            seq![o.list(p)[2], o.list(p)[3], o.list(p)[4], o.list(p + 1)[2], o.list(p + 1)[3], o.list(p)[6]],
        ),
{
    lemma_code_letters();
    let pair = class_lists(c);
    assert(spec_sub_type("m1"@) == Some(ItemSubType::Scepter));
    assert(spec_sub_type("b1"@) == Some(ItemSubType::Bow));
    assert(spec_sub_type("m2"@) == Some(ItemSubType::Staff));
    assert(spec_sub_type("w1"@) == Some(ItemSubType::Wand));
    let ps = option_picks(ItemSubType::Scepter);
    assert forall|k: int| 0 <= k < ps.len() implies 0 <= #[trigger] ps[k].1 < list_of(o, pair, ps[k].0).len() by {
    }
    lemma_picked_all(o, pair, ps);
    assert(picked(o, pair, ps) =~= seq![o.list(p)[2], o.list(p)[3], o.list(p)[4], o.list(p + 1)[2], o.list(p + 1)[3], o.list(p)[6]]);
    assert(option_picks(ItemSubType::Bow) == ps);
    assert(option_picks(ItemSubType::Staff) == ps);
    assert(option_picks(ItemSubType::Wand) == ps);
}

/// A shield, code "sd", rolls in this order: the class's first list at 0, the
/// class's first list at 2, the class's first list at 9, the class's second
/// list at 6, the class's second list at 9, the class's first list at 8. It
/// needs the wearer to have class lists; each list is taken long enough.
pub proof fn law_shield_picks(o: ItemOption, c: Set<GameClass>, p: int)
    requires
        class_lists(c) == Some(p),
        o.list(p).len() >= 12,
        o.list(p + 1).len() >= 11,
    ensures
        spec_check_item_option(o, c, "sd"@) == Some(
            seq![o.list(p)[0], o.list(p)[2], o.list(p)[9], o.list(p + 1)[6], o.list(p + 1)[9], o.list(p)[8]],
        ),
{
    lemma_code_letters();
    let pair = class_lists(c);
    assert(spec_sub_type("sd"@) == Some(ItemSubType::Shield));
    let ps = option_picks(ItemSubType::Shield);
    assert forall|k: int| 0 <= k < ps.len() implies 0 <= #[trigger] ps[k].1 < list_of(o, pair, ps[k].0).len() by {
    }
    lemma_picked_all(o, pair, ps);
    assert(picked(o, pair, ps) =~= seq![o.list(p)[0], o.list(p)[2], o.list(p)[9], o.list(p + 1)[6], o.list(p + 1)[9], o.list(p)[8]]);
}

/// A vambrace, code "ga", rolls in this order: the class's first list at 2, the
/// class's first list at 3, the class's first list at 4, the class's first list
/// at 8, the class's second list at 5, the class's second list at 9, the
/// class's first list at 10. It needs the wearer to have class lists; each list
/// is taken long enough.
pub proof fn law_vambrace_picks(o: ItemOption, c: Set<GameClass>, p: int)
    requires
        class_lists(c) == Some(p),
        o.list(p).len() >= 12,
        o.list(p + 1).len() >= 11,
    ensures
        spec_check_item_option(o, c, "ga"@) == Some(
            seq![o.list(p)[2], o.list(p)[3], o.list(p)[4], o.list(p)[8], o.list(p + 1)[5], o.list(p + 1)[9], o.list(p)[10]],
        ),
{
    lemma_code_letters();
    let pair = class_lists(c);
    assert(spec_sub_type("ga"@) == Some(ItemSubType::Vambrace));
    let ps = option_picks(ItemSubType::Vambrace);
    assert forall|k: int| 0 <= k < ps.len() implies 0 <= #[trigger] ps[k].1 < list_of(o, pair, ps[k].0).len() by {
    }
    lemma_picked_all(o, pair, ps);
    assert(picked(o, pair, ps) =~= seq![o.list(p)[2], o.list(p)[3], o.list(p)[4], o.list(p)[8], o.list(p + 1)[5], o.list(p + 1)[9], o.list(p)[10]]);
}

/// A teddy bear or crest, code "tb" and "at", rolls in this order: the class's
/// first list at 2, the class's first list at 3, the class's first list at 4,
/// the class's first list at 9, the class's second list at 5, the class's
/// second list at 8. It needs the wearer to have class lists; each list is
/// taken long enough.
pub proof fn law_teddy_bear_crest_picks(o: ItemOption, c: Set<GameClass>, p: int)
    requires
        class_lists(c) == Some(p),
        o.list(p).len() >= 12,
        o.list(p + 1).len() >= 11,
    ensures
        spec_check_item_option(o, c, "tb"@) == Some(
            seq![o.list(p)[2], o.list(p)[3], o.list(p)[4], o.list(p)[9], o.list(p + 1)[5], o.list(p + 1)[8]],
        ),
        spec_check_item_option(o, c, "at"@) == Some(
            seq![o.list(p)[2], o.list(p)[3], o.list(p)[4], o.list(p)[9], o.list(p + 1)[5], o.list(p + 1)[8]],
        ),
{
    lemma_code_letters();
    let pair = class_lists(c);
    assert(spec_sub_type("tb"@) == Some(ItemSubType::TeddyBear));
    assert(spec_sub_type("at"@) == Some(ItemSubType::Crest));
    let ps = option_picks(ItemSubType::TeddyBear);
    assert forall|k: int| 0 <= k < ps.len() implies 0 <= #[trigger] ps[k].1 < list_of(o, pair, ps[k].0).len() by {
    }
    lemma_picked_all(o, pair, ps);
    assert(picked(o, pair, ps) =~= seq![o.list(p)[2], o.list(p)[3], o.list(p)[4], o.list(p)[9], o.list(p + 1)[5], o.list(p + 1)[8]]);
    assert(option_picks(ItemSubType::Crest) == ps);
}

/// A physical helmet, code "pl_ha" and "ch_ha", rolls in this order: the
/// class's first list at 0, the class's first list at 1, the class's first list
/// at 2, the class's first list at 3, the class's first list at 4, the class's
/// first list at 7, the class's second list at 9, the class's first list at 9,
/// the class's first list at 8. It needs the wearer to have class lists; each
/// list is taken long enough.
pub proof fn law_physical_helmet_picks(o: ItemOption, c: Set<GameClass>, p: int)
    requires
        class_lists(c) == Some(p),
        o.list(p).len() >= 12,
        o.list(p + 1).len() >= 11,
    ensures
        spec_check_item_option(o, c, "pl_ha"@) == Some(
            seq![o.list(p)[0], o.list(p)[1], o.list(p)[2], o.list(p)[3], o.list(p)[4], o.list(p)[7], o.list(p + 1)[9], o.list(p)[9], o.list(p)[8]],
        ),
        spec_check_item_option(o, c, "ch_ha"@) == Some(
            seq![o.list(p)[0], o.list(p)[1], o.list(p)[2], o.list(p)[3], o.list(p)[4], o.list(p)[7], o.list(p + 1)[9], o.list(p)[9], o.list(p)[8]],
        ),
{
    lemma_code_letters();
    let pair = class_lists(c);
    assert("pl_"@.take(2) =~= "pl"@);
    lemma_armor_code("pl_"@, "pl"@, "ha"@);
    assert("pl_"@ + "ha"@ =~= "pl_ha"@);
    assert("ch_"@.take(2) =~= "ch"@);
    lemma_armor_code("ch_"@, "ch"@, "ha"@);
    assert("ch_"@ + "ha"@ =~= "ch_ha"@);
    let ps = option_picks(ItemSubType::Armor(ArmorClassKind::Physical(ArmorTypes::Helmet)));
    assert forall|k: int| 0 <= k < ps.len() implies 0 <= #[trigger] ps[k].1 < list_of(o, pair, ps[k].0).len() by {
    }
    lemma_picked_all(o, pair, ps);
    assert(picked(o, pair, ps) =~= seq![o.list(p)[0], o.list(p)[1], o.list(p)[2], o.list(p)[3], o.list(p)[4], o.list(p)[7], o.list(p + 1)[9], o.list(p)[9], o.list(p)[8]]);
}

/// A physical pauldron, code "pl_sh" and "ch_sh", rolls in this order: the
/// class's first list at 0, the class's first list at 1, the class's first list
/// at 2, the class's first list at 3, the class's first list at 4, the class's
/// first list at 7, the class's second list at 10, the class's first list at
/// 11, the class's first list at 8. It needs the wearer to have class lists;
/// each list is taken long enough.
pub proof fn law_physical_pauldron_picks(o: ItemOption, c: Set<GameClass>, p: int)
    requires
        class_lists(c) == Some(p),
        o.list(p).len() >= 12,
        o.list(p + 1).len() >= 11,
    ensures
        spec_check_item_option(o, c, "pl_sh"@) == Some(
            seq![o.list(p)[0], o.list(p)[1], o.list(p)[2], o.list(p)[3], o.list(p)[4], o.list(p)[7], o.list(p + 1)[10], o.list(p)[11], o.list(p)[8]],
        ),
        spec_check_item_option(o, c, "ch_sh"@) == Some(
            seq![o.list(p)[0], o.list(p)[1], o.list(p)[2], o.list(p)[3], o.list(p)[4], o.list(p)[7], o.list(p + 1)[10], o.list(p)[11], o.list(p)[8]],
        ),
{
    lemma_code_letters();
    let pair = class_lists(c);
    assert("pl_"@.take(2) =~= "pl"@);
    lemma_armor_code("pl_"@, "pl"@, "sh"@);
    assert("pl_"@ + "sh"@ =~= "pl_sh"@);
    assert("ch_"@.take(2) =~= "ch"@);
    lemma_armor_code("ch_"@, "ch"@, "sh"@);
    assert("ch_"@ + "sh"@ =~= "ch_sh"@);
    let ps = option_picks(ItemSubType::Armor(ArmorClassKind::Physical(ArmorTypes::Pauldron)));
    assert forall|k: int| 0 <= k < ps.len() implies 0 <= #[trigger] ps[k].1 < list_of(o, pair, ps[k].0).len() by {
    }
    lemma_picked_all(o, pair, ps);
    assert(picked(o, pair, ps) =~= seq![o.list(p)[0], o.list(p)[1], o.list(p)[2], o.list(p)[3], o.list(p)[4], o.list(p)[7], o.list(p + 1)[10], o.list(p)[11], o.list(p)[8]]);
}

/// A physical body armor, code "pl_ja" and "ch_ja", rolls in this order: the
/// class's first list at 0, the class's first list at 1, the class's first list
/// at 2, the class's first list at 3, the class's first list at 4, the class's
/// first list at 7, the class's first list at 9, the class's first list at 10,
/// the class's first list at 8. It needs the wearer to have class lists; each
/// list is taken long enough.
pub proof fn law_physical_armor_picks(o: ItemOption, c: Set<GameClass>, p: int)
    requires
        class_lists(c) == Some(p),
        o.list(p).len() >= 12,
        o.list(p + 1).len() >= 11,
    ensures
        spec_check_item_option(o, c, "pl_ja"@) == Some(
            seq![o.list(p)[0], o.list(p)[1], o.list(p)[2], o.list(p)[3], o.list(p)[4], o.list(p)[7], o.list(p)[9], o.list(p)[10], o.list(p)[8]],
        ),
        spec_check_item_option(o, c, "ch_ja"@) == Some(
            seq![o.list(p)[0], o.list(p)[1], o.list(p)[2], o.list(p)[3], o.list(p)[4], o.list(p)[7], o.list(p)[9], o.list(p)[10], o.list(p)[8]],
        ),
{
    lemma_code_letters();
    let pair = class_lists(c);
    assert("pl_"@.take(2) =~= "pl"@);
    lemma_armor_code("pl_"@, "pl"@, "ja"@);
    assert("pl_"@ + "ja"@ =~= "pl_ja"@);
    assert("ch_"@.take(2) =~= "ch"@);
    lemma_armor_code("ch_"@, "ch"@, "ja"@);
    assert("ch_"@ + "ja"@ =~= "ch_ja"@);
    let ps = option_picks(ItemSubType::Armor(ArmorClassKind::Physical(ArmorTypes::Armor)));
    assert forall|k: int| 0 <= k < ps.len() implies 0 <= #[trigger] ps[k].1 < list_of(o, pair, ps[k].0).len() by {
    }
    lemma_picked_all(o, pair, ps);
    assert(picked(o, pair, ps) =~= seq![o.list(p)[0], o.list(p)[1], o.list(p)[2], o.list(p)[3], o.list(p)[4], o.list(p)[7], o.list(p)[9], o.list(p)[10], o.list(p)[8]]);
}

/// A physical gloves, code "pl_gl" and "ch_gl", rolls in this order: the
/// class's first list at 0, the class's first list at 1, the class's first list
/// at 2, the class's first list at 3, the class's first list at 4, the class's
/// first list at 7, the class's second list at 1, the class's second list at 0,
/// the class's first list at 8. It needs the wearer to have class lists; each
/// list is taken long enough.
pub proof fn law_physical_gloves_picks(o: ItemOption, c: Set<GameClass>, p: int)
    requires
        class_lists(c) == Some(p),
        o.list(p).len() >= 12,
        o.list(p + 1).len() >= 11,
    ensures
        spec_check_item_option(o, c, "pl_gl"@) == Some(
            seq![o.list(p)[0], o.list(p)[1], o.list(p)[2], o.list(p)[3], o.list(p)[4], o.list(p)[7], o.list(p + 1)[1], o.list(p + 1)[0], o.list(p)[8]],
        ),
        spec_check_item_option(o, c, "ch_gl"@) == Some(
            seq![o.list(p)[0], o.list(p)[1], o.list(p)[2], o.list(p)[3], o.list(p)[4], o.list(p)[7], o.list(p + 1)[1], o.list(p + 1)[0], o.list(p)[8]],
        ),
{
    lemma_code_letters();
    let pair = class_lists(c);
    assert("pl_"@.take(2) =~= "pl"@);
    lemma_armor_code("pl_"@, "pl"@, "gl"@);
    assert("pl_"@ + "gl"@ =~= "pl_gl"@);
    assert("ch_"@.take(2) =~= "ch"@);
    lemma_armor_code("ch_"@, "ch"@, "gl"@);
    assert("ch_"@ + "gl"@ =~= "ch_gl"@);
    let ps = option_picks(ItemSubType::Armor(ArmorClassKind::Physical(ArmorTypes::Gloves)));
    assert forall|k: int| 0 <= k < ps.len() implies 0 <= #[trigger] ps[k].1 < list_of(o, pair, ps[k].0).len() by {
    }
    lemma_picked_all(o, pair, ps);
    assert(picked(o, pair, ps) =~= seq![o.list(p)[0], o.list(p)[1], o.list(p)[2], o.list(p)[3], o.list(p)[4], o.list(p)[7], o.list(p + 1)[1], o.list(p + 1)[0], o.list(p)[8]]);
}

/// A physical boots, code "pl_bo" and "ch_bo", rolls in this order: the class's
/// first list at 0, the class's first list at 1, the class's first list at 2,
/// the class's first list at 3, the class's first list at 4, the class's first
/// list at 7, the class's first list at 10, the class's first list at 8. It
/// needs the wearer to have class lists; each list is taken long enough.
pub proof fn law_physical_boots_picks(o: ItemOption, c: Set<GameClass>, p: int)
    requires
        class_lists(c) == Some(p),
        o.list(p).len() >= 12,
        o.list(p + 1).len() >= 11,
    ensures
        spec_check_item_option(o, c, "pl_bo"@) == Some(
            seq![o.list(p)[0], o.list(p)[1], o.list(p)[2], o.list(p)[3], o.list(p)[4], o.list(p)[7], o.list(p)[10], o.list(p)[8]],
        ),
        spec_check_item_option(o, c, "ch_bo"@) == Some(
            seq![o.list(p)[0], o.list(p)[1], o.list(p)[2], o.list(p)[3], o.list(p)[4], o.list(p)[7], o.list(p)[10], o.list(p)[8]],
        ),
{
    lemma_code_letters();
    let pair = class_lists(c);
    assert("pl_"@.take(2) =~= "pl"@);
    lemma_armor_code("pl_"@, "pl"@, "bo"@);
    assert("pl_"@ + "bo"@ =~= "pl_bo"@);
    assert("ch_"@.take(2) =~= "ch"@);
    lemma_armor_code("ch_"@, "ch"@, "bo"@);
    assert("ch_"@ + "bo"@ =~= "ch_bo"@);
    let ps = option_picks(ItemSubType::Armor(ArmorClassKind::Physical(ArmorTypes::Boots)));
    assert forall|k: int| 0 <= k < ps.len() implies 0 <= #[trigger] ps[k].1 < list_of(o, pair, ps[k].0).len() by {
    }
    lemma_picked_all(o, pair, ps);
    assert(picked(o, pair, ps) =~= seq![o.list(p)[0], o.list(p)[1], o.list(p)[2], o.list(p)[3], o.list(p)[4], o.list(p)[7], o.list(p)[10], o.list(p)[8]]);
}

/// A magic helmet, code "le_ha" and "cl_ha", rolls in this order: the class's
/// first list at 0, the class's first list at 1, the class's first list at 2,
/// the class's first list at 3, the class's first list at 4, the class's first
/// list at 7, the class's second list at 9, the class's first list at 8, the
/// class's first list at 10. It needs the wearer to have class lists; each list
/// is taken long enough.
pub proof fn law_magic_helmet_picks(o: ItemOption, c: Set<GameClass>, p: int)
    requires
        class_lists(c) == Some(p),
        o.list(p).len() >= 12,
        o.list(p + 1).len() >= 11,
    ensures
        spec_check_item_option(o, c, "le_ha"@) == Some(
            seq![o.list(p)[0], o.list(p)[1], o.list(p)[2], o.list(p)[3], o.list(p)[4], o.list(p)[7], o.list(p + 1)[9], o.list(p)[8], o.list(p)[10]],
        ),
        spec_check_item_option(o, c, "cl_ha"@) == Some(
            seq![o.list(p)[0], o.list(p)[1], o.list(p)[2], o.list(p)[3], o.list(p)[4], o.list(p)[7], o.list(p + 1)[9], o.list(p)[8], o.list(p)[10]],
        ),
{
    lemma_code_letters();
    let pair = class_lists(c);
    assert("le_"@.take(2) =~= "le"@);
    lemma_armor_code("le_"@, "le"@, "ha"@);
    assert("le_"@ + "ha"@ =~= "le_ha"@);
    assert("cl_"@.take(2) =~= "cl"@);
    lemma_armor_code("cl_"@, "cl"@, "ha"@);
    assert("cl_"@ + "ha"@ =~= "cl_ha"@);
    let ps = option_picks(ItemSubType::Armor(ArmorClassKind::Magic(ArmorTypes::Helmet)));
    assert forall|k: int| 0 <= k < ps.len() implies 0 <= #[trigger] ps[k].1 < list_of(o, pair, ps[k].0).len() by {
    }
    lemma_picked_all(o, pair, ps);
    assert(picked(o, pair, ps) =~= seq![o.list(p)[0], o.list(p)[1], o.list(p)[2], o.list(p)[3], o.list(p)[4], o.list(p)[7], o.list(p + 1)[9], o.list(p)[8], o.list(p)[10]]);
}

/// A magic pauldron, code "le_sh" and "cl_sh", rolls in this order: the class's
/// first list at 0, the class's first list at 1, the class's first list at 2,
/// the class's first list at 3, the class's first list at 4, the class's first
/// list at 7, the class's second list at 10, the class's first list at 11, the
/// class's first list at 10. It needs the wearer to have class lists; each list
/// is taken long enough.
pub proof fn law_magic_pauldron_picks(o: ItemOption, c: Set<GameClass>, p: int)
    requires
        class_lists(c) == Some(p),
        o.list(p).len() >= 12,
        o.list(p + 1).len() >= 11,
    ensures
        spec_check_item_option(o, c, "le_sh"@) == Some(
            seq![o.list(p)[0], o.list(p)[1], o.list(p)[2], o.list(p)[3], o.list(p)[4], o.list(p)[7], o.list(p + 1)[10], o.list(p)[11], o.list(p)[10]],
        ),
        spec_check_item_option(o, c, "cl_sh"@) == Some(
            seq![o.list(p)[0], o.list(p)[1], o.list(p)[2], o.list(p)[3], o.list(p)[4], o.list(p)[7], o.list(p + 1)[10], o.list(p)[11], o.list(p)[10]],
        ),
{
    lemma_code_letters();
    let pair = class_lists(c);
    assert("le_"@.take(2) =~= "le"@);
    lemma_armor_code("le_"@, "le"@, "sh"@);
    assert("le_"@ + "sh"@ =~= "le_sh"@);
    assert("cl_"@.take(2) =~= "cl"@);
    lemma_armor_code("cl_"@, "cl"@, "sh"@);
    assert("cl_"@ + "sh"@ =~= "cl_sh"@);
    let ps = option_picks(ItemSubType::Armor(ArmorClassKind::Magic(ArmorTypes::Pauldron)));
    assert forall|k: int| 0 <= k < ps.len() implies 0 <= #[trigger] ps[k].1 < list_of(o, pair, ps[k].0).len() by {
    }
    lemma_picked_all(o, pair, ps);
    assert(picked(o, pair, ps) =~= seq![o.list(p)[0], o.list(p)[1], o.list(p)[2], o.list(p)[3], o.list(p)[4], o.list(p)[7], o.list(p + 1)[10], o.list(p)[11], o.list(p)[10]]);
}

/// A magic body armor, code "le_ja" and "cl_ja", rolls in this order: the
/// class's first list at 0, the class's first list at 1, the class's first list
/// at 2, the class's first list at 3, the class's first list at 4, the class's
/// first list at 7, the class's first list at 8, the class's first list at 9,
/// the class's first list at 10. It needs the wearer to have class lists; each
/// list is taken long enough.
pub proof fn law_magic_armor_picks(o: ItemOption, c: Set<GameClass>, p: int)
    requires
        class_lists(c) == Some(p),
        o.list(p).len() >= 12,
        o.list(p + 1).len() >= 11,
    ensures
        spec_check_item_option(o, c, "le_ja"@) == Some(
            seq![o.list(p)[0], o.list(p)[1], o.list(p)[2], o.list(p)[3], o.list(p)[4], o.list(p)[7], o.list(p)[8], o.list(p)[9], o.list(p)[10]],
        ),
        spec_check_item_option(o, c, "cl_ja"@) == Some(
            seq![o.list(p)[0], o.list(p)[1], o.list(p)[2], o.list(p)[3], o.list(p)[4], o.list(p)[7], o.list(p)[8], o.list(p)[9], o.list(p)[10]],
        ),
{
    lemma_code_letters();
    let pair = class_lists(c);
    assert("le_"@.take(2) =~= "le"@);
    lemma_armor_code("le_"@, "le"@, "ja"@);
    assert("le_"@ + "ja"@ =~= "le_ja"@);
    assert("cl_"@.take(2) =~= "cl"@);
    lemma_armor_code("cl_"@, "cl"@, "ja"@);
    assert("cl_"@ + "ja"@ =~= "cl_ja"@);
    let ps = option_picks(ItemSubType::Armor(ArmorClassKind::Magic(ArmorTypes::Armor)));
    assert forall|k: int| 0 <= k < ps.len() implies 0 <= #[trigger] ps[k].1 < list_of(o, pair, ps[k].0).len() by {
    }
    lemma_picked_all(o, pair, ps);
    assert(picked(o, pair, ps) =~= seq![o.list(p)[0], o.list(p)[1], o.list(p)[2], o.list(p)[3], o.list(p)[4], o.list(p)[7], o.list(p)[8], o.list(p)[9], o.list(p)[10]]);
}

/// A magic gloves, code "le_gl" and "cl_gl", rolls in this order: the class's
/// first list at 0, the class's first list at 1, the class's first list at 2,
/// the class's first list at 3, the class's first list at 4, the class's first
/// list at 7, the class's second list at 3, the class's second list at 2, the
/// class's first list at 10. It needs the wearer to have class lists; each list
/// is taken long enough.
pub proof fn law_magic_gloves_picks(o: ItemOption, c: Set<GameClass>, p: int)
    requires
        class_lists(c) == Some(p),
        o.list(p).len() >= 12,
        o.list(p + 1).len() >= 11,
    ensures
        spec_check_item_option(o, c, "le_gl"@) == Some(
            seq![o.list(p)[0], o.list(p)[1], o.list(p)[2], o.list(p)[3], o.list(p)[4], o.list(p)[7], o.list(p + 1)[3], o.list(p + 1)[2], o.list(p)[10]],
        ),
        spec_check_item_option(o, c, "cl_gl"@) == Some(
            seq![o.list(p)[0], o.list(p)[1], o.list(p)[2], o.list(p)[3], o.list(p)[4], o.list(p)[7], o.list(p + 1)[3], o.list(p + 1)[2], o.list(p)[10]],
        ),
{
    lemma_code_letters();
    let pair = class_lists(c);
    assert("le_"@.take(2) =~= "le"@);
    lemma_armor_code("le_"@, "le"@, "gl"@);
    assert("le_"@ + "gl"@ =~= "le_gl"@);
    assert("cl_"@.take(2) =~= "cl"@);
    lemma_armor_code("cl_"@, "cl"@, "gl"@);
    assert("cl_"@ + "gl"@ =~= "cl_gl"@);
    let ps = option_picks(ItemSubType::Armor(ArmorClassKind::Magic(ArmorTypes::Gloves)));
    assert forall|k: int| 0 <= k < ps.len() implies 0 <= #[trigger] ps[k].1 < list_of(o, pair, ps[k].0).len() by {
    }
    lemma_picked_all(o, pair, ps);
    assert(picked(o, pair, ps) =~= seq![o.list(p)[0], o.list(p)[1], o.list(p)[2], o.list(p)[3], o.list(p)[4], o.list(p)[7], o.list(p + 1)[3], o.list(p + 1)[2], o.list(p)[10]]);
}

/// A magic boots, code "le_bo" and "cl_bo", rolls in this order: the class's
/// first list at 0, the class's first list at 1, the class's first list at 2,
/// the class's first list at 3, the class's first list at 4, the class's first
/// list at 7, the class's first list at 9, the class's first list at 10. It
/// needs the wearer to have class lists; each list is taken long enough.
pub proof fn law_magic_boots_picks(o: ItemOption, c: Set<GameClass>, p: int)
    requires
        class_lists(c) == Some(p),
        o.list(p).len() >= 12,
        o.list(p + 1).len() >= 11,
    ensures
        spec_check_item_option(o, c, "le_bo"@) == Some(
            seq![o.list(p)[0], o.list(p)[1], o.list(p)[2], o.list(p)[3], o.list(p)[4], o.list(p)[7], o.list(p)[9], o.list(p)[10]],
        ),
        spec_check_item_option(o, c, "cl_bo"@) == Some(
            seq![o.list(p)[0], o.list(p)[1], o.list(p)[2], o.list(p)[3], o.list(p)[4], o.list(p)[7], o.list(p)[9], o.list(p)[10]],
        ),
{
    lemma_code_letters();
    let pair = class_lists(c);
    assert("le_"@.take(2) =~= "le"@);
    lemma_armor_code("le_"@, "le"@, "bo"@);
    assert("le_"@ + "bo"@ =~= "le_bo"@);
    assert("cl_"@.take(2) =~= "cl"@);
    lemma_armor_code("cl_"@, "cl"@, "bo"@);
    assert("cl_"@ + "bo"@ =~= "cl_bo"@);
    let ps = option_picks(ItemSubType::Armor(ArmorClassKind::Magic(ArmorTypes::Boots)));
    assert forall|k: int| 0 <= k < ps.len() implies 0 <= #[trigger] ps[k].1 < list_of(o, pair, ps[k].0).len() by {
    }
    lemma_picked_all(o, pair, ps);
    assert(picked(o, pair, ps) =~= seq![o.list(p)[0], o.list(p)[1], o.list(p)[2], o.list(p)[3], o.list(p)[4], o.list(p)[7], o.list(p)[9], o.list(p)[10]]);
}

} // verus!

verus! {

/// The sub-type codes of the data files and the sub-types they name: the
/// jewellery "ne" and "ri"; the armor codes, a family ("pl" and "ch"
/// physical, "le" and "cl" magic), an underscore and a slot ("ha" helmet,
/// "sh" pauldron, "ja" body armor, "gl" gloves, "bo" boots); and the
/// weapons, shields and off-hand items.
pub proof fn law_sub_type_codes()
    ensures
        spec_sub_type("ne"@) == Some(ItemSubType::Necklage),
        spec_sub_type("ri"@) == Some(ItemSubType::Ring),
        spec_sub_type("pl_ha"@) == Some(ItemSubType::Armor(ArmorClassKind::Physical(ArmorTypes::Helmet))),
        spec_sub_type("pl_sh"@) == Some(ItemSubType::Armor(ArmorClassKind::Physical(ArmorTypes::Pauldron))),
        spec_sub_type("pl_ja"@) == Some(ItemSubType::Armor(ArmorClassKind::Physical(ArmorTypes::Armor))),
        spec_sub_type("pl_gl"@) == Some(ItemSubType::Armor(ArmorClassKind::Physical(ArmorTypes::Gloves))),
        spec_sub_type("pl_bo"@) == Some(ItemSubType::Armor(ArmorClassKind::Physical(ArmorTypes::Boots))),
        spec_sub_type("le_ha"@) == Some(ItemSubType::Armor(ArmorClassKind::Magic(ArmorTypes::Helmet))),
        spec_sub_type("le_sh"@) == Some(ItemSubType::Armor(ArmorClassKind::Magic(ArmorTypes::Pauldron))),
        spec_sub_type("le_ja"@) == Some(ItemSubType::Armor(ArmorClassKind::Magic(ArmorTypes::Armor))),
        spec_sub_type("le_gl"@) == Some(ItemSubType::Armor(ArmorClassKind::Magic(ArmorTypes::Gloves))),
        spec_sub_type("le_bo"@) == Some(ItemSubType::Armor(ArmorClassKind::Magic(ArmorTypes::Boots))),
        spec_sub_type("ch_ha"@) == Some(ItemSubType::Armor(ArmorClassKind::Physical(ArmorTypes::Helmet))),
        spec_sub_type("ch_sh"@) == Some(ItemSubType::Armor(ArmorClassKind::Physical(ArmorTypes::Pauldron))),
        spec_sub_type("ch_ja"@) == Some(ItemSubType::Armor(ArmorClassKind::Physical(ArmorTypes::Armor))),
        spec_sub_type("ch_gl"@) == Some(ItemSubType::Armor(ArmorClassKind::Physical(ArmorTypes::Gloves))),
        spec_sub_type("ch_bo"@) == Some(ItemSubType::Armor(ArmorClassKind::Physical(ArmorTypes::Boots))),
        spec_sub_type("cl_ha"@) == Some(ItemSubType::Armor(ArmorClassKind::Magic(ArmorTypes::Helmet))),
        spec_sub_type("cl_sh"@) == Some(ItemSubType::Armor(ArmorClassKind::Magic(ArmorTypes::Pauldron))),
        spec_sub_type("cl_ja"@) == Some(ItemSubType::Armor(ArmorClassKind::Magic(ArmorTypes::Armor))),
        spec_sub_type("cl_gl"@) == Some(ItemSubType::Armor(ArmorClassKind::Magic(ArmorTypes::Gloves))),
        spec_sub_type("cl_bo"@) == Some(ItemSubType::Armor(ArmorClassKind::Magic(ArmorTypes::Boots))),
        spec_sub_type("d1"@) == Some(ItemSubType::Dagger),
        spec_sub_type("s1"@) == Some(ItemSubType::Sword),
        spec_sub_type("s2"@) == Some(ItemSubType::Greatsword),
        spec_sub_type("m1"@) == Some(ItemSubType::Scepter),
        spec_sub_type("m2"@) == Some(ItemSubType::Staff),
        spec_sub_type("l2"@) == Some(ItemSubType::Lance),
        spec_sub_type("c2"@) == Some(ItemSubType::Crossbow),
        spec_sub_type("b1"@) == Some(ItemSubType::Bow),
        spec_sub_type("w1"@) == Some(ItemSubType::Wand),
        spec_sub_type("sd"@) == Some(ItemSubType::Shield),
        spec_sub_type("at"@) == Some(ItemSubType::Crest),
        spec_sub_type("ga"@) == Some(ItemSubType::Vambrace),
        spec_sub_type("tb"@) == Some(ItemSubType::TeddyBear),
{
    lemma_code_letters();
    assert("pl_"@.take(2) =~= "pl"@);
    lemma_armor_code("pl_"@, "pl"@, "ha"@);
    assert("pl_"@ + "ha"@ =~= "pl_ha"@);
    assert("pl_"@.take(2) =~= "pl"@);
    lemma_armor_code("pl_"@, "pl"@, "sh"@);
    assert("pl_"@ + "sh"@ =~= "pl_sh"@);
    assert("pl_"@.take(2) =~= "pl"@);
    lemma_armor_code("pl_"@, "pl"@, "ja"@);
    assert("pl_"@ + "ja"@ =~= "pl_ja"@);
    assert("pl_"@.take(2) =~= "pl"@);
    lemma_armor_code("pl_"@, "pl"@, "gl"@);
    assert("pl_"@ + "gl"@ =~= "pl_gl"@);
    assert("pl_"@.take(2) =~= "pl"@);
    lemma_armor_code("pl_"@, "pl"@, "bo"@);
    assert("pl_"@ + "bo"@ =~= "pl_bo"@);
    assert("le_"@.take(2) =~= "le"@);
    lemma_armor_code("le_"@, "le"@, "ha"@);
    assert("le_"@ + "ha"@ =~= "le_ha"@);
    assert("le_"@.take(2) =~= "le"@);
    lemma_armor_code("le_"@, "le"@, "sh"@);
    assert("le_"@ + "sh"@ =~= "le_sh"@);
    assert("le_"@.take(2) =~= "le"@);
    lemma_armor_code("le_"@, "le"@, "ja"@);
    assert("le_"@ + "ja"@ =~= "le_ja"@);
    assert("le_"@.take(2) =~= "le"@);
    lemma_armor_code("le_"@, "le"@, "gl"@);
    assert("le_"@ + "gl"@ =~= "le_gl"@);
    assert("le_"@.take(2) =~= "le"@);
    lemma_armor_code("le_"@, "le"@, "bo"@);
    assert("le_"@ + "bo"@ =~= "le_bo"@);
    assert("ch_"@.take(2) =~= "ch"@);
    lemma_armor_code("ch_"@, "ch"@, "ha"@);
    assert("ch_"@ + "ha"@ =~= "ch_ha"@);
    assert("ch_"@.take(2) =~= "ch"@);
    lemma_armor_code("ch_"@, "ch"@, "sh"@);
    assert("ch_"@ + "sh"@ =~= "ch_sh"@);
    assert("ch_"@.take(2) =~= "ch"@);
    lemma_armor_code("ch_"@, "ch"@, "ja"@);
    assert("ch_"@ + "ja"@ =~= "ch_ja"@);
    assert("ch_"@.take(2) =~= "ch"@);
    lemma_armor_code("ch_"@, "ch"@, "gl"@);
    assert("ch_"@ + "gl"@ =~= "ch_gl"@);
    assert("ch_"@.take(2) =~= "ch"@);
    lemma_armor_code("ch_"@, "ch"@, "bo"@);
    assert("ch_"@ + "bo"@ =~= "ch_bo"@);
    assert("cl_"@.take(2) =~= "cl"@);
    lemma_armor_code("cl_"@, "cl"@, "ha"@);
    assert("cl_"@ + "ha"@ =~= "cl_ha"@);
    assert("cl_"@.take(2) =~= "cl"@);
    lemma_armor_code("cl_"@, "cl"@, "sh"@);
    assert("cl_"@ + "sh"@ =~= "cl_sh"@);
    assert("cl_"@.take(2) =~= "cl"@);
    lemma_armor_code("cl_"@, "cl"@, "ja"@);
    assert("cl_"@ + "ja"@ =~= "cl_ja"@);
    assert("cl_"@.take(2) =~= "cl"@);
    lemma_armor_code("cl_"@, "cl"@, "gl"@);
    assert("cl_"@ + "gl"@ =~= "cl_gl"@);
    assert("cl_"@.take(2) =~= "cl"@);
    lemma_armor_code("cl_"@, "cl"@, "bo"@);
    assert("cl_"@ + "bo"@ =~= "cl_bo"@);
}

} // verus!
