//! The small enumerations of the game data: item types, grades, classes,
//! sub-types, crafting types, languages, and the codes they are read from.
use vstd::prelude::*;

use crate::outside::str_eq;

verus! {

/// The kinds of equipment the explorer lists.
#[derive(Debug, Clone, Copy, PartialEq, Eq, Hash, Structural)]
pub enum ItemType {
    Armor,
    SecondaryWeapon,
    Weapon,
    Accessory,
}

impl ItemType {
    /// Every item type, in declaration order.
    pub fn iter() -> (v: Vec<ItemType>)
        ensures
            v@ == seq![ItemType::Armor, ItemType::SecondaryWeapon, ItemType::Weapon, ItemType::Accessory],
    {
        vec![ItemType::Armor, ItemType::SecondaryWeapon, ItemType::Weapon, ItemType::Accessory]
    }
}

/// The quality an item preview is shown at.
#[derive(Debug, Clone, Copy, PartialEq, Eq, Structural)]
pub enum Quality {
    Simple,
    Good,
    Perfect,
}

/// The quality that follows `q` in the preview's cycle.
pub open spec fn spec_next_quality(q: Quality) -> Quality {
    match q {
        Quality::Simple => Quality::Good,
        Quality::Good => Quality::Perfect,
        Quality::Perfect => Quality::Simple,
    }
}

impl Quality {
    /// The quality that follows this one; `Perfect` wraps to `Simple`.
    pub fn next(&self) -> (r: Self)
        ensures
            r == spec_next_quality(*self),
    {
        match self {
            Quality::Simple => Quality::Good,
            Quality::Good => Quality::Perfect,
            Quality::Perfect => Quality::Simple,
        }
    }

    /// The default quality, `Simple`.
    pub fn default_quality() -> (r: Self)
        ensures
            r == Quality::Simple,
    {
        Quality::Simple
    }
}

impl Default for Quality {
    fn default() -> (r: Self)
        ensures
            r == Quality::Simple,
    {
        Quality::Simple
    }
}

/// Three steps of `next` come back to the start.
pub proof fn lemma_quality_cycle(q: Quality)
    ensures
        spec_next_quality(spec_next_quality(spec_next_quality(q))) == q,
        spec_next_quality(q) != q,
{
}

/// The type of a tag in a table's header.
#[derive(Debug, Clone, Copy, PartialEq, Eq, Structural)]
pub enum TagType {
    String,
    Float,
}

/// How the text of a table is stored: single-byte EUC-KR strings or
/// UTF-16 strings, which also doubles the unit of the offsets.
#[derive(Debug, Clone, Copy, PartialEq, Eq, Structural)]
pub enum DataFormat {
    String,
    WideString,
}

impl Default for DataFormat {
    fn default() -> (r: Self)
        ensures
            r == DataFormat::String,
    {
        DataFormat::String
    }
}

/// The grade of an item; its number in the data files is `repr`.
#[derive(Debug, Clone, Copy, PartialEq, Eq, Hash, Structural)]
pub enum Grade {
    Common,
    Elite,
    Heroic,
    Legendary,
    Unique,
    Mythical,
}

/// The number a grade has in the data files.
pub open spec fn spec_grade_repr(g: Grade) -> u8 {
    match g {
        Grade::Common => 1,
        Grade::Elite => 2,
        Grade::Heroic => 3,
        Grade::Legendary => 4,
        Grade::Unique => 6,
        Grade::Mythical => 7,
    }
}

/// The grade with the number `v`, if there is one.
pub open spec fn spec_grade_from_repr(v: u8) -> Option<Grade> {
    if v == 1 {
        Some(Grade::Common)
    } else if v == 2 {
        Some(Grade::Elite)
    } else if v == 3 {
        Some(Grade::Heroic)
    } else if v == 4 {
        Some(Grade::Legendary)
    } else if v == 6 {
        Some(Grade::Unique)
    } else if v == 7 {
        Some(Grade::Mythical)
    } else {
        None
    }
}

impl Grade {
    /// The number of this grade in the data files.
    pub fn repr(&self) -> (r: u8)
        ensures
            r == spec_grade_repr(*self),
    {
        match self {
            Grade::Common => 1,
            Grade::Elite => 2,
            Grade::Heroic => 3,
            Grade::Legendary => 4,
            Grade::Unique => 6,
            Grade::Mythical => 7,
        }
    }

    /// The grade with the number `v`, if there is one.
    pub fn from_repr(v: u8) -> (r: Option<Grade>)
        ensures
            r == spec_grade_from_repr(v),
    {
        if v == 1 {
            Some(Grade::Common)
        } else if v == 2 {
            Some(Grade::Elite)
        } else if v == 3 {
            Some(Grade::Heroic)
        } else if v == 4 {
            Some(Grade::Legendary)
        } else if v == 6 {
            Some(Grade::Unique)
        } else if v == 7 {
            Some(Grade::Mythical)
        } else {
            None
        }
    }

    /// Every grade, in declaration order.
    pub fn iter() -> (v: Vec<Grade>)
        ensures
            v@ == seq![Grade::Common, Grade::Elite, Grade::Heroic, Grade::Legendary, Grade::Unique, Grade::Mythical],
    {
        vec![Grade::Common, Grade::Elite, Grade::Heroic, Grade::Legendary, Grade::Unique, Grade::Mythical]
    }
}

/// A grade's number names it back, and only the six numbers name a grade.
pub proof fn lemma_grade_repr_roundtrip(g: Grade, v: u8)
    ensures
        spec_grade_from_repr(spec_grade_repr(g)) == Some(g),
        spec_grade_from_repr(v) matches Some(h) ==> spec_grade_repr(h) == v,
{
}

/// A playable class.  Ordered as declared, as the class sets iterate.
#[derive(Debug, Clone, Copy, PartialEq, Eq, Hash, PartialOrd, Ord, Structural)]
pub enum GameClass {
    Assassin,
    Berserker,
    Guardian,
    Magician,
    Priest,
    Ranger,
    Trickster,
    Wizard,
}

/// The position of a class in declaration order.
pub open spec fn spec_class_index(c: GameClass) -> int {
    match c {
        GameClass::Assassin => 0,
        GameClass::Berserker => 1,
        GameClass::Guardian => 2,
        GameClass::Magician => 3,
        GameClass::Priest => 4,
        GameClass::Ranger => 5,
        GameClass::Trickster => 6,
        GameClass::Wizard => 7,
    }
}

/// The class at position `i` in declaration order.
pub open spec fn spec_class_at(i: int) -> GameClass {
    if i == 0 {
        GameClass::Assassin
    } else if i == 1 {
        GameClass::Berserker
    } else if i == 2 {
        GameClass::Guardian
    } else if i == 3 {
        GameClass::Magician
    } else if i == 4 {
        GameClass::Priest
    } else if i == 5 {
        GameClass::Ranger
    } else if i == 6 {
        GameClass::Trickster
    } else {
        GameClass::Wizard
    }
}

/// The class a two-letter code in the data files names.
pub open spec fn spec_class_from_code(s: Seq<char>) -> Option<GameClass> {
    if s == "GD"@ {
        Some(GameClass::Guardian)
    } else if s == "MG"@ {
        Some(GameClass::Magician)
    } else if s == "WZ"@ {
        Some(GameClass::Wizard)
    } else if s == "TF"@ {
        Some(GameClass::Assassin)
    } else if s == "WR"@ {
        Some(GameClass::Berserker)
    } else if s == "PR"@ {
        Some(GameClass::Priest)
    } else if s == "AC"@ {
        Some(GameClass::Ranger)
    } else if s == "DO"@ {
        Some(GameClass::Trickster)
    } else {
        None
    }
}

/// The message of a refused code.
pub open spec fn refusal(code: Seq<char>, what: Seq<char>) -> Seq<char> {
    "Cannot convert "@ + code + what
}

/// The message "Cannot convert {code}{what}".
fn refusal_message(code: &str, what: &str) -> (r: String)
    ensures
        r@ == refusal(code@, what@),
{
    let mut m = String::from_str("Cannot convert ");
    m.append(code);
    m.append(what);
    m
}

impl GameClass {
    /// The position of this class in declaration order.
    pub fn index(&self) -> (i: usize)
        ensures
            i == spec_class_index(*self),
    {
        match self {
            GameClass::Assassin => 0,
            GameClass::Berserker => 1,
            GameClass::Guardian => 2,
            GameClass::Magician => 3,
            GameClass::Priest => 4,
            GameClass::Ranger => 5,
            GameClass::Trickster => 6,
            GameClass::Wizard => 7,
        }
    }

    /// The class at position `i`.
    pub fn at(i: usize) -> (c: GameClass)
        requires
            i < 8,
        ensures
            c == spec_class_at(i as int),
            spec_class_index(c) == i,
    {
        if i == 0 {
            GameClass::Assassin
        } else if i == 1 {
            GameClass::Berserker
        } else if i == 2 {
            GameClass::Guardian
        } else if i == 3 {
            GameClass::Magician
        } else if i == 4 {
            GameClass::Priest
        } else if i == 5 {
            GameClass::Ranger
        } else if i == 6 {
            GameClass::Trickster
        } else {
            GameClass::Wizard
        }
    }

    /// Every class, in declaration order.
    pub fn iter() -> (v: Vec<GameClass>)
        ensures
            v@.len() == 8,
            forall|i: int| 0 <= i < 8 ==> v@[i] == spec_class_at(i),
    {
        vec![
            GameClass::Assassin,
            GameClass::Berserker,
            GameClass::Guardian,
            GameClass::Magician,
            GameClass::Priest,
            GameClass::Ranger,
            GameClass::Trickster,
            GameClass::Wizard,
        ]
    }

    /// The class a code of the data files names, or the message
    /// "Cannot convert {code} class".
    pub fn try_from(other: &str) -> (r: Result<GameClass, String>)
        ensures
            match r {
                Ok(c) => spec_class_from_code(other@) == Some(c),
                Err(e) => spec_class_from_code(other@) is None && e@ == refusal(other@, " class"@),
            },
    {
        if str_eq(other, "GD") {
            Ok(GameClass::Guardian)
        } else if str_eq(other, "MG") {
            Ok(GameClass::Magician)
        } else if str_eq(other, "WZ") {
            Ok(GameClass::Wizard)
        } else if str_eq(other, "TF") {
            Ok(GameClass::Assassin)
        } else if str_eq(other, "WR") {
            Ok(GameClass::Berserker)
        } else if str_eq(other, "PR") {
            Ok(GameClass::Priest)
        } else if str_eq(other, "AC") {
            Ok(GameClass::Ranger)
        } else if str_eq(other, "DO") {
            Ok(GameClass::Trickster)
        } else {
            Err(refusal_message(other, " class"))
        }
    }
}

/// Positions and classes correspond one to one.
pub proof fn lemma_class_index_roundtrip(c: GameClass, i: int)
    ensures
        spec_class_at(spec_class_index(c)) == c,
        0 <= spec_class_index(c) < 8,
        0 <= i < 8 ==> spec_class_index(spec_class_at(i)) == i,
{
}

/// A set of classes, kept as one flag per class.
#[derive(Debug, Clone, Copy, PartialEq, Eq)]
pub struct ClassSet {
    flags: [bool; 8],
}

impl View for ClassSet {
    type V = Set<GameClass>;

    closed spec fn view(&self) -> Set<GameClass> {
        Set::new(|c: GameClass| self.flags@[spec_class_index(c)])
    }
}

impl ClassSet {
    /// The empty set.
    pub fn new() -> (s: ClassSet)
        ensures
            s@ == Set::<GameClass>::empty(),
    {
        let s = ClassSet { flags: [false; 8] };
        assert(s@ =~= Set::<GameClass>::empty());
        s
    }

    /// Whether `c` is a member.
    pub fn contains(&self, c: GameClass) -> (b: bool)
        ensures
            b == self@.contains(c),
    {
        self.flags[c.index()]
    }

    /// Adds `c`.
    pub fn insert(&mut self, c: GameClass)
        ensures
            final(self)@ == old(self)@.insert(c),
    {
        let i = c.index();
        self.flags[i] = true;
        assert forall|d: GameClass| #![auto] final(self)@.contains(d) == old(self)@.insert(c).contains(d) by {
            if spec_class_index(d) == spec_class_index(c) {
                assert(d == c);
            }
        }
        assert(final(self)@ =~= old(self)@.insert(c));
    }

    /// The members in declaration order, as an ordered set of classes lists them.
    pub fn members(&self) -> (v: Vec<GameClass>)
        ensures
            forall|c: GameClass| self@.contains(c) <==> v@.contains(c),
            forall|i: int, j: int| 0 <= i < j < v@.len() ==> spec_class_index(v@[i]) < spec_class_index(v@[j]),
    {
        let mut v: Vec<GameClass> = Vec::new();
        let mut i: usize = 0;
        while i < 8
            invariant
                i <= 8,
                forall|c: GameClass| (self@.contains(c) && spec_class_index(c) < i) <==> v@.contains(c),
                forall|k: int| 0 <= k < v@.len() ==> spec_class_index(v@[k]) < i,
                forall|k: int, j: int| 0 <= k < j < v@.len() ==> spec_class_index(v@[k]) < spec_class_index(v@[j]),
            decreases 8 - i,
        {
            let c = GameClass::at(i);
            if self.flags[i] {
                let ghost old_v = v@;
                v.push(c);
                assert(v@ == old_v.push(c));
                assert forall|d: GameClass| (self@.contains(d) && spec_class_index(d) < i + 1) <==> v@.contains(d) by {
                    if spec_class_index(d) == i {
                        assert(d == c);
                        assert(v@[v@.len() - 1] == c);
                    }
                    if v@.contains(d) && d != c {
                        let k = choose|k: int| 0 <= k < v@.len() && v@[k] == d;
                        assert(k < v@.len() - 1);
                        assert(old_v[k] == d);
                        assert(old_v.contains(d));
                    }
                    if old_v.contains(d) {
                        let k = choose|k: int| 0 <= k < old_v.len() && old_v[k] == d;
                        assert(v@[k] == d);
                    }
                }
            } else {
                assert forall|d: GameClass| (self@.contains(d) && spec_class_index(d) < i + 1) <==> v@.contains(d) by {
                    if spec_class_index(d) == i {
                        assert(d == c);
                    }
                }
            }
            i = i + 1;
        }
        v
    }

    /// Whether the set is exactly `{c}`.
    pub fn is_only(&self, c: GameClass) -> (b: bool)
        ensures
            b == (self@ == set![c]),
    {
        let mut i: usize = 0;
        let ci = c.index();
        while i < 8
            invariant
                i <= 8,
                ci == spec_class_index(c),
                forall|k: int| 0 <= k < i ==> self.flags@[k] == (k == ci),
            decreases 8 - i,
        {
            if self.flags[i] != (i == ci) {
                assert(self@ != set![c]) by {
                    let d = spec_class_at(i as int);
                    assert(self@.contains(d) != set![c].contains(d));
                }
                return false;
            }
            i = i + 1;
        }
        assert forall|d: GameClass| #![auto] self@.contains(d) == set![c].contains(d) by {
            if spec_class_index(d) == spec_class_index(c) {
                assert(d == c);
            }
        }
        assert(self@ =~= set![c]);
        true
    }

    /// Whether the set is exactly `{a, b}` for two different classes.
    pub fn is_pair(&self, a: GameClass, b: GameClass) -> (r: bool)
        requires
            a != b,
        ensures
            r == (self@ == set![a, b]),
    {
        let ai = a.index();
        let bi = b.index();
        let mut i: usize = 0;
        while i < 8
            invariant
                i <= 8,
                ai == spec_class_index(a),
                bi == spec_class_index(b),
                forall|k: int| 0 <= k < i ==> self.flags@[k] == (k == ai || k == bi),
            decreases 8 - i,
        {
            if self.flags[i] != (i == ai || i == bi) {
                assert(self@ != set![a, b]) by {
                    let d = spec_class_at(i as int);
                    assert(self@.contains(d) != set![a, b].contains(d));
                }
                return false;
            }
            i = i + 1;
        }
        assert forall|d: GameClass| #![auto] self@.contains(d) == set![a, b].contains(d) by {
            if spec_class_index(d) == spec_class_index(a) {
                assert(d == a);
            }
            if spec_class_index(d) == spec_class_index(b) {
                assert(d == b);
            }
        }
        assert(self@ =~= set![a, b]);
        true
    }
}

/// The kind of armor by the class family that wears it.
#[derive(Debug, Clone, Copy, PartialEq, Eq, Hash, PartialOrd, Ord, Structural)]
pub enum ArmorClassKind {
    Magic(ArmorTypes),
    Physical(ArmorTypes),
}

/// The armor slot.
#[derive(Debug, Clone, Copy, PartialEq, Eq, Hash, PartialOrd, Ord, Structural)]
pub enum ArmorTypes {
    Helmet,
    Pauldron,
    Armor,
    Gloves,
    Boots,
}

/// The sub-type of an item, read from the type codes of the data files.
#[derive(Debug, Clone, Copy, PartialEq, Eq, Hash, PartialOrd, Ord, Structural)]
pub enum ItemSubType {
    Necklage,
    Ring,
    Armor(ArmorClassKind),
    Dagger,
    Sword,
    Greatsword,
    Scepter,
    Staff,
    Lance,
    Crossbow,
    Bow,
    Wand,
    Shield,
    Crest,
    Vambrace,
    TeddyBear,
}

/// The armor slot a two-letter slot code names.
pub open spec fn spec_armor_slot(s: Seq<char>) -> Option<ArmorTypes> {
    if s == "ha"@ {
        Some(ArmorTypes::Helmet)
    } else if s == "sh"@ {
        Some(ArmorTypes::Pauldron)
    } else if s == "ja"@ {
        Some(ArmorTypes::Armor)
    } else if s == "gl"@ {
        Some(ArmorTypes::Gloves)
    } else if s == "bo"@ {
        Some(ArmorTypes::Boots)
    } else {
        None
    }
}

/// The sub-type a type code of the data files names.  Armor codes are a
/// family ("pl" and "ch" physical, "le" and "cl" magic), an underscore and
/// a slot.
pub open spec fn spec_sub_type(s: Seq<char>) -> Option<ItemSubType> {
    if s == "ne"@ {
        Some(ItemSubType::Necklage)
    } else if s == "ri"@ {
        Some(ItemSubType::Ring)
    } else if s == "d1"@ {
        Some(ItemSubType::Dagger)
    } else if s == "s1"@ {
        Some(ItemSubType::Sword)
    } else if s == "s2"@ {
        Some(ItemSubType::Greatsword)
    } else if s == "m1"@ {
        Some(ItemSubType::Scepter)
    } else if s == "m2"@ {
        Some(ItemSubType::Staff)
    } else if s == "l2"@ {
        Some(ItemSubType::Lance)
    } else if s == "c2"@ {
        Some(ItemSubType::Crossbow)
    } else if s == "b1"@ {
        Some(ItemSubType::Bow)
    } else if s == "w1"@ {
        Some(ItemSubType::Wand)
    } else if s == "sd"@ {
        Some(ItemSubType::Shield)
    } else if s == "at"@ {
        Some(ItemSubType::Crest)
    } else if s == "ga"@ {
        Some(ItemSubType::Vambrace)
    } else if s == "tb"@ {
        Some(ItemSubType::TeddyBear)
    } else if s.len() == 5 && s[2] == '_' && spec_armor_slot(s.skip(3)) is Some {
        let family = s.take(2);
        let slot = spec_armor_slot(s.skip(3))->0;
        if family == "pl"@ || family == "ch"@ {
            Some(ItemSubType::Armor(ArmorClassKind::Physical(slot)))
        } else if family == "le"@ || family == "cl"@ {
            Some(ItemSubType::Armor(ArmorClassKind::Magic(slot)))
        } else {
            None
        }
    } else {
        None
    }
}

impl ItemSubType {
    /// The armor slot a slot code names.
    fn armor_slot(s: &str) -> (r: Option<ArmorTypes>)
        ensures
            r == spec_armor_slot(s@),
    {
        if str_eq(s, "ha") {
            Some(ArmorTypes::Helmet)
        } else if str_eq(s, "sh") {
            Some(ArmorTypes::Pauldron)
        } else if str_eq(s, "ja") {
            Some(ArmorTypes::Armor)
        } else if str_eq(s, "gl") {
            Some(ArmorTypes::Gloves)
        } else if str_eq(s, "bo") {
            Some(ArmorTypes::Boots)
        } else {
            None
        }
    }

    /// The sub-type a type code names, or the message
    /// "Cannot convert {code} item subtype".
    pub fn try_from(other: &str) -> (r: Result<ItemSubType, String>)
        ensures
            match r {
                Ok(t) => spec_sub_type(other@) == Some(t),
                Err(e) => spec_sub_type(other@) is None && e@ == refusal(other@, " item subtype"@),
            },
    {
        if str_eq(other, "ne") {
            return Ok(ItemSubType::Necklage);
        } else if str_eq(other, "ri") {
            return Ok(ItemSubType::Ring);
        } else if str_eq(other, "d1") {
            return Ok(ItemSubType::Dagger);
        } else if str_eq(other, "s1") {
            return Ok(ItemSubType::Sword);
        } else if str_eq(other, "s2") {
            return Ok(ItemSubType::Greatsword);
        } else if str_eq(other, "m1") {
            return Ok(ItemSubType::Scepter);
        } else if str_eq(other, "m2") {
            return Ok(ItemSubType::Staff);
        } else if str_eq(other, "l2") {
            return Ok(ItemSubType::Lance);
        } else if str_eq(other, "c2") {
            return Ok(ItemSubType::Crossbow);
        } else if str_eq(other, "b1") {
            return Ok(ItemSubType::Bow);
        } else if str_eq(other, "w1") {
            return Ok(ItemSubType::Wand);
        } else if str_eq(other, "sd") {
            return Ok(ItemSubType::Shield);
        } else if str_eq(other, "at") {
            return Ok(ItemSubType::Crest);
        } else if str_eq(other, "ga") {
            return Ok(ItemSubType::Vambrace);
        } else if str_eq(other, "tb") {
            return Ok(ItemSubType::TeddyBear);
        }
        let v = crate::text::chars_of(other);
        if v.len() == 5 && v[2] == '_' {
            let family = crate::text::string_of_range(&v, 0, 2);
            let slot_code = crate::text::string_of_range(&v, 3, 5);
            assert(v@.subrange(3, 5) =~= other@.skip(3));
            assert(v@.subrange(0, 2) =~= other@.take(2));
            if let Some(slot) = Self::armor_slot(slot_code.as_str()) {
                if str_eq(family.as_str(), "pl") || str_eq(family.as_str(), "ch") {
                    return Ok(ItemSubType::Armor(ArmorClassKind::Physical(slot)));
                } else if str_eq(family.as_str(), "le") || str_eq(family.as_str(), "cl") {
                    return Ok(ItemSubType::Armor(ArmorClassKind::Magic(slot)));
                }
            }
        }
        Err(refusal_message(other, " item subtype"))
    }
}

/// The crafting kind of a material.
#[derive(Debug, Clone, Copy, PartialEq, Eq, PartialOrd, Ord, Structural)]
pub enum MaterialType {
    Alchemy,
    Cooking,
    WeaponCrafting,
    ArmorCrafting,
    JewelryCrafting,
    BarderCrafting,
}

/// The crafting kind of a recipe.
#[derive(Debug, Clone, Copy, PartialEq, Eq, PartialOrd, Ord, Structural)]
pub enum RecipeType {
    Alchemy,
    Cooking,
    WeaponCrafting,
    ArmorCrafting,
    JewelryCrafting,
    BarderCrafting,
}

/// The position of a crafting code among "al", "co", "we", "ar", "as", "fe".
pub open spec fn spec_craft_code(s: Seq<char>) -> Option<int> {
    if s == "al"@ {
        Some(0)
    } else if s == "co"@ {
        Some(1)
    } else if s == "we"@ {
        Some(2)
    } else if s == "ar"@ {
        Some(3)
    } else if s == "as"@ {
        Some(4)
    } else if s == "fe"@ {
        Some(5)
    } else {
        None
    }
}

/// The position of a crafting code, as `spec_craft_code` gives it.
fn craft_code(s: &str) -> (r: Option<usize>)
    ensures
        match r {
            Some(i) => spec_craft_code(s@) == Some(i as int),
            None => spec_craft_code(s@) is None,
        },
{
    if str_eq(s, "al") {
        Some(0)
    } else if str_eq(s, "co") {
        Some(1)
    } else if str_eq(s, "we") {
        Some(2)
    } else if str_eq(s, "ar") {
        Some(3)
    } else if str_eq(s, "as") {
        Some(4)
    } else if str_eq(s, "fe") {
        Some(5)
    } else {
        None
    }
}

/// The material type at a crafting position.
pub open spec fn spec_material_at(i: int) -> MaterialType {
    if i == 0 {
        MaterialType::Alchemy
    } else if i == 1 {
        MaterialType::Cooking
    } else if i == 2 {
        MaterialType::WeaponCrafting
    } else if i == 3 {
        MaterialType::ArmorCrafting
    } else if i == 4 {
        MaterialType::JewelryCrafting
    } else {
        MaterialType::BarderCrafting
    }
}

/// The recipe type at a crafting position.
pub open spec fn spec_recipe_at(i: int) -> RecipeType {
    if i == 0 {
        RecipeType::Alchemy
    } else if i == 1 {
        RecipeType::Cooking
    } else if i == 2 {
        RecipeType::WeaponCrafting
    } else if i == 3 {
        RecipeType::ArmorCrafting
    } else if i == 4 {
        RecipeType::JewelryCrafting
    } else {
        RecipeType::BarderCrafting
    }
}

impl MaterialType {
    /// The material type a crafting code names, or the message
    /// "Cannot convert {code} material type".
    pub fn try_from(other: &str) -> (r: Result<MaterialType, String>)
        ensures
            match r {
                Ok(t) => spec_craft_code(other@) matches Some(i) && t == spec_material_at(i),
                Err(e) => spec_craft_code(other@) is None && e@ == refusal(other@, " material type"@),
            },
    {
        match craft_code(other) {
            Some(0) => Ok(MaterialType::Alchemy),
            Some(1) => Ok(MaterialType::Cooking),
            Some(2) => Ok(MaterialType::WeaponCrafting),
            Some(3) => Ok(MaterialType::ArmorCrafting),
            Some(4) => Ok(MaterialType::JewelryCrafting),
            Some(_) => Ok(MaterialType::BarderCrafting),
            None => Err(refusal_message(other, " material type")),
        }
    }
}

impl RecipeType {
    /// The recipe type a crafting code names, or the message
    /// "Cannot convert {code} material type", worded as for materials.
    pub fn try_from(other: &str) -> (r: Result<RecipeType, String>)
        ensures
            match r {
                Ok(t) => spec_craft_code(other@) matches Some(i) && t == spec_recipe_at(i),
                Err(e) => spec_craft_code(other@) is None && e@ == refusal(other@, " material type"@),
            },
    {
        match craft_code(other) {
            Some(0) => Ok(RecipeType::Alchemy),
            Some(1) => Ok(RecipeType::Cooking),
            Some(2) => Ok(RecipeType::WeaponCrafting),
            Some(3) => Ok(RecipeType::ArmorCrafting),
            Some(4) => Ok(RecipeType::JewelryCrafting),
            Some(_) => Ok(RecipeType::BarderCrafting),
            None => Err(refusal_message(other, " material type")),
        }
    }
}

/// The interface language.
#[derive(Debug, Clone, Copy, PartialEq, Eq, Hash, Structural)]
pub enum Language {
    English,
    Russian,
}

impl Default for Language {
    fn default() -> (r: Self)
        ensures
            r == Language::English,
    {
        Language::English
    }
}

/// The number a language is stored as.
pub open spec fn spec_language_repr(l: Language) -> usize {
    match l {
        Language::English => 0,
        Language::Russian => 1,
    }
}

/// The language a locale name selects: "ru-RU" Russian, anything else English.
pub open spec fn spec_language_of_locale(s: Seq<char>) -> Language {
    if s == "ru-RU"@ {
        Language::Russian
    } else {
        Language::English
    }
}

impl Language {
    /// The number this language is stored as.
    pub fn repr(&self) -> (r: usize)
        ensures
            r == spec_language_repr(*self),
    {
        match self {
            Language::English => 0,
            Language::Russian => 1,
        }
    }

    /// The language stored as `v`, if any.
    pub fn from_repr(v: usize) -> (r: Option<Language>)
        ensures
            r == (if v == 0 {
                Some(Language::English)
            } else if v == 1 {
                Some(Language::Russian)
            } else {
                None::<Language>
            }),
    {
        if v == 0 {
            Some(Language::English)
        } else if v == 1 {
            Some(Language::Russian)
        } else {
            None
        }
    }

    /// The language a locale name selects; "en-US" and unknown names give
    /// the default, English.
    pub fn from_locale(value: &str) -> (r: Language)
        ensures
            r == spec_language_of_locale(value@),
    {
        if str_eq(value, "ru-RU") {
            Language::Russian
        } else {
            Language::English
        }
    }

    /// Every language, in declaration order.
    pub fn iter() -> (v: Vec<Language>)
        ensures
            v@ == seq![Language::English, Language::Russian],
    {
        vec![Language::English, Language::Russian]
    }
}

/// A language's number names it back.
pub proof fn lemma_language_repr_roundtrip(l: Language)
    ensures
        spec_language_repr(l) == 0 ==> l == Language::English,
        spec_language_repr(l) == 1 ==> l == Language::Russian,
        spec_language_repr(l) < 2,
{
}

/// A step of the keyboard selection in the item list.
#[derive(Debug, Clone, Copy, PartialEq, Eq, Structural)]
pub enum SelectionMove {
    Up,
    Down,
}

/// The stage the loading of the game data has reached.
#[derive(Debug, Clone, Copy, PartialEq, Eq, Structural)]
pub enum GameDataLoadingStatus {
    ItemSet,
    SecondaryWeapon,
    Weapon,
    Accessory,
    Armor,
    Tempering,
    Effects,
    Quality,
    Material,
    Recipe,
    ProductMaterial,
    FellowEquip,
    Consume,
    Boost,
    Gem,
    SealedFellow,
    SkillBook,
    Exchange,
}

} // verus!

verus! {

/// The key of the localized name of an item type.
pub open spec fn item_type_key(x: ItemType) -> Seq<char> {
    match x {
        ItemType::Armor => "item-type-armor"@,
        ItemType::SecondaryWeapon => "item-type-secondary-weapon"@,
        ItemType::Weapon => "item-type-weapon"@,
        ItemType::Accessory => "item-type-accessory"@,
    }
}

impl ItemType {
    /// The key of the localized name, looked up among the interface
    /// texts.
    pub fn locale_key(&self) -> (k: &'static str)
        ensures
            k@ == item_type_key(*self),
    {
        match self {
            ItemType::Armor => "item-type-armor",
            ItemType::SecondaryWeapon => "item-type-secondary-weapon",
            ItemType::Weapon => "item-type-weapon",
            ItemType::Accessory => "item-type-accessory",
        }
    }
}

/// The key of the localized name of a quality.
pub open spec fn quality_key(x: Quality) -> Seq<char> {
    match x {
        Quality::Simple => "item-quality-simple"@,
        Quality::Good => "item-quality-good"@,
        Quality::Perfect => "item-quality-perfect"@,
    }
}

impl Quality {
    /// The key of the localized name, looked up among the interface
    /// texts.
    pub fn locale_key(&self) -> (k: &'static str)
        ensures
            k@ == quality_key(*self),
    {
        match self {
            Quality::Simple => "item-quality-simple",
            Quality::Good => "item-quality-good",
            Quality::Perfect => "item-quality-perfect",
        }
    }
}

/// The key of the localized name of a grade.
pub open spec fn grade_key(x: Grade) -> Seq<char> {
    match x {
        Grade::Common => "item-common-grade"@,
        Grade::Elite => "item-elite-grade"@,
        Grade::Heroic => "item-heroic-grade"@,
        Grade::Legendary => "item-legendary-grade"@,
        Grade::Unique => "item-unique-grade"@,
        Grade::Mythical => "item-mythical-grade"@,
    }
}

impl Grade {
    /// The key of the localized name, looked up among the interface
    /// texts.
    pub fn locale_key(&self) -> (k: &'static str)
        ensures
            k@ == grade_key(*self),
    {
        match self {
            Grade::Common => "item-common-grade",
            Grade::Elite => "item-elite-grade",
            Grade::Heroic => "item-heroic-grade",
            Grade::Legendary => "item-legendary-grade",
            Grade::Unique => "item-unique-grade",
            Grade::Mythical => "item-mythical-grade",
        }
    }
}

/// The key of the localized name of a class.
pub open spec fn game_class_key(x: GameClass) -> Seq<char> {
    match x {
        GameClass::Assassin => "item-class-assassin"@,
        GameClass::Berserker => "item-class-berserker"@,
        GameClass::Guardian => "item-class-guardian"@,
        GameClass::Magician => "item-class-magician"@,
        GameClass::Priest => "item-class-priest"@,
        GameClass::Ranger => "item-class-ranger"@,
        GameClass::Trickster => "item-class-trickster"@,
        GameClass::Wizard => "item-class-wizard"@,
    }
}

impl GameClass {
    /// The key of the localized name, looked up among the interface
    /// texts.
    pub fn locale_key(&self) -> (k: &'static str)
        ensures
            k@ == game_class_key(*self),
    {
        match self {
            GameClass::Assassin => "item-class-assassin",
            GameClass::Berserker => "item-class-berserker",
            GameClass::Guardian => "item-class-guardian",
            GameClass::Magician => "item-class-magician",
            GameClass::Priest => "item-class-priest",
            GameClass::Ranger => "item-class-ranger",
            GameClass::Trickster => "item-class-trickster",
            GameClass::Wizard => "item-class-wizard",
        }
    }
}

/// The key of the localized name of a loading stage.
pub open spec fn game_data_loading_status_key(x: GameDataLoadingStatus) -> Seq<char> {
    match x {
        GameDataLoadingStatus::ItemSet => "game-data-loading-itemset"@,
        GameDataLoadingStatus::Weapon => "game-data-loading-weapon"@,
        GameDataLoadingStatus::Accessory => "game-data-loading-accessory"@,
        GameDataLoadingStatus::Armor => "game-data-loading-armor"@,
        GameDataLoadingStatus::SecondaryWeapon => "game-data-loading-secondary-weapon"@,
        GameDataLoadingStatus::Tempering => "game-data-loading-tempering"@,
        GameDataLoadingStatus::Effects => "game-data-loading-effects"@,
        GameDataLoadingStatus::Quality => "game-data-loading-quality"@,
        GameDataLoadingStatus::Material => "game-data-loading-material"@,
        GameDataLoadingStatus::Recipe => "game-data-loading-recipe"@,
        GameDataLoadingStatus::ProductMaterial => "game-data-loading-product-material"@,
        GameDataLoadingStatus::FellowEquip => "game-data-loading-fellow-equip"@,
        GameDataLoadingStatus::Consume => "game-data-loading-consume"@,
        GameDataLoadingStatus::Boost => "game-data-loading-boost"@,
        GameDataLoadingStatus::Gem => "game-data-loading-gem"@,
        GameDataLoadingStatus::SealedFellow => "game-data-loading-sealed-fellow"@,
        GameDataLoadingStatus::SkillBook => "game-data-loading-skill-book"@,
        GameDataLoadingStatus::Exchange => "game-data-loading-exchange"@,
    }
}

impl GameDataLoadingStatus {
    /// The key of the localized name, looked up among the interface
    /// texts.
    pub fn locale_key(&self) -> (k: &'static str)
        ensures
            k@ == game_data_loading_status_key(*self),
    {
        match self {
            GameDataLoadingStatus::ItemSet => "game-data-loading-itemset",
            GameDataLoadingStatus::Weapon => "game-data-loading-weapon",
            GameDataLoadingStatus::Accessory => "game-data-loading-accessory",
            GameDataLoadingStatus::Armor => "game-data-loading-armor",
            GameDataLoadingStatus::SecondaryWeapon => "game-data-loading-secondary-weapon",
            GameDataLoadingStatus::Tempering => "game-data-loading-tempering",
            GameDataLoadingStatus::Effects => "game-data-loading-effects",
            GameDataLoadingStatus::Quality => "game-data-loading-quality",
            GameDataLoadingStatus::Material => "game-data-loading-material",
            GameDataLoadingStatus::Recipe => "game-data-loading-recipe",
            GameDataLoadingStatus::ProductMaterial => "game-data-loading-product-material",
            GameDataLoadingStatus::FellowEquip => "game-data-loading-fellow-equip",
            GameDataLoadingStatus::Consume => "game-data-loading-consume",
            GameDataLoadingStatus::Boost => "game-data-loading-boost",
            GameDataLoadingStatus::Gem => "game-data-loading-gem",
            GameDataLoadingStatus::SealedFellow => "game-data-loading-sealed-fellow",
            GameDataLoadingStatus::SkillBook => "game-data-loading-skill-book",
            GameDataLoadingStatus::Exchange => "game-data-loading-exchange",
        }
    }
}

} // verus!

verus! {

/// Different crafting positions name different material types.
pub proof fn lemma_material_at_injective(a: int, b: int)
    requires
        0 <= a < 6,
        0 <= b < 6,
        spec_material_at(a) == spec_material_at(b),
    ensures
        a == b,
{
}

impl MaterialType {
    /// The crafting position of this type.
    pub fn craft_index(&self) -> (i: usize)
        ensures
            i < 6,
            spec_material_at(i as int) == *self,
    {
        match self {
            MaterialType::Alchemy => 0,
            MaterialType::Cooking => 1,
            MaterialType::WeaponCrafting => 2,
            MaterialType::ArmorCrafting => 3,
            MaterialType::JewelryCrafting => 4,
            MaterialType::BarderCrafting => 5,
        }
    }

    /// The type at crafting position `i`.
    pub fn at_craft_index(i: usize) -> (t: MaterialType)
        ensures
            t == spec_material_at(i as int),
    {
        if i == 0 {
            MaterialType::Alchemy
        } else if i == 1 {
            MaterialType::Cooking
        } else if i == 2 {
            MaterialType::WeaponCrafting
        } else if i == 3 {
            MaterialType::ArmorCrafting
        } else if i == 4 {
            MaterialType::JewelryCrafting
        } else {
            MaterialType::BarderCrafting
        }
    }
}

} // verus!

verus! {

/// The name of a language in that language.
pub open spec fn language_title(l: Language) -> Seq<char> {
    match l {
        Language::English => "English"@,
        Language::Russian => "Русский"@,
    }
}

impl Language {
    /// The name of the language in that language, as the settings list it.
    pub fn title(&self) -> (s: &'static str)
        ensures
            s@ == language_title(*self),
    {
        match self {
            Language::English => "English",
            Language::Russian => "Русский",
        }
    }
}

} // verus!

verus! {

/// A preview's quality steps Simple, Good, Perfect and back to Simple.
pub proof fn law_quality_order(q: Quality)
    ensures
        spec_next_quality(Quality::Simple) == Quality::Good,
        spec_next_quality(Quality::Good) == Quality::Perfect,
        spec_next_quality(Quality::Perfect) == Quality::Simple,
        spec_next_quality(q) != q,
{
}

/// The numbers the data files give the grades: Common 1, Elite 2, Heroic 3,
/// Legendary 4, Unique 6, Mythical 7; no other number names a grade.
pub proof fn law_grade_numbers(v: u8)
    ensures
        spec_grade_repr(Grade::Common) == 1,
        spec_grade_repr(Grade::Elite) == 2,
        spec_grade_repr(Grade::Heroic) == 3,
        spec_grade_repr(Grade::Legendary) == 4,
        spec_grade_repr(Grade::Unique) == 6,
        spec_grade_repr(Grade::Mythical) == 7,
        spec_grade_from_repr(v) is Some <==> (1 <= v <= 4 || v == 6 || v == 7),
        spec_grade_from_repr(v) matches Some(g) ==> spec_grade_repr(g) == v,
{
}

/// The class codes of the data files: GD the Guardian, MG the Magician, WZ
/// the Wizard, TF the Assassin, WR the Berserker, PR the Priest, AC the
/// Ranger and DO the Trickster; each class has one code.
pub proof fn law_class_codes(s: Seq<char>, t: Seq<char>)
    ensures
        spec_class_from_code("GD"@) == Some(GameClass::Guardian),
        spec_class_from_code("MG"@) == Some(GameClass::Magician),
        spec_class_from_code("WZ"@) == Some(GameClass::Wizard),
        spec_class_from_code("TF"@) == Some(GameClass::Assassin),
        spec_class_from_code("WR"@) == Some(GameClass::Berserker),
        spec_class_from_code("PR"@) == Some(GameClass::Priest),
        spec_class_from_code("AC"@) == Some(GameClass::Ranger),
        spec_class_from_code("DO"@) == Some(GameClass::Trickster),
        spec_class_from_code(s) is Some && spec_class_from_code(s) == spec_class_from_code(t) ==> s == t,
{
    reveal_strlit("GD");
    reveal_strlit("MG");
    reveal_strlit("WZ");
    reveal_strlit("TF");
    reveal_strlit("WR");
    reveal_strlit("PR");
    reveal_strlit("AC");
    reveal_strlit("DO");
    assert("GD"@[0] == 'G' && "GD"@[1] == 'D' && "GD"@.len() == 2);
    assert("MG"@[0] == 'M' && "MG"@[1] == 'G' && "MG"@.len() == 2);
    assert("WZ"@[0] == 'W' && "WZ"@[1] == 'Z' && "WZ"@.len() == 2);
    assert("TF"@[0] == 'T' && "TF"@[1] == 'F' && "TF"@.len() == 2);
    assert("WR"@[0] == 'W' && "WR"@[1] == 'R' && "WR"@.len() == 2);
    assert("PR"@[0] == 'P' && "PR"@[1] == 'R' && "PR"@.len() == 2);
    assert("AC"@[0] == 'A' && "AC"@[1] == 'C' && "AC"@.len() == 2);
    assert("DO"@[0] == 'D' && "DO"@[1] == 'O' && "DO"@.len() == 2);
}

} // verus!

verus! {

/// The crafting codes of the data files and the material and recipe kinds
/// they name: "al" alchemy, "co" cooking, "we" weapon crafting, "ar" armor
/// crafting, "as" jewelry crafting and "fe" barding.
pub proof fn law_craft_codes()
    ensures
        spec_craft_code("al"@) matches Some(i) && spec_material_at(i) == MaterialType::Alchemy && spec_recipe_at(i) == RecipeType::Alchemy,
        spec_craft_code("co"@) matches Some(i) && spec_material_at(i) == MaterialType::Cooking && spec_recipe_at(i) == RecipeType::Cooking,
        spec_craft_code("we"@) matches Some(i) && spec_material_at(i) == MaterialType::WeaponCrafting && spec_recipe_at(i) == RecipeType::WeaponCrafting,
        spec_craft_code("ar"@) matches Some(i) && spec_material_at(i) == MaterialType::ArmorCrafting && spec_recipe_at(i) == RecipeType::ArmorCrafting,
        spec_craft_code("as"@) matches Some(i) && spec_material_at(i) == MaterialType::JewelryCrafting && spec_recipe_at(i) == RecipeType::JewelryCrafting,
        spec_craft_code("fe"@) matches Some(i) && spec_material_at(i) == MaterialType::BarderCrafting && spec_recipe_at(i) == RecipeType::BarderCrafting,
{
    reveal_strlit("al");
    assert("al"@[0] == 'a' && "al"@[1] == 'l' && "al"@.len() == 2);
    reveal_strlit("co");
    assert("co"@[0] == 'c' && "co"@[1] == 'o' && "co"@.len() == 2);
    reveal_strlit("we");
    assert("we"@[0] == 'w' && "we"@[1] == 'e' && "we"@.len() == 2);
    reveal_strlit("ar");
    assert("ar"@[0] == 'a' && "ar"@[1] == 'r' && "ar"@.len() == 2);
    reveal_strlit("as");
    assert("as"@[0] == 'a' && "as"@[1] == 's' && "as"@.len() == 2);
    reveal_strlit("fe");
    assert("fe"@[0] == 'f' && "fe"@[1] == 'e' && "fe"@.len() == 2);
}

} // verus!
