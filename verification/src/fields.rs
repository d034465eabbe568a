//! What a record's readers make of a single field: text as read, in upper
//! or lower case, number bits, small integers and flags derived from the
//! number, a grade, an effect, a class list, a skill reference.  A tag past
//! the end of the record leaves the field at its default.
use vstd::prelude::*;

use crate::effects::{spec_effect_parsed, ItemEffect};
use crate::kinds::{spec_class_from_code, spec_grade_from_repr, ClassSet, GameClass, Grade};
use crate::numeric::{f32_bits_nonzero, f32_bits_to_u16, f32_bits_to_u8, f32_nonzero, f32_to_uint};
use crate::outside::{unicode_lowercase, unicode_uppercase};
use crate::table::{bits_of, text_of, RawField, RawValue};
use crate::text::{chars_of, is_single, replace, replace_seq, split, split_char, string_of, to_lower, to_upper};

verus! {

/// The record has a field at `i`.
pub open spec fn has(rec: Seq<RawValue>, i: int) -> bool {
    0 <= i < rec.len()
}

/// The text at `i`, empty when absent.
pub open spec fn field_text(rec: Seq<RawValue>, i: int) -> Seq<char> {
    if has(rec, i) {
        text_of(rec[i])
    } else {
        Seq::empty()
    }
}

/// The text at `i` in upper case, empty when absent.
pub open spec fn field_upper(rec: Seq<RawValue>, i: int) -> Seq<char> {
    if has(rec, i) {
        unicode_uppercase(text_of(rec[i]))
    } else {
        Seq::empty()
    }
}

/// The text at `i` in lower case, empty when absent.
pub open spec fn field_lower(rec: Seq<RawValue>, i: int) -> Seq<char> {
    if has(rec, i) {
        unicode_lowercase(text_of(rec[i]))
    } else {
        Seq::empty()
    }
}

/// The number bits at `i`, 0 when absent.
pub open spec fn field_bits(rec: Seq<RawValue>, i: int) -> u32 {
    if has(rec, i) {
        bits_of(rec[i])
    } else {
        0
    }
}

/// The number at `i` cast to `u8`, 0 when absent.
pub open spec fn field_u8(rec: Seq<RawValue>, i: int) -> u8 {
    if has(rec, i) {
        f32_to_uint(bits_of(rec[i]), 255) as u8
    } else {
        0
    }
}

/// The number at `i` cast to `u16`, 0 when absent.
pub open spec fn field_u16(rec: Seq<RawValue>, i: int) -> u16 {
    if has(rec, i) {
        f32_to_uint(bits_of(rec[i]), 65535) as u16
    } else {
        0
    }
}

/// Whether the number at `i` is present and not zero.
pub open spec fn field_flag(rec: Seq<RawValue>, i: int) -> bool {
    has(rec, i) && f32_nonzero(bits_of(rec[i]))
}

/// The grade whose number is the number at `i` cast to `u8`.
pub open spec fn field_grade(rec: Seq<RawValue>, i: int) -> Option<Grade> {
    if has(rec, i) {
        spec_grade_from_repr(f32_to_uint(bits_of(rec[i]), 255) as u8)
    } else {
        None
    }
}

/// The text "*" or "0", which the tables write for "no value".
pub open spec fn is_no_value(s: Seq<char>) -> bool {
    s == seq!['*'] || s == seq!['0']
}

/// The view of an optional effect.
pub open spec fn effect_view(e: Option<ItemEffect>) -> Option<(Seq<char>, Option<(Seq<char>, Seq<char>)>)> {
    match e {
        Some(x) => Some(x@),
        None => None,
    }
}

/// The effect written at `i`, unless absent or "*" or "0".
pub open spec fn field_effect(rec: Seq<RawValue>, i: int) -> Option<(Seq<char>, Option<(Seq<char>, Seq<char>)>)> {
    if has(rec, i) && !is_no_value(text_of(rec[i])) {
        Some((text_of(rec[i]), spec_effect_parsed(text_of(rec[i]))))
    } else {
        None
    }
}

/// The classes named by the codes of `s` between underscores; unknown
/// codes name none.
pub open spec fn classes_of(s: Seq<char>) -> Set<GameClass> {
    Set::new(
        |c: GameClass|
            exists|k: int|
                0 <= k < split_char(s, '_').len() && spec_class_from_code(#[trigger] split_char(s, '_')[k])
                    == Some(c),
    )
}

/// The classes named at `i`, none when absent.
pub open spec fn field_classes(rec: Seq<RawValue>, i: int) -> Set<GameClass> {
    if has(rec, i) {
        classes_of(text_of(rec[i]))
    } else {
        Set::empty()
    }
}

/// A weapon's skill reference at `i`: upper case, every "." replaced by
/// "_DESCRIPTION_", none when absent or "*".
pub open spec fn field_skill_dotted(rec: Seq<RawValue>, i: int) -> Option<Seq<char>> {
    if has(rec, i) {
        let e = replace_seq(unicode_uppercase(text_of(rec[i])), seq!['.'], "_DESCRIPTION_"@);
        if e == seq!['*'] {
            None
        } else {
            Some(e)
        }
    } else {
        None
    }
}

/// A skill reference at `i`: upper case, every ".1" removed, then
/// "_DESCRIPTION_1" appended; none when absent or "*".
pub open spec fn field_skill_described(rec: Seq<RawValue>, i: int) -> Option<Seq<char>> {
    if has(rec, i) {
        let e = replace_seq(unicode_uppercase(text_of(rec[i])), seq!['.', '1'], Seq::empty());
        if e == seq!['*'] {
            None
        } else {
            Some(e + "_DESCRIPTION_1"@)
        }
    } else {
        None
    }
}

/// The view of an optional string.
pub open spec fn opt_view(s: Option<String>) -> Option<Seq<char>> {
    match s {
        Some(x) => Some(x@),
        None => None,
    }
}

/// The text at `i`.
pub fn get_text(rec: &Vec<RawField>, i: usize) -> (s: String)
    ensures
        s@ == field_text(rec@.map_values(|f: RawField| f@), i as int),
{
    if i < rec.len() {
        match &rec[i] {
            RawField::Text(t) => t.clone(),
            _ => String::new(),
        }
    } else {
        String::new()
    }
}

/// The text at `i` in upper case.
pub fn get_upper(rec: &Vec<RawField>, i: usize) -> (s: String)
    ensures
        s@ == field_upper(rec@.map_values(|f: RawField| f@), i as int),
{
    if i < rec.len() {
        match &rec[i] {
            RawField::Text(t) => to_upper(t.as_str()),
            _ => {
                let e = String::new();
                to_upper(e.as_str())
            },
        }
    } else {
        String::new()
    }
}

/// The text at `i` in lower case.
pub fn get_lower(rec: &Vec<RawField>, i: usize) -> (s: String)
    ensures
        s@ == field_lower(rec@.map_values(|f: RawField| f@), i as int),
{
    if i < rec.len() {
        match &rec[i] {
            RawField::Text(t) => to_lower(t.as_str()),
            _ => {
                let e = String::new();
                to_lower(e.as_str())
            },
        }
    } else {
        String::new()
    }
}

/// The number bits at `i`.
pub fn get_bits(rec: &Vec<RawField>, i: usize) -> (b: u32)
    ensures
        b == field_bits(rec@.map_values(|f: RawField| f@), i as int),
{
    if i < rec.len() {
        match &rec[i] {
            RawField::Number(b) => *b,
            _ => 0,
        }
    } else {
        0
    }
}

/// The number at `i` cast to `u8`.
pub fn get_u8(rec: &Vec<RawField>, i: usize) -> (v: u8)
    ensures
        v == field_u8(rec@.map_values(|f: RawField| f@), i as int),
{
    if i < rec.len() {
        f32_bits_to_u8(get_bits(rec, i))
    } else {
        0
    }
}

/// The number at `i` cast to `u16`.
pub fn get_u16(rec: &Vec<RawField>, i: usize) -> (v: u16)
    ensures
        v == field_u16(rec@.map_values(|f: RawField| f@), i as int),
{
    if i < rec.len() {
        f32_bits_to_u16(get_bits(rec, i))
    } else {
        0
    }
}

/// Whether the number at `i` is present and not zero.
pub fn get_flag(rec: &Vec<RawField>, i: usize) -> (v: bool)
    ensures
        v == field_flag(rec@.map_values(|f: RawField| f@), i as int),
{
    i < rec.len() && f32_bits_nonzero(get_bits(rec, i))
}

/// The grade named by the number at `i`.
pub fn get_grade(rec: &Vec<RawField>, i: usize) -> (g: Option<Grade>)
    ensures
        g == field_grade(rec@.map_values(|f: RawField| f@), i as int),
{
    if i < rec.len() {
        Grade::from_repr(f32_bits_to_u8(get_bits(rec, i)))
    } else {
        None
    }
}

/// Whether `s` is "*" or "0".
pub fn no_value(s: &str) -> (b: bool)
    ensures
        b == is_no_value(s@),
{
    let v = chars_of(s);
    is_single(&v, '*') || is_single(&v, '0')
}

/// The effect written at `i`.
pub fn get_effect(rec: &Vec<RawField>, i: usize) -> (e: Option<ItemEffect>)
    ensures
        effect_view(e) == field_effect(rec@.map_values(|f: RawField| f@), i as int),
{
    if i < rec.len() {
        let t = get_text(rec, i);
        if no_value(t.as_str()) {
            None
        } else {
            Some(ItemEffect::new(t))
        }
    } else {
        None
    }
}

/// The classes named by the codes of `s`.
pub fn parse_classes(s: &str) -> (c: ClassSet)
    ensures
        c@ == classes_of(s@),
{
    let v = chars_of(s);
    let parts = split(&v, '_');
    let mut c = ClassSet::new();
    let mut k: usize = 0;
    while k < parts.len()
        invariant
            k <= parts@.len(),
            parts@.len() == split_char(s@, '_').len(),
            v@ == s@,
            forall|j: int| 0 <= j < parts@.len() ==> #[trigger] parts@[j]@ == split_char(s@, '_')[j],
            forall|d: GameClass| #![auto] c@.contains(d) <==> exists|j: int|
                0 <= j < k && spec_class_from_code(split_char(s@, '_')[j]) == Some(d),
        decreases parts.len() - k,
    {
        let piece = string_of(&parts[k]);
        assert(piece@ == split_char(s@, '_')[k as int]);
        match GameClass::try_from(piece.as_str()) {
            Ok(g) => {
                c.insert(g);
                assert forall|d: GameClass| #![auto] c@.contains(d) <==> exists|j: int|
                    0 <= j < k + 1 && spec_class_from_code(split_char(s@, '_')[j]) == Some(d) by {
                    if d == g {
                        assert(spec_class_from_code(split_char(s@, '_')[k as int]) == Some(d));
                    }
                }
            },
            Err(_) => {
                assert forall|d: GameClass| #![auto] c@.contains(d) <==> exists|j: int|
                    0 <= j < k + 1 && spec_class_from_code(split_char(s@, '_')[j]) == Some(d) by {
                    if exists|j: int| 0 <= j < k + 1 && spec_class_from_code(split_char(s@, '_')[j]) == Some(d) {
                        let j = choose|j: int| 0 <= j < k + 1 && spec_class_from_code(split_char(s@, '_')[j]) == Some(d);
                        assert(j != k);
                    }
                }
            },
        }
        k = k + 1;
    }
    assert(c@ =~= classes_of(s@));
    c
}

/// The classes named at `i`.
pub fn get_classes(rec: &Vec<RawField>, i: usize) -> (c: ClassSet)
    ensures
        c@ == field_classes(rec@.map_values(|f: RawField| f@), i as int),
{
    if i < rec.len() {
        let t = get_text(rec, i);
        parse_classes(t.as_str())
    } else {
        let c = ClassSet::new();
        c
    }
}

/// A weapon's skill reference at `i`.
pub fn get_skill_dotted(rec: &Vec<RawField>, i: usize) -> (s: Option<String>)
    ensures
        opt_view(s) == field_skill_dotted(rec@.map_values(|f: RawField| f@), i as int),
{
    if i < rec.len() {
        let up = get_upper(rec, i);
        let v = chars_of(up.as_str());
        let from = vec!['.'];
        let to = chars_of("_DESCRIPTION_");
        let e = replace(&v, &from, &to);
        assert(from@ =~= seq!['.']);
        if is_single(&e, '*') {
            None
        } else {
            Some(string_of(&e))
        }
    } else {
        None
    }
}

/// A skill reference at `i` with "_DESCRIPTION_1" appended.
pub fn get_skill_described(rec: &Vec<RawField>, i: usize) -> (s: Option<String>)
    ensures
        opt_view(s) == field_skill_described(rec@.map_values(|f: RawField| f@), i as int),
{
    if i < rec.len() {
        let up = get_upper(rec, i);
        let v = chars_of(up.as_str());
        let from = vec!['.', '1'];
        let to: Vec<char> = Vec::new();
        let e = replace(&v, &from, &to);
        assert(from@ =~= seq!['.', '1']);
        assert(to@ =~= Seq::<char>::empty());
        if is_single(&e, '*') {
            None
        } else {
            let mut r = string_of(&e);
            r.append("_DESCRIPTION_1");
            Some(r)
        }
    } else {
        None
    }
}

} // verus!

verus! {

/// A skill reference at `i`, in upper case, unless it reads "*".
pub open spec fn field_skill_upper(rec: Seq<RawValue>, i: int) -> Option<Seq<char>> {
    if has(rec, i) && field_upper(rec, i) != seq!['*'] {
        Some(field_upper(rec, i))
    } else {
        None
    }
}

/// A skill reference at `i`, in upper case.
pub fn get_skill_upper(rec: &Vec<RawField>, i: usize) -> (s: Option<String>)
    ensures
        opt_view(s) == field_skill_upper(rec@.map_values(|f: RawField| f@), i as int),
{
    if i < rec.len() {
        let up = get_upper(rec, i);
        let v = chars_of(up.as_str());
        if is_single(&v, '*') {
            None
        } else {
            Some(up)
        }
    } else {
        None
    }
}

} // verus!

verus! {

/// The number bits at `i` when the number is not zero.
pub open spec fn field_nonzero_bits(rec: Seq<RawValue>, i: int) -> Option<u32> {
    if has(rec, i) && f32_nonzero(bits_of(rec[i])) {
        Some(bits_of(rec[i]))
    } else {
        None
    }
}

/// The number bits at `i` when the number is not zero.
pub fn get_nonzero_bits(rec: &Vec<RawField>, i: usize) -> (b: Option<u32>)
    ensures
        b == field_nonzero_bits(rec@.map_values(|f: RawField| f@), i as int),
{
    if i < rec.len() {
        let v = get_bits(rec, i);
        if f32_bits_nonzero(v) {
            Some(v)
        } else {
            None
        }
    } else {
        None
    }
}

/// The ranged effect text at `i`, unless it reads "*" or "0" or starts
/// with "*," or "0,".
pub open spec fn field_step_effect(rec: Seq<RawValue>, i: int) -> Option<Seq<char>> {
    if has(rec, i) && !is_no_value(text_of(rec[i])) && !crate::text::starts_with(text_of(rec[i]), seq!['*', ','])
        && !crate::text::starts_with(text_of(rec[i]), seq!['0', ',']) {
        Some(text_of(rec[i]))
    } else {
        None
    }
}

/// The ranged effect text at `i`.
pub fn get_step_effect(rec: &Vec<RawField>, i: usize) -> (s: Option<String>)
    ensures
        opt_view(s) == field_step_effect(rec@.map_values(|f: RawField| f@), i as int),
{
    if i < rec.len() {
        let t = get_text(rec, i);
        let c = chars_of(t.as_str());
        let star = vec!['*', ','];
        let zero = vec!['0', ','];
        assert(c@.skip(0) =~= c@);
        if no_value(t.as_str()) || crate::text::starts_with_at(&c, 0, &star) || crate::text::starts_with_at(&c, 0, &zero) {
            None
        } else {
            Some(t)
        }
    } else {
        None
    }
}

/// The recipe type the code at `i` names.
pub open spec fn field_recipe_type(rec: Seq<RawValue>, i: int) -> Option<crate::kinds::RecipeType> {
    if has(rec, i) {
        match crate::kinds::spec_craft_code(text_of(rec[i])) {
            Some(k) => Some(crate::kinds::spec_recipe_at(k)),
            None => None,
        }
    } else {
        None
    }
}

/// The recipe type the code at `i` names.
pub fn get_recipe_type(rec: &Vec<RawField>, i: usize) -> (r: Option<crate::kinds::RecipeType>)
    ensures
        r == field_recipe_type(rec@.map_values(|f: RawField| f@), i as int),
{
    if i < rec.len() {
        let t = get_text(rec, i);
        match crate::kinds::RecipeType::try_from(t.as_str()) {
            Ok(r) => Some(r),
            Err(_) => None,
        }
    } else {
        None
    }
}

} // verus!
