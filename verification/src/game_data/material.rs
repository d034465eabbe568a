//! Crafting materials, as the material table holds them.
use vstd::prelude::*;

use crate::fields::{
    field_bits, field_flag, field_grade, field_text, field_u16, field_u8, field_upper, get_bits, get_flag,
    get_grade, get_text, get_u16, get_u8, get_upper,
};
use crate::game_data::locale::{find_locale, locale_lookup, locale_view, table_view, Locale};
use crate::game_data::AbstractItem;
use crate::kinds::{DataFormat, Grade};
use crate::table::{
    read_record, record_readable, spec_record, table_ok, FieldKind, HeaderView, RawField, RawValue, TableError,
    TableHeader,
};
use crate::game_data::item_res::{find_res, res_lookup, res_view, ItemRes};
use crate::kinds::{spec_craft_code, spec_material_at, MaterialType};
use crate::text::{chars_of, split, split_char, string_of};

verus! {

/// Whether the crafting code `piece` names the type `t`.
pub open spec fn names_type(piece: Seq<char>, t: MaterialType) -> bool {
    match spec_craft_code(piece) {
        Some(i) => spec_material_at(i) == t,
        None => false,
    }
}

/// The crafting kinds the codes of `s`, separated by "_", name.
pub open spec fn material_types_of(s: Seq<char>) -> Set<MaterialType> {
    Set::new(|t: MaterialType| exists|k: int| 0 <= k < split_char(s, '_').len() && #[trigger] names_type(split_char(s, '_')[k], t))
}

/// The crafting kinds at positions below `n`, in order, that are in `s`.
pub open spec fn kinds_in_order(s: Set<MaterialType>, n: int) -> Seq<MaterialType>
    decreases n,
{
    if n <= 0 {
        Seq::empty()
    } else if s.contains(spec_material_at(n - 1)) {
        kinds_in_order(s, n - 1).push(spec_material_at(n - 1))
    } else {
        kinds_in_order(s, n - 1)
    }
}

/// The view of the crafting kinds a material is used for.
pub open spec fn recipe_types_view(r: Option<Vec<MaterialType>>) -> Option<Seq<MaterialType>> {
    match r {
        Some(v) => Some(v@),
        None => None,
    }
}

/// The crafting kinds the codes of `s` name, each once, in their order.
fn material_types(s: &str) -> (v: Vec<MaterialType>)
    ensures
        v@ == kinds_in_order(material_types_of(s@), 6),
{
    let c = chars_of(s);
    let parts = split(&c, '_');
    let ghost pieces = split_char(s@, '_');
    let mut found: Vec<bool> = vec![false, false, false, false, false, false];
    let mut k: usize = 0;
    while k < parts.len()
        invariant
            k <= parts@.len(),
            parts@.len() == pieces.len(),
            forall|j: int| 0 <= j < parts@.len() ==> #[trigger] parts@[j]@ == pieces[j],
            found@.len() == 6,
            forall|i: int| 0 <= i < 6 ==> found@[i] == exists|j: int| 0 <= j < k && #[trigger] spec_craft_code(pieces[j]) == Some(i),
        decreases parts@.len() - k,
    {
        let piece = string_of(&parts[k]);
        assert(piece@ == pieces[k as int]);
        match MaterialType::try_from(piece.as_str()) {
            Ok(t) => {
                let i = t.craft_index();
                proof {
                    let code = spec_craft_code(pieces[k as int])->0;
                    crate::kinds::lemma_material_at_injective(code, i as int);
                }
                found[i] = true;
                assert forall|m: int| 0 <= m < 6 implies found@[m] == exists|j: int| 0 <= j < k + 1 && #[trigger] spec_craft_code(pieces[j]) == Some(m) by {
                    if m == i {
                        assert(spec_craft_code(pieces[k as int]) == Some(m));
                    } else if exists|j: int| 0 <= j < k + 1 && spec_craft_code(pieces[j]) == Some(m) {
                        let j = choose|j: int| 0 <= j < k + 1 && spec_craft_code(pieces[j]) == Some(m);
                        assert(j != k);
                    }
                }
            },
            Err(_) => {
                assert forall|m: int| 0 <= m < 6 implies found@[m] == exists|j: int| 0 <= j < k + 1 && #[trigger] spec_craft_code(pieces[j]) == Some(m) by {
                    if exists|j: int| 0 <= j < k + 1 && spec_craft_code(pieces[j]) == Some(m) {
                        let j = choose|j: int| 0 <= j < k + 1 && spec_craft_code(pieces[j]) == Some(m);
                        assert(j != k);
                    }
                }
            },
        }
        k = k + 1;
    }
    let ghost set = material_types_of(s@);
    let mut v: Vec<MaterialType> = Vec::new();
    let mut i: usize = 0;
    while i < 6
        invariant
            i <= 6,
            found@.len() == 6,
            set == material_types_of(s@),
            pieces == split_char(s@, '_'),
            parts@.len() == pieces.len(),
            forall|m: int| 0 <= m < 6 ==> found@[m] == exists|j: int| 0 <= j < pieces.len() && #[trigger] spec_craft_code(pieces[j]) == Some(m),
            v@ == kinds_in_order(set, i as int),
        decreases 6 - i,
    {
        let t = MaterialType::at_craft_index(i);
        let ghost ti = spec_material_at(i as int);
        assert(set.contains(ti) <==> exists|k: int| 0 <= k < pieces.len() && #[trigger] names_type(pieces[k], ti));
        proof {
            if found@[i as int] {
                let j = choose|j: int| 0 <= j < pieces.len() && #[trigger] spec_craft_code(pieces[j]) == Some(i as int);
                assert(names_type(pieces[j], ti));
            }
            if set.contains(ti) {
                let j = choose|j: int| 0 <= j < pieces.len() && #[trigger] names_type(pieces[j], ti);
                assert(spec_craft_code(pieces[j]) is Some);
                let q = spec_craft_code(pieces[j])->0;
                assert(0 <= q < 6);
                crate::kinds::lemma_material_at_injective(q, i as int);
                assert(spec_craft_code(pieces[j]) == Some(i as int));
            }
        }
        assert(set.contains(ti) == found@[i as int]);
        if found[i] {
            v.push(t);
        }
        i = i + 1;
    }
    v
}

/// A crafting material.  Numbers the table stores as `f32` are kept as their bit
/// patterns.
#[derive(Debug)]
pub struct Material {
    pub locale: Option<Locale>,
    pub description_locale: Option<Locale>,
    pub recipe_type: Option<Vec<MaterialType>>,
    pub id: String,
    pub name: String,
    pub material_type: String,
    pub grade: Option<Grade>,
    pub required_level: u8,
    pub item_level: u16,
    pub purchase_price: u32,
    pub disposal_price: u32,
    pub creation_count: u32,
    pub stack_size: u16,
    pub non_tradeable: bool,
    pub non_disposable: bool,
    pub non_destroyable: bool,
    pub drop_level_check: String,
    pub binding: String,
    pub usage_restriction: String,
    pub sales_agency_category: String,
    pub drop_level_check_ignore: u32,
    pub currency_settings_id: String,
    pub purchase_limit: u32,
    pub contents_level: u32,
    pub integrated_channel_unavailable: u32,
    pub plus_rate: u32,
}

/// How a record of this table is read: text at tags 0, 1, 2, 13, 14, 15, 16,
/// 18; numbers at tags 3, 4, 5, 6, 7, 8, 9, 10, 11, 12, 17, 19, 20, 21, 22;
/// nothing else.
pub open spec fn material_kind(t: int) -> FieldKind {
    if t == 0 || t == 1 || t == 2 || t == 13 || t == 14 || t == 15 || t == 16 || t == 18 {
        FieldKind::Text
    } else if t == 3 || t == 4 || t == 5 || t == 6 || t == 7 || t == 8 || t == 9 || t == 10
        || t == 11 || t == 12 || t == 17 || t == 19 || t == 20 || t == 21 || t == 22 {
        FieldKind::Number
    } else {
        FieldKind::Skip
    }
}

/// The kinds of the tags of a table with `n` tags.
pub open spec fn material_kinds(n: nat) -> Seq<FieldKind> {
    Seq::new(n, |t: int| material_kind(t))
}

impl Material {
    /// Whether each field read from the table is what the record `r` holds
    /// at its tag.
    pub open spec fn fields_read_from(&self, r: Seq<RawValue>) -> bool {
        &&& self.id@ == field_upper(r, 0)
        &&& self.name@ == field_text(r, 1)
        &&& self.material_type@ == field_text(r, 2)
        &&& self.grade == field_grade(r, 3)
        &&& self.required_level == field_u8(r, 4)
        &&& self.item_level == field_u16(r, 5)
        &&& self.purchase_price == field_bits(r, 6)
        &&& self.disposal_price == field_bits(r, 7)
        &&& self.creation_count == field_bits(r, 8)
        &&& self.stack_size == field_u16(r, 9)
        &&& self.non_tradeable == field_flag(r, 10)
        &&& self.non_disposable == field_flag(r, 11)
        &&& self.non_destroyable == field_flag(r, 12)
        &&& self.drop_level_check@ == field_text(r, 13)
        &&& self.binding@ == field_text(r, 14)
        &&& self.usage_restriction@ == field_text(r, 15)
        &&& self.sales_agency_category@ == field_text(r, 16)
        &&& self.drop_level_check_ignore == field_bits(r, 17)
        &&& self.currency_settings_id@ == field_text(r, 18)
        &&& self.purchase_limit == field_bits(r, 19)
        &&& self.contents_level == field_bits(r, 20)
        &&& self.integrated_channel_unavailable == field_bits(r, 21)
        &&& self.plus_rate == field_bits(r, 22)
    }

    /// Whether this value is what reading the record `r` gives: its fields
    /// as `r` holds them, and nothing attached yet.
    pub open spec fn is_read_from(&self, r: Seq<RawValue>) -> bool {
        &&& self.fields_read_from(r)
        &&& self.locale is None
        &&& self.description_locale is None
        &&& self.recipe_type is None
    }

    /// Whether the fields read from the table are equal in `self` and `other`.
    pub open spec fn same_fields(&self, other: &Self) -> bool {
        &&& self.id == other.id
        &&& self.name == other.name
        &&& self.material_type == other.material_type
        &&& self.grade == other.grade
        &&& self.required_level == other.required_level
        &&& self.item_level == other.item_level
        &&& self.purchase_price == other.purchase_price
        &&& self.disposal_price == other.disposal_price
        &&& self.creation_count == other.creation_count
        &&& self.stack_size == other.stack_size
        &&& self.non_tradeable == other.non_tradeable
        &&& self.non_disposable == other.non_disposable
        &&& self.non_destroyable == other.non_destroyable
        &&& self.drop_level_check == other.drop_level_check
        &&& self.binding == other.binding
        &&& self.usage_restriction == other.usage_restriction
        &&& self.sales_agency_category == other.sales_agency_category
        &&& self.drop_level_check_ignore == other.drop_level_check_ignore
        &&& self.currency_settings_id == other.currency_settings_id
        &&& self.purchase_limit == other.purchase_limit
        &&& self.contents_level == other.contents_level
        &&& self.integrated_channel_unavailable == other.integrated_channel_unavailable
        &&& self.plus_rate == other.plus_rate
    }

    /// The kind of tag `t`.
    pub fn kind_at(t: usize) -> (k: FieldKind)
        ensures
            k == material_kind(t as int),
    {
        if t == 0 || t == 1 || t == 2 || t == 13 || t == 14 || t == 15 || t == 16 || t == 18 {
            FieldKind::Text
        } else if t == 3 || t == 4 || t == 5 || t == 6 || t == 7 || t == 8 || t == 9 || t == 10
            || t == 11 || t == 12 || t == 17 || t == 19 || t == 20 || t == 21 || t == 22 {
            FieldKind::Number
        } else {
            FieldKind::Skip
        }
    }

    /// The kinds of the `n` tags of a record.
    pub fn kinds(n: usize) -> (v: Vec<FieldKind>)
        ensures
            v@ == material_kinds(n as nat),
    {
        let mut v: Vec<FieldKind> = Vec::new();
        let mut t: usize = 0;
        while t < n
            invariant
                t <= n,
                v@ == material_kinds(t as nat),
            decreases n - t,
        {
            v.push(Self::kind_at(t));
            assert(v@ =~= material_kinds((t + 1) as nat));
            t = t + 1;
        }
        v
    }

    /// The value the fields `rec` hold.
    pub fn from_record(rec: &Vec<RawField>) -> (x: Material)
        ensures
            x.is_read_from(rec@.map_values(|f: RawField| f@)),
    {
        Material {
            locale: None,
            description_locale: None,
            recipe_type: None,
            id: get_upper(rec, 0),
            name: get_text(rec, 1),
            material_type: get_text(rec, 2),
            grade: get_grade(rec, 3),
            required_level: get_u8(rec, 4),
            item_level: get_u16(rec, 5),
            purchase_price: get_bits(rec, 6),
            disposal_price: get_bits(rec, 7),
            creation_count: get_bits(rec, 8),
            stack_size: get_u16(rec, 9),
            non_tradeable: get_flag(rec, 10),
            non_disposable: get_flag(rec, 11),
            non_destroyable: get_flag(rec, 12),
            drop_level_check: get_text(rec, 13),
            binding: get_text(rec, 14),
            usage_restriction: get_text(rec, 15),
            sales_agency_category: get_text(rec, 16),
            drop_level_check_ignore: get_bits(rec, 17),
            currency_settings_id: get_text(rec, 18),
            purchase_limit: get_bits(rec, 19),
            contents_level: get_bits(rec, 20),
            integrated_channel_unavailable: get_bits(rec, 21),
            plus_rate: get_bits(rec, 22),
        }
    }

    /// Attaches the locales that `locales` gives for the id and for the id
    /// with "_DESCRIPTION" appended.
    pub fn set_locale(&mut self, locales: &Vec<Locale>)
        ensures
            final(self).same_fields(old(self)),
            locale_view(final(self).locale) == locale_lookup(table_view(locales@), old(self).id@),
            locale_view(final(self).description_locale) == locale_lookup(
                table_view(locales@),
                old(self).id@ + "_DESCRIPTION"@,
            ),
    {
        self.locale = find_locale(locales, self.id.as_str());
        let mut key = self.id.clone();
        key.append("_DESCRIPTION");
        self.description_locale = find_locale(locales, key.as_str());
    }

    /// Takes the crafting kinds that use this material from the resource
    /// record with its id, the last of `res` to have it; nothing changes
    /// when there is none.
    pub fn set_recipe_types(&mut self, res: &Vec<ItemRes>)
        ensures
            final(self).same_fields(old(self)),
            final(self).locale == old(self).locale,
            final(self).description_locale == old(self).description_locale,
            recipe_types_view(final(self).recipe_type) == match res_lookup(res_view(res@), old(self).id@) {
                Some(x) => match x.2 {
                    Some(codes) => Some(kinds_in_order(material_types_of(codes), 6)),
                    None => None,
                },
                None => recipe_types_view(old(self).recipe_type),
            },
    {
        match find_res(res, self.id.as_str()) {
            Some(x) => {
                self.recipe_type = match &x.using_recipe_type {
                    Some(codes) => Some(material_types(codes.as_str())),
                    None => None,
                };
            },
            None => {},
        }
    }
}

impl AbstractItem for Material {
    open spec fn record_kinds(h: HeaderView) -> Seq<FieldKind> {
        material_kinds(h.0.len())
    }

    open spec fn read_from(&self, r: Seq<RawValue>, h: HeaderView) -> bool {
        self.is_read_from(r)
    }

    fn read(data: &[u8], header: &TableHeader, format: DataFormat, item_idx: usize) -> (r: Result<Material, TableError>) {
        let kinds = Self::kinds(header.tag_count());
        match read_record(data, header, format, item_idx, &kinds) {
            Ok(rec) => Ok(Self::from_record(&rec)),
            Err(e) => Err(e),
        }
    }
}

} // verus!

verus! {

/// Where each field of a material read from a record of the material table comes
/// from: the value the record holds at the tag that table gives the field.
pub proof fn law_material_field_tags(x: Material, r: Seq<RawValue>)
    requires
        x.is_read_from(r),
    ensures
        x.id@ == field_upper(r, 0),
        x.name@ == field_text(r, 1),
        x.material_type@ == field_text(r, 2),
        x.grade == field_grade(r, 3),
        x.required_level == field_u8(r, 4),
        x.item_level == field_u16(r, 5),
        x.purchase_price == field_bits(r, 6),
        x.disposal_price == field_bits(r, 7),
        x.creation_count == field_bits(r, 8),
        x.stack_size == field_u16(r, 9),
        x.non_tradeable == field_flag(r, 10),
        x.non_disposable == field_flag(r, 11),
        x.non_destroyable == field_flag(r, 12),
        x.drop_level_check@ == field_text(r, 13),
        x.binding@ == field_text(r, 14),
        x.usage_restriction@ == field_text(r, 15),
        x.sales_agency_category@ == field_text(r, 16),
        x.drop_level_check_ignore == field_bits(r, 17),
        x.currency_settings_id@ == field_text(r, 18),
        x.purchase_limit == field_bits(r, 19),
        x.contents_level == field_bits(r, 20),
        x.integrated_channel_unavailable == field_bits(r, 21),
        x.plus_rate == field_bits(r, 22),
{
}

} // verus!
