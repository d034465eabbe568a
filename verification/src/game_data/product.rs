//! Crafting recipes' products and materials, as the product table holds them.
use vstd::prelude::*;

use crate::fields::{
    field_bits, field_flag, field_text, field_u16, field_u8, field_upper, get_bits, get_flag, get_text, get_u16,
    get_u8, get_upper,
};
use crate::game_data::AbstractItem;
use crate::kinds::DataFormat;
use crate::table::{
    read_record, record_readable, spec_record, table_ok, FieldKind, HeaderView, RawField, RawValue, TableError,
    TableHeader,
};
use crate::fields::has;
use crate::game_data::catalog::{ids_of, GameData};
use crate::text::{chars_of, is_single};

verus! {

/// A reference from a recipe to an item by id, with the item's position in
/// the catalog once it has been looked up.
#[derive(Debug)]
pub struct DataTypeNode {
    pub id: String,
    pub position: Option<usize>,
}

impl View for DataTypeNode {
    type V = (Seq<char>, Option<usize>);

    open spec fn view(&self) -> (Seq<char>, Option<usize>) {
        (self.id@, self.position)
    }
}

/// The view of an optional reference.
pub open spec fn node_view(n: Option<DataTypeNode>) -> Option<(Seq<char>, Option<usize>)> {
    match n {
        Some(x) => Some(x@),
        None => None,
    }
}

/// The material at `i`: its id in upper case, not yet looked up, unless it
/// reads "*".
pub open spec fn field_material(r: Seq<RawValue>, i: int) -> Option<(Seq<char>, Option<usize>)> {
    if has(r, i) && field_upper(r, i) != seq!['*'] {
        Some((field_upper(r, i), None))
    } else {
        None
    }
}

/// The reference to the product at `i`.
fn get_node(rec: &Vec<RawField>, i: usize) -> (n: DataTypeNode)
    ensures
        n@ == (field_upper(rec@.map_values(|f: RawField| f@), i as int), None::<usize>),
{
    DataTypeNode { id: get_upper(rec, i), position: None }
}

/// The material at `i`.
fn get_material(rec: &Vec<RawField>, i: usize) -> (n: Option<DataTypeNode>)
    ensures
        node_view(n) == field_material(rec@.map_values(|f: RawField| f@), i as int),
{
    if i < rec.len() {
        let id = get_upper(rec, i);
        let c = chars_of(id.as_str());
        if is_single(&c, '*') {
            None
        } else {
            Some(DataTypeNode { id, position: None })
        }
    } else {
        None
    }
}

/// A reference with its position looked up in `ids`.
pub open spec fn linked(n: (Seq<char>, Option<usize>), ids: Seq<Seq<char>>) -> (Seq<char>, Option<usize>) {
    (n.0, if ids.contains(n.0) { Some(ids.index_of(n.0) as usize) } else { None })
}

/// An optional reference with its position looked up in `ids`.
pub open spec fn linked_opt(n: Option<(Seq<char>, Option<usize>)>, ids: Seq<Seq<char>>) -> Option<(Seq<char>, Option<usize>)> {
    match n {
        Some(x) => Some(linked(x, ids)),
        None => None,
    }
}

/// Looks `node` up in the catalog `items`.
fn link(node: &mut DataTypeNode, items: &GameData)
    requires
        items.wf(),
    ensures
        final(node)@ == linked(old(node)@, ids_of(items.entries())),
{
    node.position = items.index_of(node.id.as_str());
}

/// Looks the optional `node` up in the catalog `items`.
fn link_opt(node: &mut Option<DataTypeNode>, items: &GameData)
    requires
        items.wf(),
    ensures
        node_view(*final(node)) == linked_opt(node_view(*old(node)), ids_of(items.entries())),
{
    match node {
        Some(n) => {
            n.position = items.index_of(n.id.as_str());
        },
        None => {},
    }
}

/// A product with its materials.  Numbers the table stores as `f32` are kept as their bit
/// patterns.
#[derive(Debug)]
pub struct Product {

    pub node: DataTypeNode,
    pub productid: String,
    pub name: String,
    pub technology_type: String,
    pub technology_grade: u8,
    pub multiproduct: bool,
    pub material1: Option<DataTypeNode>,
    pub count1: u16,
    pub material1_1: Option<DataTypeNode>,
    pub count1_1: u16,
    pub material2: Option<DataTypeNode>,
    pub count2: u16,
    pub material2_1: Option<DataTypeNode>,
    pub count2_1: u16,
    pub material3: Option<DataTypeNode>,
    pub count3: u16,
    pub material3_1: Option<DataTypeNode>,
    pub count3_1: u16,
    pub material4: Option<DataTypeNode>,
    pub count4: u16,
    pub material4_1: Option<DataTypeNode>,
    pub count4_1: u16,
    pub material5: Option<DataTypeNode>,
    pub count5: u16,
    pub material5_1: Option<DataTypeNode>,
    pub count5_1: u16,
    pub item_proficiency1: u32,
    pub item_proficiency2: u32,
    pub item_proficiency3: u32,
    pub item_proficiency4: u32,
    pub success_probability: u32,
    pub base: u32,
    pub crit_probability_1: u32,
    pub crit_probability_2: u32,
    pub additional_crit_ratio: u32,
    pub penalty_probability1: u32,
    pub penalty_probability2: u32,
    pub penalty_probability3: u32,
    pub penalty_probability4: u32,
    pub penalty_probability5: u32,
    pub double_application: u32,
    pub great_success_application: u32,
    pub inheritance_on_craft: bool,
    pub inheritance_enhancement_condition: u8,
    pub inheritance_transcendence_condition: u8,
    pub seal_slot_inheritance: u32,
    pub f47: u32,
}

/// How a record of this table is read: text at tags 0, 1, 2, 3, 6, 8, 10, 12,
/// 14, 16, 18, 20, 22, 24; numbers at tags 4, 5, 7, 9, 11, 13, 15, 17, 19, 21,
/// 23, 25, 26, 27, 28, 29, 30, 31, 32, 33, 34, 35, 36, 37, 38, 39, 40, 41, 42,
/// 43, 44, 45, 46; nothing else.
pub open spec fn product_kind(t: int) -> FieldKind {
    if t == 0 || t == 1 || t == 2 || t == 3 || t == 6 || t == 8 || t == 10 || t == 12
        || t == 14 || t == 16 || t == 18 || t == 20 || t == 22 || t == 24 {
        FieldKind::Text
    } else if t == 4 || t == 5 || t == 7 || t == 9 || t == 11 || t == 13 || t == 15 || t == 17
        || t == 19 || t == 21 || t == 23 || t == 25 || t == 26 || t == 27 || t == 28
        || t == 29 || t == 30 || t == 31 || t == 32 || t == 33 || t == 34 || t == 35
        || t == 36 || t == 37 || t == 38 || t == 39 || t == 40 || t == 41 || t == 42
        || t == 43 || t == 44 || t == 45 || t == 46 {
        FieldKind::Number
    } else {
        FieldKind::Skip
    }
}

/// The kinds of the tags of a table with `n` tags.
pub open spec fn product_kinds(n: nat) -> Seq<FieldKind> {
    Seq::new(n, |t: int| product_kind(t))
}

impl Product {
    /// Whether each field read from the table is what the record `r` holds
    /// at its tag.
    pub open spec fn fields_read_from(&self, r: Seq<RawValue>) -> bool {
        &&& self.node@ == (field_upper(r, 0), None::<usize>)
        &&& self.productid@ == field_upper(r, 1)
        &&& self.name@ == field_text(r, 2)
        &&& self.technology_type@ == field_text(r, 3)
        &&& self.technology_grade == field_u8(r, 4)
        &&& self.multiproduct == field_flag(r, 5)
        &&& node_view(self.material1) == field_material(r, 6)
        &&& self.count1 == field_u16(r, 7)
        &&& node_view(self.material1_1) == field_material(r, 8)
        &&& self.count1_1 == field_u16(r, 9)
        &&& node_view(self.material2) == field_material(r, 10)
        &&& self.count2 == field_u16(r, 11)
        &&& node_view(self.material2_1) == field_material(r, 12)
        &&& self.count2_1 == field_u16(r, 13)
        &&& node_view(self.material3) == field_material(r, 14)
        &&& self.count3 == field_u16(r, 15)
        &&& node_view(self.material3_1) == field_material(r, 16)
        &&& self.count3_1 == field_u16(r, 17)
        &&& node_view(self.material4) == field_material(r, 18)
        &&& self.count4 == field_u16(r, 19)
        &&& node_view(self.material4_1) == field_material(r, 20)
        &&& self.count4_1 == field_u16(r, 21)
        &&& node_view(self.material5) == field_material(r, 22)
        &&& self.count5 == field_u16(r, 23)
        &&& node_view(self.material5_1) == field_material(r, 24)
        &&& self.count5_1 == field_u16(r, 25)
        &&& self.item_proficiency1 == field_bits(r, 26)
        &&& self.item_proficiency2 == field_bits(r, 27)
        &&& self.item_proficiency3 == field_bits(r, 28)
        &&& self.item_proficiency4 == field_bits(r, 29)
        &&& self.success_probability == field_bits(r, 30)
        &&& self.base == field_bits(r, 31)
        &&& self.crit_probability_1 == field_bits(r, 32)
        &&& self.crit_probability_2 == field_bits(r, 33)
        &&& self.additional_crit_ratio == field_bits(r, 34)
        &&& self.penalty_probability1 == field_bits(r, 35)
        &&& self.penalty_probability2 == field_bits(r, 36)
        &&& self.penalty_probability3 == field_bits(r, 37)
        &&& self.penalty_probability4 == field_bits(r, 38)
        &&& self.penalty_probability5 == field_bits(r, 39)
        &&& self.double_application == field_bits(r, 40)
        &&& self.great_success_application == field_bits(r, 41)
        &&& self.inheritance_on_craft == field_flag(r, 42)
        &&& self.inheritance_enhancement_condition == field_u8(r, 43)
        &&& self.inheritance_transcendence_condition == field_u8(r, 44)
        &&& self.seal_slot_inheritance == field_bits(r, 45)
        &&& self.f47 == field_bits(r, 46)
    }

    /// Whether this value is what reading the record `r` gives: its fields
    /// as `r` holds them, and nothing attached yet.
    pub open spec fn is_read_from(&self, r: Seq<RawValue>) -> bool {
        &&& self.fields_read_from(r)
    }

    /// Whether the fields read from the table are equal in `self` and `other`.
    pub open spec fn same_fields(&self, other: &Self) -> bool {
        &&& self.node == other.node
        &&& self.productid == other.productid
        &&& self.name == other.name
        &&& self.technology_type == other.technology_type
        &&& self.technology_grade == other.technology_grade
        &&& self.multiproduct == other.multiproduct
        &&& self.material1 == other.material1
        &&& self.count1 == other.count1
        &&& self.material1_1 == other.material1_1
        &&& self.count1_1 == other.count1_1
        &&& self.material2 == other.material2
        &&& self.count2 == other.count2
        &&& self.material2_1 == other.material2_1
        &&& self.count2_1 == other.count2_1
        &&& self.material3 == other.material3
        &&& self.count3 == other.count3
        &&& self.material3_1 == other.material3_1
        &&& self.count3_1 == other.count3_1
        &&& self.material4 == other.material4
        &&& self.count4 == other.count4
        &&& self.material4_1 == other.material4_1
        &&& self.count4_1 == other.count4_1
        &&& self.material5 == other.material5
        &&& self.count5 == other.count5
        &&& self.material5_1 == other.material5_1
        &&& self.count5_1 == other.count5_1
        &&& self.item_proficiency1 == other.item_proficiency1
        &&& self.item_proficiency2 == other.item_proficiency2
        &&& self.item_proficiency3 == other.item_proficiency3
        &&& self.item_proficiency4 == other.item_proficiency4
        &&& self.success_probability == other.success_probability
        &&& self.base == other.base
        &&& self.crit_probability_1 == other.crit_probability_1
        &&& self.crit_probability_2 == other.crit_probability_2
        &&& self.additional_crit_ratio == other.additional_crit_ratio
        &&& self.penalty_probability1 == other.penalty_probability1
        &&& self.penalty_probability2 == other.penalty_probability2
        &&& self.penalty_probability3 == other.penalty_probability3
        &&& self.penalty_probability4 == other.penalty_probability4
        &&& self.penalty_probability5 == other.penalty_probability5
        &&& self.double_application == other.double_application
        &&& self.great_success_application == other.great_success_application
        &&& self.inheritance_on_craft == other.inheritance_on_craft
        &&& self.inheritance_enhancement_condition == other.inheritance_enhancement_condition
        &&& self.inheritance_transcendence_condition == other.inheritance_transcendence_condition
        &&& self.seal_slot_inheritance == other.seal_slot_inheritance
        &&& self.f47 == other.f47
    }

    /// The kind of tag `t`.
    pub fn kind_at(t: usize) -> (k: FieldKind)
        ensures
            k == product_kind(t as int),
    {
        if t == 0 || t == 1 || t == 2 || t == 3 || t == 6 || t == 8 || t == 10 || t == 12
            || t == 14 || t == 16 || t == 18 || t == 20 || t == 22 || t == 24 {
            FieldKind::Text
        } else if t == 4 || t == 5 || t == 7 || t == 9 || t == 11 || t == 13 || t == 15 || t == 17
            || t == 19 || t == 21 || t == 23 || t == 25 || t == 26 || t == 27 || t == 28
            || t == 29 || t == 30 || t == 31 || t == 32 || t == 33 || t == 34 || t == 35
            || t == 36 || t == 37 || t == 38 || t == 39 || t == 40 || t == 41 || t == 42
            || t == 43 || t == 44 || t == 45 || t == 46 {
            FieldKind::Number
        } else {
            FieldKind::Skip
        }
    }

    /// The kinds of the `n` tags of a record.
    pub fn kinds(n: usize) -> (v: Vec<FieldKind>)
        ensures
            v@ == product_kinds(n as nat),
    {
        let mut v: Vec<FieldKind> = Vec::new();
        let mut t: usize = 0;
        while t < n
            invariant
                t <= n,
                v@ == product_kinds(t as nat),
            decreases n - t,
        {
            v.push(Self::kind_at(t));
            assert(v@ =~= product_kinds((t + 1) as nat));
            t = t + 1;
        }
        v
    }

    /// The value the fields `rec` hold.
    pub fn from_record(rec: &Vec<RawField>) -> (x: Product)
        ensures
            x.is_read_from(rec@.map_values(|f: RawField| f@)),
    {
        Product {

            node: get_node(rec, 0),
            productid: get_upper(rec, 1),
            name: get_text(rec, 2),
            technology_type: get_text(rec, 3),
            technology_grade: get_u8(rec, 4),
            multiproduct: get_flag(rec, 5),
            material1: get_material(rec, 6),
            count1: get_u16(rec, 7),
            material1_1: get_material(rec, 8),
            count1_1: get_u16(rec, 9),
            material2: get_material(rec, 10),
            count2: get_u16(rec, 11),
            material2_1: get_material(rec, 12),
            count2_1: get_u16(rec, 13),
            material3: get_material(rec, 14),
            count3: get_u16(rec, 15),
            material3_1: get_material(rec, 16),
            count3_1: get_u16(rec, 17),
            material4: get_material(rec, 18),
            count4: get_u16(rec, 19),
            material4_1: get_material(rec, 20),
            count4_1: get_u16(rec, 21),
            material5: get_material(rec, 22),
            count5: get_u16(rec, 23),
            material5_1: get_material(rec, 24),
            count5_1: get_u16(rec, 25),
            item_proficiency1: get_bits(rec, 26),
            item_proficiency2: get_bits(rec, 27),
            item_proficiency3: get_bits(rec, 28),
            item_proficiency4: get_bits(rec, 29),
            success_probability: get_bits(rec, 30),
            base: get_bits(rec, 31),
            crit_probability_1: get_bits(rec, 32),
            crit_probability_2: get_bits(rec, 33),
            additional_crit_ratio: get_bits(rec, 34),
            penalty_probability1: get_bits(rec, 35),
            penalty_probability2: get_bits(rec, 36),
            penalty_probability3: get_bits(rec, 37),
            penalty_probability4: get_bits(rec, 38),
            penalty_probability5: get_bits(rec, 39),
            double_application: get_bits(rec, 40),
            great_success_application: get_bits(rec, 41),
            inheritance_on_craft: get_flag(rec, 42),
            inheritance_enhancement_condition: get_u8(rec, 43),
            inheritance_transcendence_condition: get_u8(rec, 44),
            seal_slot_inheritance: get_bits(rec, 45),
            f47: get_bits(rec, 46),
        }
    }

    /// Looks the product and each material up in the catalog `items`; every
    /// other field stays as it was.
    pub fn validate(&mut self, items: &GameData)
        requires
            items.wf(),
        ensures
            final(self).node@ == linked(old(self).node@, ids_of(items.entries())),
            node_view(final(self).material1) == linked_opt(node_view(old(self).material1), ids_of(items.entries())),
            node_view(final(self).material1_1) == linked_opt(node_view(old(self).material1_1), ids_of(items.entries())),
            node_view(final(self).material2) == linked_opt(node_view(old(self).material2), ids_of(items.entries())),
            node_view(final(self).material2_1) == linked_opt(node_view(old(self).material2_1), ids_of(items.entries())),
            node_view(final(self).material3) == linked_opt(node_view(old(self).material3), ids_of(items.entries())),
            node_view(final(self).material3_1) == linked_opt(node_view(old(self).material3_1), ids_of(items.entries())),
            node_view(final(self).material4) == linked_opt(node_view(old(self).material4), ids_of(items.entries())),
            node_view(final(self).material4_1) == linked_opt(node_view(old(self).material4_1), ids_of(items.entries())),
            node_view(final(self).material5) == linked_opt(node_view(old(self).material5), ids_of(items.entries())),
            node_view(final(self).material5_1) == linked_opt(node_view(old(self).material5_1), ids_of(items.entries())),
            *final(self) == (Product {
                node: final(self).node,
                material1: final(self).material1,
                material1_1: final(self).material1_1,
                material2: final(self).material2,
                material2_1: final(self).material2_1,
                material3: final(self).material3,
                material3_1: final(self).material3_1,
                material4: final(self).material4,
                material4_1: final(self).material4_1,
                material5: final(self).material5,
                material5_1: final(self).material5_1,
                ..*old(self)
            }),
    {
        link(&mut self.node, items);
        link_opt(&mut self.material1, items);
        link_opt(&mut self.material1_1, items);
        link_opt(&mut self.material2, items);
        link_opt(&mut self.material2_1, items);
        link_opt(&mut self.material3, items);
        link_opt(&mut self.material3_1, items);
        link_opt(&mut self.material4, items);
        link_opt(&mut self.material4_1, items);
        link_opt(&mut self.material5, items);
        link_opt(&mut self.material5_1, items);
    }
}

impl AbstractItem for Product {
    open spec fn record_kinds(h: HeaderView) -> Seq<FieldKind> {
        product_kinds(h.0.len())
    }

    open spec fn read_from(&self, r: Seq<RawValue>, h: HeaderView) -> bool {
        self.is_read_from(r)
    }

    fn read(data: &[u8], header: &TableHeader, format: DataFormat, item_idx: usize) -> (r: Result<Product, TableError>) {
        let kinds = Self::kinds(header.tag_count());
        match read_record(data, header, format, item_idx, &kinds) {
            Ok(rec) => Ok(Self::from_record(&rec)),
            Err(e) => Err(e),
        }
    }
}

} // verus!

verus! {

/// Where each field of a product read from a record of the product table comes
/// from: the value the record holds at the tag that table gives the field.
pub proof fn law_product_field_tags(x: Product, r: Seq<RawValue>)
    requires
        x.is_read_from(r),
    ensures
        x.productid@ == field_upper(r, 1),
        x.name@ == field_text(r, 2),
        x.technology_type@ == field_text(r, 3),
        x.technology_grade == field_u8(r, 4),
        x.multiproduct == field_flag(r, 5),
        node_view(x.material1) == field_material(r, 6),
        x.count1 == field_u16(r, 7),
        node_view(x.material1_1) == field_material(r, 8),
        x.count1_1 == field_u16(r, 9),
        node_view(x.material2) == field_material(r, 10),
        x.count2 == field_u16(r, 11),
        node_view(x.material2_1) == field_material(r, 12),
        x.count2_1 == field_u16(r, 13),
        node_view(x.material3) == field_material(r, 14),
        x.count3 == field_u16(r, 15),
        node_view(x.material3_1) == field_material(r, 16),
        x.count3_1 == field_u16(r, 17),
        node_view(x.material4) == field_material(r, 18),
        x.count4 == field_u16(r, 19),
        node_view(x.material4_1) == field_material(r, 20),
        x.count4_1 == field_u16(r, 21),
        node_view(x.material5) == field_material(r, 22),
        x.count5 == field_u16(r, 23),
        node_view(x.material5_1) == field_material(r, 24),
        x.count5_1 == field_u16(r, 25),
        x.item_proficiency1 == field_bits(r, 26),
        x.item_proficiency2 == field_bits(r, 27),
        x.item_proficiency3 == field_bits(r, 28),
        x.item_proficiency4 == field_bits(r, 29),
        x.success_probability == field_bits(r, 30),
        x.base == field_bits(r, 31),
        x.crit_probability_1 == field_bits(r, 32),
        x.crit_probability_2 == field_bits(r, 33),
        x.additional_crit_ratio == field_bits(r, 34),
        x.penalty_probability1 == field_bits(r, 35),
        x.penalty_probability2 == field_bits(r, 36),
        x.penalty_probability3 == field_bits(r, 37),
        x.penalty_probability4 == field_bits(r, 38),
        x.penalty_probability5 == field_bits(r, 39),
        x.double_application == field_bits(r, 40),
        x.great_success_application == field_bits(r, 41),
        x.inheritance_on_craft == field_flag(r, 42),
        x.inheritance_enhancement_condition == field_u8(r, 43),
        x.inheritance_transcendence_condition == field_u8(r, 44),
        x.seal_slot_inheritance == field_bits(r, 45),
        x.f47 == field_bits(r, 46),
{
}

} // verus!
