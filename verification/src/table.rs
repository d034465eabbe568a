//! The binary tables of the game data.
//!
//! A table starts with a little-endian `u16` count of tags; each tag is a
//! type byte (1 text, 0 number), a length byte and that many bytes of
//! EUC-KR name.  Tags with the same name collapse into one, as an ordered
//! map keeps them.  Then come a `u16` count of items and
//! `items * tags + 1` little-endian `u32` offsets; the field of item `i`
//! and tag `t` lies at `offsets[i * tags + t]` past the end of the offsets,
//! counted in bytes for single-byte text and in code units for UTF-16 text.
//! A text field runs up to its terminating zero; a number field is the
//! four little-endian bytes of an IEEE-754 single.
use vstd::prelude::*;

use crate::kinds::{DataFormat, TagType};
use crate::outside::{
    decode_euc_kr, decode_utf16_lossy, entries_insert, euc_kr_text, tag_entries, tag_map_insert,
    tag_map_len, tag_map_new, utf16_lossy,
};

verus! {

/// Why a table could not be read.
#[derive(Debug, Clone, Copy, PartialEq, Eq, Structural)]
pub enum TableError {
    /// The data ended inside a count, a tag, an offset or a field.
    UnexpectedEnd,
    /// A tag's type byte is neither 0 nor 1.
    UnknownTagType,
}

/// The entries of a tag map: names and types in order.
pub type Definitions = Seq<(Seq<char>, TagType)>;

/// The little-endian `u16` at `p`.
pub open spec fn u16_at(d: Seq<u8>, p: int) -> int {
    d[p] + 256 * d[p + 1]
}

/// The little-endian `u32` at `p`.
pub open spec fn u32_at(d: Seq<u8>, p: int) -> u32 {
    (d[p] + 256 * d[p + 1] + 65536 * d[p + 2] + 16777216 * d[p + 3]) as u32
}

/// The tag type a type byte names.
pub open spec fn spec_tag_type(b: u8) -> TagType {
    if b == 1 {
        TagType::String
    } else {
        TagType::Float
    }
}

/// Reading `count` tags from `pos` into the entries `acc`: the final
/// entries and the position after the tags.
pub open spec fn spec_definitions(d: Seq<u8>, pos: int, count: nat, acc: Definitions) -> Result<
    (Definitions, int),
    TableError,
>
    decreases count,
{
    if count == 0 {
        Ok((acc, pos))
    } else if pos + 1 > d.len() {
        Err(TableError::UnexpectedEnd)
    } else if d[pos] != 0 && d[pos] != 1 {
        Err(TableError::UnknownTagType)
    } else if pos + 2 > d.len() {
        Err(TableError::UnexpectedEnd)
    } else if pos + 2 + d[pos + 1] > d.len() {
        Err(TableError::UnexpectedEnd)
    } else {
        let len = d[pos + 1] as int;
        let key = euc_kr_text(d.subrange(pos + 2, pos + 2 + len));
        spec_definitions(d, pos + 2 + len, (count - 1) as nat, entries_insert(acc, key, spec_tag_type(d[pos])))
    }
}

/// The header of a table: its tag entries, item count, offsets and the
/// position where the fields begin.
pub open spec fn spec_header(d: Seq<u8>) -> Result<(Definitions, nat, Seq<u32>, int), TableError> {
    if d.len() < 2 {
        Err(TableError::UnexpectedEnd)
    } else {
        match spec_definitions(d, 2, u16_at(d, 0) as nat, Seq::empty()) {
            Err(e) => Err(e),
            Ok((defs, p)) => if p + 2 > d.len() {
                Err(TableError::UnexpectedEnd)
            } else {
                let items = u16_at(d, p) as nat;
                let n = items * defs.len() + 1;
                if p + 2 + 4 * n > d.len() {
                    Err(TableError::UnexpectedEnd)
                } else {
                    Ok((defs, items, Seq::new(n, |i: int| u32_at(d, p + 2 + 4 * i)), p + 2 + 4 * n))
                }
            },
        }
    }
}

/// The view of a table's header: its tags in order, the number of items,
/// the field offsets and where the fields begin.
pub type HeaderView = (Definitions, nat, Seq<u32>, int);

/// The parsed header of a table.
pub struct TableHeader {
    definitions: indexmap::IndexMap<String, TagType>,
    item_count: usize,
    offsets: Vec<u32>,
    global_offset: usize,
}

impl View for TableHeader {
    type V = (Definitions, nat, Seq<u32>, int);

    closed spec fn view(&self) -> Self::V {
        (tag_entries(self.definitions), self.item_count as nat, self.offsets@, self.global_offset as int)
    }
}

/// The header `h` has as many offsets as its items and tags call for.
pub open spec fn header_wf(h: (Definitions, nat, Seq<u32>, int)) -> bool {
    h.2.len() == h.1 * h.0.len() + 1 && h.0.len() < 0x1_0000 && h.1 < 0x1_0000 && h.3 >= 0
}

/// The number of tags of the header `h`.
pub open spec fn tag_count(h: (Definitions, nat, Seq<u32>, int)) -> nat {
    h.0.len()
}

/// Where the field of item `item` and tag `tag` begins.
pub open spec fn spec_field_pos(h: (Definitions, nat, Seq<u32>, int), format: DataFormat, item: int, tag: int) -> int {
    let off = h.2[item * h.0.len() + tag] as int;
    match format {
        DataFormat::String => h.3 + off,
        DataFormat::WideString => h.3 + 2 * off,
    }
}

/// The bytes of `s` up to its first zero.
pub open spec fn until_zero(s: Seq<u8>) -> Seq<u8>
    decreases s.len(),
{
    if s.len() == 0 || s[0] == 0 {
        Seq::empty()
    } else {
        seq![s[0]] + until_zero(s.drop_first())
    }
}

/// The bytes from `p` on (none when `p` is past the end).
pub open spec fn from_pos(d: Seq<u8>, p: int) -> Seq<u8> {
    if p >= d.len() {
        Seq::empty()
    } else {
        d.skip(p)
    }
}

/// The UTF-16 units of `s` up to the first zero unit; `None` when the
/// bytes run out first.
pub open spec fn wide_units(s: Seq<u8>) -> Option<Seq<u16>>
    decreases s.len(),
{
    if s.len() < 2 {
        None
    } else {
        let u = (s[0] + 256 * s[1]) as u16;
        if u == 0 {
            Some(Seq::empty())
        } else {
            match wide_units(s.skip(2)) {
                Some(r) => Some(seq![u] + r),
                None => None,
            }
        }
    }
}

/// The text at `p`: for single-byte text the EUC-KR decoding of the bytes
/// up to a zero or the end (never failing); for UTF-16 text the decoding
/// of the units up to a zero unit, failing when the data ends first.
pub open spec fn spec_text_at(d: Seq<u8>, p: int, format: DataFormat) -> Option<Seq<char>> {
    match format {
        DataFormat::String => Some(euc_kr_text(until_zero(from_pos(d, p)))),
        DataFormat::WideString => match wide_units(from_pos(d, p)) {
            Some(u) => Some(utf16_lossy(u)),
            None => None,
        },
    }
}

/// The bits of the number at `p`, when four bytes remain.
pub open spec fn spec_number_at(d: Seq<u8>, p: int) -> Option<u32> {
    if 0 <= p && p + 4 <= d.len() {
        Some(u32_at(d, p))
    } else {
        None
    }
}

/// How a reader treats one tag of a record.
#[derive(Debug, Clone, Copy, PartialEq, Eq, Structural)]
pub enum FieldKind {
    Text,
    Number,
    Skip,
}

/// One field of a record as read.
#[derive(Debug)]
pub enum RawField {
    Text(String),
    Number(u32),
    Skipped,
}

/// The value of a field, as the contracts speak of it.
pub enum RawValue {
    Text(Seq<char>),
    Number(u32),
    Skipped,
}

impl View for RawField {
    type V = RawValue;

    open spec fn view(&self) -> RawValue {
        match self {
            RawField::Text(s) => RawValue::Text(s@),
            RawField::Number(b) => RawValue::Number(*b),
            RawField::Skipped => RawValue::Skipped,
        }
    }
}

/// The field of the given kind at `p`, `None` when it cannot be read.
pub open spec fn spec_field_at(d: Seq<u8>, p: int, format: DataFormat, kind: FieldKind) -> Option<RawValue> {
    match kind {
        FieldKind::Text => match spec_text_at(d, p, format) {
            Some(t) => Some(RawValue::Text(t)),
            None => None,
        },
        FieldKind::Number => match spec_number_at(d, p) {
            Some(b) => Some(RawValue::Number(b)),
            None => None,
        },
        FieldKind::Skip => Some(RawValue::Skipped),
    }
}

/// The field of item `item` and tag `tag`, read as `kind`.
pub open spec fn spec_record_field(
    d: Seq<u8>,
    h: (Definitions, nat, Seq<u32>, int),
    format: DataFormat,
    item: int,
    tag: int,
    kind: FieldKind,
) -> Option<RawValue> {
    spec_field_at(d, spec_field_pos(h, format, item, tag), format, kind)
}

/// Every field of item `item` can be read as its kind says.
pub open spec fn record_readable(
    d: Seq<u8>,
    h: (Definitions, nat, Seq<u32>, int),
    format: DataFormat,
    item: int,
    kinds: Seq<FieldKind>,
) -> bool {
    forall|t: int| 0 <= t < kinds.len() ==> (#[trigger] spec_record_field(d, h, format, item, t, kinds[t])) is Some
}

/// The fields of item `item`, each read as `kinds` says (meaningful when
/// the record is readable).
pub open spec fn spec_record(
    d: Seq<u8>,
    h: (Definitions, nat, Seq<u32>, int),
    format: DataFormat,
    item: int,
    kinds: Seq<FieldKind>,
) -> Seq<RawValue> {
    Seq::new(kinds.len(), |t: int| spec_record_field(d, h, format, item, t, kinds[t])->0)
}

/// The data and the header parsed from it can be read field by field.
pub open spec fn table_ok(d: Seq<u8>, h: (Definitions, nat, Seq<u32>, int)) -> bool {
    d.len() <= usize::MAX / 8 && header_wf(h) && h.3 <= d.len()
}

/// The text of a field, or nothing when the field is not text.
pub open spec fn text_of(v: RawValue) -> Seq<char> {
    match v {
        RawValue::Text(s) => s,
        _ => Seq::empty(),
    }
}

/// The number bits of a field, or 0 when the field is not a number.
pub open spec fn bits_of(v: RawValue) -> u32 {
    match v {
        RawValue::Number(b) => b,
        _ => 0,
    }
}

// ---------------------------------------------------------------------------
// Reading
// ---------------------------------------------------------------------------

/// The little-endian `u16` at `p`, if two bytes remain.
pub fn read_u16_le(data: &[u8], p: usize) -> (r: Option<u16>)
    ensures
        match r {
            Some(v) => p + 2 <= data@.len() && v == u16_at(data@, p as int),
            None => p + 2 > data@.len(),
        },
{
    let n = data.len();
    if p > n || n - p < 2 {
        None
    } else {
        Some((data[p] as u16) + 256 * (data[p + 1] as u16))
    }
}

/// The little-endian `u32` at `p`, if four bytes remain.
pub fn read_u32_le(data: &[u8], p: usize) -> (r: Option<u32>)
    ensures
        match r {
            Some(v) => p + 4 <= data@.len() && v == u32_at(data@, p as int),
            None => p + 4 > data@.len(),
        },
{
    let n = data.len();
    if p > n || n - p < 4 {
        None
    } else {
        Some((data[p] as u32) + 256 * (data[p + 1] as u32) + 65536 * (data[p + 2] as u32) + 16777216 * (
        data[p + 3] as u32))
    }
}

/// The bytes `data[lo..hi]`.
fn copy_bytes(data: &[u8], lo: usize, hi: usize) -> (r: Vec<u8>)
    requires
        lo <= hi <= data@.len(),
    ensures
        r@ == data@.subrange(lo as int, hi as int),
{
    let mut r: Vec<u8> = Vec::new();
    let mut i = lo;
    while i < hi
        invariant
            lo <= i <= hi <= data@.len(),
            r@ == data@.subrange(lo as int, i as int),
        decreases hi - i,
    {
        r.push(data[i]);
        assert(data@.subrange(lo as int, i as int).push(data@[i as int]) =~= data@.subrange(lo as int, i + 1));
        i = i + 1;
    }
    r
}

/// Reads `tag_count` tags from `pos`: the tag map and the position after them.
pub fn read_definitions(data: &[u8], pos: usize, tag_count: u16) -> (r: Result<
    (indexmap::IndexMap<String, TagType>, usize),
    TableError,
>)
    requires
        data@.len() <= usize::MAX / 8,
    ensures
        match r {
            Ok((m, p)) => spec_definitions(data@, pos as int, tag_count as nat, Seq::empty()) == Ok::<
                (Definitions, int),
                TableError,
            >((tag_entries(m), p as int)),
            Err(e) => spec_definitions(data@, pos as int, tag_count as nat, Seq::empty()) == Err::<
                (Definitions, int),
                TableError,
            >(e),
        },
{
    let mut m = tag_map_new();
    let mut p = pos;
    let mut k: u16 = 0;
    while k < tag_count
        invariant
            k <= tag_count,
            data@.len() <= usize::MAX / 8,
            spec_definitions(data@, pos as int, tag_count as nat, Seq::empty()) == spec_definitions(
                data@,
                p as int,
                (tag_count - k) as nat,
                tag_entries(m),
            ),
        decreases tag_count - k,
    {
        let n = data.len();
        if p >= n {
            return Err(TableError::UnexpectedEnd);
        }
        let type_id = data[p];
        if type_id != 0 && type_id != 1 {
            return Err(TableError::UnknownTagType);
        }
        if n - p < 2 {
            return Err(TableError::UnexpectedEnd);
        }
        let len = data[p + 1] as usize;
        if n - p - 2 < len {
            return Err(TableError::UnexpectedEnd);
        }
        let bytes = copy_bytes(data, p + 2, p + 2 + len);
        let key = decode_euc_kr(&bytes);
        let t = if type_id == 1 {
            TagType::String
        } else {
            TagType::Float
        };
        tag_map_insert(&mut m, key, t);
        p = p + 2 + len;
        k = k + 1;
    }
    Ok((m, p))
}

/// Reads the header of a table: the tags, the item count and the offsets.
pub fn read_header(data: &[u8]) -> (r: Result<TableHeader, TableError>)
    requires
        data@.len() <= usize::MAX / 8,
    ensures
        match r {
            Ok(h) => spec_header(data@) == Ok::<(Definitions, nat, Seq<u32>, int), TableError>(h@)
                && table_ok(data@, h@),
            Err(e) => spec_header(data@) == Err::<(Definitions, nat, Seq<u32>, int), TableError>(e),
        },
{
    let tag_count = match read_u16_le(data, 0) {
        Some(c) => c,
        None => return Err(TableError::UnexpectedEnd),
    };
    let (definitions, p) = match read_definitions(data, 2, tag_count) {
        Ok(x) => x,
        Err(e) => return Err(e),
    };
    let item_count = match read_item_count(data, p) {
        Some(c) => c,
        None => return Err(TableError::UnexpectedEnd),
    };
    let tags = tag_map_len(&definitions);
    proof {
        lemma_definitions_len(data@, 2, tag_count as nat, Seq::empty());
    }
    let offsets = match read_offsets(data, p + 2, item_count, tags) {
        Some(o) => o,
        None => return Err(TableError::UnexpectedEnd),
    };
    let n = offsets.len();
    let global_offset = p + 2 + 4 * n;
    assert(offsets@ =~= Seq::new((item_count * tags + 1) as nat, |i: int| u32_at(data@, p + 2 + 4 * i)));
    Ok(TableHeader { definitions, item_count, offsets, global_offset })
}

/// The number of entries never exceeds the number of tags read.
pub proof fn lemma_definitions_len(d: Seq<u8>, pos: int, count: nat, acc: Definitions)
    ensures
        spec_definitions(d, pos, count, acc) matches Ok((defs, p)) ==> defs.len() <= acc.len() + count
            && p >= pos,
    decreases count,
{
    if count > 0 && pos + 2 <= d.len() && pos + 2 + d[pos + 1] <= d.len() && (d[pos] == 0 || d[pos] == 1) {
        let len = d[pos + 1] as int;
        let key = euc_kr_text(d.subrange(pos + 2, pos + 2 + len));
        let acc2 = entries_insert(acc, key, spec_tag_type(d[pos]));
        crate::outside::lemma_entries_insert_len(acc, key, spec_tag_type(d[pos]));
        lemma_definitions_len(d, pos + 2 + len, (count - 1) as nat, acc2);
    }
}

/// The item count at `p`.
pub fn read_item_count(data: &[u8], p: usize) -> (r: Option<usize>)
    ensures
        match r {
            Some(v) => p + 2 <= data@.len() && v == u16_at(data@, p as int),
            None => p + 2 > data@.len(),
        },
{
    match read_u16_le(data, p) {
        Some(v) => Some(v as usize),
        None => None,
    }
}

/// The `item_count * tag_count + 1` offsets from `p`.
pub fn read_offsets(data: &[u8], p: usize, item_count: usize, tag_count: usize) -> (r: Option<Vec<u32>>)
    requires
        data@.len() <= usize::MAX / 8,
        item_count < 0x1_0000,
        tag_count < 0x1_0000,
    ensures
        match r {
            Some(o) => o@.len() == item_count * tag_count + 1 && p + 4 * o@.len() <= data@.len()
                && forall|i: int| 0 <= i < o@.len() ==> #[trigger] o@[i] == u32_at(data@, p + 4 * i),
            None => p + 4 * (item_count * tag_count + 1) > data@.len(),
        },
{
    proof {
        vstd::arithmetic::mul::lemma_mul_upper_bound(item_count as int, 0xffff, tag_count as int, 0xffff);
    }
    let n = item_count * tag_count + 1;
    let mut o: Vec<u32> = Vec::new();
    let mut q = p;
    let mut i: usize = 0;
    while i < n
        invariant
            i <= n == item_count * tag_count + 1,
            data@.len() <= usize::MAX / 8,
            q == p + 4 * i,
            p + 4 * i <= data@.len() || i == 0,
            o@.len() == i,
            forall|k: int| 0 <= k < i ==> #[trigger] o@[k] == u32_at(data@, p + 4 * k),
        decreases n - i,
    {
        match read_u32_le(data, q) {
            Some(v) => {
                o.push(v);
                q = q + 4;
                i = i + 1;
            },
            None => {
                return None;
            },
        }
    }
    Some(o)
}

impl TableHeader {
    /// The number of distinct tags.
    pub fn tag_count(&self) -> (n: usize)
        ensures
            n == self@.0.len(),
    {
        tag_map_len(&self.definitions)
    }

    /// The number of items.
    pub fn item_count(&self) -> (n: usize)
        ensures
            n == self@.1,
    {
        self.item_count
    }

    /// The position of the tag named `name`, as the map gives it.
    pub fn index_of(&self, name: &str) -> (r: Option<usize>)
        ensures
            match r {
                Some(i) => crate::outside::key_index(self@.0, name@) == Some(i as int),
                None => crate::outside::key_index(self@.0, name@) is None,
            },
    {
        crate::outside::tag_map_index_of(&self.definitions, name)
    }

    /// Where the field of item `item` and tag `tag` begins.
    pub fn field_position(&self, format: DataFormat, item: usize, tag: usize) -> (p: u64)
        requires
            header_wf(self@),
            self@.3 <= usize::MAX / 8,
            item < self@.1,
            tag < self@.0.len(),
        ensures
            p == spec_field_pos(self@, format, item as int, tag as int),
    {
        let tags = tag_map_len(&self.definitions);
        proof {
            vstd::arithmetic::mul::lemma_mul_inequality(item as int + 1, self@.1 as int, tags as int);
            vstd::arithmetic::mul::lemma_mul_is_distributive_add_other_way(tags as int, item as int, 1);
        }
        let olen = self.offsets.len();
        assert(item * tags + tag < olen);
        let idx = item * tags + tag;
        let off = self.offsets[idx] as u64;
        let base = self.global_offset as u64;
        match format {
            DataFormat::String => base + off,
            DataFormat::WideString => base + 2 * off,
        }
    }
}

/// The text at `p`.
pub fn read_text_at(data: &[u8], p: u64, format: DataFormat) -> (r: Option<String>)
    requires
        data@.len() <= usize::MAX / 8,
    ensures
        match r {
            Some(s) => spec_text_at(data@, p as int, format) == Some(s@),
            None => spec_text_at(data@, p as int, format) is None,
        },
{
    let n = data.len();
    let start: usize = if p >= n as u64 {
        n
    } else {
        p as usize
    };
    let ghost rest = from_pos(data@, p as int);
    assert(rest =~= data@.subrange(start as int, n as int));
    match format {
        DataFormat::String => {
            let mut e = start;
            assert(until_zero(rest) == data@.subrange(start as int, e as int) + until_zero(data@.subrange(e as int, n as int)));
            while e < n && data[e] != 0
                invariant
                    start <= e <= n == data@.len(),
                    format == DataFormat::String,
                    rest == from_pos(data@, p as int),
                    rest == data@.subrange(start as int, n as int),
                    until_zero(rest) == data@.subrange(start as int, e as int) + until_zero(data@.subrange(e as int, n as int)),
                decreases n - e,
            {
                let ghost tail = data@.subrange(e as int, n as int);
                assert(tail.drop_first() =~= data@.subrange(e + 1, n as int));
                assert(data@.subrange(start as int, e as int) + (seq![tail[0]] + until_zero(tail.drop_first()))
                    =~= data@.subrange(start as int, e + 1) + until_zero(data@.subrange(e + 1, n as int)));
                e = e + 1;
            }
            assert(until_zero(data@.subrange(e as int, n as int)) =~= Seq::<u8>::empty());
            assert(data@.subrange(start as int, e as int) + Seq::<u8>::empty() =~= data@.subrange(start as int, e as int));
            let bytes = copy_bytes(data, start, e);
            Some(decode_euc_kr(&bytes))
        },
        DataFormat::WideString => {
            let mut units: Vec<u16> = Vec::new();
            let mut q = start;
            loop
                invariant
                    start <= q <= n == data@.len(),
                    format == DataFormat::WideString,
                    rest == from_pos(data@, p as int),
                    rest == data@.subrange(start as int, n as int),
                    wide_units(rest) == (match wide_units(data@.subrange(q as int, n as int)) {
                        Some(r) => Some(units@ + r),
                        None => None::<Seq<u16>>,
                    }),
                decreases n - q,
            {
                let ghost tail = data@.subrange(q as int, n as int);
                if n - q < 2 {
                    return None;
                }
                let u = (data[q] as u16) + 256 * (data[q + 1] as u16);
                assert(u == (tail[0] + 256 * tail[1]) as u16);
                if u == 0 {
                    assert(units@ + Seq::<u16>::empty() =~= units@);
                    return Some(decode_utf16_lossy(&units));
                }
                assert(tail.skip(2) =~= data@.subrange(q + 2, n as int));
                proof {
                    match wide_units(tail.skip(2)) {
                        Some(r2) => {
                            assert(units@.push(u) + r2 =~= units@ + (seq![u] + r2));
                        },
                        None => {},
                    }
                }
                units.push(u);
                q = q + 2;
            }
        },
    }
}

/// The number bits at `p`.
pub fn read_number_at(data: &[u8], p: u64) -> (r: Option<u32>)
    ensures
        r == spec_number_at(data@, p as int),
{
    if p >= data.len() as u64 {
        return None;
    }
    read_u32_le(data, p as usize)
}

/// Reads one field of the given kind at `p`.
pub fn read_field_at(data: &[u8], p: u64, format: DataFormat, kind: FieldKind) -> (r: Option<RawField>)
    requires
        data@.len() <= usize::MAX / 8,
    ensures
        match r {
            Some(f) => spec_field_at(data@, p as int, format, kind) == Some(f@),
            None => spec_field_at(data@, p as int, format, kind) is None,
        },
{
    match kind {
        FieldKind::Text => match read_text_at(data, p, format) {
            Some(s) => Some(RawField::Text(s)),
            None => None,
        },
        FieldKind::Number => match read_number_at(data, p) {
            Some(b) => Some(RawField::Number(b)),
            None => None,
        },
        FieldKind::Skip => Some(RawField::Skipped),
    }
}

/// Reads the fields of item `item`, tag by tag, each as `kinds` says; fails
/// when any of them cannot be read.
pub fn read_record(data: &[u8], header: &TableHeader, format: DataFormat, item: usize, kinds: &Vec<FieldKind>) -> (r: Result<Vec<RawField>, TableError>)
    requires
        table_ok(data@, header@),
        item < header@.1,
        kinds@.len() == header@.0.len(),
    ensures
        match r {
            Ok(v) => record_readable(data@, header@, format, item as int, kinds@) && v@.len() == kinds@.len()
                && v@.map_values(|f: RawField| f@) == spec_record(data@, header@, format, item as int, kinds@)
                && forall|t: int| 0 <= t < v@.len() ==> Some(#[trigger] v@[t]@) == spec_record_field(
                    data@,
                    header@,
                    format,
                    item as int,
                    t,
                    kinds@[t],
                ),
            Err(e) => !record_readable(data@, header@, format, item as int, kinds@) && e == TableError::UnexpectedEnd,
        },
{
    let n = kinds.len();
    let mut v: Vec<RawField> = Vec::new();
    let mut t: usize = 0;
    while t < n
        invariant
            n == kinds@.len() == header@.0.len(),
            t <= n,
            data@.len() <= usize::MAX / 8,
            header_wf(header@),
            header@.3 <= data@.len(),
            item < header@.1,
            v@.len() == t,
            forall|k: int| 0 <= k < t ==> Some(#[trigger] v@[k]@) == spec_record_field(data@, header@, format, item as int, k, kinds@[k]),
        decreases n - t,
    {
        let p = header.field_position(format, item, t);
        match read_field_at(data, p, format, kinds[t]) {
            Some(f) => {
                v.push(f);
                t = t + 1;
            },
            None => {
                assert(spec_record_field(data@, header@, format, item as int, t as int, kinds@[t as int]) is None);
                return Err(TableError::UnexpectedEnd);
            },
        }
    }
    assert forall|k: int| 0 <= k < kinds@.len() implies (#[trigger] spec_record_field(data@, header@, format, item as int, k, kinds@[k])) is Some by {
        assert(Some(v@[k]@) == spec_record_field(data@, header@, format, item as int, k, kinds@[k]));
    }
    assert(v@.map_values(|f: RawField| f@) =~= spec_record(data@, header@, format, item as int, kinds@));
    Ok(v)
}

} // verus!
