//! The calls this library makes into `std` functions that vstd does not
//! specify and into the `encoding_rs` and `indexmap` crates.  Every item
//! here is trusted: its contract is believed, not proved.
use vstd::prelude::*;

use crate::kinds::TagType;

verus! {

// ---------------------------------------------------------------------------
// std
// ---------------------------------------------------------------------------

/// `String::push`: appends one character at the end.
#[verifier::external_body]
pub fn push_char(s: &mut String, c: char)
    ensures
        final(s)@ == old(s)@.push(c),
{
    s.push(c)
}

/// `<str as PartialEq>::eq`: two string slices are equal exactly when they
/// hold the same characters.
#[verifier::external_body]
pub fn str_eq(a: &str, b: &str) -> (r: bool)
    ensures
        r == (a@ == b@),
{
    a == b
}

/// What `str::to_uppercase` returns for the characters `s`: the full
/// Unicode upper-case mapping, which does not depend on the locale.
pub uninterp spec fn unicode_uppercase(s: Seq<char>) -> Seq<char>;

/// What `str::to_lowercase` returns for the characters `s`: the full
/// Unicode lower-case mapping, which does not depend on the locale.
pub uninterp spec fn unicode_lowercase(s: Seq<char>) -> Seq<char>;

/// `str::to_uppercase`.  Its result is named, not described.
#[verifier::external_body]
pub fn str_to_uppercase(s: &str) -> (r: String)
    ensures
        r@ == unicode_uppercase(s@),
{
    s.to_uppercase()
}

/// `str::to_lowercase`.  Its result is named, not described.
#[verifier::external_body]
pub fn str_to_lowercase(s: &str) -> (r: String)
    ensures
        r@ == unicode_lowercase(s@),
{
    s.to_lowercase()
}

/// What `String::from_utf16_lossy` returns for the code units `units`:
/// the UTF-16 decoding with every unpaired surrogate replaced by U+FFFD.
pub uninterp spec fn utf16_lossy(units: Seq<u16>) -> Seq<char>;

/// `String::from_utf16_lossy`.  Its result is named, not described.
#[verifier::external_body]
pub fn decode_utf16_lossy(units: &[u16]) -> (r: String)
    ensures
        r@ == utf16_lossy(units@),
{
    String::from_utf16_lossy(units)
}

// ---------------------------------------------------------------------------
// encoding_rs
// ---------------------------------------------------------------------------

/// What `encoding_rs::EUC_KR.decode(bytes).0` holds for `bytes`: the WHATWG
/// "decode" of `bytes` as EUC-KR, with BOM sniffing and malformed sequences
/// replaced by U+FFFD.
pub uninterp spec fn euc_kr_text(bytes: Seq<u8>) -> Seq<char>;

/// `encoding_rs::Encoding::decode` on `EUC_KR`; only the decoded text is
/// kept.  The result is named, not described.  The bound on the length
/// keeps the decoder's buffer-size computation (three bytes of UTF-8 per
/// input byte, rounded up to a power of two) from overflowing, on which
/// the crate panics.
#[verifier::external_body]
pub fn decode_euc_kr(bytes: &[u8]) -> (r: String)
    requires
        bytes@.len() <= usize::MAX / 8,
    ensures
        r@ == euc_kr_text(bytes@),
{
    encoding_rs::EUC_KR.decode(bytes).0.into_owned()
}

// ---------------------------------------------------------------------------
// indexmap
// ---------------------------------------------------------------------------

#[verifier::external_type_specification]
#[verifier::external_body]
#[verifier::reject_recursive_types(K)]
#[verifier::reject_recursive_types(V)]
#[verifier::reject_recursive_types(S)]
pub struct ExIndexMap<K, V, S>(indexmap::IndexMap<K, V, S>);

#[verifier::external_type_specification]
#[verifier::external_body]
#[verifier::reject_recursive_types(T)]
#[verifier::reject_recursive_types(S)]
pub struct ExIndexSet<T, S>(indexmap::IndexSet<T, S>);

/// The entries of a map from tag names to tag types, in their order.
pub uninterp spec fn tag_entries(m: indexmap::IndexMap<String, TagType>) -> Seq<(Seq<char>, TagType)>;

/// The position of the first entry whose key is `k`.
pub open spec fn key_index<V>(entries: Seq<(Seq<char>, V)>, k: Seq<char>) -> Option<int>
    decreases entries.len(),
{
    if entries.len() == 0 {
        None
    } else if entries.last().0 == k {
        match key_index(entries.drop_last(), k) {
            Some(i) => Some(i),
            None => Some(entries.len() - 1),
        }
    } else {
        key_index(entries.drop_last(), k)
    }
}

/// A found position lies inside the entries and holds the key.
pub proof fn lemma_key_index<V>(entries: Seq<(Seq<char>, V)>, k: Seq<char>)
    ensures
        key_index(entries, k) matches Some(i) ==> 0 <= i < entries.len() && entries[i].0 == k,
        key_index(entries, k) is None ==> forall|j: int| 0 <= j < entries.len() ==> entries[j].0 != k,
    decreases entries.len(),
{
    if entries.len() > 0 {
        lemma_key_index(entries.drop_last(), k);
        assert forall|j: int| 0 <= j < entries.len() - 1 implies entries.drop_last()[j] == entries[j] by {}
    }
}

/// Inserting adds at most one entry.
pub proof fn lemma_entries_insert_len<V>(entries: Seq<(Seq<char>, V)>, k: Seq<char>, v: V)
    ensures
        entries_insert(entries, k, v).len() <= entries.len() + 1,
{
    lemma_key_index(entries, k);
}

/// The entries after `IndexMap::insert(k, v)`: an existing key keeps its
/// place and takes the new value; a new key goes last.
pub open spec fn entries_insert<V>(entries: Seq<(Seq<char>, V)>, k: Seq<char>, v: V) -> Seq<(Seq<char>, V)> {
    match key_index(entries, k) {
        Some(i) => entries.update(i, (k, v)),
        None => entries.push((k, v)),
    }
}

/// `IndexMap::new`: an empty map.
#[verifier::external_body]
pub fn tag_map_new() -> (m: indexmap::IndexMap<String, TagType>)
    ensures
        tag_entries(m) == Seq::<(Seq<char>, TagType)>::empty(),
{
    indexmap::IndexMap::new()
}

/// `IndexMap::insert`: an existing key keeps its place and takes the new
/// value; a new key goes last.
#[verifier::external_body]
pub fn tag_map_insert(m: &mut indexmap::IndexMap<String, TagType>, k: String, v: TagType)
    ensures
        tag_entries(*final(m)) == entries_insert(tag_entries(*old(m)), k@, v),
{
    m.insert(k, v);
}

/// `IndexMap::len`: the number of entries.
#[verifier::external_body]
pub fn tag_map_len(m: &indexmap::IndexMap<String, TagType>) -> (n: usize)
    ensures
        n == tag_entries(*m).len(),
{
    m.len()
}

/// `IndexMap::get_index_of`: the position of the entry with key `k`.
#[verifier::external_body]
pub fn tag_map_index_of(m: &indexmap::IndexMap<String, TagType>, k: &str) -> (r: Option<usize>)
    ensures
        match r {
            Some(i) => key_index(tag_entries(*m), k@) == Some(i as int),
            None => key_index(tag_entries(*m), k@) is None,
        },
{
    m.get_index_of(k)
}

/// The members of a set of item ids, in their order.
pub uninterp spec fn id_members(s: indexmap::IndexSet<String>) -> Seq<Seq<char>>;

/// `IndexSet::new`: an empty set.
#[verifier::external_body]
pub fn id_set_new() -> (s: indexmap::IndexSet<String>)
    ensures
        id_members(s) == Seq::<Seq<char>>::empty(),
{
    indexmap::IndexSet::new()
}

/// `IndexSet::insert`: a new member goes last; an existing one stays where
/// it is.  Returns whether the member was new.
#[verifier::external_body]
pub fn id_set_insert(s: &mut indexmap::IndexSet<String>, k: String) -> (added: bool)
    ensures
        added == !id_members(*old(s)).contains(k@),
        id_members(*final(s)) == if added {
            id_members(*old(s)).push(k@)
        } else {
            id_members(*old(s))
        },
{
    s.insert(k)
}

/// `IndexSet::len`: the number of members.
#[verifier::external_body]
pub fn id_set_len(s: &indexmap::IndexSet<String>) -> (n: usize)
    ensures
        n == id_members(*s).len(),
{
    s.len()
}

/// `IndexSet::get_index_of`: the position of `k`.
#[verifier::external_body]
pub fn id_set_index_of(s: &indexmap::IndexSet<String>, k: &str) -> (r: Option<usize>)
    ensures
        match r {
            Some(i) => i < id_members(*s).len() && id_members(*s)[i as int] == k@,
            None => !id_members(*s).contains(k@),
        },
{
    s.get_index_of(k)
}

/// `IndexSet::get_index`: the member at position `i`, cloned.
#[verifier::external_body]
pub fn id_set_get(s: &indexmap::IndexSet<String>, i: usize) -> (r: Option<String>)
    ensures
        match r {
            Some(k) => i < id_members(*s).len() && k@ == id_members(*s)[i as int],
            None => i >= id_members(*s).len(),
        },
{
    s.get_index(i).cloned()
}

/// `IndexSet::shift_remove_full`: removes `k`, shifting the members after it
/// one place forward, and returns its former position.
#[verifier::external_body]
pub fn id_set_shift_remove(s: &mut indexmap::IndexSet<String>, k: &str) -> (r: Option<usize>)
    ensures
        match r {
            Some(i) => i < id_members(*old(s)).len() && id_members(*old(s))[i as int] == k@
                && id_members(*final(s)) == id_members(*old(s)).remove(i as int),
            None => !id_members(*old(s)).contains(k@) && id_members(*final(s)) == id_members(*old(s)),
        },
{
    s.shift_remove_full(k).map(|(i, _)| i)
}

} // verus!
