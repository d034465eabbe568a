//! The localized names of the data: a key and its English and Russian text.
use vstd::prelude::*;

use crate::fields::{field_text, field_upper, get_text, get_upper, has};
use crate::kinds::{DataFormat, Language};
use crate::game_data::AbstractItem;
use crate::table::{HeaderView, read_record, spec_record, table_ok, record_readable, FieldKind, RawField, RawValue, TableError, TableHeader};
use crate::text::{chars_of, ends_with, string_of, strip_suffix, strip_suffix_chars};

verus! {

/// A localized string: the key it is found by and its texts.
#[derive(Debug)]
pub struct Locale {
    pub key: String,
    pub eng: String,
    pub rus: String,
}

impl View for Locale {
    type V = (Seq<char>, Seq<char>, Seq<char>);

    open spec fn view(&self) -> Self::V {
        (self.key@, self.eng@, self.rus@)
    }
}

/// The view of an optional locale.
pub open spec fn locale_view(l: Option<Locale>) -> Option<(Seq<char>, Seq<char>, Seq<char>)> {
    match l {
        Some(x) => Some(x@),
        None => None,
    }
}

/// How a locale record is read: the key (tag 2) and the English and
/// Russian texts (tags 6 and 7); nothing else.
pub open spec fn locale_kind(t: int) -> FieldKind {
    if t == 2 || t == 6 || t == 7 {
        FieldKind::Text
    } else {
        FieldKind::Skip
    }
}

/// The key of a locale: the text at tag 2 in upper case, without a
/// trailing "_NAME".
pub open spec fn locale_key(rec: Seq<RawValue>) -> Seq<char> {
    if has(rec, 2) {
        match strip_suffix(field_upper(rec, 2), "_NAME"@) {
            Some(k) => k,
            None => field_upper(rec, 2),
        }
    } else {
        Seq::empty()
    }
}

/// The locale a record holds.
pub open spec fn spec_locale(rec: Seq<RawValue>) -> (Seq<char>, Seq<char>, Seq<char>) {
    (locale_key(rec), field_text(rec, 6), field_text(rec, 7))
}

impl Locale {
    /// A copy of this locale.
    pub fn duplicate(&self) -> (r: Locale)
        ensures
            r@ == self@,
    {
        Locale { key: self.key.clone(), eng: self.eng.clone(), rus: self.rus.clone() }
    }

    /// The kinds of the `n` tags of a locale record.
    pub fn kinds(n: usize) -> (v: Vec<FieldKind>)
        ensures
            v@ == Seq::new(n as nat, |t: int| locale_kind(t)),
    {
        let mut v: Vec<FieldKind> = Vec::new();
        let mut t: usize = 0;
        while t < n
            invariant
                t <= n,
                v@ == Seq::new(t as nat, |k: int| locale_kind(k)),
            decreases n - t,
        {
            v.push(if t == 2 || t == 6 || t == 7 { FieldKind::Text } else { FieldKind::Skip });
            assert(v@ =~= Seq::new((t + 1) as nat, |k: int| locale_kind(k)));
            t = t + 1;
        }
        v
    }

    /// The locale the fields `rec` hold.
    pub fn from_record(rec: &Vec<RawField>) -> (l: Locale)
        ensures
            l@ == spec_locale(rec@.map_values(|f: RawField| f@)),
    {
        let ghost r = rec@.map_values(|f: RawField| f@);
        let key = if rec.len() > 2 {
            let up = get_upper(rec, 2);
            let v = chars_of(up.as_str());
            let suffix = chars_of("_NAME");
            match strip_suffix_chars(&v, &suffix) {
                Some(k) => string_of(&k),
                None => up,
            }
        } else {
            String::new()
        };
        Locale { key, eng: get_text(rec, 6), rus: get_text(rec, 7) }
    }

}


/// The locale a table of locales gives for `key`: the last one read with
/// that key, as inserting each in turn into a map by key leaves it.
pub open spec fn locale_lookup(table: Seq<(Seq<char>, Seq<char>, Seq<char>)>, key: Seq<char>) -> Option<
    (Seq<char>, Seq<char>, Seq<char>),
>
    decreases table.len(),
{
    if table.len() == 0 {
        None
    } else if table.last().0 == key {
        Some(table.last())
    } else {
        locale_lookup(table.drop_last(), key)
    }
}

/// The views of a table of locales.
pub open spec fn table_view(table: Seq<Locale>) -> Seq<(Seq<char>, Seq<char>, Seq<char>)> {
    table.map_values(|l: Locale| l@)
}

/// The locale the table gives for `key`, if any.
pub fn find_locale(table: &Vec<Locale>, key: &str) -> (r: Option<Locale>)
    ensures
        locale_view(r) == locale_lookup(table_view(table@), key@),
{
    let mut i: usize = table.len();
    assert(table@.take(i as int) =~= table@);
    while i > 0
        invariant
            i <= table@.len(),
            locale_lookup(table_view(table@), key@) == locale_lookup(table_view(table@.take(i as int)), key@),
        decreases i,
    {
        let l = &table[i - 1];
        assert(table_view(table@.take(i as int)).drop_last() =~= table_view(table@.take(i - 1)));
        if crate::outside::str_eq(l.key.as_str(), key) {
            return Some(l.duplicate());
        }
        i = i - 1;
    }
    None
}


/// The text of a locale in `language`.
pub open spec fn locale_text(l: (Seq<char>, Seq<char>, Seq<char>), language: Language) -> Seq<char> {
    match language {
        Language::English => l.1,
        Language::Russian => l.2,
    }
}

/// The text of an optional locale in `language`, when there is one and it
/// is not empty.
pub open spec fn shown_text(l: Option<(Seq<char>, Seq<char>, Seq<char>)>, language: Language) -> Option<Seq<char>> {
    match l {
        Some(x) => if locale_text(x, language).len() == 0 {
            None
        } else {
            Some(locale_text(x, language))
        },
        None => None,
    }
}

impl Locale {
    /// The text in `language`.
    pub fn text(&self, language: Language) -> (s: String)
        ensures
            s@ == locale_text(self@, language),
    {
        match language {
            Language::English => self.eng.clone(),
            Language::Russian => self.rus.clone(),
        }
    }
}

/// The text of `l` in `language`, when there is one and it is not empty.
pub fn shown(l: &Option<Locale>, language: Language) -> (r: Option<String>)
    ensures
        crate::fields::opt_view(r) == shown_text(locale_view(*l), language),
{
    match l {
        Some(x) => {
            let t = x.text(language);
            if t.as_str().is_empty() {
                None
            } else {
                Some(t)
            }
        },
        None => None,
    }
}


impl AbstractItem for Locale {
    open spec fn record_kinds(h: HeaderView) -> Seq<FieldKind> {
        Seq::new(h.0.len(), |t: int| locale_kind(t))
    }

    open spec fn read_from(&self, r: Seq<RawValue>, h: HeaderView) -> bool {
        self@ == spec_locale(r)
    }

    fn read(data: &[u8], header: &TableHeader, format: DataFormat, item_idx: usize) -> (r: Result<Locale, TableError>)
    {
        let kinds = Self::kinds(header.tag_count());
        let rec = read_record(data, header, format, item_idx, &kinds)?;
        Ok(Self::from_record(&rec))
    }
}

} // verus!

verus! {

/// The locale found for a key has that key and is one of the table's; a
/// locale added last is the one found for its key, and for any other key
/// the lookup is as before.
pub proof fn law_locale_last_wins(
    t: Seq<(Seq<char>, Seq<char>, Seq<char>)>,
    l: (Seq<char>, Seq<char>, Seq<char>),
    k: Seq<char>,
)
    ensures
        locale_lookup(t, k) matches Some(x) ==> x.0 == k && t.contains(x),
        locale_lookup(t.push(l), l.0) == Some(l),
        k != l.0 ==> locale_lookup(t.push(l), k) == locale_lookup(t, k),
    decreases t.len(),
{
    assert(t.push(l).drop_last() =~= t);
    if t.len() > 0 {
        law_locale_last_wins(t.drop_last(), l, k);
        if let Some(x) = locale_lookup(t.drop_last(), k) {
            if t.last().0 != k {
                let m = choose|m: int| 0 <= m < t.drop_last().len() && t.drop_last()[m] == x;
                assert(t[m] == x);
            }
        }
        if t.last().0 == k {
            assert(t[t.len() - 1] == t.last());
        }
    }
}

} // verus!

verus! {

/// Where a locale read from a record of the locale table comes from: its
/// English text is the text at tag 6 and its Russian text the one at tag
/// 7, and asking it for English or Russian gives those; its key is the text
/// at tag 2 in upper case, less a trailing "_NAME" when it has one.
pub proof fn law_locale_tags(r: Seq<RawValue>)
    ensures
        locale_text(spec_locale(r), Language::English) == field_text(r, 6),
        locale_text(spec_locale(r), Language::Russian) == field_text(r, 7),
        has(r, 2) && !ends_with(field_upper(r, 2), "_NAME"@) ==> spec_locale(r).0 == field_upper(r, 2),
        has(r, 2) && ends_with(field_upper(r, 2), "_NAME"@) ==> spec_locale(r).0 + "_NAME"@ == field_upper(r, 2),
{
    if has(r, 2) {
        let u = field_upper(r, 2);
        if ends_with(u, "_NAME"@) {
            assert(strip_suffix(u, "_NAME"@) is Some);
            assert(u.take(u.len() - "_NAME"@.len()) + "_NAME"@ =~= u);
        }
    }
}

} // verus!
