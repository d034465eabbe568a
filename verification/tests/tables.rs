use picarus::game_data::item_option::ItemOption;
use picarus::game_data::item_quality::ItemQuality;
use picarus::game_data::item_res::ItemRes;
use picarus::game_data::item_set::{read_items_itemset, ItemSet};
use picarus::game_data::levels::{read_effects, read_items_quality, read_tempering};
use picarus::game_data::locale::{find_locale, Locale};
use picarus::game_data::read_table;
use picarus::game_data::weapon::Weapon;
use picarus::kinds::{DataFormat, GameClass, Grade, Language, TagType};
use picarus::table::{read_header, TableError};

enum F {
    T(&'static str),
    B(Vec<u8>),
    N(f32),
}

/// A table in the single-byte layout: tags, item count, offsets, then the
/// fields of each item in order.
fn table(tags: &[(&str, u8)], items: &[Vec<F>]) -> Vec<u8> {
    let mut d = Vec::new();
    d.extend((tags.len() as u16).to_le_bytes());
    for (name, ty) in tags {
        d.push(*ty);
        d.push(name.len() as u8);
        d.extend(name.as_bytes());
    }
    d.extend((items.len() as u16).to_le_bytes());
    let mut data = Vec::new();
    let mut offsets = Vec::new();
    for item in items {
        assert_eq!(item.len(), tags.len());
        for f in item {
            offsets.push(data.len() as u32);
            match f {
                F::T(s) => {
                    data.extend(s.as_bytes());
                    data.push(0);
                }
                F::B(b) => {
                    data.extend(b);
                    data.push(0);
                }
                F::N(x) => data.extend(x.to_le_bytes()),
            }
        }
    }
    offsets.push(data.len() as u32);
    for o in offsets {
        d.extend(o.to_le_bytes());
    }
    d.extend(data);
    d
}

/// A table of texts in the UTF-16 layout.
fn wide_table(tags: &[&str], items: &[Vec<&str>]) -> Vec<u8> {
    let mut d = Vec::new();
    d.extend((tags.len() as u16).to_le_bytes());
    for name in tags {
        d.push(1);
        d.push(name.len() as u8);
        d.extend(name.as_bytes());
    }
    d.extend((items.len() as u16).to_le_bytes());
    let mut data: Vec<u8> = Vec::new();
    let mut offsets = Vec::new();
    for item in items {
        for s in item {
            offsets.push((data.len() / 2) as u32);
            for u in s.encode_utf16() {
                data.extend(u.to_le_bytes());
            }
            data.extend([0, 0]);
        }
    }
    offsets.push((data.len() / 2) as u32);
    for o in offsets {
        d.extend(o.to_le_bytes());
    }
    d.extend(data);
    d
}

/// Text in the single-byte layout's encoding.
fn kr(s: &str) -> F {
    F::B(encoding_rs::EUC_KR.encode(s).0.into_owned())
}

fn tags(names: &[&'static str], number_tags: &[usize]) -> Vec<(&'static str, u8)> {
    names
        .iter()
        .enumerate()
        .map(|(i, n)| (*n, if number_tags.contains(&i) { 0 } else { 1 }))
        .collect()
}

#[test]
fn header_reads_tags_and_counts() {
    let d = table(&[("id", 1), ("level", 0), ("id", 1)], &[vec![F::T("a"), F::N(1.0), F::T("b")]]);
    let h = read_header(&d).unwrap();
    // A repeated tag name counts once.
    assert_eq!(h.tag_count(), 2);
    assert_eq!(h.item_count(), 1);
    assert_eq!(h.index_of("level"), Some(1));
    assert_eq!(h.index_of("icon"), None);
}

#[test]
fn header_errors() {
    assert_eq!(read_header(&[1]).err(), Some(TableError::UnexpectedEnd));
    assert_eq!(read_header(&[1, 0, 7, 1, b'a']).err(), Some(TableError::UnknownTagType));
    assert_eq!(read_header(&[1, 0, 1, 3, b'a']).err(), Some(TableError::UnexpectedEnd));
    let _ = TagType::Float;
}

#[test]
fn locales_read_from_wide_tables() {
    let names = ["a", "b", "key", "c", "d", "e", "eng", "rus"];
    let d = wide_table(
        &names,
        &[
            vec!["", "", "sword_name", "", "", "", "Sword", "Меч"],
            vec!["", "", "SWORD", "", "", "", "Blade", "Клинок"],
        ],
    );
    let v: Vec<Locale> = read_table(&d, DataFormat::WideString).unwrap();
    assert_eq!(v.len(), 2);
    assert_eq!(v[0].key, "SWORD");
    assert_eq!(v[0].eng, "Sword");
    assert_eq!(v[0].rus, "Меч");
    // The later of two locales with one key is the one found.
    let found = find_locale(&v, "SWORD").unwrap();
    assert_eq!(found.eng, "Blade");
    assert_eq!(found.text(Language::Russian), "Клинок");
    assert!(find_locale(&v, "sword").is_none());
}

#[test]
fn wide_text_cut_short_fails() {
    let mut d = wide_table(&["a", "b", "key"], &[vec!["x", "y", "zz"]]);
    d.truncate(d.len() - 2);
    let r: Result<Vec<Locale>, TableError> = read_table(&d, DataFormat::WideString);
    assert_eq!(r.err(), Some(TableError::UnexpectedEnd));
}

#[test]
fn single_byte_text_is_euc_kr() {
    let d = table(&[("id", 1), ("icon", 1)], &[vec![F::B(vec![0xb0, 0xa1]), F::T("ico")]]);
    let v: Vec<ItemRes> = read_table(&d, DataFormat::String).unwrap();
    assert_eq!(v[0].id, "가");
    assert_eq!(v[0].icon, "ico");
    assert_eq!(v[0].using_recipe_type, None);
}

#[test]
fn weapon_fields_read_by_tag() {
    let names = ["id", "name", "dev", "req", "lim", "lvl", "class", "rnd", "gender", "grade", "slot", "type"];
    let t = tags(&names, &[2, 3, 4, 5, 9]);
    let d = table(
        &t,
        &[vec![
            F::T("sw_001"),
            F::T("Sword"),
            F::N(0.0),
            F::N(45.7),
            F::N(1.0),
            F::N(512.0),
            F::T("WR_GD_XX"),
            F::T("*"),
            F::T("*"),
            F::N(3.0),
            F::T("hand"),
            F::T("S1"),
        ]],
    );
    let v: Vec<Weapon> = read_table(&d, DataFormat::String).unwrap();
    let w = &v[0];
    assert_eq!(w.id, "SW_001");
    assert_eq!(w.name, "Sword");
    assert_eq!(w.required_level, 45);
    assert_eq!(w.item_level, 512);
    assert_eq!(w.level_restriction, 1.0f32.to_bits());
    assert_eq!(w.grade, Some(Grade::Heroic));
    assert_eq!(w.weapon_type, "s1");
    assert_eq!(w.get_full_type(), "s1_01");
    assert_eq!(w.usable_class.members(), vec![GameClass::Berserker, GameClass::Guardian]);
    assert!(w.equip_effect_1.is_none());
    assert!(w.skill_effect.is_none());
}

#[test]
fn weapon_number_past_the_end_fails() {
    let t = tags(&["id", "name", "dev"], &[2]);
    let mut d = table(&t, &[vec![F::T("a"), F::T("b"), F::N(1.0)]]);
    d.truncate(d.len() - 1);
    let r: Result<Vec<Weapon>, TableError> = read_table(&d, DataFormat::String);
    assert_eq!(r.err(), Some(TableError::UnexpectedEnd));
}

#[test]
fn quality_by_level_keeps_the_last() {
    let t = tags(&["lvl", "fx1", "b1", "fx2", "b2"], &[0, 2, 4]);
    let d = table(
        &t,
        &[
            vec![F::N(10.0), F::T("*"), F::N(0.5), kr("(최대HP+, 5)"), F::N(1.5)],
            vec![F::N(10.0), F::T("0"), F::N(0.25), F::T("*"), F::N(2.0)],
            vec![F::N(20.0), F::T("*"), F::N(0.0), F::T("*"), F::N(0.0)],
        ],
    );
    let v: Vec<ItemQuality> = read_table(&d, DataFormat::String).unwrap();
    assert_eq!(v[0].advanced_fixed_effect.as_ref().unwrap().effect, "(최대HP+, 5)");
    let m = read_items_quality(&d, DataFormat::String).unwrap();
    assert_eq!(m.len(), 2);
    assert_eq!(m[&10].intermediate_variable_effect_bonus, 0.25f32.to_bits());
    assert!(m[&10].advanced_fixed_effect.is_none());
    assert_eq!(m[&20].advanced_variable_effect_bonus, 0);
}

#[test]
fn options_split_lists() {
    let mut names = vec!["lvl"];
    let extra: Vec<String> = (1..=17).map(|i| format!("l{}", i)).collect();
    for e in &extra {
        names.push(Box::leak(e.clone().into_boxed_str()));
    }
    let t = tags(&names, &[0]);
    let mut row = vec![F::N(3.0), kr("최대HP+_1_2,x_1_2")];
    for _ in 2..=17 {
        row.push(F::T("*"));
    }
    let d = table(&t, &[row]);
    let v: Vec<ItemOption> = read_table(&d, DataFormat::String).unwrap();
    assert_eq!(v[0].level, 3);
    assert_eq!(v[0].effect1.len(), 2);
    assert!(v[0].effect1[0].parsed.is_some());
    assert!(v[0].effect1[1].parsed.is_none());
    assert_eq!(v[0].effect2.len(), 1);
    assert_eq!(v[0].effect2[0].effect, "*");
    let m = read_effects(&d, DataFormat::String).unwrap();
    assert_eq!(m[&3].effect1.len(), 2);
}

#[test]
fn tempering_layout_follows_tag_count() {
    let names: Vec<&'static str> =
        (0..61).map(|i| &*Box::leak(format!("t{}", i).into_boxed_str())).collect();
    let t = tags(&names, &(0..61).collect::<Vec<_>>());
    let mut row = vec![F::N(7.0)];
    for i in 1..61 {
        row.push(F::N(i as f32));
    }
    let d = table(&t, &[row]);
    let m = read_tempering(&d, DataFormat::String).unwrap();
    let x = &m[&7];
    assert_eq!(x.defenses[0], 1.0f32.to_bits());
    assert_eq!(x.defense_ratios[29], 60.0f32.to_bits());
    assert_eq!(x.attack_ratios, [0u32; 30]);
    assert_eq!(x.spell_ratios, [0u32; 30]);
}

#[test]
fn item_set_groups_are_kept_when_not_empty() {
    let mut names: Vec<&'static str> = Vec::new();
    for i in 0..28 {
        names.push(Box::leak(format!("s{}", i).into_boxed_str()));
    }
    let t = tags(&names, &[16, 22]);
    let mut row = vec![F::T("set_a"), F::T("Set A"), F::T("sw_001"), F::T("*"), F::T("ar_001")];
    for _ in 5..16 {
        row.push(F::T("*"));
    }
    // First group: two items, one effect, a skill.
    row.extend([F::N(2.0), kr("(최대HP+, 10)"), F::T("*"), F::T("0"), F::T("*"), F::T("sk.1")]);
    // Second group: nothing in it.
    row.extend([F::N(4.0), F::T("*"), F::T("*"), F::T("*"), F::T("*"), F::T("*")]);
    let d = table(&t, &[row]);
    let v: Vec<ItemSet> = read_table(&d, DataFormat::String).unwrap();
    let s = &v[0];
    assert_eq!(s.setid, "SET_A");
    assert_eq!(s.items, vec![String::from("SW_001"), String::from("AR_001")]);
    assert_eq!(s.effects.len(), 1);
    assert_eq!(s.effects[0].seteffect_count, 2);
    assert_eq!(s.effects[0].seteffect_effects.len(), 1);
    assert_eq!(s.effects[0].seteffect_skill.as_deref(), Some("SK.1_DESCRIPTION_1"));

    let skills = vec![Locale {
        key: String::from("SK.1_DESCRIPTION_1"),
        eng: String::from("Skill"),
        rus: String::from(""),
    }];
    let locales = vec![Locale { key: String::from("SET_A"), eng: String::from("Set"), rus: String::from("Набор") }];
    let with = read_items_itemset(&d, DataFormat::String, &locales, &skills).unwrap();
    assert_eq!(with[0].get_locale(Language::Russian), "Набор");
    assert_eq!(with[0].effects[0].get_locale(Language::English).as_deref(), Some("Skill"));
    // An empty Russian text falls back to the skill reference.
    assert_eq!(with[0].effects[0].get_locale(Language::Russian).as_deref(), Some("SK.1_DESCRIPTION_1"));
}
