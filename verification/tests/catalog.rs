use picarus::effects::ItemMinMaxEffect;
use picarus::game_data::catalog::{prepare_accessories, prepare_weapons, GameData};
use picarus::game_data::item_option::ItemOption;
use picarus::game_data::item_set::ItemSet;
use picarus::game_data::items::DataType;
use picarus::game_data::locale::Locale;
use picarus::game_data::paths::{option_table_path, quality_table_path, tempering_table_path};
use picarus::game_data::product::Product;
use picarus::game_data::read_table;
use picarus::game_data_view::GameDataView;
use picarus::kinds::{ClassSet, DataFormat, GameClass, Grade, ItemType, Language, SelectionMove};
use picarus::settings::Settings;

enum F {
    T(&'static str),
    B(Vec<u8>),
    N(f32),
}

fn kr(s: &str) -> F {
    F::B(encoding_rs::EUC_KR.encode(s).0.into_owned())
}

fn table(n_tags: usize, items: &[Vec<F>]) -> Vec<u8> {
    let mut d = Vec::new();
    d.extend((n_tags as u16).to_le_bytes());
    for i in 0..n_tags {
        let name = format!("t{}", i);
        d.push(1);
        d.push(name.len() as u8);
        d.extend(name.as_bytes());
    }
    d.extend((items.len() as u16).to_le_bytes());
    let mut data = Vec::new();
    let mut offsets = Vec::new();
    for item in items {
        assert_eq!(item.len(), n_tags);
        for f in item {
            offsets.push(data.len() as u32);
            match f {
                F::T(s) => {
                    data.extend(s.as_bytes());
                    data.push(0);
                }
                F::B(b) => {
                    data.extend(b);
                    data.push(0);
                }
                F::N(x) => data.extend(x.to_le_bytes()),
            }
        }
    }
    offsets.push(data.len() as u32);
    for o in offsets {
        d.extend(o.to_le_bytes());
    }
    d.extend(data);
    d
}

/// A weapon row of 32 tags: id, grade, type and the first equip effect.
fn weapon(id: &'static str, grade: f32, kind: &'static str, effect: F) -> Vec<F> {
    let mut row = vec![F::T(id), F::T("name"), F::N(0.0), F::N(1.0), F::N(0.0), F::N(10.0), F::T("WR")];
    row.extend([F::T("*"), F::T("*"), F::N(grade), F::T("slot"), F::T(kind)]);
    for _ in 12..31 {
        row.push(F::N(0.0));
    }
    row.push(effect);
    row
}

fn locale(key: &str, eng: &str, rus: &str) -> Locale {
    Locale { key: String::from(key), eng: String::from(eng), rus: String::from(rus) }
}

fn catalog() -> GameData {
    let d = table(
        32,
        &[
            weapon("sw_1", 1.0, "S1", kr("(최대HP+, 10)")),
            weapon("sw_2", 3.0, "S2", F::T("*")),
            weapon("sw_1", 2.0, "S1", kr("(모든공격력+, 5)")),
        ],
    );
    let locales = vec![locale("SW_1", "Long Sword", "Длинный меч"), locale("SW_2", "", "")];
    let sets: Vec<ItemSet> = Vec::new();
    let items = prepare_weapons(&d, DataFormat::String, &locales, &Vec::new(), &sets).unwrap();
    let mut g = GameData::new();
    g.add_items(items);
    g
}

#[test]
fn a_repeated_id_replaces_in_place() {
    let g = catalog();
    assert_eq!(g.len(), 2);
    assert_eq!(g.get_index(0).unwrap().get_id(), "SW_1");
    assert_eq!(g.get_index(0).unwrap().get_grade(), Some(Grade::Elite));
    assert_eq!(g.get_index(1).unwrap().get_id(), "SW_2");
    assert!(g.get("SW_3").is_none());
    assert_eq!(g.index_of("SW_2"), Some(1));
}

#[test]
fn names_fall_back_to_ids() {
    let g = catalog();
    let sw1 = g.get("SW_1").unwrap();
    assert_eq!(sw1.get_locale_name(Language::English), "Long Sword");
    assert_eq!(sw1.get_locale_name(Language::Russian), "Длинный меч");
    let sw2 = g.get("SW_2").unwrap();
    assert_eq!(sw2.get_locale_name(Language::English), "SW_2");
}

#[test]
fn effects_and_types_are_gathered_once() {
    let g = catalog();
    assert_eq!(g.get("SW_1").unwrap().get_effects(), vec![String::from("item-effect-attack")]);
    assert_eq!(g.get_all_effects(), vec![String::from("item-effect-attack")]);
    assert_eq!(g.unique_full_types(), vec![String::from("s1_01"), String::from("s2_01")]);
    assert_eq!(g.unique_types(), vec![String::from("s1"), String::from("s2")]);
    assert!(g.get("SW_2").unwrap().test().is_empty());
}

#[test]
fn filters_match_kind_grade_effect_and_text() {
    let g = catalog();
    let sw1 = g.get("SW_1").unwrap();
    let all_types = ItemType::iter();
    let all_grades = Grade::iter();
    assert!(sw1.matches("", &all_types, &all_grades, &None));
    assert!(sw1.matches("long", &all_types, &all_grades, &None));
    assert!(sw1.matches("меч", &all_types, &all_grades, &None));
    assert!(sw1.matches("sw_", &all_types, &all_grades, &None));
    assert!(!sw1.matches("axe", &all_types, &all_grades, &None));
    assert!(!sw1.matches("", &vec![ItemType::Armor], &all_grades, &None));
    assert!(!sw1.matches("", &all_types, &vec![Grade::Common], &None));
    assert!(sw1.matches("", &all_types, &all_grades, &Some(String::from("item-effect-attack"))));
    assert!(!sw1.matches("", &all_types, &all_grades, &Some(String::from("item-effect-max-hp"))));
    assert!(sw1.filter_effect(&None));
}

#[test]
fn explorer_filters_selects_and_moves() {
    let mut v = GameDataView::new();
    v.set_game_data(catalog());
    v.set_selected_item(Some(String::from("SW_1")));
    v.action_key_selection(SelectionMove::Down);
    assert_eq!(v.action_copy_selection(Language::English).as_deref(), Some("SW_2"));
    v.action_key_selection(SelectionMove::Down);
    assert_eq!(v.action_copy_selection(Language::English).as_deref(), Some("SW_2"));
    v.action_key_selection(SelectionMove::Up);
    assert_eq!(v.action_copy_selection(Language::English).as_deref(), Some("Long Sword"));
    v.action_key_selection(SelectionMove::Up);
    assert_eq!(v.action_copy_selection(Language::English).as_deref(), Some("Long Sword"));
    v.set_selected_item(Some(String::from("NOPE")));
    assert_eq!(v.action_copy_selection(Language::English).as_deref(), Some("Long Sword"));
    v.action_clear_selection();
    assert_eq!(v.action_copy_selection(Language::English), None);

    v.filters.set_input("SWORD");
    v.apply_filter_and_resort();
    v.set_selected_item(Some(String::from("SW_2")));
    // Selected but not shown: nothing to copy.
    assert_eq!(v.action_copy_selection(Language::English), None);
}

#[test]
fn closing_the_selected_tab_selects_its_neighbour() {
    let mut v = GameDataView::new();
    v.set_game_data(catalog());
    v.open_tab(String::from("SW_1"));
    v.open_tab(String::from("SW_2"));
    v.set_selected_item(Some(String::from("SW_1")));
    v.close_tab("SW_1");
    assert_eq!(v.action_copy_selection(Language::English).as_deref(), Some("SW_2"));
    v.close_tab("SW_2");
    assert_eq!(v.action_copy_selection(Language::English), None);
}

#[test]
fn accessory_table_of_other_kind_reads() {
    let d = table(2, &[vec![F::T("ac_1"), F::T("Ring")]]);
    let items = prepare_accessories(&d, DataFormat::String, &Vec::new(), &Vec::new(), &Vec::new()).unwrap();
    match &items[0] {
        DataType::Accessory(a) => assert_eq!(a.id, "AC_1"),
        _ => panic!("not an accessory"),
    }
}

fn option_with(effect1: &[&str], wr1: &[&str], wr2: &[&str]) -> ItemOption {
    let list = |v: &[&str]| v.iter().map(|s| ItemMinMaxEffect::new(s)).collect::<Vec<_>>();
    ItemOption {
        level: 1,
        effect1: list(effect1),
        effect2: Vec::new(),
        special_effect: Vec::new(),
        wr_effect1: list(wr1),
        wr_effect2: list(wr2),
        gd_effect1: Vec::new(),
        gd_effect2: Vec::new(),
        tf_effect1: Vec::new(),
        tf_effect2: Vec::new(),
        pr_effect1: Vec::new(),
        pr_effect2: Vec::new(),
        wz_effect1: Vec::new(),
        wz_effect2: Vec::new(),
        ac_effect1: Vec::new(),
        ac_effect2: Vec::new(),
        do_effect1: Vec::new(),
        do_effect2: Vec::new(),
    }
}

#[test]
fn item_options_pick_by_sub_type_and_class() {
    let o = option_with(&["a_1_2", "b_1_2", "c_1_2", "d_1_2", "e_1_2"], &["w0_1_2", "w1_1_2", "w2_1_2"], &["v0_1_2"]);
    let mut wr = ClassSet::new();
    wr.insert(GameClass::Berserker);
    // A necklace draws from the common lists: positions 0 and 4 of the first.
    let picked = GameClass::check_item_option(&o, &wr, "ne").unwrap();
    let names: Vec<&str> = picked.iter().map(|e| e.effect.as_str()).collect();
    assert_eq!(names, vec!["a_1_2", "e_1_2"]);
    // A dagger draws from the class lists: 0, 1, 2 of the first and 0 of the second.
    let picked = GameClass::check_item_option(&o, &wr, "d1").unwrap();
    let names: Vec<&str> = picked.iter().map(|e| e.effect.as_str()).collect();
    assert_eq!(names, vec!["w0_1_2", "w1_1_2", "w2_1_2", "v0_1_2"]);
    // No class lists for two unrelated classes.
    let mut two = wr;
    two.insert(GameClass::Priest);
    assert!(GameClass::check_item_option(&o, &two, "d1").is_none());
    // Unknown sub-type, and nothing found.
    assert!(GameClass::check_item_option(&o, &wr, "zz").is_none());
    assert!(GameClass::check_item_option(&option_with(&[], &[], &[]), &wr, "sd").is_none());
}

#[test]
fn table_paths() {
    assert_eq!(option_table_path(Grade::Heroic), "gamedata\\adatabin\\itemoption_basicstatrare.bin");
    assert_eq!(tempering_table_path("ne_01"), "gamedata\\adatabin\\itemreinforcetable_am_01.bin");
    assert_eq!(tempering_table_path("s1_01"), "gamedata\\adatabin\\itemreinforcetable_s1_01.bin");
    assert_eq!(quality_table_path("s1"), "gamedata\\adatabin\\itemqualitytable_s1.bin");
}

#[test]
fn settings_follow_the_locale() {
    assert_eq!(Settings::from_locale(Some(String::from("ru-RU"))).language, Language::Russian);
    assert_eq!(Settings::from_locale(None).language, Language::English);
    assert_eq!(Settings::from_locale(Some(String::from("fr-FR"))).game_path, "");
}

#[test]
fn products_link_to_the_catalog() {
    let mut row = vec![F::T("sw_2"), F::T("p1"), F::T("n"), F::T("t"), F::N(1.0), F::N(0.0), F::T("sw_1"), F::N(2.0)];
    row.extend([F::T("*"), F::N(0.0), F::T("zz_9"), F::N(1.0)]);
    let d = table(12, &[row]);
    let mut v: Vec<Product> = read_table(&d, DataFormat::String).unwrap();
    let g = catalog();
    let p = &mut v[0];
    assert_eq!(p.productid, "P1");
    assert_eq!(p.count1, 2);
    assert!(p.material1_1.is_none());
    p.validate(&g);
    assert_eq!(p.node.position, Some(1));
    assert_eq!(p.material1.as_ref().unwrap().position, Some(0));
    assert_eq!(p.material2.as_ref().unwrap().position, None);
}

#[test]
fn codes_with_the_same_picks_roll_the_same_effects() {
    let o = option_with(&["a_1_2"], &["w0_1_2", "w1_1_2", "w2_1_2", "w3_1_2", "w4_1_2", "w5_1_2", "w6_1_2", "w7_1_2", "w8_1_2", "w9_1_2", "w10_1_2", "w11_1_2"], &["v0_1_2", "v1_1_2", "v2_1_2", "v3_1_2", "v4_1_2", "v5_1_2", "v6_1_2", "v7_1_2", "v8_1_2", "v9_1_2", "v10_1_2"]);
    let mut wr = ClassSet::new();
    wr.insert(GameClass::Berserker);
    let names = |code: &str| -> Vec<String> {
        GameClass::check_item_option(&o, &wr, code).unwrap().iter().map(|e| e.effect.clone()).collect()
    };
    for slot in ["ha", "sh", "ja", "gl", "bo"] {
        assert_eq!(names(&format!("pl_{slot}")), names(&format!("ch_{slot}")));
        assert_eq!(names(&format!("le_{slot}")), names(&format!("cl_{slot}")));
    }
    assert_eq!(names("s1"), names("s2"));
    assert_eq!(names("m1"), names("m2"));
    assert_eq!(names("m2"), names("b1"));
    assert_eq!(names("b1"), names("w1"));
    assert_eq!(names("at"), names("tb"));
    assert_eq!(names("s1"), vec!["w0_1_2", "w2_1_2", "v0_1_2", "v1_1_2", "w5_1_2"]);
    assert_ne!(names("pl_ha"), names("le_ha"));
}

#[test]
fn validating_a_product_changes_only_its_links() {
    let mut row = vec![F::T("sw_2"), F::T("p1"), F::T("n"), F::T("t"), F::N(1.0), F::N(0.0), F::T("sw_1"), F::N(2.0)];
    row.extend([F::T("*"), F::N(0.0), F::T("zz_9"), F::N(1.0)]);
    let d = table(12, &[row]);
    let mut v: Vec<Product> = read_table(&d, DataFormat::String).unwrap();
    let g = catalog();
    let p = &mut v[0];
    let before = (p.productid.clone(), p.name.clone(), p.technology_type.clone(), p.technology_grade, p.count1, p.count2);
    p.validate(&g);
    assert_eq!(before, (p.productid.clone(), p.name.clone(), p.technology_type.clone(), p.technology_grade, p.count1, p.count2));
    assert_eq!(p.material1.as_ref().unwrap().position, Some(0));
}
