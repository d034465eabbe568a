use picarus::kinds::{
    ArmorClassKind, ArmorTypes, GameClass, GameDataLoadingStatus, Grade, ItemSubType, ItemType, Language, MaterialType,
    Quality, RecipeType,
};

#[test]
fn quality_cycles_through_all_three() {
    let q = Quality::default();
    assert_eq!(q, Quality::Simple);
    assert_eq!(q.next(), Quality::Good);
    assert_eq!(q.next().next(), Quality::Perfect);
    assert_eq!(q.next().next().next(), Quality::Simple);
}

#[test]
fn grade_numbers_round_trip() {
    for g in Grade::iter() {
        assert_eq!(Grade::from_repr(g.repr()), Some(g));
    }
    assert_eq!(Grade::from_repr(1), Some(Grade::Common));
    assert_eq!(Grade::from_repr(6), Some(Grade::Unique));
    assert_eq!(Grade::from_repr(7), Some(Grade::Mythical));
    assert_eq!(Grade::from_repr(0), None);
    assert_eq!(Grade::from_repr(5), None);
}

#[test]
fn class_codes_convert() {
    assert_eq!(GameClass::try_from("GD").unwrap(), GameClass::Guardian);
    assert_eq!(GameClass::try_from("TF").unwrap(), GameClass::Assassin);
    assert_eq!(GameClass::try_from("DO").unwrap(), GameClass::Trickster);
    assert_eq!(GameClass::try_from("gd").unwrap_err(), "Cannot convert gd class");
}

#[test]
fn class_index_round_trips() {
    for (i, c) in GameClass::iter().into_iter().enumerate() {
        assert_eq!(c.index(), i);
        assert_eq!(GameClass::at(i), c);
    }
}

#[test]
fn sub_types_convert() {
    assert_eq!(ItemSubType::try_from("ne").unwrap(), ItemSubType::Necklage);
    assert_eq!(ItemSubType::try_from("tb").unwrap(), ItemSubType::TeddyBear);
    assert_eq!(
        ItemSubType::try_from("pl_ha").unwrap(),
        ItemSubType::Armor(ArmorClassKind::Physical(ArmorTypes::Helmet))
    );
    assert_eq!(
        ItemSubType::try_from("cl_bo").unwrap(),
        ItemSubType::Armor(ArmorClassKind::Magic(ArmorTypes::Boots))
    );
    assert_eq!(ItemSubType::try_from("xx_ha").unwrap_err(), "Cannot convert xx_ha item subtype");
    assert!(ItemSubType::try_from("pl_zz").is_err());
}

#[test]
fn craft_types_convert() {
    assert!(MaterialType::try_from("nothing").is_err());
    assert!(RecipeType::try_from("nothing").is_err());
}

#[test]
fn language_from_locale_names() {
    assert_eq!(Language::from_locale("ru-RU"), Language::Russian);
    assert_eq!(Language::from_locale("en-US"), Language::English);
    assert_eq!(Language::from_locale("de-DE"), Language::English);
    assert_eq!(Language::Russian.repr(), 1);
    assert_eq!(Language::from_repr(0), Some(Language::English));
    assert_eq!(Language::from_repr(2), None);
}

#[test]
fn locale_keys_name_each_value() {
    assert_eq!(ItemType::SecondaryWeapon.locale_key(), "item-type-secondary-weapon");
    assert_eq!(Quality::Perfect.locale_key(), "item-quality-perfect");
    assert_eq!(Grade::Mythical.locale_key(), "item-mythical-grade");
    assert_eq!(GameClass::Wizard.locale_key(), "item-class-wizard");
    assert_eq!(GameDataLoadingStatus::SkillBook.locale_key(), "game-data-loading-skill-book");
}

#[test]
fn item_types_in_declaration_order() {
    assert_eq!(
        ItemType::iter(),
        vec![ItemType::Armor, ItemType::SecondaryWeapon, ItemType::Weapon, ItemType::Accessory]
    );
}

#[test]
fn language_titles() {
    assert_eq!(Language::English.title(), "English");
    assert_eq!(Language::Russian.title(), "Русский");
}

#[test]
fn default_settings_have_no_game_path() {
    let s = picarus::settings::Settings::default();
    assert_eq!(s.game_path, "");
}
