use picarus::game_data::consume::Consume;
use picarus::game_data::fellow_equip::FellowEquip;
use picarus::game_data::item_res::{find_res, ItemRes};
use picarus::game_data::locale::Locale;
use picarus::game_data::material::Material;
use picarus::game_data::read_table;
use picarus::game_data::recipe::Recipe;
use picarus::game_data::sealed_fellow::SealedFellow;
use picarus::kinds::{DataFormat, Grade, MaterialType, RecipeType};

enum F {
    T(&'static str),
    N(f32),
}

fn table(items: &[Vec<F>]) -> Vec<u8> {
    let n_tags = items[0].len();
    let mut d = Vec::new();
    d.extend((n_tags as u16).to_le_bytes());
    for i in 0..n_tags {
        let name = format!("t{}", i);
        d.push(1);
        d.push(name.len() as u8);
        d.extend(name.as_bytes());
    }
    d.extend((items.len() as u16).to_le_bytes());
    let mut data = Vec::new();
    let mut offsets = Vec::new();
    for item in items {
        for f in item {
            offsets.push(data.len() as u32);
            match f {
                F::T(s) => {
                    data.extend(s.as_bytes());
                    data.push(0);
                }
                F::N(x) => data.extend(x.to_le_bytes()),
            }
        }
    }
    offsets.push(data.len() as u32);
    for o in offsets {
        d.extend(o.to_le_bytes());
    }
    d.extend(data);
    d
}

fn locale(key: &str, eng: &str) -> Locale {
    Locale { key: String::from(key), eng: String::from(eng), rus: String::new() }
}

#[test]
fn materials_take_their_crafting_kinds_from_resources() {
    let d = table(&[vec![F::T("mat_1"), F::T("Iron"), F::T("ore"), F::N(2.0), F::N(5.0)]]);
    let mut v: Vec<Material> = read_table(&d, DataFormat::String).unwrap();
    let m = &mut v[0];
    assert_eq!(m.id, "MAT_1");
    assert_eq!(m.grade, Some(Grade::Elite));
    assert_eq!(m.required_level, 5);
    let res = vec![
        ItemRes { id: String::from("MAT_1"), icon: String::from("a"), using_recipe_type: Some(String::from("we")) },
        ItemRes { id: String::from("MAT_1"), icon: String::from("b"), using_recipe_type: Some(String::from("fe_al_xx_al")) },
    ];
    assert_eq!(find_res(&res, "MAT_1").unwrap().icon, "b");
    m.set_recipe_types(&res);
    assert_eq!(m.recipe_type, Some(vec![MaterialType::Alchemy, MaterialType::BarderCrafting]));
    m.set_locale(&vec![locale("MAT_1", "Iron ore"), locale("MAT_1_DESCRIPTION", "Used for swords")]);
    assert_eq!(m.locale.as_ref().unwrap().eng, "Iron ore");
    assert_eq!(m.description_locale.as_ref().unwrap().eng, "Used for swords");
}

#[test]
fn consumables_read_skills_in_upper_case() {
    let mut row = vec![F::T("po_1"), F::T("Potion")];
    for i in 2..46 {
        row.push(if [3, 4, 5, 12, 15, 16, 21, 25, 26, 27, 36, 37, 38, 39, 41, 42, 43, 44, 45].contains(&i) {
            F::T("*")
        } else {
            F::N(0.0)
        });
    }
    row.push(F::T("heal.1"));
    let d = table(&[row]);
    let v: Vec<Consume> = read_table(&d, DataFormat::String).unwrap();
    assert_eq!(v[0].skill_effect.as_deref(), Some("HEAL.1"));
}

#[test]
fn recipes_name_their_kind() {
    let d = table(&[
        vec![F::T("rc_1"), F::T("Sword recipe"), F::N(1.0), F::T("cat"), F::T("we")],
        vec![F::T("rc_2"), F::T("Unknown"), F::N(1.0), F::T("cat"), F::T("zz")],
    ]);
    let mut v: Vec<Recipe> = read_table(&d, DataFormat::String).unwrap();
    assert_eq!(v[0].recipe_type, Some(RecipeType::WeaponCrafting));
    assert_eq!(v[1].recipe_type, None);
    v[1].set_locale(&vec![locale("RC_2", "Mystery")]);
    assert_eq!(v[1].locale.as_ref().unwrap().eng, "Mystery");
}

#[test]
fn fellow_bonus_kept_only_when_not_zero() {
    let mut a = vec![F::T("fe_1"), F::T("Saddle")];
    let mut b = vec![F::T("fe_2"), F::T("Saddle")];
    for _ in 2..12 {
        a.push(F::N(0.0));
        b.push(F::N(0.0));
    }
    a.push(F::N(3.5));
    b.push(F::N(0.0));
    let d = table(&[a, b]);
    let v: Vec<FellowEquip> = read_table(&d, DataFormat::String).unwrap();
    assert_eq!(v[0].max_ep_plus, Some(3.5f32.to_bits()));
    assert_eq!(v[1].max_ep_plus, None);
}

#[test]
fn sealed_fellow_effects_skip_empty_lists() {
    let mut row = vec![F::T("sf_1"), F::T("Wolf"), F::N(1.0), F::N(0.0), F::T("t"), F::N(3.0), F::T("a"), F::T("b"), F::T("c")];
    row.extend([F::T("*,1"), F::T("hp_1_2_1"), F::T("0"), F::T("0,2")]);
    let d = table(&[row]);
    let v: Vec<SealedFellow> = read_table(&d, DataFormat::String).unwrap();
    assert_eq!(v[0].sealed_fellow_effect_1, None);
    assert_eq!(v[0].sealed_fellow_effect_2.as_deref(), Some("hp_1_2_1"));
    assert_eq!(v[0].sealed_fellow_effect_3, None);
    assert_eq!(v[0].max_enhancement_sealed_fellow_effect, None);
}
