use picarus::effects::{value_style, ItemEffect, ItemMinMaxEffect, ValueStyle};
use picarus::game_data::filters::ItemEffectFilter;
use picarus::numeric::{f32_bits_nonzero, f32_bits_to_u16, f32_bits_to_u8, is_float};
use picarus::text::remove_html_tags_regex;

fn chars(s: &str) -> Vec<char> {
    s.chars().collect()
}

#[test]
fn fixed_effect_parses_key_and_value() {
    let e = ItemEffect::new(String::from("(최대HP+, 100)"));
    assert_eq!(e.effect, "(최대HP+, 100)");
    assert_eq!(e.parsed, Some((String::from("item-effect-max-hp"), String::from("100"))));
}

#[test]
fn fixed_effect_drops_percent_sign() {
    let e = ItemEffect::new(String::from("(모든공격력%, 2.5%)"));
    assert_eq!(e.parsed, Some((String::from("item-effect-attack-percent"), String::from("2.5"))));
}

#[test]
fn fixed_effect_with_unknown_key_is_unparsed() {
    let e = ItemEffect::new(String::from("(unknown, 1)"));
    assert_eq!(e.parsed, None);
    let e = ItemEffect::new(String::from("(최대HP+, abc)"));
    assert_eq!(e.parsed, None);
    let e = ItemEffect::new(String::from("no comma"));
    assert_eq!(e.parsed, None);
}

#[test]
fn key_value_split() {
    assert_eq!(
        ItemEffect::parse_key_value("((a b , 1e3%))"),
        Some((String::from("a b"), String::from("1e3")))
    );
    assert_eq!(ItemEffect::parse_key_value("(a, x)"), None);
}

#[test]
fn matching_names_keys() {
    assert_eq!(ItemEffect::matching("최대hp+"), Some("item-effect-max-hp"));
    assert_eq!(ItemEffect::matching("nothing"), None);
}

#[test]
fn ranged_effect_parses_three_pieces() {
    let e = ItemMinMaxEffect::new("최대HP+_10_20");
    assert_eq!(
        e.parsed,
        Some((String::from("item-effect-max-hp"), String::from("10"), String::from("20")))
    );
    assert_eq!(ItemMinMaxEffect::new("최대HP+_10").parsed, None);
    assert_eq!(ItemMinMaxEffect::new("최대HP+_a_20").parsed, None);
    assert_eq!(
        ItemMinMaxEffect::parse_key_min_max("k_1.5_-2"),
        Some((String::from("k"), String::from("1.5"), String::from("-2")))
    );
}

#[test]
fn float_text_accepts_what_f32_parses() {
    for s in ["1", "-2.5", "+.5", "1e10", "1E-3", "inf", "-Infinity", "NaN", "5."] {
        assert!(is_float(&chars(s)), "{}", s);
        assert!(s.parse::<f32>().is_ok());
    }
    for s in ["", "e5", ".", "1e", "--1", "1.2.3", "abc"] {
        assert!(!is_float(&chars(s)), "{}", s);
        assert!(s.parse::<f32>().is_err());
    }
}

#[test]
fn float_casts_saturate() {
    assert_eq!(f32_bits_to_u8(1.9f32.to_bits()), 1);
    assert_eq!(f32_bits_to_u8(300.0f32.to_bits()), 255);
    assert_eq!(f32_bits_to_u8((-4.0f32).to_bits()), 0);
    assert_eq!(f32_bits_to_u8(f32::NAN.to_bits()), 0);
    assert_eq!(f32_bits_to_u16(70000.0f32.to_bits()), 65535);
    assert_eq!(f32_bits_to_u16(1234.5f32.to_bits()), 1234);
    assert_eq!(f32_bits_to_u16(f32::INFINITY.to_bits()), 65535);
    for x in [0.0f32, -0.0, 1.0, 0.5, 1e-40, f32::NAN] {
        assert_eq!(f32_bits_nonzero(x.to_bits()), x != 0.0);
    }
}

#[test]
fn html_tags_are_removed() {
    assert_eq!(remove_html_tags_regex("a<br>b<font color='red'>c</font>"), "a\nbc");
    assert_eq!(remove_html_tags_regex("1 < 2 and 3 > 2"), "1  2");
    assert_eq!(remove_html_tags_regex("no > tags <here"), "no > tags <here");
    assert_eq!(remove_html_tags_regex(""), "");
}

#[test]
fn effect_filter_title_trims_dashes() {
    assert_eq!(ItemEffectFilter::title("Max HP -"), "Max HP");
    assert_eq!(ItemEffectFilter::title("Attack --  "), "Attack --");
}

#[test]
fn removing_tags_twice_changes_nothing_more() {
    for s in ["a<b>c</b>d", "<<x>>y", "<br><br/>z", "p < q > r <s"] {
        let once = remove_html_tags_regex(s);
        assert!(!once.contains('<') || !once[once.find('<').unwrap()..].contains('>'));
        assert_eq!(remove_html_tags_regex(&once), once);
    }
}

#[test]
fn value_styles_follow_the_key() {
    assert_eq!(value_style("item-effect-lance-damage-minus-percent"), ValueStyle::MinusPercent);
    assert_eq!(value_style("item-effect-attack-percent"), ValueStyle::Percent);
    assert_eq!(value_style("item-effect-attack"), ValueStyle::Whole);
}

#[test]
fn text_without_tags_comes_back_unchanged() {
    for s in ["plain text", "a > b", "", "line\nbreak"] {
        assert_eq!(remove_html_tags_regex(s), s);
    }
    for s in ["a<br>b", "<i>x</i>", "<<>>"] {
        assert!(remove_html_tags_regex(s).chars().count() <= s.chars().count());
    }
}
