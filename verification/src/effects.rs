//! The effects written in the item tables: "(key, value)" for a fixed
//! effect and "key_min_max" for a ranged one, and the table that names
//! each key by its localization id.
use vstd::prelude::*;

use crate::numeric::{is_float, is_float_text};
use crate::outside::str_eq;
use crate::text::{
    chars_of, find, find_char, is_ws, lemma_find_char_at, split, split_char, string_of, string_of_range, trim, trim_end_char,
    trim_end_matches, trim_end_ws, trim_start_char, trim_start_matches, trim_start_ws, trim_ws,
};

verus! {

/// The localization id of an effect key of the data files.
pub open spec fn spec_effect_key(k: Seq<char>) -> Option<Seq<char>> {
    if k == "최대ep%"@ || k == "최대EP%"@ {
        Some("item-effect-max-ep-percent"@)
    } else if k == "생명력흡수성공확률+"@ || k == "생명력흡수성공확률%"@ {
        Some("item-effect-health-absorption-chance-percent"@)
    } else if k == "생명력흡수량+"@ {
        Some("item-effect-health-absorption-amount-percent"@)
    } else if k == "데미지감소%"@ {
        Some("item-effect-damage-reduction-percent"@)
    } else if k == "석궁피격데미지%"@ {
        Some("item-effect-crossbow-damage-percent"@)
    } else if k == "창피격데미지%"@ {
        Some("item-effect-lance-damage-percent"@)
    } else if k == "창피격데미지%-"@ {
        Some("item-effect-lance-damage-minus-percent"@)
    } else if k == "배후공격극대화확률+"@ {
        Some("item-effect-backstab-damage"@)
    } else if k == "회피력+"@ {
        Some("item-effect-evasion-power"@)
    } else if k == "회피율%"@ {
        Some("item-effect-evasion-percent"@)
    } else if k == "최대MP+"@ {
        Some("item-effect-mana"@)
    } else if k == "최대HP+"@ || k == "최대hp+"@ {
        Some("item-effect-max-hp"@)
    } else if k == "최대HP%"@ {
        Some("item-effect-max-hp-percent"@)
    } else if k == "무기물리방어력%"@ {
        Some("item-effect-physical-defense-percent"@)
    } else if k == "쿨타임%"@ {
        Some("item-effect-cooldown-percent"@)
    } else if k == "PK방어력%"@ || k == "pk방어력%"@ {
        Some("item-effect-pvp-defense-percent"@)
    } else if k == "모든공격력+"@ {
        Some("item-effect-attack"@)
    } else if k == "모든공격력%"@ {
        Some("item-effect-attack-percent"@)
    } else if k == "allstatderest+"@ || k == "AllStatDerest+"@ {
        Some("item-effect-stat-limit-break"@)
    } else if k == "allstatderest%"@ || k == "AllStatDerest%"@ {
        Some("item-effect-stat-limit-break-percent"@)
    } else if k == "allstat+"@ || k == "AllStat+"@ {
        Some("item-effect-allstats"@)
    } else if k == "allstat%"@ || k == "AllStat%"@ {
        Some("item-effect-allstats-percent"@)
    } else if k == "모든극대화확률+"@ {
        Some("item-effect-crit-damage-chance-percent"@)
    } else if k == "PK육체계저항율+"@ || k == "pk육체계저항율+"@ {
        Some("item-effect-pvp-resist-percent"@)
    } else if k == "이동속도%"@ {
        Some("item-effect-speed-percent"@)
    } else if k == "탈것속도%"@ {
        Some("item-effect-mount-speed-percent"@)
    } else if k == "치명타피해감소+"@ {
        Some("item-effect-crit-defense"@)
    } else if k == "마법방어력%"@ {
        Some("item-effect-magic-defense-percent"@)
    } else if k == "INTDerest+"@ {
        Some("item-effect-intelligence-break-limit"@)
    } else if k == "VTLDerest%"@ {
        Some("item-effect-vitality-break-limit-percent"@)
    } else if k == "STRDerest+"@ {
        Some("item-effect-strength-break-limit"@)
    } else if k == "INT%"@ {
        Some("item-effect-intelligence-percent"@)
    } else if k == "STR%"@ {
        Some("item-effect-strength-percent"@)
    } else if k == "VTL+"@ {
        Some("item-effect-vitality"@)
    } else if k == "MTL+"@ {
        Some("item-effect-mentality"@)
    } else if k == "INT+"@ || k == "int+"@ {
        Some("item-effect-intelligence"@)
    } else if k == "STR+"@ || k == "str+"@ {
        Some("item-effect-strength"@)
    } else if k == "DEX+"@ || k == "dex+"@ {
        Some("item-effect-dexterity"@)
    } else if k == "PK공격력%"@ {
        Some("item-effect-pvp-attack-percent"@)
    } else if k == "출혈관통률"@ {
        Some("item-effect-bleed-chance-percent"@)
    } else if k == "모든방어력%"@ {
        Some("item-effect-defense-percent"@)
    } else if k == "모든방어력+"@ {
        Some("item-effect-defense"@)
    } else if k == "무기물리방어력+"@ {
        Some("item-effect-physical-defense"@)
    } else if k == "무기물리공격력+"@ {
        Some("item-effect-physical-attack"@)
    } else if k == "마법방어력+"@ {
        Some("item-effect-magic-defense"@)
    } else if k == "캐스팅속도%"@ {
        Some("item-effect-cast-time-percent"@)
    } else if k == "마법물리공격력+"@ {
        Some("item-effect-magic-attack"@)
    } else if k == "출혈방어율"@ || k == "출혈방어율%"@ {
        Some("item-effect-bleed-defense-percent"@)
    } else if k == "모든극대력+"@ {
        Some("item-effect-critical-damage"@)
    } else if k == "마법극대력+"@ {
        Some("item-effect-magic-critical-damage"@)
    } else if k == "마법극대화데미지+"@ {
        Some("item-effect-magic-critical-damage-percent"@)
    } else if k == "마법극대화확률+"@ || k == "마법극대화확률%"@ {
        Some("item-effect-magic-critical-damage-chance-percent"@)
    } else if k == "무기극대화확률+"@ {
        Some("item-effect-physical-critical-damage-chance-percent"@)
    } else if k == "치명타피해관통율%"@ {
        Some("item-effect-critical-damage-penetration-percent"@)
    } else if k == "무기극대력+"@ {
        Some("item-effect-physical-critical-damage"@)
    } else if k == "무기극대화데미지+"@ {
        Some("item-effect-physical-critical-damage-percent"@)
    } else if k == "몬스터드랍율%"@ {
        Some("item-effect-drop-chance-percent"@)
    } else if k == "마법물리공격력%"@ {
        Some("item-effect-magic-attack-percent"@)
    } else if k == "무기물리공격력%"@ {
        Some("item-effect-physical-attack-percent"@)
    } else if k == "길들이기확률%"@ {
        Some("item-effect-taming-chance-percent"@)
    } else if k == "리버스강화확률%"@ {
        Some("item-effect-reverse-tempering-chance-percent"@)
    } else if k == "강화성공확률%"@ {
        Some("item-effect-tempering-chance-percent"@)
    } else if k == "제작성공확률%"@ {
        Some("item-effect-crafting-chance-percent"@)
    } else if k == "제작대성공확률%"@ {
        Some("item-effect-great-craft-chance-percent"@)
    } else if k == "판매대행등록비감소%"@ {
        Some("item-effect-auction-fee-percent"@)
    } else if k == "펠로우경험치%"@ {
        Some("item-effect-mount-exp-percent"@)
    } else if k == "도트데미지감소+"@ {
        Some("item-effect-bleed-damage-reduction"@)
    } else if k == "도트데미지감소%"@ {
        Some("item-effect-bleed-damage-reduction-percent"@)
    } else if k == "길들이기포인트감소%"@ {
        Some("item-effect-taming-points-percent"@)
    } else if k == "드랍Money변화율*"@ {
        Some("item-effect-money-drop-increase-percent"@)
    } else if k == "Money추가획득율%"@ {
        Some("item-effect-money-drop-increase"@)
    } else if k == "공격자의치명타피해Plus효과감소%"@ {
        Some("item-effect-critical-defense-percent"@)
    } else if k == "최대MP%"@ {
        Some("item-effect-mana-percent"@)
    } else if k == "플레이어경험치%"@ {
        Some("item-effect-obtained-character-exp-percent"@)
    } else if k == "배후공격데미지%"@ {
        Some("item-effect-backstab-rate-percent"@)
    } else if k == "Hp힐량%"@ {
        Some("item-effect-health-regen-percent"@)
    } else if k == "어그로%"@ {
        Some("item-effect-threat-percent"@)
    } else if k == "hp회복력%"@ {
        Some("item-effect-base-health-regen-percent"@)
    } else if k == "마법물리방어력+"@ {
        Some("item-effect-magic-and-physical-defense"@)
    } else {
        None
    }
}

/// The key and the value text of a fixed effect "(key, value)": the
/// parentheses are stripped, the text is split at its first comma, both
/// sides are trimmed, a trailing `%` is dropped from the value, and the
/// value must read as a number.
pub open spec fn spec_key_value(s: Seq<char>) -> Option<(Seq<char>, Seq<char>)> {
    let t = trim_end_char(trim_start_char(s, '('), ')');
    match find_char(t, ',') {
        None => None,
        Some(i) => {
            let key = trim_ws(t.take(i));
            let value = trim_end_char(trim_ws(t.skip(i + 1)), '%');
            if is_float_text(value) {
                Some((key, value))
            } else {
                None
            }
        },
    }
}

/// The parsed form of a fixed effect: its localization id and value text.
pub open spec fn spec_effect_parsed(s: Seq<char>) -> Option<(Seq<char>, Seq<char>)> {
    match spec_key_value(s) {
        Some((k, v)) => match spec_effect_key(k) {
            Some(id) => Some((id, v)),
            None => None,
        },
        None => None,
    }
}

/// The key, minimum and maximum of a ranged effect "key_min_max": exactly
/// three pieces between underscores, the last two numbers.
pub open spec fn spec_key_min_max(s: Seq<char>) -> Option<(Seq<char>, Seq<char>, Seq<char>)> {
    let parts = split_char(s, '_');
    if parts.len() == 3 && is_float_text(parts[1]) && is_float_text(parts[2]) {
        Some((parts[0], parts[1], parts[2]))
    } else {
        None
    }
}

/// The parsed form of a ranged effect: its localization id, minimum and
/// maximum texts.
pub open spec fn spec_min_max_parsed(s: Seq<char>) -> Option<(Seq<char>, Seq<char>, Seq<char>)> {
    match spec_key_min_max(s) {
        Some((k, lo, hi)) => match spec_effect_key(k) {
            Some(id) => Some((id, lo, hi)),
            None => None,
        },
        None => None,
    }
}

/// A fixed effect as written in the tables, with its localization id and
/// value text when the text reads as one.  The value text is a number as
/// `f32::from_str` reads it.
#[derive(Debug)]
pub struct ItemEffect {
    pub effect: String,
    pub parsed: Option<(String, String)>,
}

/// The views of an optional pair of strings.
pub open spec fn pair_view(p: Option<(String, String)>) -> Option<(Seq<char>, Seq<char>)> {
    match p {
        Some((a, b)) => Some((a@, b@)),
        None => None,
    }
}

/// The views of an optional triple of strings.
pub open spec fn triple_view(p: Option<(String, String, String)>) -> Option<(Seq<char>, Seq<char>, Seq<char>)> {
    match p {
        Some((a, b, c)) => Some((a@, b@, c@)),
        None => None,
    }
}

impl View for ItemEffect {
    type V = (Seq<char>, Option<(Seq<char>, Seq<char>)>);

    open spec fn view(&self) -> Self::V {
        (self.effect@, pair_view(self.parsed))
    }
}

/// A ranged effect as written in the tables, with its localization id and
/// the texts of its bounds when the text reads as one.
#[derive(Debug)]
pub struct ItemMinMaxEffect {
    pub effect: String,
    pub parsed: Option<(String, String, String)>,
}

impl View for ItemMinMaxEffect {
    type V = (Seq<char>, Option<(Seq<char>, Seq<char>, Seq<char>)>);

    open spec fn view(&self) -> Self::V {
        (self.effect@, triple_view(self.parsed))
    }
}

impl ItemEffect {
    /// The localization id of an effect key, or `None` for an unknown key.
    pub fn matching(key: &str) -> (r: Option<&'static str>)
        ensures
            match r {
                Some(id) => spec_effect_key(key@) == Some(id@),
                None => spec_effect_key(key@) is None,
            },
    {
            if str_eq(key, "최대ep%") || str_eq(key, "최대EP%") {
                Some("item-effect-max-ep-percent")
            } else if str_eq(key, "생명력흡수성공확률+") || str_eq(key, "생명력흡수성공확률%") {
                Some("item-effect-health-absorption-chance-percent")
            } else if str_eq(key, "생명력흡수량+") {
                Some("item-effect-health-absorption-amount-percent")
            } else if str_eq(key, "데미지감소%") {
                Some("item-effect-damage-reduction-percent")
            } else if str_eq(key, "석궁피격데미지%") {
                Some("item-effect-crossbow-damage-percent")
            } else if str_eq(key, "창피격데미지%") {
                Some("item-effect-lance-damage-percent")
            } else if str_eq(key, "창피격데미지%-") {
                Some("item-effect-lance-damage-minus-percent")
            } else if str_eq(key, "배후공격극대화확률+") {
                Some("item-effect-backstab-damage")
            } else if str_eq(key, "회피력+") {
                Some("item-effect-evasion-power")
            } else if str_eq(key, "회피율%") {
                Some("item-effect-evasion-percent")
            } else if str_eq(key, "최대MP+") {
                Some("item-effect-mana")
            } else if str_eq(key, "최대HP+") || str_eq(key, "최대hp+") {
                Some("item-effect-max-hp")
            } else if str_eq(key, "최대HP%") {
                Some("item-effect-max-hp-percent")
            } else if str_eq(key, "무기물리방어력%") {
                Some("item-effect-physical-defense-percent")
            } else if str_eq(key, "쿨타임%") {
                Some("item-effect-cooldown-percent")
            } else if str_eq(key, "PK방어력%") || str_eq(key, "pk방어력%") {
                Some("item-effect-pvp-defense-percent")
            } else if str_eq(key, "모든공격력+") {
                Some("item-effect-attack")
            } else if str_eq(key, "모든공격력%") {
                Some("item-effect-attack-percent")
            } else if str_eq(key, "allstatderest+") || str_eq(key, "AllStatDerest+") {
                Some("item-effect-stat-limit-break")
            } else if str_eq(key, "allstatderest%") || str_eq(key, "AllStatDerest%") {
                Some("item-effect-stat-limit-break-percent")
            } else if str_eq(key, "allstat+") || str_eq(key, "AllStat+") {
                Some("item-effect-allstats")
            } else if str_eq(key, "allstat%") || str_eq(key, "AllStat%") {
                Some("item-effect-allstats-percent")
            } else if str_eq(key, "모든극대화확률+") {
                Some("item-effect-crit-damage-chance-percent")
            } else if str_eq(key, "PK육체계저항율+") || str_eq(key, "pk육체계저항율+") {
                Some("item-effect-pvp-resist-percent")
            } else if str_eq(key, "이동속도%") {
                Some("item-effect-speed-percent")
            } else if str_eq(key, "탈것속도%") {
                Some("item-effect-mount-speed-percent")
            } else if str_eq(key, "치명타피해감소+") {
                Some("item-effect-crit-defense")
            } else if str_eq(key, "마법방어력%") {
                Some("item-effect-magic-defense-percent")
            } else if str_eq(key, "INTDerest+") {
                Some("item-effect-intelligence-break-limit")
            } else if str_eq(key, "VTLDerest%") {
                Some("item-effect-vitality-break-limit-percent")
            } else if str_eq(key, "STRDerest+") {
                Some("item-effect-strength-break-limit")
            } else if str_eq(key, "INT%") {
                Some("item-effect-intelligence-percent")
            } else if str_eq(key, "STR%") {
                Some("item-effect-strength-percent")
            } else if str_eq(key, "VTL+") {
                Some("item-effect-vitality")
            } else if str_eq(key, "MTL+") {
                Some("item-effect-mentality")
            } else if str_eq(key, "INT+") || str_eq(key, "int+") {
                Some("item-effect-intelligence")
            } else if str_eq(key, "STR+") || str_eq(key, "str+") {
                Some("item-effect-strength")
            } else if str_eq(key, "DEX+") || str_eq(key, "dex+") {
                Some("item-effect-dexterity")
            } else if str_eq(key, "PK공격력%") {
                Some("item-effect-pvp-attack-percent")
            } else if str_eq(key, "출혈관통률") {
                Some("item-effect-bleed-chance-percent")
            } else if str_eq(key, "모든방어력%") {
                Some("item-effect-defense-percent")
            } else if str_eq(key, "모든방어력+") {
                Some("item-effect-defense")
            } else if str_eq(key, "무기물리방어력+") {
                Some("item-effect-physical-defense")
            } else if str_eq(key, "무기물리공격력+") {
                Some("item-effect-physical-attack")
            } else if str_eq(key, "마법방어력+") {
                Some("item-effect-magic-defense")
            } else if str_eq(key, "캐스팅속도%") {
                Some("item-effect-cast-time-percent")
            } else if str_eq(key, "마법물리공격력+") {
                Some("item-effect-magic-attack")
            } else if str_eq(key, "출혈방어율") || str_eq(key, "출혈방어율%") {
                Some("item-effect-bleed-defense-percent")
            } else if str_eq(key, "모든극대력+") {
                Some("item-effect-critical-damage")
            } else if str_eq(key, "마법극대력+") {
                Some("item-effect-magic-critical-damage")
            } else if str_eq(key, "마법극대화데미지+") {
                Some("item-effect-magic-critical-damage-percent")
            } else if str_eq(key, "마법극대화확률+") || str_eq(key, "마법극대화확률%") {
                Some("item-effect-magic-critical-damage-chance-percent")
            } else if str_eq(key, "무기극대화확률+") {
                Some("item-effect-physical-critical-damage-chance-percent")
            } else if str_eq(key, "치명타피해관통율%") {
                Some("item-effect-critical-damage-penetration-percent")
            } else if str_eq(key, "무기극대력+") {
                Some("item-effect-physical-critical-damage")
            } else if str_eq(key, "무기극대화데미지+") {
                Some("item-effect-physical-critical-damage-percent")
            } else if str_eq(key, "몬스터드랍율%") {
                Some("item-effect-drop-chance-percent")
            } else if str_eq(key, "마법물리공격력%") {
                Some("item-effect-magic-attack-percent")
            } else if str_eq(key, "무기물리공격력%") {
                Some("item-effect-physical-attack-percent")
            } else if str_eq(key, "길들이기확률%") {
                Some("item-effect-taming-chance-percent")
            } else if str_eq(key, "리버스강화확률%") {
                Some("item-effect-reverse-tempering-chance-percent")
            } else if str_eq(key, "강화성공확률%") {
                Some("item-effect-tempering-chance-percent")
            } else if str_eq(key, "제작성공확률%") {
                Some("item-effect-crafting-chance-percent")
            } else if str_eq(key, "제작대성공확률%") {
                Some("item-effect-great-craft-chance-percent")
            } else if str_eq(key, "판매대행등록비감소%") {
                Some("item-effect-auction-fee-percent")
            } else if str_eq(key, "펠로우경험치%") {
                Some("item-effect-mount-exp-percent")
            } else if str_eq(key, "도트데미지감소+") {
                Some("item-effect-bleed-damage-reduction")
            } else if str_eq(key, "도트데미지감소%") {
                Some("item-effect-bleed-damage-reduction-percent")
            } else if str_eq(key, "길들이기포인트감소%") {
                Some("item-effect-taming-points-percent")
            } else if str_eq(key, "드랍Money변화율*") {
                Some("item-effect-money-drop-increase-percent")
            } else if str_eq(key, "Money추가획득율%") {
                Some("item-effect-money-drop-increase")
            } else if str_eq(key, "공격자의치명타피해Plus효과감소%") {
                Some("item-effect-critical-defense-percent")
            } else if str_eq(key, "최대MP%") {
                Some("item-effect-mana-percent")
            } else if str_eq(key, "플레이어경험치%") {
                Some("item-effect-obtained-character-exp-percent")
            } else if str_eq(key, "배후공격데미지%") {
                Some("item-effect-backstab-rate-percent")
            } else if str_eq(key, "Hp힐량%") {
                Some("item-effect-health-regen-percent")
            } else if str_eq(key, "어그로%") {
                Some("item-effect-threat-percent")
            } else if str_eq(key, "hp회복력%") {
                Some("item-effect-base-health-regen-percent")
            } else if str_eq(key, "마법물리방어력+") {
                Some("item-effect-magic-and-physical-defense")
            } else {
                None
            }
    }

    /// Splits "(key, value)" into its trimmed key and value text.
    pub fn parse_key_value(s: &str) -> (r: Option<(String, String)>)
        ensures
            pair_view(r) == spec_key_value(s@),
    {
        let v = chars_of(s);
        let a = trim_start_matches(&v, '(');
        let t = trim_end_matches(&a, ')');
        let n = t.len();
        match find(&t, ',') {
            None => None,
            Some(i) => {
                let head = crate::text::copy_range(&t, 0, i);
                let tail = crate::text::copy_range(&t, i + 1, n);
                assert(head@ =~= t@.take(i as int));
                assert(tail@ =~= t@.skip(i + 1));
                let key = trim(&head);
                let value_ws = trim(&tail);
                let value = trim_end_matches(&value_ws, '%');
                if is_float(&value) {
                    Some((string_of(&key), string_of(&value)))
                } else {
                    None
                }
            },
        }
    }

    /// The effect written as `effect`, parsed when it reads as one.
    pub fn new(effect: String) -> (e: ItemEffect)
        ensures
            e@ == (effect@, spec_effect_parsed(effect@)),
    {
        let parsed = match Self::parse_key_value(effect.as_str()) {
            Some((k, v)) => match Self::matching(k.as_str()) {
                Some(id) => Some((String::from_str(id), v)),
                None => None,
            },
            None => None,
        };
        ItemEffect { effect, parsed }
    }

    /// A copy of this effect.
    pub fn duplicate(&self) -> (r: ItemEffect)
        ensures
            r@ == self@,
    {
        let parsed = match &self.parsed {
            Some((a, b)) => Some((a.clone(), b.clone())),
            None => None,
        };
        ItemEffect { effect: self.effect.clone(), parsed }
    }
}

impl ItemMinMaxEffect {
    /// Splits "key_min_max" into its three pieces when both bounds are numbers.
    pub fn parse_key_min_max(input: &str) -> (r: Option<(String, String, String)>)
        ensures
            triple_view(r) == spec_key_min_max(input@),
    {
        let v = chars_of(input);
        let parts = split(&v, '_');
        if parts.len() != 3 {
            return None;
        }
        if is_float(&parts[1]) && is_float(&parts[2]) {
            Some((string_of(&parts[0]), string_of(&parts[1]), string_of(&parts[2])))
        } else {
            None
        }
    }

    /// The ranged effect written as `effect`, parsed when it reads as one.
    pub fn new(effect: &str) -> (e: ItemMinMaxEffect)
        ensures
            e@ == (effect@, spec_min_max_parsed(effect@)),
    {
        let parsed = match Self::parse_key_min_max(effect) {
            Some((k, lo, hi)) => match ItemEffect::matching(k.as_str()) {
                Some(id) => Some((String::from_str(id), lo, hi)),
                None => None,
            },
            None => None,
        };
        ItemMinMaxEffect { effect: String::from_str(effect), parsed }
    }

    /// A copy of this effect.
    pub fn duplicate(&self) -> (r: ItemMinMaxEffect)
        ensures
            r@ == self@,
    {
        let parsed = match &self.parsed {
            Some((a, b, c)) => Some((a.clone(), b.clone(), c.clone())),
            None => None,
        };
        ItemMinMaxEffect { effect: self.effect.clone(), parsed }
    }
}

} // verus!

verus! {

/// How the value of an effect is shown: with two decimals after a minus
/// sign for "-minus-percent" keys, with two decimals and a sign for other
/// "-percent" keys, as a whole number with a sign otherwise.
#[derive(Debug, Clone, Copy, PartialEq, Eq, Structural)]
pub enum ValueStyle {
    MinusPercent,
    Percent,
    Whole,
}

/// The style of the values of the effect key `key`.
pub open spec fn spec_value_style(key: Seq<char>) -> ValueStyle {
    if crate::text::ends_with(key, "-minus-percent"@) {
        ValueStyle::MinusPercent
    } else if crate::text::ends_with(key, "-percent"@) {
        ValueStyle::Percent
    } else {
        ValueStyle::Whole
    }
}

/// Whether `v` ends with `p`.
fn ends_with_chars(v: &[char], p: &[char]) -> (b: bool)
    ensures
        b == crate::text::ends_with(v@, p@),
{
    if p.len() > v.len() {
        return false;
    }
    let start = v.len() - p.len();
    let mut i: usize = 0;
    while i < p.len()
        invariant
            start + p@.len() == v@.len(),
            p@.len() == p.len(),
            v@.len() == v.len(),
            i <= p@.len(),
            forall|k: int| 0 <= k < i ==> v@[start + k] == p@[k],
        decreases p@.len() - i,
    {
        if v[start + i] != p[i] {
            assert(v@.skip(start as int)[i as int] != p@[i as int]);
            return false;
        }
        i = i + 1;
    }
    assert(v@.skip(start as int) =~= p@);
    true
}

/// The style of the values of the effect key `key`.
pub fn value_style(key: &str) -> (s: ValueStyle)
    ensures
        s == spec_value_style(key@),
{
    let v = chars_of(key);
    let minus = chars_of("-minus-percent");
    let percent = chars_of("-percent");
    if ends_with_chars(&v, &minus) {
        ValueStyle::MinusPercent
    } else if ends_with_chars(&v, &percent) {
        ValueStyle::Percent
    } else {
        ValueStyle::Whole
    }
}

} // verus!

verus! {

/// The lengths of the effect keys of the data files, and the letters that
/// tell apart keys of one length.
#[verifier::rlimit(100)]
proof fn lemma_effect_key_letters()
    ensures
        "최대ep%"@.len() == 5,
        "최대ep%"@[0] == '최',
        "최대ep%"@[2] == 'e',
        "최대EP%"@.len() == 5,
        "최대EP%"@[0] == '최',
        "최대EP%"@[2] == 'E',
        "생명력흡수성공확률+"@.len() == 10,
        "생명력흡수성공확률+"@[0] == '생',
        "생명력흡수성공확률+"@[9] == '+',
        "생명력흡수성공확률%"@.len() == 10,
        "생명력흡수성공확률%"@[0] == '생',
        "생명력흡수성공확률%"@[9] == '%',
        "생명력흡수량+"@.len() == 7,
        "생명력흡수량+"@[0] == '생',
        "데미지감소%"@.len() == 6,
        "데미지감소%"@[0] == '데',
        "석궁피격데미지%"@.len() == 8,
        "석궁피격데미지%"@[0] == '석',
        "창피격데미지%"@.len() == 7,
        "창피격데미지%"@[0] == '창',
        "창피격데미지%-"@.len() == 8,
        "창피격데미지%-"@[0] == '창',
        "배후공격극대화확률+"@.len() == 10,
        "배후공격극대화확률+"@[0] == '배',
        "회피력+"@.len() == 4,
        "회피력+"@[0] == '회',
        "회피력+"@[2] == '력',
        "회피율%"@.len() == 4,
        "회피율%"@[0] == '회',
        "회피율%"@[2] == '율',
        "최대MP+"@.len() == 5,
        "최대MP+"@[0] == '최',
        "최대MP+"@[2] == 'M',
        "최대MP+"@[4] == '+',
        "최대HP+"@.len() == 5,
        "최대HP+"@[0] == '최',
        "최대HP+"@[2] == 'H',
        "최대HP+"@[4] == '+',
        "최대hp+"@.len() == 5,
        "최대hp+"@[0] == '최',
        "최대hp+"@[2] == 'h',
        "최대HP%"@.len() == 5,
        "최대HP%"@[0] == '최',
        "최대HP%"@[2] == 'H',
        "최대HP%"@[4] == '%',
        "무기물리방어력%"@.len() == 8,
        "무기물리방어력%"@[0] == '무',
        "무기물리방어력%"@[2] == '물',
        "무기물리방어력%"@[4] == '방',
        "무기물리방어력%"@[7] == '%',
        "쿨타임%"@.len() == 4,
        "쿨타임%"@[0] == '쿨',
        "PK방어력%"@.len() == 6,
        "PK방어력%"@[0] == 'P',
        "PK방어력%"@[2] == '방',
        "pk방어력%"@.len() == 6,
        "pk방어력%"@[0] == 'p',
        "모든공격력+"@.len() == 6,
        "모든공격력+"@[0] == '모',
        "모든공격력+"@[2] == '공',
        "모든공격력+"@[5] == '+',
        "모든공격력%"@.len() == 6,
        "모든공격력%"@[0] == '모',
        "모든공격력%"@[2] == '공',
        "모든공격력%"@[5] == '%',
        "allstatderest+"@.len() == 14,
        "allstatderest+"@[0] == 'a',
        "allstatderest+"@[13] == '+',
        "AllStatDerest+"@.len() == 14,
        "AllStatDerest+"@[0] == 'A',
        "AllStatDerest+"@[13] == '+',
        "allstatderest%"@.len() == 14,
        "allstatderest%"@[0] == 'a',
        "allstatderest%"@[13] == '%',
        "AllStatDerest%"@.len() == 14,
        "AllStatDerest%"@[0] == 'A',
        "AllStatDerest%"@[13] == '%',
        "allstat+"@.len() == 8,
        "allstat+"@[0] == 'a',
        "allstat+"@[7] == '+',
        "AllStat+"@.len() == 8,
        "AllStat+"@[0] == 'A',
        "AllStat+"@[7] == '+',
        "allstat%"@.len() == 8,
        "allstat%"@[0] == 'a',
        "allstat%"@[7] == '%',
        "AllStat%"@.len() == 8,
        "AllStat%"@[0] == 'A',
        "AllStat%"@[7] == '%',
        "모든극대화확률+"@.len() == 8,
        "모든극대화확률+"@[0] == '모',
        "PK육체계저항율+"@.len() == 9,
        "PK육체계저항율+"@[0] == 'P',
        "pk육체계저항율+"@.len() == 9,
        "pk육체계저항율+"@[0] == 'p',
        "이동속도%"@.len() == 5,
        "이동속도%"@[0] == '이',
        "탈것속도%"@.len() == 5,
        "탈것속도%"@[0] == '탈',
        "치명타피해감소+"@.len() == 8,
        "치명타피해감소+"@[0] == '치',
        "마법방어력%"@.len() == 6,
        "마법방어력%"@[0] == '마',
        "마법방어력%"@[2] == '방',
        "마법방어력%"@[5] == '%',
        "INTDerest+"@.len() == 10,
        "INTDerest+"@[0] == 'I',
        "VTLDerest%"@.len() == 10,
        "VTLDerest%"@[0] == 'V',
        "STRDerest+"@.len() == 10,
        "STRDerest+"@[0] == 'S',
        "INT%"@.len() == 4,
        "INT%"@[0] == 'I',
        "INT%"@[3] == '%',
        "STR%"@.len() == 4,
        "STR%"@[0] == 'S',
        "STR%"@[3] == '%',
        "VTL+"@.len() == 4,
        "VTL+"@[0] == 'V',
        "MTL+"@.len() == 4,
        "MTL+"@[0] == 'M',
        "INT+"@.len() == 4,
        "INT+"@[0] == 'I',
        "INT+"@[3] == '+',
        "int+"@.len() == 4,
        "int+"@[0] == 'i',
        "STR+"@.len() == 4,
        "STR+"@[0] == 'S',
        "STR+"@[3] == '+',
        "str+"@.len() == 4,
        "str+"@[0] == 's',
        "DEX+"@.len() == 4,
        "DEX+"@[0] == 'D',
        "dex+"@.len() == 4,
        "dex+"@[0] == 'd',
        "PK공격력%"@.len() == 6,
        "PK공격력%"@[0] == 'P',
        "PK공격력%"@[2] == '공',
        "출혈관통률"@.len() == 5,
        "출혈관통률"@[0] == '출',
        "출혈관통률"@[2] == '관',
        "모든방어력%"@.len() == 6,
        "모든방어력%"@[0] == '모',
        "모든방어력%"@[2] == '방',
        "모든방어력%"@[5] == '%',
        "모든방어력+"@.len() == 6,
        "모든방어력+"@[0] == '모',
        "모든방어력+"@[2] == '방',
        "모든방어력+"@[5] == '+',
        "무기물리방어력+"@.len() == 8,
        "무기물리방어력+"@[0] == '무',
        "무기물리방어력+"@[2] == '물',
        "무기물리방어력+"@[4] == '방',
        "무기물리방어력+"@[7] == '+',
        "무기물리공격력+"@.len() == 8,
        "무기물리공격력+"@[0] == '무',
        "무기물리공격력+"@[2] == '물',
        "무기물리공격력+"@[4] == '공',
        "무기물리공격력+"@[7] == '+',
        "마법방어력+"@.len() == 6,
        "마법방어력+"@[0] == '마',
        "마법방어력+"@[2] == '방',
        "마법방어력+"@[5] == '+',
        "캐스팅속도%"@.len() == 6,
        "캐스팅속도%"@[0] == '캐',
        "마법물리공격력+"@.len() == 8,
        "마법물리공격력+"@[0] == '마',
        "마법물리공격력+"@[2] == '물',
        "마법물리공격력+"@[4] == '공',
        "마법물리공격력+"@[7] == '+',
        "출혈방어율"@.len() == 5,
        "출혈방어율"@[0] == '출',
        "출혈방어율"@[2] == '방',
        "출혈방어율%"@.len() == 6,
        "출혈방어율%"@[0] == '출',
        "모든극대력+"@.len() == 6,
        "모든극대력+"@[0] == '모',
        "모든극대력+"@[2] == '극',
        "마법극대력+"@.len() == 6,
        "마법극대력+"@[0] == '마',
        "마법극대력+"@[2] == '극',
        "마법극대화데미지+"@.len() == 9,
        "마법극대화데미지+"@[0] == '마',
        "마법극대화확률+"@.len() == 8,
        "마법극대화확률+"@[0] == '마',
        "마법극대화확률+"@[2] == '극',
        "마법극대화확률+"@[7] == '+',
        "마법극대화확률%"@.len() == 8,
        "마법극대화확률%"@[0] == '마',
        "마법극대화확률%"@[2] == '극',
        "마법극대화확률%"@[7] == '%',
        "무기극대화확률+"@.len() == 8,
        "무기극대화확률+"@[0] == '무',
        "무기극대화확률+"@[2] == '극',
        "치명타피해관통율%"@.len() == 9,
        "치명타피해관통율%"@[0] == '치',
        "무기극대력+"@.len() == 6,
        "무기극대력+"@[0] == '무',
        "무기극대화데미지+"@.len() == 9,
        "무기극대화데미지+"@[0] == '무',
        "몬스터드랍율%"@.len() == 7,
        "몬스터드랍율%"@[0] == '몬',
        "마법물리공격력%"@.len() == 8,
        "마법물리공격력%"@[0] == '마',
        "마법물리공격력%"@[2] == '물',
        "마법물리공격력%"@[4] == '공',
        "마법물리공격력%"@[7] == '%',
        "무기물리공격력%"@.len() == 8,
        "무기물리공격력%"@[0] == '무',
        "무기물리공격력%"@[2] == '물',
        "무기물리공격력%"@[4] == '공',
        "무기물리공격력%"@[7] == '%',
        "길들이기확률%"@.len() == 7,
        "길들이기확률%"@[0] == '길',
        "리버스강화확률%"@.len() == 8,
        "리버스강화확률%"@[0] == '리',
        "강화성공확률%"@.len() == 7,
        "강화성공확률%"@[0] == '강',
        "제작성공확률%"@.len() == 7,
        "제작성공확률%"@[0] == '제',
        "제작대성공확률%"@.len() == 8,
        "제작대성공확률%"@[0] == '제',
        "판매대행등록비감소%"@.len() == 10,
        "판매대행등록비감소%"@[0] == '판',
        "펠로우경험치%"@.len() == 7,
        "펠로우경험치%"@[0] == '펠',
        "도트데미지감소+"@.len() == 8,
        "도트데미지감소+"@[0] == '도',
        "도트데미지감소+"@[7] == '+',
        "도트데미지감소%"@.len() == 8,
        "도트데미지감소%"@[0] == '도',
        "도트데미지감소%"@[7] == '%',
        "길들이기포인트감소%"@.len() == 10,
        "길들이기포인트감소%"@[0] == '길',
        "드랍Money변화율*"@.len() == 11,
        "드랍Money변화율*"@[0] == '드',
        "Money추가획득율%"@.len() == 11,
        "Money추가획득율%"@[0] == 'M',
        "공격자의치명타피해Plus효과감소%"@.len() == 18,
        "최대MP%"@.len() == 5,
        "최대MP%"@[0] == '최',
        "최대MP%"@[2] == 'M',
        "최대MP%"@[4] == '%',
        "플레이어경험치%"@.len() == 8,
        "플레이어경험치%"@[0] == '플',
        "배후공격데미지%"@.len() == 8,
        "배후공격데미지%"@[0] == '배',
        "Hp힐량%"@.len() == 5,
        "Hp힐량%"@[0] == 'H',
        "어그로%"@.len() == 4,
        "어그로%"@[0] == '어',
        "hp회복력%"@.len() == 6,
        "hp회복력%"@[0] == 'h',
        "마법물리방어력+"@.len() == 8,
        "마법물리방어력+"@[0] == '마',
        "마법물리방어력+"@[2] == '물',
        "마법물리방어력+"@[4] == '방',
{
    reveal_strlit("최대ep%");
    reveal_strlit("최대EP%");
    reveal_strlit("생명력흡수성공확률+");
    reveal_strlit("생명력흡수성공확률%");
    reveal_strlit("생명력흡수량+");
    reveal_strlit("데미지감소%");
    reveal_strlit("석궁피격데미지%");
    reveal_strlit("창피격데미지%");
    reveal_strlit("창피격데미지%-");
    reveal_strlit("배후공격극대화확률+");
    reveal_strlit("회피력+");
    reveal_strlit("회피율%");
    reveal_strlit("최대MP+");
    reveal_strlit("최대HP+");
    reveal_strlit("최대hp+");
    reveal_strlit("최대HP%");
    reveal_strlit("무기물리방어력%");
    reveal_strlit("쿨타임%");
    reveal_strlit("PK방어력%");
    reveal_strlit("pk방어력%");
    reveal_strlit("모든공격력+");
    reveal_strlit("모든공격력%");
    reveal_strlit("allstatderest+");
    reveal_strlit("AllStatDerest+");
    reveal_strlit("allstatderest%");
    reveal_strlit("AllStatDerest%");
    reveal_strlit("allstat+");
    reveal_strlit("AllStat+");
    reveal_strlit("allstat%");
    reveal_strlit("AllStat%");
    reveal_strlit("모든극대화확률+");
    reveal_strlit("PK육체계저항율+");
    reveal_strlit("pk육체계저항율+");
    reveal_strlit("이동속도%");
    reveal_strlit("탈것속도%");
    reveal_strlit("치명타피해감소+");
    reveal_strlit("마법방어력%");
    reveal_strlit("INTDerest+");
    reveal_strlit("VTLDerest%");
    reveal_strlit("STRDerest+");
    reveal_strlit("INT%");
    reveal_strlit("STR%");
    reveal_strlit("VTL+");
    reveal_strlit("MTL+");
    reveal_strlit("INT+");
    reveal_strlit("int+");
    reveal_strlit("STR+");
    reveal_strlit("str+");
    reveal_strlit("DEX+");
    reveal_strlit("dex+");
    reveal_strlit("PK공격력%");
    reveal_strlit("출혈관통률");
    reveal_strlit("모든방어력%");
    reveal_strlit("모든방어력+");
    reveal_strlit("무기물리방어력+");
    reveal_strlit("무기물리공격력+");
    reveal_strlit("마법방어력+");
    reveal_strlit("캐스팅속도%");
    reveal_strlit("마법물리공격력+");
    reveal_strlit("출혈방어율");
    reveal_strlit("출혈방어율%");
    reveal_strlit("모든극대력+");
    reveal_strlit("마법극대력+");
    reveal_strlit("마법극대화데미지+");
    reveal_strlit("마법극대화확률+");
    reveal_strlit("마법극대화확률%");
    reveal_strlit("무기극대화확률+");
    reveal_strlit("치명타피해관통율%");
    reveal_strlit("무기극대력+");
    reveal_strlit("무기극대화데미지+");
    reveal_strlit("몬스터드랍율%");
    reveal_strlit("마법물리공격력%");
    reveal_strlit("무기물리공격력%");
    reveal_strlit("길들이기확률%");
    reveal_strlit("리버스강화확률%");
    reveal_strlit("강화성공확률%");
    reveal_strlit("제작성공확률%");
    reveal_strlit("제작대성공확률%");
    reveal_strlit("판매대행등록비감소%");
    reveal_strlit("펠로우경험치%");
    reveal_strlit("도트데미지감소+");
    reveal_strlit("도트데미지감소%");
    reveal_strlit("길들이기포인트감소%");
    reveal_strlit("드랍Money변화율*");
    reveal_strlit("Money추가획득율%");
    reveal_strlit("공격자의치명타피해Plus효과감소%");
    reveal_strlit("최대MP%");
    reveal_strlit("플레이어경험치%");
    reveal_strlit("배후공격데미지%");
    reveal_strlit("Hp힐량%");
    reveal_strlit("어그로%");
    reveal_strlit("hp회복력%");
    reveal_strlit("마법물리방어력+");
}

/// Keys 1 to 8 of the data files' effect keys and the ids they name.
#[verifier::spinoff_prover]
proof fn lemma_effect_key_ids_0()
    ensures
        spec_effect_key("최대ep%"@) == Some("item-effect-max-ep-percent"@),
        spec_effect_key("최대EP%"@) == Some("item-effect-max-ep-percent"@),
        spec_effect_key("생명력흡수성공확률+"@) == Some("item-effect-health-absorption-chance-percent"@),
        spec_effect_key("생명력흡수성공확률%"@) == Some("item-effect-health-absorption-chance-percent"@),
        spec_effect_key("생명력흡수량+"@) == Some("item-effect-health-absorption-amount-percent"@),
        spec_effect_key("데미지감소%"@) == Some("item-effect-damage-reduction-percent"@),
        spec_effect_key("석궁피격데미지%"@) == Some("item-effect-crossbow-damage-percent"@),
        spec_effect_key("창피격데미지%"@) == Some("item-effect-lance-damage-percent"@),
{
    lemma_effect_key_letters();
    assert(spec_effect_key("최대ep%"@) == Some("item-effect-max-ep-percent"@));
    assert(spec_effect_key("최대EP%"@) == Some("item-effect-max-ep-percent"@));
    assert(spec_effect_key("생명력흡수성공확률+"@) == Some("item-effect-health-absorption-chance-percent"@));
    assert(spec_effect_key("생명력흡수성공확률%"@) == Some("item-effect-health-absorption-chance-percent"@));
    assert(spec_effect_key("생명력흡수량+"@) == Some("item-effect-health-absorption-amount-percent"@));
    assert(spec_effect_key("데미지감소%"@) == Some("item-effect-damage-reduction-percent"@));
    assert(spec_effect_key("석궁피격데미지%"@) == Some("item-effect-crossbow-damage-percent"@));
    assert(spec_effect_key("창피격데미지%"@) == Some("item-effect-lance-damage-percent"@));
}

/// Keys 9 to 16 of the data files' effect keys and the ids they name.
#[verifier::spinoff_prover]
proof fn lemma_effect_key_ids_1()
    ensures
        spec_effect_key("창피격데미지%-"@) == Some("item-effect-lance-damage-minus-percent"@),
        spec_effect_key("배후공격극대화확률+"@) == Some("item-effect-backstab-damage"@),
        spec_effect_key("회피력+"@) == Some("item-effect-evasion-power"@),
        spec_effect_key("회피율%"@) == Some("item-effect-evasion-percent"@),
        spec_effect_key("최대MP+"@) == Some("item-effect-mana"@),
        spec_effect_key("최대HP+"@) == Some("item-effect-max-hp"@),
        spec_effect_key("최대hp+"@) == Some("item-effect-max-hp"@),
        spec_effect_key("최대HP%"@) == Some("item-effect-max-hp-percent"@),
{
    lemma_effect_key_letters();
    assert(spec_effect_key("창피격데미지%-"@) == Some("item-effect-lance-damage-minus-percent"@));
    assert(spec_effect_key("배후공격극대화확률+"@) == Some("item-effect-backstab-damage"@));
    assert(spec_effect_key("회피력+"@) == Some("item-effect-evasion-power"@));
    assert(spec_effect_key("회피율%"@) == Some("item-effect-evasion-percent"@));
    assert(spec_effect_key("최대MP+"@) == Some("item-effect-mana"@));
    assert(spec_effect_key("최대HP+"@) == Some("item-effect-max-hp"@));
    assert(spec_effect_key("최대hp+"@) == Some("item-effect-max-hp"@));
    assert(spec_effect_key("최대HP%"@) == Some("item-effect-max-hp-percent"@));
}

/// Keys 17 to 24 of the data files' effect keys and the ids they name.
#[verifier::spinoff_prover]
proof fn lemma_effect_key_ids_2()
    ensures
        spec_effect_key("무기물리방어력%"@) == Some("item-effect-physical-defense-percent"@),
        spec_effect_key("쿨타임%"@) == Some("item-effect-cooldown-percent"@),
        spec_effect_key("PK방어력%"@) == Some("item-effect-pvp-defense-percent"@),
        spec_effect_key("pk방어력%"@) == Some("item-effect-pvp-defense-percent"@),
        spec_effect_key("모든공격력+"@) == Some("item-effect-attack"@),
        spec_effect_key("모든공격력%"@) == Some("item-effect-attack-percent"@),
        spec_effect_key("allstatderest+"@) == Some("item-effect-stat-limit-break"@),
        spec_effect_key("AllStatDerest+"@) == Some("item-effect-stat-limit-break"@),
{
    lemma_effect_key_letters();
    assert(spec_effect_key("무기물리방어력%"@) == Some("item-effect-physical-defense-percent"@));
    assert(spec_effect_key("쿨타임%"@) == Some("item-effect-cooldown-percent"@));
    assert(spec_effect_key("PK방어력%"@) == Some("item-effect-pvp-defense-percent"@));
    assert(spec_effect_key("pk방어력%"@) == Some("item-effect-pvp-defense-percent"@));
    assert(spec_effect_key("모든공격력+"@) == Some("item-effect-attack"@));
    assert(spec_effect_key("모든공격력%"@) == Some("item-effect-attack-percent"@));
    assert(spec_effect_key("allstatderest+"@) == Some("item-effect-stat-limit-break"@));
    assert(spec_effect_key("AllStatDerest+"@) == Some("item-effect-stat-limit-break"@));
}

/// Keys 25 to 32 of the data files' effect keys and the ids they name.
#[verifier::spinoff_prover]
proof fn lemma_effect_key_ids_3()
    ensures
        spec_effect_key("allstatderest%"@) == Some("item-effect-stat-limit-break-percent"@),
        spec_effect_key("AllStatDerest%"@) == Some("item-effect-stat-limit-break-percent"@),
        spec_effect_key("allstat+"@) == Some("item-effect-allstats"@),
        spec_effect_key("AllStat+"@) == Some("item-effect-allstats"@),
        spec_effect_key("allstat%"@) == Some("item-effect-allstats-percent"@),
        spec_effect_key("AllStat%"@) == Some("item-effect-allstats-percent"@),
        spec_effect_key("모든극대화확률+"@) == Some("item-effect-crit-damage-chance-percent"@),
        spec_effect_key("PK육체계저항율+"@) == Some("item-effect-pvp-resist-percent"@),
{
    lemma_effect_key_letters();
    assert(spec_effect_key("allstatderest%"@) == Some("item-effect-stat-limit-break-percent"@));
    assert(spec_effect_key("AllStatDerest%"@) == Some("item-effect-stat-limit-break-percent"@));
    assert(spec_effect_key("allstat+"@) == Some("item-effect-allstats"@));
    assert(spec_effect_key("AllStat+"@) == Some("item-effect-allstats"@));
    assert(spec_effect_key("allstat%"@) == Some("item-effect-allstats-percent"@));
    assert(spec_effect_key("AllStat%"@) == Some("item-effect-allstats-percent"@));
    assert(spec_effect_key("모든극대화확률+"@) == Some("item-effect-crit-damage-chance-percent"@));
    assert(spec_effect_key("PK육체계저항율+"@) == Some("item-effect-pvp-resist-percent"@));
}

/// Keys 33 to 40 of the data files' effect keys and the ids they name.
#[verifier::spinoff_prover]
proof fn lemma_effect_key_ids_4()
    ensures
        spec_effect_key("pk육체계저항율+"@) == Some("item-effect-pvp-resist-percent"@),
        spec_effect_key("이동속도%"@) == Some("item-effect-speed-percent"@),
        spec_effect_key("탈것속도%"@) == Some("item-effect-mount-speed-percent"@),
        spec_effect_key("치명타피해감소+"@) == Some("item-effect-crit-defense"@),
        spec_effect_key("마법방어력%"@) == Some("item-effect-magic-defense-percent"@),
        spec_effect_key("INTDerest+"@) == Some("item-effect-intelligence-break-limit"@),
        spec_effect_key("VTLDerest%"@) == Some("item-effect-vitality-break-limit-percent"@),
        spec_effect_key("STRDerest+"@) == Some("item-effect-strength-break-limit"@),
{
    lemma_effect_key_letters();
    assert(spec_effect_key("pk육체계저항율+"@) == Some("item-effect-pvp-resist-percent"@));
    assert(spec_effect_key("이동속도%"@) == Some("item-effect-speed-percent"@));
    assert(spec_effect_key("탈것속도%"@) == Some("item-effect-mount-speed-percent"@));
    assert(spec_effect_key("치명타피해감소+"@) == Some("item-effect-crit-defense"@));
    assert(spec_effect_key("마법방어력%"@) == Some("item-effect-magic-defense-percent"@));
    assert(spec_effect_key("INTDerest+"@) == Some("item-effect-intelligence-break-limit"@));
    assert(spec_effect_key("VTLDerest%"@) == Some("item-effect-vitality-break-limit-percent"@));
    assert(spec_effect_key("STRDerest+"@) == Some("item-effect-strength-break-limit"@));
}

/// Keys 41 to 48 of the data files' effect keys and the ids they name.
#[verifier::spinoff_prover]
proof fn lemma_effect_key_ids_5()
    ensures
        spec_effect_key("INT%"@) == Some("item-effect-intelligence-percent"@),
        spec_effect_key("STR%"@) == Some("item-effect-strength-percent"@),
        spec_effect_key("VTL+"@) == Some("item-effect-vitality"@),
        spec_effect_key("MTL+"@) == Some("item-effect-mentality"@),
        spec_effect_key("INT+"@) == Some("item-effect-intelligence"@),
        spec_effect_key("int+"@) == Some("item-effect-intelligence"@),
        spec_effect_key("STR+"@) == Some("item-effect-strength"@),
        spec_effect_key("str+"@) == Some("item-effect-strength"@),
{
    lemma_effect_key_letters();
    assert(spec_effect_key("INT%"@) == Some("item-effect-intelligence-percent"@));
    assert(spec_effect_key("STR%"@) == Some("item-effect-strength-percent"@));
    assert(spec_effect_key("VTL+"@) == Some("item-effect-vitality"@));
    assert(spec_effect_key("MTL+"@) == Some("item-effect-mentality"@));
    assert(spec_effect_key("INT+"@) == Some("item-effect-intelligence"@));
    assert(spec_effect_key("int+"@) == Some("item-effect-intelligence"@));
    assert(spec_effect_key("STR+"@) == Some("item-effect-strength"@));
    assert(spec_effect_key("str+"@) == Some("item-effect-strength"@));
}

/// Keys 49 to 56 of the data files' effect keys and the ids they name.
#[verifier::spinoff_prover]
proof fn lemma_effect_key_ids_6()
    ensures
        spec_effect_key("DEX+"@) == Some("item-effect-dexterity"@),
        spec_effect_key("dex+"@) == Some("item-effect-dexterity"@),
        spec_effect_key("PK공격력%"@) == Some("item-effect-pvp-attack-percent"@),
        spec_effect_key("출혈관통률"@) == Some("item-effect-bleed-chance-percent"@),
        spec_effect_key("모든방어력%"@) == Some("item-effect-defense-percent"@),
        spec_effect_key("모든방어력+"@) == Some("item-effect-defense"@),
        spec_effect_key("무기물리방어력+"@) == Some("item-effect-physical-defense"@),
        spec_effect_key("무기물리공격력+"@) == Some("item-effect-physical-attack"@),
{
    lemma_effect_key_letters();
    assert(spec_effect_key("DEX+"@) == Some("item-effect-dexterity"@));
    assert(spec_effect_key("dex+"@) == Some("item-effect-dexterity"@));
    assert(spec_effect_key("PK공격력%"@) == Some("item-effect-pvp-attack-percent"@));
    assert(spec_effect_key("출혈관통률"@) == Some("item-effect-bleed-chance-percent"@));
    assert(spec_effect_key("모든방어력%"@) == Some("item-effect-defense-percent"@));
    assert(spec_effect_key("모든방어력+"@) == Some("item-effect-defense"@));
    assert(spec_effect_key("무기물리방어력+"@) == Some("item-effect-physical-defense"@));
    assert(spec_effect_key("무기물리공격력+"@) == Some("item-effect-physical-attack"@));
}

/// Keys 57 to 64 of the data files' effect keys and the ids they name.
#[verifier::spinoff_prover]
proof fn lemma_effect_key_ids_7()
    ensures
        spec_effect_key("마법방어력+"@) == Some("item-effect-magic-defense"@),
        spec_effect_key("캐스팅속도%"@) == Some("item-effect-cast-time-percent"@),
        spec_effect_key("마법물리공격력+"@) == Some("item-effect-magic-attack"@),
        spec_effect_key("출혈방어율"@) == Some("item-effect-bleed-defense-percent"@),
        spec_effect_key("출혈방어율%"@) == Some("item-effect-bleed-defense-percent"@),
        spec_effect_key("모든극대력+"@) == Some("item-effect-critical-damage"@),
        spec_effect_key("마법극대력+"@) == Some("item-effect-magic-critical-damage"@),
        spec_effect_key("마법극대화데미지+"@) == Some("item-effect-magic-critical-damage-percent"@),
{
    lemma_effect_key_letters();
    assert(spec_effect_key("마법방어력+"@) == Some("item-effect-magic-defense"@));
    assert(spec_effect_key("캐스팅속도%"@) == Some("item-effect-cast-time-percent"@));
    assert(spec_effect_key("마법물리공격력+"@) == Some("item-effect-magic-attack"@));
    assert(spec_effect_key("출혈방어율"@) == Some("item-effect-bleed-defense-percent"@));
    assert(spec_effect_key("출혈방어율%"@) == Some("item-effect-bleed-defense-percent"@));
    assert(spec_effect_key("모든극대력+"@) == Some("item-effect-critical-damage"@));
    assert(spec_effect_key("마법극대력+"@) == Some("item-effect-magic-critical-damage"@));
    assert(spec_effect_key("마법극대화데미지+"@) == Some("item-effect-magic-critical-damage-percent"@));
}

/// Keys 65 to 72 of the data files' effect keys and the ids they name.
#[verifier::spinoff_prover]
proof fn lemma_effect_key_ids_8()
    ensures
        spec_effect_key("마법극대화확률+"@) == Some("item-effect-magic-critical-damage-chance-percent"@),
        spec_effect_key("마법극대화확률%"@) == Some("item-effect-magic-critical-damage-chance-percent"@),
        spec_effect_key("무기극대화확률+"@) == Some("item-effect-physical-critical-damage-chance-percent"@),
        spec_effect_key("치명타피해관통율%"@) == Some("item-effect-critical-damage-penetration-percent"@),
        spec_effect_key("무기극대력+"@) == Some("item-effect-physical-critical-damage"@),
        spec_effect_key("무기극대화데미지+"@) == Some("item-effect-physical-critical-damage-percent"@),
        spec_effect_key("몬스터드랍율%"@) == Some("item-effect-drop-chance-percent"@),
        spec_effect_key("마법물리공격력%"@) == Some("item-effect-magic-attack-percent"@),
{
    lemma_effect_key_letters();
    assert(spec_effect_key("마법극대화확률+"@) == Some("item-effect-magic-critical-damage-chance-percent"@));
    assert(spec_effect_key("마법극대화확률%"@) == Some("item-effect-magic-critical-damage-chance-percent"@));
    assert(spec_effect_key("무기극대화확률+"@) == Some("item-effect-physical-critical-damage-chance-percent"@));
    assert(spec_effect_key("치명타피해관통율%"@) == Some("item-effect-critical-damage-penetration-percent"@));
    assert(spec_effect_key("무기극대력+"@) == Some("item-effect-physical-critical-damage"@));
    assert(spec_effect_key("무기극대화데미지+"@) == Some("item-effect-physical-critical-damage-percent"@));
    assert(spec_effect_key("몬스터드랍율%"@) == Some("item-effect-drop-chance-percent"@));
    assert(spec_effect_key("마법물리공격력%"@) == Some("item-effect-magic-attack-percent"@));
}

/// Keys 73 to 80 of the data files' effect keys and the ids they name.
#[verifier::spinoff_prover]
proof fn lemma_effect_key_ids_9()
    ensures
        spec_effect_key("무기물리공격력%"@) == Some("item-effect-physical-attack-percent"@),
        spec_effect_key("길들이기확률%"@) == Some("item-effect-taming-chance-percent"@),
        spec_effect_key("리버스강화확률%"@) == Some("item-effect-reverse-tempering-chance-percent"@),
        spec_effect_key("강화성공확률%"@) == Some("item-effect-tempering-chance-percent"@),
        spec_effect_key("제작성공확률%"@) == Some("item-effect-crafting-chance-percent"@),
        spec_effect_key("제작대성공확률%"@) == Some("item-effect-great-craft-chance-percent"@),
        spec_effect_key("판매대행등록비감소%"@) == Some("item-effect-auction-fee-percent"@),
        spec_effect_key("펠로우경험치%"@) == Some("item-effect-mount-exp-percent"@),
{
    lemma_effect_key_letters();
    assert(spec_effect_key("무기물리공격력%"@) == Some("item-effect-physical-attack-percent"@));
    assert(spec_effect_key("길들이기확률%"@) == Some("item-effect-taming-chance-percent"@));
    assert(spec_effect_key("리버스강화확률%"@) == Some("item-effect-reverse-tempering-chance-percent"@));
    assert(spec_effect_key("강화성공확률%"@) == Some("item-effect-tempering-chance-percent"@));
    assert(spec_effect_key("제작성공확률%"@) == Some("item-effect-crafting-chance-percent"@));
    assert(spec_effect_key("제작대성공확률%"@) == Some("item-effect-great-craft-chance-percent"@));
    assert(spec_effect_key("판매대행등록비감소%"@) == Some("item-effect-auction-fee-percent"@));
    assert(spec_effect_key("펠로우경험치%"@) == Some("item-effect-mount-exp-percent"@));
}

/// Keys 81 to 88 of the data files' effect keys and the ids they name.
#[verifier::spinoff_prover]
proof fn lemma_effect_key_ids_10()
    ensures
        spec_effect_key("도트데미지감소+"@) == Some("item-effect-bleed-damage-reduction"@),
        spec_effect_key("도트데미지감소%"@) == Some("item-effect-bleed-damage-reduction-percent"@),
        spec_effect_key("길들이기포인트감소%"@) == Some("item-effect-taming-points-percent"@),
        spec_effect_key("드랍Money변화율*"@) == Some("item-effect-money-drop-increase-percent"@),
        spec_effect_key("Money추가획득율%"@) == Some("item-effect-money-drop-increase"@),
        spec_effect_key("공격자의치명타피해Plus효과감소%"@) == Some("item-effect-critical-defense-percent"@),
        spec_effect_key("최대MP%"@) == Some("item-effect-mana-percent"@),
        spec_effect_key("플레이어경험치%"@) == Some("item-effect-obtained-character-exp-percent"@),
{
    lemma_effect_key_letters();
    assert(spec_effect_key("도트데미지감소+"@) == Some("item-effect-bleed-damage-reduction"@));
    assert(spec_effect_key("도트데미지감소%"@) == Some("item-effect-bleed-damage-reduction-percent"@));
    assert(spec_effect_key("길들이기포인트감소%"@) == Some("item-effect-taming-points-percent"@));
    assert(spec_effect_key("드랍Money변화율*"@) == Some("item-effect-money-drop-increase-percent"@));
    assert(spec_effect_key("Money추가획득율%"@) == Some("item-effect-money-drop-increase"@));
    assert(spec_effect_key("공격자의치명타피해Plus효과감소%"@) == Some("item-effect-critical-defense-percent"@));
    assert(spec_effect_key("최대MP%"@) == Some("item-effect-mana-percent"@));
    assert(spec_effect_key("플레이어경험치%"@) == Some("item-effect-obtained-character-exp-percent"@));
}

/// Keys 89 to 93 of the data files' effect keys and the ids they name.
#[verifier::spinoff_prover]
proof fn lemma_effect_key_ids_11()
    ensures
        spec_effect_key("배후공격데미지%"@) == Some("item-effect-backstab-rate-percent"@),
        spec_effect_key("Hp힐량%"@) == Some("item-effect-health-regen-percent"@),
        spec_effect_key("어그로%"@) == Some("item-effect-threat-percent"@),
        spec_effect_key("hp회복력%"@) == Some("item-effect-base-health-regen-percent"@),
        spec_effect_key("마법물리방어력+"@) == Some("item-effect-magic-and-physical-defense"@),
{
    lemma_effect_key_letters();
    assert(spec_effect_key("배후공격데미지%"@) == Some("item-effect-backstab-rate-percent"@));
    assert(spec_effect_key("Hp힐량%"@) == Some("item-effect-health-regen-percent"@));
    assert(spec_effect_key("어그로%"@) == Some("item-effect-threat-percent"@));
    assert(spec_effect_key("hp회복력%"@) == Some("item-effect-base-health-regen-percent"@));
    assert(spec_effect_key("마법물리방어력+"@) == Some("item-effect-magic-and-physical-defense"@));
}

/// The localization id each effect key of the data files names: flat
/// bonuses ("+") name the flat ids, proportional ones ("%") the "-percent"
/// ids, and the few keys the data writes in two spellings name one id.
pub proof fn law_effect_key_ids()
    ensures
        spec_effect_key("최대ep%"@) == Some("item-effect-max-ep-percent"@),
        spec_effect_key("최대EP%"@) == Some("item-effect-max-ep-percent"@),
        spec_effect_key("생명력흡수성공확률+"@) == Some("item-effect-health-absorption-chance-percent"@),
        spec_effect_key("생명력흡수성공확률%"@) == Some("item-effect-health-absorption-chance-percent"@),
        spec_effect_key("생명력흡수량+"@) == Some("item-effect-health-absorption-amount-percent"@),
        spec_effect_key("데미지감소%"@) == Some("item-effect-damage-reduction-percent"@),
        spec_effect_key("석궁피격데미지%"@) == Some("item-effect-crossbow-damage-percent"@),
        spec_effect_key("창피격데미지%"@) == Some("item-effect-lance-damage-percent"@),
        spec_effect_key("창피격데미지%-"@) == Some("item-effect-lance-damage-minus-percent"@),
        spec_effect_key("배후공격극대화확률+"@) == Some("item-effect-backstab-damage"@),
        spec_effect_key("회피력+"@) == Some("item-effect-evasion-power"@),
        spec_effect_key("회피율%"@) == Some("item-effect-evasion-percent"@),
        spec_effect_key("최대MP+"@) == Some("item-effect-mana"@),
        spec_effect_key("최대HP+"@) == Some("item-effect-max-hp"@),
        spec_effect_key("최대hp+"@) == Some("item-effect-max-hp"@),
        spec_effect_key("최대HP%"@) == Some("item-effect-max-hp-percent"@),
        spec_effect_key("무기물리방어력%"@) == Some("item-effect-physical-defense-percent"@),
        spec_effect_key("쿨타임%"@) == Some("item-effect-cooldown-percent"@),
        spec_effect_key("PK방어력%"@) == Some("item-effect-pvp-defense-percent"@),
        spec_effect_key("pk방어력%"@) == Some("item-effect-pvp-defense-percent"@),
        spec_effect_key("모든공격력+"@) == Some("item-effect-attack"@),
        spec_effect_key("모든공격력%"@) == Some("item-effect-attack-percent"@),
        spec_effect_key("allstatderest+"@) == Some("item-effect-stat-limit-break"@),
        spec_effect_key("AllStatDerest+"@) == Some("item-effect-stat-limit-break"@),
        spec_effect_key("allstatderest%"@) == Some("item-effect-stat-limit-break-percent"@),
        spec_effect_key("AllStatDerest%"@) == Some("item-effect-stat-limit-break-percent"@),
        spec_effect_key("allstat+"@) == Some("item-effect-allstats"@),
        spec_effect_key("AllStat+"@) == Some("item-effect-allstats"@),
        spec_effect_key("allstat%"@) == Some("item-effect-allstats-percent"@),
        spec_effect_key("AllStat%"@) == Some("item-effect-allstats-percent"@),
        spec_effect_key("모든극대화확률+"@) == Some("item-effect-crit-damage-chance-percent"@),
        spec_effect_key("PK육체계저항율+"@) == Some("item-effect-pvp-resist-percent"@),
        spec_effect_key("pk육체계저항율+"@) == Some("item-effect-pvp-resist-percent"@),
        spec_effect_key("이동속도%"@) == Some("item-effect-speed-percent"@),
        spec_effect_key("탈것속도%"@) == Some("item-effect-mount-speed-percent"@),
        spec_effect_key("치명타피해감소+"@) == Some("item-effect-crit-defense"@),
        spec_effect_key("마법방어력%"@) == Some("item-effect-magic-defense-percent"@),
        spec_effect_key("INTDerest+"@) == Some("item-effect-intelligence-break-limit"@),
        spec_effect_key("VTLDerest%"@) == Some("item-effect-vitality-break-limit-percent"@),
        spec_effect_key("STRDerest+"@) == Some("item-effect-strength-break-limit"@),
        spec_effect_key("INT%"@) == Some("item-effect-intelligence-percent"@),
        spec_effect_key("STR%"@) == Some("item-effect-strength-percent"@),
        spec_effect_key("VTL+"@) == Some("item-effect-vitality"@),
        spec_effect_key("MTL+"@) == Some("item-effect-mentality"@),
        spec_effect_key("INT+"@) == Some("item-effect-intelligence"@),
        spec_effect_key("int+"@) == Some("item-effect-intelligence"@),
        spec_effect_key("STR+"@) == Some("item-effect-strength"@),
        spec_effect_key("str+"@) == Some("item-effect-strength"@),
        spec_effect_key("DEX+"@) == Some("item-effect-dexterity"@),
        spec_effect_key("dex+"@) == Some("item-effect-dexterity"@),
        spec_effect_key("PK공격력%"@) == Some("item-effect-pvp-attack-percent"@),
        spec_effect_key("출혈관통률"@) == Some("item-effect-bleed-chance-percent"@),
        spec_effect_key("모든방어력%"@) == Some("item-effect-defense-percent"@),
        spec_effect_key("모든방어력+"@) == Some("item-effect-defense"@),
        spec_effect_key("무기물리방어력+"@) == Some("item-effect-physical-defense"@),
        spec_effect_key("무기물리공격력+"@) == Some("item-effect-physical-attack"@),
        spec_effect_key("마법방어력+"@) == Some("item-effect-magic-defense"@),
        spec_effect_key("캐스팅속도%"@) == Some("item-effect-cast-time-percent"@),
        spec_effect_key("마법물리공격력+"@) == Some("item-effect-magic-attack"@),
        spec_effect_key("출혈방어율"@) == Some("item-effect-bleed-defense-percent"@),
        spec_effect_key("출혈방어율%"@) == Some("item-effect-bleed-defense-percent"@),
        spec_effect_key("모든극대력+"@) == Some("item-effect-critical-damage"@),
        spec_effect_key("마법극대력+"@) == Some("item-effect-magic-critical-damage"@),
        spec_effect_key("마법극대화데미지+"@) == Some("item-effect-magic-critical-damage-percent"@),
        spec_effect_key("마법극대화확률+"@) == Some("item-effect-magic-critical-damage-chance-percent"@),
        spec_effect_key("마법극대화확률%"@) == Some("item-effect-magic-critical-damage-chance-percent"@),
        spec_effect_key("무기극대화확률+"@) == Some("item-effect-physical-critical-damage-chance-percent"@),
        spec_effect_key("치명타피해관통율%"@) == Some("item-effect-critical-damage-penetration-percent"@),
        spec_effect_key("무기극대력+"@) == Some("item-effect-physical-critical-damage"@),
        spec_effect_key("무기극대화데미지+"@) == Some("item-effect-physical-critical-damage-percent"@),
        spec_effect_key("몬스터드랍율%"@) == Some("item-effect-drop-chance-percent"@),
        spec_effect_key("마법물리공격력%"@) == Some("item-effect-magic-attack-percent"@),
        spec_effect_key("무기물리공격력%"@) == Some("item-effect-physical-attack-percent"@),
        spec_effect_key("길들이기확률%"@) == Some("item-effect-taming-chance-percent"@),
        spec_effect_key("리버스강화확률%"@) == Some("item-effect-reverse-tempering-chance-percent"@),
        spec_effect_key("강화성공확률%"@) == Some("item-effect-tempering-chance-percent"@),
        spec_effect_key("제작성공확률%"@) == Some("item-effect-crafting-chance-percent"@),
        spec_effect_key("제작대성공확률%"@) == Some("item-effect-great-craft-chance-percent"@),
        spec_effect_key("판매대행등록비감소%"@) == Some("item-effect-auction-fee-percent"@),
        spec_effect_key("펠로우경험치%"@) == Some("item-effect-mount-exp-percent"@),
        spec_effect_key("도트데미지감소+"@) == Some("item-effect-bleed-damage-reduction"@),
        spec_effect_key("도트데미지감소%"@) == Some("item-effect-bleed-damage-reduction-percent"@),
        spec_effect_key("길들이기포인트감소%"@) == Some("item-effect-taming-points-percent"@),
        spec_effect_key("드랍Money변화율*"@) == Some("item-effect-money-drop-increase-percent"@),
        spec_effect_key("Money추가획득율%"@) == Some("item-effect-money-drop-increase"@),
        spec_effect_key("공격자의치명타피해Plus효과감소%"@) == Some("item-effect-critical-defense-percent"@),
        spec_effect_key("최대MP%"@) == Some("item-effect-mana-percent"@),
        spec_effect_key("플레이어경험치%"@) == Some("item-effect-obtained-character-exp-percent"@),
        spec_effect_key("배후공격데미지%"@) == Some("item-effect-backstab-rate-percent"@),
        spec_effect_key("Hp힐량%"@) == Some("item-effect-health-regen-percent"@),
        spec_effect_key("어그로%"@) == Some("item-effect-threat-percent"@),
        spec_effect_key("hp회복력%"@) == Some("item-effect-base-health-regen-percent"@),
        spec_effect_key("마법물리방어력+"@) == Some("item-effect-magic-and-physical-defense"@),
{
    lemma_effect_key_ids_0();
    lemma_effect_key_ids_1();
    lemma_effect_key_ids_2();
    lemma_effect_key_ids_3();
    lemma_effect_key_ids_4();
    lemma_effect_key_ids_5();
    lemma_effect_key_ids_6();
    lemma_effect_key_ids_7();
    lemma_effect_key_ids_8();
    lemma_effect_key_ids_9();
    lemma_effect_key_ids_10();
    lemma_effect_key_ids_11();
}

} // verus!

verus! {

/// A ranged effect is written as its key, its minimum and its maximum
/// joined by underscores: when none of the three holds an underscore, it
/// reads back as those three, in that order, exactly when the minimum and
/// maximum are numbers; and its parsed form names the key's id.
pub proof fn law_ranged_effect_pieces(k: Seq<char>, lo: Seq<char>, hi: Seq<char>)
    requires
        !k.contains('_'),
        !lo.contains('_'),
        !hi.contains('_'),
    ensures
        spec_key_min_max(k + seq!['_'] + lo + seq!['_'] + hi) == (if is_float_text(lo) && is_float_text(hi) {
            Some((k, lo, hi))
        } else {
            None
        }),
        spec_min_max_parsed(k + seq!['_'] + lo + seq!['_'] + hi) == (if is_float_text(lo) && is_float_text(hi) {
            match spec_effect_key(k) {
                Some(id) => Some((id, lo, hi)),
                None => None,
            }
        } else {
            None
        }),
{
    let s = k + seq!['_'] + lo + seq!['_'] + hi;
    assert(s =~= (k + seq!['_'] + lo) + seq!['_'] + hi);
    crate::text::lemma_split_concat(k + seq!['_'] + lo, hi, '_');
    crate::text::lemma_split_concat(k, lo, '_');
    crate::text::lemma_split_no_sep(k, '_');
    crate::text::lemma_split_no_sep(lo, '_');
    crate::text::lemma_split_no_sep(hi, '_');
    assert(split_char(s, '_') =~= seq![k, lo, hi]);
}

} // verus!

verus! {

/// A fixed effect is written "(key,value)", the value maybe followed by a
/// percent sign: for a key without commas, not starting with "(", and
/// a number value, neither with white space at its ends, it reads back as
/// that key and value, the percent sign dropped; and its parsed form names
/// the key's id.
pub proof fn law_fixed_effect_pieces(k: Seq<char>, v: Seq<char>, percent: bool)
    requires
        k.len() > 0,
        !k.contains(','),
        k[0] != '(',
        !is_ws(k[0]),
        !is_ws(k.last()),
        v.len() > 0,
        is_float_text(v),
        !is_ws(v[0]),
        !is_ws(v.last()),
        v.last() != '%',
        v.last() != ')',
    ensures
        spec_key_value(seq!['('] + k + seq![','] + v + (if percent { seq!['%'] } else { Seq::empty() }) + seq![')'])
            == Some((k, v)),
        spec_effect_parsed(seq!['('] + k + seq![','] + v + (if percent { seq!['%'] } else { Seq::empty() }) + seq![')'])
            == match spec_effect_key(k) {
            Some(id) => Some((id, v)),
            None => None,
        },
{
    let tail: Seq<char> = if percent { seq!['%'] } else { Seq::empty() };
    let s = seq!['('] + k + seq![','] + v + tail + seq![')'];
    let u = k + seq![','] + v + tail + seq![')'];
    let t = k + seq![','] + v + tail;
    let w = v + tail;
    assert(s.drop_first() =~= u);
    assert(u[0] == k[0]);
    assert(trim_start_char(u, '(') == u);
    assert(trim_start_char(s, '(') == u);
    assert(u.drop_last() =~= t);
    assert(t.last() == w.last());
    assert(trim_end_char(t, ')') == t);
    assert(trim_end_char(u, ')') == t);
    assert forall|m: int| 0 <= m < k.len() implies t[m] != ',' by {
        assert(t[m] == k[m]);
    }
    assert(t[k.len() as int] == ',');
    lemma_find_char_at(t, ',', k.len() as int);
    assert(t.take(k.len() as int) =~= k);
    assert(t.skip(k.len() + 1int) =~= w);
    // The key keeps its ends.
    assert(trim_start_ws(k) == k);
    assert(trim_end_ws(k) == k);
    // The value keeps its ends, and loses the percent sign.
    assert(w[0] == v[0]);
    assert(trim_start_ws(w) == w);
    if percent {
        assert(w.last() == '%');
        assert(trim_end_ws(w) == w);
        assert(w.drop_last() =~= v);
        assert(trim_end_char(v, '%') == v);
        assert(trim_end_char(w, '%') == v);
    } else {
        assert(w =~= v);
        assert(trim_end_ws(w) == w);
        assert(trim_end_char(v, '%') == v);
    }
}

} // verus!
