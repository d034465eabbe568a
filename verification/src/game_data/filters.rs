//! The explorer's filters: a search text, the kinds and grades shown, and
//! an effect the items must have.
use vstd::prelude::*;

use crate::fields::opt_view;
use crate::game_data::items::{spec_matches, DataType};
use crate::kinds::{Grade, ItemType};
use crate::outside::unicode_lowercase;
use crate::text::{chars_of, string_of, to_lower, trim_end, trim_end_char, trim_end_matches, trim_end_ws};

verus! {

/// An effect that can be chosen as a filter, by its key.
#[derive(Debug)]
pub struct ItemEffectFilter {
    pub key: String,
}

impl ItemEffectFilter {
    /// The title shown for the filter, from the effect's text formatted
    /// with an empty value: without the trailing dashes and white space.
    pub fn title(formatted: &str) -> (s: String)
        ensures
            s@ == trim_end_ws(trim_end_char(formatted@, '-')),
    {
        let v = chars_of(formatted);
        let t = trim_end_matches(&v, '-');
        let r = trim_end(&t);
        string_of(&r)
    }
}

/// The filters of the explorer.
#[derive(Debug)]
pub struct GameDataFilters {
    pub input: String,
    pub item_type: Vec<ItemType>,
    pub grade: Vec<Grade>,
    pub effects: Option<String>,
}

impl GameDataFilters {
    /// The filters that show everything: no search text, every kind, every
    /// grade, no effect.
    pub fn new() -> (f: GameDataFilters)
        ensures
            f.input@ == Seq::<char>::empty(),
            f.item_type@ == seq![ItemType::Armor, ItemType::SecondaryWeapon, ItemType::Weapon, ItemType::Accessory],
            f.grade@ == seq![Grade::Common, Grade::Elite, Grade::Heroic, Grade::Legendary, Grade::Unique, Grade::Mythical],
            f.effects is None,
    {
        GameDataFilters { input: String::new(), item_type: ItemType::iter(), grade: Grade::iter(), effects: None }
    }

    /// Takes the search text, lower-cased.
    pub fn set_input(&mut self, text: &str)
        ensures
            final(self).input@ == unicode_lowercase(text@),
            final(self).item_type == old(self).item_type,
            final(self).grade == old(self).grade,
            final(self).effects == old(self).effects,
    {
        self.input = to_lower(text);
    }

    /// Whether `item` passes the filters.
    pub fn check_item(&self, item: &DataType) -> (b: bool)
        ensures
            b == spec_matches(*item, self.input@, self.item_type@, self.grade@, opt_view(self.effects)),
    {
        item.matches(self.input.as_str(), &self.item_type, &self.grade, &self.effects)
    }
}

} // verus!
