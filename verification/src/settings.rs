//! The application's settings: the interface language and the game's path.
use vstd::prelude::*;

use crate::kinds::{spec_language_of_locale, Language};

verus! {

/// `sys_locale::get_locale`: the system's preferred locale as a BCP 47
/// tag, or nothing when none could be found.  What it returns depends on
/// the machine and its environment, so nothing is claimed of it.
#[verifier::external_body]
fn system_locale() -> (r: Option<String>) {
    sys_locale::get_locale()
}

/// The settings.
#[derive(Debug)]
pub struct Settings {
    pub language: Language,
    pub game_path: String,
}

/// The language a detected locale selects: "en-US" when none was detected.
pub open spec fn language_for(locale: Option<Seq<char>>) -> Language {
    match locale {
        Some(l) => spec_language_of_locale(l),
        None => spec_language_of_locale("en-US"@),
    }
}

impl Settings {
    /// The settings for a system whose detected locale is `locale`: its
    /// language, and no game path yet.
    pub fn from_locale(locale: Option<String>) -> (s: Settings)
        ensures
            s.language == language_for(crate::fields::opt_view(locale)),
            s.game_path@ == Seq::<char>::empty(),
    {
        let tag = match locale {
            Some(l) => l,
            None => String::from_str("en-US"),
        };
        Settings { language: Language::from_locale(tag.as_str()), game_path: String::new() }
    }
}

impl Default for Settings {
    /// The settings for this system's locale, with no game path.
    fn default() -> (s: Settings)
        ensures
            s.game_path@ == Seq::<char>::empty(),
    {
        Settings::from_locale(system_locale())
    }
}

} // verus!
