//! Persisted settings: the default language of the texts.
//!
//! Loading and saving the settings file is the surrounding program's
//! business; validation of the language choice is here.

use vstd::prelude::*;
use vstd::string::{StrSliceExecFns, StringExecFns};
use crate::strutil::str_eq;

verus! {

/// The settings: just the display language.
pub struct Config {
    /// The language code the texts are looked up for.
    pub language: String,
}

/// Whether a language code has texts: en, ru and es do.
pub open spec fn supported_language(l: Seq<char>) -> bool {
    l == "en"@ || l == "ru"@ || l == "es"@
}

impl Default for Config {
    /// The default settings: Russian texts.
    fn default() -> (r: Config)
        ensures
            r.language@ == "ru"@,
    {
        Config { language: String::from_str("ru") }
    }
}

impl Config {
    /// Switches the default language, refusing codes the texts do not
    /// exist for.  Returns the exact complaint otherwise and leaves the
    /// settings unchanged.
    pub fn set_language(&mut self, lang: &str) -> (r: Result<(), String>)
        ensures
            (r is Ok) == supported_language(lang@),
            r is Ok ==> final (self).language@ == lang@,
            r is Err ==> final (self).language@ == old(self).language@,
            match r {
                Ok(u) => true,
                Err(e) => e@ == "Unsupported language: "@ + lang@ + ". Supported: en, ru, es"@,
            },
    {
        if str_eq(lang, "en") || str_eq(lang, "ru") || str_eq(lang, "es") {
            self.language = String::from_str(lang);
            Ok(())
        } else {
            let mut msg = String::from_str("Unsupported language: ");
            msg.append(lang);
            msg.append(". Supported: en, ru, es");
            Err(msg)
        }
    }
}

} // verus!
