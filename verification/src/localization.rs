//! Display languages and the text lookup that falls back to the key itself
//! and remembers every key it could not find.

use vstd::prelude::*;
use crate::campaign::{contains_id, id_views};
use crate::ids::lemma_id_views_push;
use crate::keyed::KeyedList;
use crate::loadout::lemma_ids_contain_views;
use crate::text::str_eq;

verus! {

/// The languages the game can be shown in.
#[derive(Debug, Clone, Copy, PartialEq, Eq, Structural)]
pub enum Language {
    English,
    German,
    French,
}

impl Language {
    pub open spec fn spec_from_id(id: Seq<char>) -> Language {
        if id == "de"@ {
            Language::German
        } else if id == "fr"@ {
            Language::French
        } else {
            Language::English
        }
    }

    pub open spec fn spec_id(self) -> Seq<char> {
        match self {
            Language::English => "en"@,
            Language::German => "de"@,
            Language::French => "fr"@,
        }
    }

    /// The language of a settings identifier; English for any other.
    pub fn from_id(id: &str) -> (r: Language)
        ensures
            r == Language::spec_from_id(id@),
    {
        if str_eq(id, "de") {
            Language::German
        } else if str_eq(id, "fr") {
            Language::French
        } else {
            Language::English
        }
    }

    /// The settings identifier of the language.
    pub fn id(self) -> (r: &'static str)
        ensures
            r@ == self.spec_id(),
    {
        match self {
            Language::English => "en",
            Language::German => "de",
            Language::French => "fr",
        }
    }
}

/// Looks up display text by key for one language.
#[derive(Debug, Clone)]
pub struct Localizer {
    pub language: Language,
    /// The texts of the language, by key.
    pub strings: KeyedList<String>,
    /// Keys asked for and not found, in the order first asked, each once.
    pub missing: Vec<String>,
}

impl Localizer {
    pub open spec fn wf(&self) -> bool {
        self.strings.wf()
    }

    /// The built-in English texts.
    pub fn english() -> (r: Self)
        ensures
            r.wf(),
            r.language == Language::English,
            r.strings@.dom() == set!["menu.new_campaign"@],
            r.strings@["menu.new_campaign"@]@ == "New Campaign"@,
            r.missing@.len() == 0,
    {
        let mut strings: KeyedList<String> = KeyedList::new();
        strings.insert("menu.new_campaign".to_owned(), "New Campaign".to_owned());
        assert(strings@.dom() =~= set!["menu.new_campaign"@]);
        Localizer { language: Language::English, strings, missing: Vec::new() }
    }

    /// The language the texts are in.
    pub fn language(&self) -> (r: Language)
        ensures
            r == self.language,
    {
        self.language
    }

    /// The text under `key`. A key without text reads as itself and is
    /// remembered as missing.
    pub fn text(&mut self, key: &str) -> (r: String)
        requires
            old(self).wf(),
        ensures
            final(self).wf(),
            final(self).language == old(self).language,
            final(self).strings == old(self).strings,
            old(self).strings@.contains_key(key@) ==> r@ == old(self).strings@[key@]@ && final(self).missing
                == old(self).missing,
            !old(self).strings@.contains_key(key@) ==> r@ == key@ && id_views(final(self).missing@) == (if id_views(
                old(self).missing@,
            ).contains(key@) {
                id_views(old(self).missing@)
            } else {
                id_views(old(self).missing@).push(key@)
            }),
    {
        let found = match self.strings.get(key) {
            Some(text) => Some(text.clone()),
            None => None,
        };
        match found {
            Some(text) => text,
            None => {
                proof {
                    lemma_ids_contain_views(self.missing@, key@);
                }
                if !contains_id(&self.missing, key) {
                    let ghost before = self.missing@;
                    let k = key.to_owned();
                    proof {
                        lemma_id_views_push(before, k);
                    }
                    self.missing.push(k);
                }
                key.to_owned()
            },
        }
    }

    /// Keys asked for and not found, each once, in the order first asked.
    pub fn missing_keys(&self) -> (r: &Vec<String>)
        ensures
            r == &self.missing,
    {
        &self.missing
    }
}

} // verus!
