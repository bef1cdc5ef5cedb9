//! The texts of the bot, by language.

use crate::text::{push_str, same_text, string_of};
use vstd::prelude::*;

verus! {

/// One text in one language.
#[derive(Debug)]
pub struct Translation {
    pub lang: String,
    pub key: String,
    pub text: String,
}

/// What a [`Translation`] holds.
pub struct TranslationView {
    pub lang: Seq<char>,
    pub key: Seq<char>,
    pub text: Seq<char>,
}

impl View for Translation {
    type V = TranslationView;

    open spec fn view(&self) -> TranslationView {
        TranslationView { lang: self.lang@, key: self.key@, text: self.text@ }
    }
}

/// What the translations of a list hold, in their order.
pub open spec fn translation_views(entries: Seq<Translation>) -> Seq<TranslationView> {
    entries.map_values(|t: Translation| t@)
}

/// The text under `key` in the language `lang`, if `entries` has one.
pub open spec fn lookup(entries: Seq<TranslationView>, lang: Seq<char>, key: Seq<char>) -> Option<
    Seq<char>,
>
    decreases entries.len(),
{
    if entries.len() == 0 {
        None
    } else if entries.first().lang == lang && entries.first().key == key {
        Some(entries.first().text)
    } else {
        lookup(entries.drop_first(), lang, key)
    }
}

/// Whether no two of `entries` have both the language and the key in common.
pub open spec fn distinct(entries: Seq<TranslationView>) -> bool {
    forall|i: int, j: int|
        0 <= i < j < entries.len() ==> !((#[trigger] entries[i]).lang == (#[trigger] entries[j]).lang
            && entries[i].key == entries[j].key)
}

/// What is shown in place of a text that is missing.
pub open spec fn missing_text(key: Seq<char>) -> Seq<char> {
    "Missing translation: "@ + key
}

/// The texts that the bot starts with.
pub open spec fn builtin_texts() -> Seq<TranslationView> {
    seq![
        TranslationView {
            lang: "en"@,
            key: "welcome"@,
            text: "Welcome to the pharmacy bot!"@,
        },
        TranslationView { lang: "en"@, key: "inventory"@, text: "Available medicines:"@ },
        TranslationView {
            lang: "en"@,
            key: "no_medicines"@,
            text: "No medicines found in the inventory"@,
        },
        TranslationView {
            lang: "es"@,
            key: "welcome"@,
            text: "\u{ac}\u{b0}Bienvenido al bot de farmacia!"@,
        },
        TranslationView { lang: "es"@, key: "inventory"@, text: "Medicamentos disponibles:"@ },
        TranslationView {
            lang: "es"@,
            key: "no_medicines"@,
            text: "No se encontraron medicamentos en el inventario"@,
        },
    ]
}

/// The texts of the bot. No language has two texts under one key.
#[derive(Debug)]
pub struct I18n {
    translations: Vec<Translation>,
}

impl View for I18n {
    type V = Seq<TranslationView>;

    closed spec fn view(&self) -> Seq<TranslationView> {
        translation_views(self.translations@)
    }
}

fn translation(lang: &str, key: &str, text: &str) -> (t: Translation)
    ensures
        t@ == (TranslationView { lang: lang@, key: key@, text: text@ }),
{
    Translation { lang: lang.to_owned(), key: key.to_owned(), text: text.to_owned() }
}

impl I18n {
    #[verifier::type_invariant]
    closed spec fn no_text_twice(self) -> bool {
        distinct(translation_views(self.translations@))
    }

    /// The texts that the bot starts with: a welcome, the heading of the
    /// inventory and the notice of an empty inventory, in English and in
    /// Spanish.
    pub fn new() -> (texts: I18n)
        ensures
            texts@ == builtin_texts(),
            distinct(texts@),
    {
        let mut translations: Vec<Translation> = Vec::new();
        translations.push(translation("en", "welcome", "Welcome to the pharmacy bot!"));
        translations.push(translation("en", "inventory", "Available medicines:"));
        translations.push(
            translation("en", "no_medicines", "No medicines found in the inventory"),
        );
        translations.push(
            translation("es", "welcome", "\u{ac}\u{b0}Bienvenido al bot de farmacia!"),
        );
        translations.push(translation("es", "inventory", "Medicamentos disponibles:"));
        translations.push(
            translation(
                "es",
                "no_medicines",
                "No se encontraron medicamentos en el inventario",
            ),
        );
        proof {
            reveal_strlit("en");
            reveal_strlit("es");
            reveal_strlit("welcome");
            reveal_strlit("inventory");
            reveal_strlit("no_medicines");
            let views = translation_views(translations@);
            assert(views =~= builtin_texts());
            assert("en"@[1] != "es"@[1]);
            assert("welcome"@.len() != "inventory"@.len());
            assert("welcome"@.len() != "no_medicines"@.len());
            assert("inventory"@.len() != "no_medicines"@.len());
            assert(distinct(views));
        }
        I18n { translations }
    }

    /// The text under `key` in the language `lang`, or a notice that names
    /// the key where there is none.
    pub fn get(&self, lang: &str, key: &str) -> (text: String)
        ensures
            text@ == match lookup(self@, lang@, key@) {
                Some(found) => found,
                None => missing_text(key@),
            },
            distinct(self@),
    {
        proof {
            use_type_invariant(self);
        }
        let mut i: usize = 0;
        assert(self@.subrange(0, self@.len() as int) =~= self@);
        while i < self.translations.len()
            invariant
                i <= self.translations.len(),
                distinct(self@),
                lookup(self@, lang@, key@) == lookup(
                    self@.subrange(i as int, self@.len() as int),
                    lang@,
                    key@,
                ),
            decreases self.translations.len() - i,
        {
            let entry = &self.translations[i];
            proof {
                let rest = self@.subrange(i as int, self@.len() as int);
                assert(rest.first() == entry@);
                assert(rest.drop_first() =~= self@.subrange(i + 1, self@.len() as int));
            }
            if same_text(entry.lang.as_str(), lang) && same_text(entry.key.as_str(), key) {
                return entry.text.clone();
            }
            i = i + 1;
        }
        let mut text: Vec<char> = Vec::new();
        push_str(&mut text, "Missing translation: ");
        push_str(&mut text, key);
        assert(text@ =~= missing_text(key@));
        string_of(&text)
    }
}

} // verus!
