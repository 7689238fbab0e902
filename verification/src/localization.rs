//! Structured, parameter-aware UI text with a deterministic English fallback.

use vstd::prelude::*;
use vstd::utf8::{decode_utf8, valid_utf8};
use crate::block::BlockType;
use crate::entity::EntityType;
use crate::inventory::Item;
use crate::text::{
    char_to_ascii_lowercase, chars_eq_ignore_ascii_case, chars_lt, chars_of, decimal, eq_ignore_ascii_case, is_ascii_alnum,
    is_ascii_lower, is_ascii_upper, lemma_seq_lt_irreflexive, lemma_seq_lt_total, lemma_seq_lt_trans, lower_char, push_char,
    replace_all, replace_all_chars, seq_lt, string_from_chars, trim, trimmed_chars, u64_to_decimal,
};

verus! {

/// A language the interface can be shown in.
#[derive(Debug, Clone, Copy, PartialEq, Eq, Hash, Structural)]
pub enum Language {
    English,
    German,
}

impl Language {
    pub open spec fn spec_code(self) -> Seq<char> {
        match self {
            Language::English => "en_us"@,
            Language::German => "de_de"@,
        }
    }

    /// Locale code of the language's text files.
    pub fn code(self) -> (r: &'static str)
        ensures
            r@ == self.spec_code(),
    {
        match self {
            Language::English => "en_us",
            Language::German => "de_de",
        }
    }

    pub open spec fn spec_as_str(self) -> Seq<char> {
        match self {
            Language::English => "ENGLISH"@,
            Language::German => "DEUTSCH"@,
        }
    }

    /// Name of the language as the settings screen shows it.
    pub fn as_str(self) -> (r: &'static str)
        ensures
            r@ == self.spec_as_str(),
    {
        match self {
            Language::English => "ENGLISH",
            Language::German => "DEUTSCH",
        }
    }

    /// German for "deutsch", "german" or "de_de" in any ASCII case around white space; English
    /// for anything else.
    pub open spec fn spec_parse(value: Seq<char>) -> Language {
        let t = trim(value);
        if eq_ignore_ascii_case(t, "deutsch"@) || eq_ignore_ascii_case(t, "german"@) || eq_ignore_ascii_case(t, "de_de"@) {
            Language::German
        } else {
            Language::English
        }
    }

    /// Read a language from a settings value.
    pub fn parse(value: &str) -> (r: Language)
        ensures
            r == Self::spec_parse(value@),
    {
        let t = trimmed_chars(value);
        if chars_eq_ignore_ascii_case(&t, "deutsch") || chars_eq_ignore_ascii_case(&t, "german") || chars_eq_ignore_ascii_case(
            &t,
            "de_de",
        ) {
            Language::German
        } else {
            Language::English
        }
    }

    /// The other language.
    pub fn toggle(self) -> (r: Language)
        ensures
            r == (match self {
                Language::English => Language::German,
                Language::German => Language::English,
            }),
    {
        match self {
            Language::English => Language::German,
            Language::German => Language::English,
        }
    }
}

/// Keys and values of text entries.
pub open spec fn pair_views(v: Seq<(String, String)>) -> Seq<(Seq<char>, Seq<char>)> {
    v.map_values(|p: (String, String)| (p.0@, p.1@))
}

/// Value of the first entry of `entries` with key `key`.
pub open spec fn assoc_get(entries: Seq<(Seq<char>, Seq<char>)>, key: Seq<char>) -> Option<Seq<char>>
    decreases entries.len(),
{
    if entries.len() == 0 {
        None
    } else if entries[0].0 == key {
        Some(entries[0].1)
    } else {
        assoc_get(entries.drop_first(), key)
    }
}

/// No key occurs twice in `entries`.
pub open spec fn keys_unique(entries: Seq<(Seq<char>, Seq<char>)>) -> bool {
    forall|i: int, j: int| 0 <= i < entries.len() && 0 <= j < entries.len() && i != j ==> #[trigger] entries[i].0 != #[trigger] entries[j].0
}

/// What `serde_json` reads from `json` as an object of string values: its entries in ascending
/// key order, or nothing when `json` is no such object.
pub uninterp spec fn json_string_map(json: Seq<char>) -> Option<Seq<(Seq<char>, Seq<char>)>>;

#[verifier::external_type_specification]
#[verifier::external_body]
pub struct ExJsonError(serde_json::Error);

/// Read `json` as an object whose values are all strings (`serde_json::from_str` into a
/// `BTreeMap<String, String>`). The entries come back in ascending key order, each key once;
/// which documents are accepted is left to `serde_json`.
#[verifier::external_body]
fn json_to_string_map(json: &str) -> (r: Result<Vec<(String, String)>, serde_json::Error>)
    ensures
        r is Ok <==> json_string_map(json@) is Some,
        r matches Ok(v) ==> json_string_map(json@) == Some(pair_views(v@)) && keys_unique(pair_views(v@)),
{
    match serde_json::from_str::<std::collections::BTreeMap<String, String>>(json) {
        Ok(map) => Ok(map.into_iter().collect()),
        Err(e) => Err(e),
    }
}

/// Entries read from `json`; none when it cannot be read.
pub open spec fn parsed_or_empty(json: Seq<char>) -> Seq<(Seq<char>, Seq<char>)> {
    match json_string_map(json) {
        Some(entries) => entries,
        None => Seq::empty(),
    }
}

/// The text entries of a JSON object of strings, in key order; none when the text is not one.
pub fn parse_map(json: &str) -> (r: Vec<(String, String)>)
    ensures
        pair_views(r@) == parsed_or_empty(json@),
{
    match json_to_string_map(json) {
        Ok(v) => v,
        Err(_) => {
            let v: Vec<(String, String)> = Vec::new();
            assert(pair_views(v@) =~= Seq::<(Seq<char>, Seq<char>)>::empty());
            v
        },
    }
}

/// Position of the first entry with key `key`.
fn find_entry(entries: &Vec<(String, String)>, key: &String) -> (r: Option<usize>)
    ensures
        r is None <==> assoc_get(pair_views(entries@), key@) is None,
        r matches Some(i) ==> i < entries@.len() && assoc_get(pair_views(entries@), key@) == Some(entries@[i as int].1@),
{
    let n = entries.len();
    let mut i: usize = 0;
    proof {
        assert(pair_views(entries@).subrange(0, n as int) =~= pair_views(entries@));
    }
    while i < n
        invariant
            n == entries@.len(),
            i <= n,
            assoc_get(pair_views(entries@), key@) == assoc_get(pair_views(entries@).subrange(i as int, n as int), key@),
        decreases n - i,
    {
        let ghost rest = pair_views(entries@).subrange(i as int, n as int);
        if entries[i].0 == *key {
            return Some(i);
        }
        proof {
            assert(rest.drop_first() =~= pair_views(entries@).subrange(i + 1, n as int));
        }
        i += 1;
    }
    None
}

/// A copy of `entries`.
/// The text that `bytes` encode (`std::str::from_utf8`): present exactly when the bytes are
/// valid UTF-8, and then the characters they encode.
#[verifier::external_body]
fn utf8_text(bytes: &[u8]) -> (r: Option<&str>)
    ensures
        r is Some <==> valid_utf8(bytes@),
        r matches Some(t) ==> t@ == decode_utf8(bytes@),
{
    std::str::from_utf8(bytes).ok()
}

/// The entries one locale layer gives: those of its JSON text, or none when its bytes are not
/// UTF-8 or its text is no object of strings.
pub open spec fn layer_entries(layer: Seq<u8>) -> Seq<(Seq<char>, Seq<char>)> {
    if valid_utf8(layer) {
        parsed_or_empty(decode_utf8(layer))
    } else {
        Seq::empty()
    }
}

/// The entries of locale layers, highest priority first: each layer's entries in turn, so a
/// lookup finds a key in the first layer that has it.
pub open spec fn merged_layers(layers: Seq<Seq<u8>>) -> Seq<(Seq<char>, Seq<char>)>
    decreases layers.len(),
{
    if layers.len() == 0 {
        Seq::empty()
    } else {
        merged_layers(layers.drop_last()) + layer_entries(layers.last())
    }
}

/// Views of byte layers.
pub open spec fn layer_views(layers: Seq<Vec<u8>>) -> Seq<Seq<u8>> {
    layers.map_values(|l: Vec<u8>| l@)
}

fn merge_locale_layers(layers: &[Vec<u8>]) -> (r: Vec<(String, String)>)
    ensures
        pair_views(r@) == merged_layers(layer_views(layers@)),
{
    let mut merged: Vec<(String, String)> = Vec::new();
    let mut i: usize = 0;
    while i < layers.len()
        invariant
            i <= layers@.len(),
            pair_views(merged@) == merged_layers(layer_views(layers@).subrange(0, i as int)),
        decreases layers.len() - i,
    {
        let ghost before = merged@;
        proof {
            assert(layer_views(layers@).subrange(0, i + 1).drop_last() =~= layer_views(layers@).subrange(0, i as int));
            assert(layer_views(layers@).subrange(0, i + 1).last() == layers@[i as int]@);
        }
        match utf8_text(layers[i].as_slice()) {
            Some(text) => {
                let mut entries = parse_map(text);
                let ghost added = entries@;
                merged.append(&mut entries);
                proof {
                    assert(merged@ == before + added);
                    assert(pair_views(merged@) =~= pair_views(before) + pair_views(added));
                }
            },
            None => {
                proof {
                    assert(pair_views(merged@) =~= pair_views(merged@) + Seq::<(Seq<char>, Seq<char>)>::empty());
                }
            },
        }
        i += 1;
    }
    proof {
        assert(layer_views(layers@).subrange(0, layers@.len() as int) =~= layer_views(layers@));
    }
    merged
}

fn clone_entries(entries: &Vec<(String, String)>) -> (r: Vec<(String, String)>)
    ensures
        pair_views(r@) == pair_views(entries@),
{
    let mut r: Vec<(String, String)> = Vec::new();
    let mut i: usize = 0;
    while i < entries.len()
        invariant
            i <= entries@.len(),
            r@.len() == i,
            forall|j: int| 0 <= j < i ==> (#[trigger] r@[j]).0@ == entries@[j].0@ && r@[j].1@ == entries@[j].1@,
        decreases entries.len() - i,
    {
        let k = entries[i].0.clone();
        let v = entries[i].1.clone();
        r.push((k, v));
        i += 1;
    }
    assert(pair_views(r@) =~= pair_views(entries@));
    r
}

/// Keys in strictly ascending order.
pub open spec fn strictly_sorted(keys: Seq<Seq<char>>) -> bool {
    forall|i: int, j: int| 0 <= i < j < keys.len() ==> seq_lt(#[trigger] keys[i], #[trigger] keys[j])
}

pub open spec fn string_views(v: Seq<String>) -> Seq<Seq<char>> {
    v.map_values(|s: String| s@)
}

/// `template` with each `{name}` of `arguments` replaced by its value, one argument after another.
pub open spec fn apply_arguments(template: Seq<char>, arguments: Seq<(Seq<char>, Seq<char>)>) -> Seq<char>
    decreases arguments.len(),
{
    if arguments.len() == 0 {
        template
    } else {
        apply_arguments(
            replace_all(template, seq!['{'] + arguments[0].0 + seq!['}'], arguments[0].1),
            arguments.drop_first(),
        )
    }
}

pub open spec fn argument_views(arguments: Seq<(&str, &str)>) -> Seq<(Seq<char>, Seq<char>)> {
    arguments.map_values(|p: (&str, &str)| (p.0@, p.1@))
}

/// `template` with each `{name}` of `arguments` replaced by its value.
pub fn replace_tokens(template: String, arguments: &[(&str, &str)]) -> (r: String)
    ensures
        r@ == apply_arguments(template@, argument_views(arguments@)),
{
    let mut text = chars_of(template.as_str());
    let mut i: usize = 0;
    let ghost args = argument_views(arguments@);
    proof {
        assert(args.subrange(0, args.len() as int) =~= args);
    }
    while i < arguments.len()
        invariant
            i <= arguments@.len(),
            args == argument_views(arguments@),
            apply_arguments(text@, args.subrange(i as int, args.len() as int)) == apply_arguments(template@, args),
        decreases arguments.len() - i,
    {
        let (name, replacement) = arguments[i];
        let mut pattern: Vec<char> = Vec::new();
        pattern.push('{');
        let name_chars = chars_of(name);
        let mut k: usize = 0;
        while k < name_chars.len()
            invariant
                k <= name_chars@.len(),
                pattern@ == seq!['{'] + name_chars@.subrange(0, k as int),
            decreases name_chars.len() - k,
        {
            pattern.push(name_chars[k]);
            proof {
                assert(name_chars@.subrange(0, k + 1) =~= name_chars@.subrange(0, k as int).push(name_chars@[k as int]));
            }
            k += 1;
        }
        pattern.push('}');
        let rep = chars_of(replacement);
        let ghost before = text@;
        text = replace_all_chars(&text, &pattern, &rep);
        proof {
            assert(name_chars@.subrange(0, name_chars@.len() as int) =~= name_chars@);
            assert(pattern@ =~= seq!['{'] + args[i as int].0 + seq!['}']);
            assert(args.subrange(i as int, args.len() as int).drop_first() =~= args.subrange(i + 1, args.len() as int));
        }
        i += 1;
    }
    string_from_chars(&text)
}

/// One character of a display name folded into a text key: letters and digits are kept in lower
/// case, with `_` where a capital follows a small letter; any other character becomes one `_`
/// unless the key is empty or already ends with `_`.
pub open spec fn key_step(key: Seq<char>, ch: char) -> Seq<char> {
    if is_ascii_alnum(ch) {
        let k = if is_ascii_upper(ch) && key.len() > 0 && is_ascii_lower(key.last()) {
            key.push('_')
        } else {
            key
        };
        k.push(lower_char(ch))
    } else if key.len() > 0 && key.last() != '_' {
        key.push('_')
    } else {
        key
    }
}

/// All characters of `s` folded into a key.
pub open spec fn key_fold(s: Seq<char>) -> Seq<char>
    decreases s.len(),
{
    if s.len() == 0 {
        Seq::empty()
    } else {
        key_step(key_fold(s.drop_last()), s.last())
    }
}

/// `s` without trailing `_`.
pub open spec fn strip_trailing_underscores(s: Seq<char>) -> Seq<char>
    decreases s.len(),
{
    if s.len() > 0 && s.last() == '_' {
        strip_trailing_underscores(s.drop_last())
    } else {
        s
    }
}

/// The key component of a display name: "Oak Planks" gives "oak_planks", "EnderDragon" gives
/// "ender_dragon".
pub open spec fn spec_key_component(value: Seq<char>) -> Seq<char> {
    strip_trailing_underscores(key_fold(value))
}

pub fn key_component(value: &str) -> (r: String)
    ensures
        r@ == spec_key_component(value@),
{
    let chars = chars_of(value);
    let mut key: Vec<char> = Vec::new();
    let mut i: usize = 0;
    while i < chars.len()
        invariant
            i <= chars@.len(),
            key@ == key_fold(chars@.subrange(0, i as int)),
        decreases chars.len() - i,
    {
        let ch = chars[i];
        let u = ch as u32;
        let upper = 65 <= u && u <= 90;
        let lower = 97 <= u && u <= 122;
        let digit = 48 <= u && u <= 57;
        if upper || lower || digit {
            if upper && key.len() > 0 && 97 <= (key[key.len() - 1] as u32) && (key[key.len() - 1] as u32) <= 122 {
                key.push('_');
            }
            key.push(char_to_ascii_lowercase(ch));
        } else if key.len() > 0 && key[key.len() - 1] != '_' {
            key.push('_');
        }
        proof {
            assert(chars@.subrange(0, i + 1).drop_last() =~= chars@.subrange(0, i as int));
        }
        i += 1;
    }
    proof {
        assert(chars@.subrange(0, chars@.len() as int) =~= chars@);
    }
    while key.len() > 0 && key[key.len() - 1] == '_'
        invariant
            strip_trailing_underscores(key@) == spec_key_component(value@),
        decreases key.len(),
    {
        key.pop();
    }
    string_from_chars(&key)
}

/// Text for `key`: from `active`, else from `english`, else the key itself.
pub open spec fn lookup_in(active: Seq<(Seq<char>, Seq<char>)>, english: Seq<(Seq<char>, Seq<char>)>, key: Seq<char>) -> Seq<char> {
    match assoc_get(active, key) {
        Some(v) => v,
        None => match assoc_get(english, key) {
            Some(v) => v,
            None => key,
        },
    }
}

/// Translated text for one language, with English under it and the keys asked for that the
/// language lacks.
pub struct TranslationCatalog {
    language: Language,
    english: Vec<(String, String)>,
    active: Vec<(String, String)>,
    missing: Vec<String>,
}

impl TranslationCatalog {
    #[verifier::type_invariant]
    closed spec fn inv(self) -> bool {
        strictly_sorted(string_views(self.missing@))
    }

    /// The language the catalog shows.
    pub closed spec fn spec_language(&self) -> Language {
        self.language
    }

    /// English entries.
    pub closed spec fn english_entries(&self) -> Seq<(Seq<char>, Seq<char>)> {
        pair_views(self.english@)
    }

    /// Entries of the shown language.
    pub closed spec fn active_entries(&self) -> Seq<(Seq<char>, Seq<char>)> {
        pair_views(self.active@)
    }

    /// Keys asked for that the shown language lacks, in ascending order.
    pub closed spec fn missing_view(&self) -> Seq<Seq<char>> {
        string_views(self.missing@)
    }

    /// Text for `key`: the shown language's, else English, else the key itself.
    pub open spec fn spec_lookup(&self, key: Seq<char>) -> Seq<char> {
        lookup_in(self.active_entries(), self.english_entries(), key)
    }

    /// `missing` after asking for `key`: `key` joins it when the shown language lacks it.
    pub open spec fn missing_after(&self, key: Seq<char>) -> Set<Seq<char>> {
        if assoc_get(self.active_entries(), key) is Some {
            self.missing_view().to_set()
        } else {
            self.missing_view().to_set().insert(key)
        }
    }

    /// `other` has the language and the entries of `self`.
    pub open spec fn same_text(&self, other: &TranslationCatalog) -> bool {
        &&& other.spec_language() == self.spec_language()
        &&& other.english_entries() == self.english_entries()
        &&& other.active_entries() == self.active_entries()
    }

    /// The shown language, or English when English is shown and no entry was given for it.
    pub open spec fn from_entries_active(
        language: Language,
        english: Seq<(Seq<char>, Seq<char>)>,
        active: Seq<(Seq<char>, Seq<char>)>,
    ) -> Seq<(Seq<char>, Seq<char>)> {
        if language == Language::English && active.len() == 0 {
            english
        } else {
            active
        }
    }

    /// A catalog from English entries and the shown language's entries; English shown with no
    /// entries of its own uses the English ones, and nothing is missing yet.
    pub fn from_maps(language: Language, english: Vec<(String, String)>, active: Vec<(String, String)>) -> (r: TranslationCatalog)
        ensures
            r.spec_language() == language,
            r.english_entries() == pair_views(english@),
            r.active_entries() == Self::from_entries_active(language, pair_views(english@), pair_views(active@)),
            r.missing_view().len() == 0,
    {
        let active = if language == Language::English && active.len() == 0 {
            clone_entries(&english)
        } else {
            active
        };
        let r = TranslationCatalog { language, english, active, missing: Vec::new() };
        assert(string_views(r.missing@) =~= Seq::<Seq<char>>::empty());
        r
    }

    /// A catalog from English and shown-language text in JSON; text that cannot be read counts
    /// as empty.
    pub fn from_json(language: Language, english_json: &str, active_json: &str) -> (r: TranslationCatalog)
        ensures
            r.spec_language() == language,
            r.english_entries() == parsed_or_empty(english_json@),
            r.active_entries() == Self::from_entries_active(language, parsed_or_empty(english_json@), parsed_or_empty(active_json@)),
            r.missing_view().len() == 0,
    {
        let english = parse_map(english_json);
        let active = parse_map(active_json);
        Self::from_maps(language, english, active)
    }

    /// The catalog built into the game for `language`.
    pub fn builtin(language: Language) -> (r: TranslationCatalog)
        ensures
            r.spec_language() == language,
            r.english_entries() == parsed_or_empty(BUILTIN_EN_US@),
            r.active_entries() == Self::from_entries_active(
                language,
                parsed_or_empty(BUILTIN_EN_US@),
                parsed_or_empty(
                    match language {
                        Language::English => BUILTIN_EN_US@,
                        Language::German => BUILTIN_DE_DE@,
                    },
                ),
            ),
            r.missing_view().len() == 0,
    {
        let active = match language {
            Language::English => BUILTIN_EN_US,
            Language::German => BUILTIN_DE_DE,
        };
        Self::from_json(language, BUILTIN_EN_US, active)
    }

    /// A catalog from the locale layers that the enabled resource packs supply, highest priority
    /// first: the English layers, or the built-in English text when there are none; the shown
    /// language's layers, or, when there are none, the English entries for English and the
    /// built-in text otherwise. Layers that are not UTF-8 JSON objects of strings give nothing.
    pub fn from_resource_packs(
        english_layers: &[Vec<u8>],
        active_layers: &[Vec<u8>],
        language: Language,
    ) -> (r: TranslationCatalog)
        ensures
            r.spec_language() == language,
            r.english_entries() == (if english_layers@.len() == 0 {
                parsed_or_empty(BUILTIN_EN_US@)
            } else {
                merged_layers(layer_views(english_layers@))
            }),
            r.active_entries() == Self::from_entries_active(
                language,
                r.english_entries(),
                if active_layers@.len() > 0 {
                    merged_layers(layer_views(active_layers@))
                } else if language == Language::English {
                    r.english_entries()
                } else {
                    parsed_or_empty(BUILTIN_DE_DE@)
                },
            ),
            r.missing_view().len() == 0,
    {
        let english = if english_layers.len() == 0 {
            parse_map(BUILTIN_EN_US)
        } else {
            merge_locale_layers(english_layers)
        };
        let active = if active_layers.len() > 0 {
            merge_locale_layers(active_layers)
        } else if language == Language::English {
            clone_entries(&english)
        } else {
            parse_map(BUILTIN_DE_DE)
        };
        Self::from_maps(language, english, active)
    }

    /// The language the catalog shows.
    pub fn language(&self) -> (r: Language)
        ensures
            r == self.spec_language(),
    {
        self.language
    }

    /// Text for `key`: the shown language's, else English, else the key itself.
    pub fn lookup(&self, key: &str) -> (r: String)
        ensures
            r@ == self.spec_lookup(key@),
    {
        let key_s = String::from_str(key);
        match find_entry(&self.active, &key_s) {
            Some(i) => self.active[i].1.clone(),
            None => match find_entry(&self.english, &key_s) {
                Some(i) => self.english[i].1.clone(),
                None => key_s,
            },
        }
    }

    fn note_missing(&mut self, key: String)
        ensures
            old(self).same_text(final(self)),
            final(self).missing_view().to_set() == old(self).missing_view().to_set().insert(key@),
    {
        proof {
            use_type_invariant(&*self);
        }
        let n = self.missing.len();
        let key_chars = chars_of(key.as_str());
        let mut i: usize = 0;
        let mut found = false;
        while i < n && !found
            invariant
                n == self.missing@.len(),
                i <= n,
                key_chars@ == key@,
                strictly_sorted(string_views(self.missing@)),
                forall|j: int| 0 <= j < i ==> seq_lt(#[trigger] string_views(self.missing@)[j], key@),
                found ==> i < n && !seq_lt(string_views(self.missing@)[i as int], key@),
            decreases (n - i) * 2 + if found { 0int } else { 1int },
        {
            let m = chars_of(self.missing[i].as_str());
            if !chars_lt(&m, &key_chars) {
                found = true;
            } else {
                i += 1;
            }
        }
        let ghost old_view = string_views(self.missing@);
        if i < n && self.missing[i] == key {
            proof {
                assert(old_view[i as int] == key@);
                assert(old_view.to_set().insert(key@) =~= old_view.to_set());
            }
            return;
        }
        proof {
            if i < n {
                lemma_seq_lt_total(old_view[i as int], key@);
                assert(seq_lt(key@, old_view[i as int]));
            }
        }
        let mut m: Vec<String> = Vec::new();
        let mut j: usize = 0;
        while j < n
            invariant
                n == self.missing@.len(),
                i <= n,
                j <= n,
                old_view == string_views(self.missing@),
                m@.len() == if j <= i { j as int } else { j + 1 },
                forall|t: int| 0 <= t < m@.len() ==> (#[trigger] m@[t])@ == old_view.insert(i as int, key@)[t],
            decreases n - j,
        {
            if j == i {
                m.push(key.clone());
            }
            m.push(self.missing[j].clone());
            j += 1;
        }
        if i == n {
            m.push(key);
        }
        proof {
            assert(string_views(m@) =~= old_view.insert(i as int, key@));
        }
        let ghost new_view = string_views(m@);
        proof {
            let new_view = string_views(m@);
            assert forall|a: int, b: int| 0 <= a < b < new_view.len() implies seq_lt(#[trigger] new_view[a], #[trigger] new_view[b]) by {
                if b < i {
                } else if b == i {
                    assert(new_view[a] == old_view[a]);
                } else if a < i {
                    assert(new_view[b] == old_view[b - 1]);
                    assert(seq_lt(key@, old_view[i as int]));
                    if b - 1 > i {
                        lemma_seq_lt_trans(key@, old_view[i as int], old_view[b - 1]);
                    }
                    lemma_seq_lt_trans(new_view[a], key@, new_view[b]);
                } else if a == i {
                    assert(new_view[b] == old_view[b - 1]);
                    if b - 1 > i {
                        lemma_seq_lt_trans(key@, old_view[i as int], old_view[b - 1]);
                    }
                } else {
                    assert(new_view[a] == old_view[a - 1]);
                    assert(new_view[b] == old_view[b - 1]);
                }
            }
            assert(new_view.to_set() =~= old_view.to_set().insert(key@)) by {
                assert forall|s: Seq<char>| new_view.to_set().contains(s) implies old_view.to_set().insert(key@).contains(s) by {
                    let k = choose|k: int| 0 <= k < new_view.len() && new_view[k] == s;
                    if k < i {
                        assert(old_view[k] == s);
                    } else if k > i {
                        assert(old_view[k - 1] == s);
                    }
                }
                assert forall|s: Seq<char>| old_view.to_set().insert(key@).contains(s) implies new_view.to_set().contains(s) by {
                    if s == key@ {
                        assert(new_view[i as int] == s);
                    } else {
                        let k = choose|k: int| 0 <= k < old_view.len() && old_view[k] == s;
                        if k < i {
                            assert(new_view[k] == s);
                        } else {
                            assert(new_view[k + 1] == s);
                        }
                    }
                }
            }
        }
        self.missing = m;
    }

    /// Text for `key`, as `lookup` gives it, noting the key as missing when the shown language
    /// lacks it.
    pub fn translate(&mut self, key: &str) -> (r: String)
        ensures
            r@ == old(self).spec_lookup(key@),
            old(self).same_text(final(self)),
            final(self).missing_view().to_set() == old(self).missing_after(key@),
    {
        let value = self.lookup(key);
        let key_s = String::from_str(key);
        if find_entry(&self.active, &key_s).is_none() {
            self.note_missing(key_s);
        }
        value
    }

    /// Text for `key` with each `{name}` of `arguments` replaced, noting the key as missing when
    /// the shown language lacks it.
    pub fn format(&mut self, key: &str, arguments: &[(&str, &str)]) -> (r: String)
        ensures
            r@ == apply_arguments(old(self).spec_lookup(key@), argument_views(arguments@)),
            old(self).same_text(final(self)),
            final(self).missing_view().to_set() == old(self).missing_after(key@),
    {
        let t = self.translate(key);
        replace_tokens(t, arguments)
    }

    /// Text for `key` with each `{name}` of `arguments` replaced, leaving the missing keys alone.
    pub fn format_lookup(&self, key: &str, arguments: &[(&str, &str)]) -> (r: String)
        ensures
            r@ == apply_arguments(self.spec_lookup(key@), argument_views(arguments@)),
    {
        replace_tokens(self.lookup(key), arguments)
    }

    /// Key of the plural form of `key` for `count`.
    pub open spec fn plural_key(key: Seq<char>, count: u64) -> Seq<char> {
        key + if count == 1 {
            ".one"@
        } else {
            ".other"@
        }
    }

    /// Either language has text for `k`.
    pub open spec fn has_text(&self, k: Seq<char>) -> bool {
        assoc_get(self.active_entries(), k) is Some || assoc_get(self.english_entries(), k) is Some
    }

    /// `plural` picks the `.one` form exactly for a count of 1 and the `.other` form for every
    /// other count, 0 included, whenever the chosen form exists in either language; the `.one`
    /// form is never used for another count, and with neither form the plain key is used.
    pub proof fn lemma_plural_form(&self, key: Seq<char>, count: u64)
        ensures
            ({
                let one = key + ".one"@;
                let other = key + ".other"@;
                &&& count == 1 && self.has_text(one) ==> self.plural_source(key, count) == one
                &&& count != 1 && self.has_text(other) ==> self.plural_source(key, count) == other
                &&& count != 1 && !self.has_text(other) ==> self.plural_source(key, count) == key
                &&& count == 1 && !self.has_text(one) ==> self.plural_source(key, count) == key
            }),
    {
    }

    /// The key `plural` formats: the plural form when either language has it, else `key`.
    pub open spec fn plural_source(&self, key: Seq<char>, count: u64) -> Seq<char> {
        let pk = Self::plural_key(key, count);
        if assoc_get(self.active_entries(), pk) is Some || assoc_get(self.english_entries(), pk) is Some {
            pk
        } else {
            key
        }
    }

    /// Text for the plural form of `key` for `count` (`key.one` or `key.other`), falling back to
    /// `key`, with `{count}` replaced by the count in decimal.
    pub fn plural(&mut self, key: &str, count: u64) -> (r: String)
        ensures
            r@ == apply_arguments(
                old(self).spec_lookup(old(self).plural_source(key@, count)),
                seq![("count"@, decimal(count as nat))],
            ),
            old(self).same_text(final(self)),
            final(self).missing_view().to_set() == old(self).missing_after(old(self).plural_source(key@, count)),
    {
        let suffix = if count == 1 {
            ".one"
        } else {
            ".other"
        };
        let plural_key = String::from_str(key).concat(suffix);
        let count_text = u64_to_decimal(count);
        let arguments: [(&str, &str); 1] = [("count", count_text.as_str())];
        proof {
            assert(argument_views(arguments@) =~= seq![("count"@, decimal(count as nat))]);
        }
        if find_entry(&self.active, &plural_key).is_some() || find_entry(&self.english, &plural_key).is_some() {
            return self.format(plural_key.as_str(), &arguments);
        }
        self.format(key, &arguments)
    }

    /// Keys asked for that the shown language lacks, in ascending order, each once.
    pub fn missing_keys(&self) -> (r: Vec<String>)
        ensures
            string_views(r@) == self.missing_view(),
            strictly_sorted(string_views(r@)),
    {
        proof {
            use_type_invariant(self);
        }
        let mut r: Vec<String> = Vec::new();
        let mut i: usize = 0;
        while i < self.missing.len()
            invariant
                i <= self.missing@.len(),
                r@.len() == i,
                forall|j: int| 0 <= j < i ==> (#[trigger] r@[j])@ == self.missing@[j]@,
            decreases self.missing.len() - i,
        {
            r.push(self.missing[i].clone());
            i += 1;
        }
        assert(string_views(r@) =~= string_views(self.missing@));
        r
    }

    /// The display name under `namespace.<key component of display_name>`, or `display_name`
    /// itself when no language has that key.
    pub open spec fn spec_named(&self, namespace: Seq<char>, display_name: Seq<char>) -> Seq<char> {
        let key = namespace + "."@ + spec_key_component(display_name);
        let value = self.spec_lookup(key);
        if value == key {
            display_name
        } else {
            value
        }
    }

    fn named(&self, namespace: &str, display_name: &str) -> (r: String)
        ensures
            r@ == self.spec_named(namespace@, display_name@),
    {
        let key = String::from_str(namespace).concat(".").concat(key_component(display_name).as_str());
        let value = self.lookup(key.as_str());
        if value == key {
            String::from_str(display_name)
        } else {
            value
        }
    }

    /// Name of `item` in the shown language, or its built-in display name.
    pub fn item_name(&self, item: Item) -> (r: String)
        ensures
            r@ == self.spec_named("item"@, item.spec_name()),
    {
        self.named("item", item.name())
    }

    /// Name of `block` in the shown language, or its built-in display name.
    pub fn block_name(&self, block: BlockType) -> (r: String)
        ensures
            r@ == self.spec_named("block"@, block.spec_name()),
    {
        self.named("block", block.name())
    }

    /// Name of `entity` in the shown language, or the name of its kind.
    pub fn entity_name(&self, entity: EntityType) -> (r: String)
        ensures
            r@ == self.spec_named("entity"@, entity.spec_debug_name()),
    {
        self.named("entity", entity.debug_name())
    }

    /// The keys that every language must have which English lacks, in order.
    pub fn validate_visible_keys(&self) -> (r: Vec<String>)
        ensures
            string_views(r@) == keys_without(visible_required_keys_spec(), self.english_entries()),
    {
        let mut r: Vec<String> = Vec::new();
        let mut i: usize = 0;
        while i < VISIBLE_REQUIRED_KEY_COUNT
            invariant
                i <= VISIBLE_REQUIRED_KEY_COUNT,
                string_views(r@) == keys_without(visible_required_keys_spec().subrange(0, i as int), self.english_entries()),
            decreases VISIBLE_REQUIRED_KEY_COUNT - i,
        {
            let k = String::from_str(visible_required_key(i));
            proof {
                assert(visible_required_keys_spec().subrange(0, i + 1).drop_last() =~= visible_required_keys_spec().subrange(0, i as int));
                assert(visible_required_keys_spec().subrange(0, i + 1).last() == k@);
            }
            if find_entry(&self.english, &k).is_none() {
                let ghost r0 = r@;
                r.push(k);
                proof {
                    assert(string_views(r@) =~= string_views(r0).push(k@));
                }
            }
            i += 1;
        }
        proof {
            assert(visible_required_keys_spec().subrange(0, VISIBLE_REQUIRED_KEY_COUNT as int) =~= visible_required_keys_spec());
        }
        r
    }
}

pub open spec fn str_views(v: Seq<&str>) -> Seq<Seq<char>> {
    v.map_values(|s: &str| s@)
}

/// The keys of `keys` that `entries` lacks, in order.
pub open spec fn keys_without(keys: Seq<Seq<char>>, entries: Seq<(Seq<char>, Seq<char>)>) -> Seq<Seq<char>>
    decreases keys.len(),
{
    if keys.len() == 0 {
        Seq::empty()
    } else {
        let rest = keys_without(keys.drop_last(), entries);
        if assoc_get(entries, keys.last()) is None {
            rest.push(keys.last())
        } else {
            rest
        }
    }
}

/// Entries of the shown language in the catalog built into the game for `language`.
pub open spec fn builtin_active(language: Language) -> Seq<(Seq<char>, Seq<char>)> {
    TranslationCatalog::from_entries_active(
        language,
        parsed_or_empty(BUILTIN_EN_US@),
        parsed_or_empty(
            match language {
                Language::English => BUILTIN_EN_US@,
                Language::German => BUILTIN_DE_DE@,
            },
        ),
    )
}

/// Text for `key` in the catalog built into the game for `language`.
pub open spec fn builtin_lookup(language: Language, key: Seq<char>) -> Seq<char> {
    lookup_in(builtin_active(language), parsed_or_empty(BUILTIN_EN_US@), key)
}

/// Text for `key` in the catalog built into the game for `language`.
pub fn translate(language: Language, key: &str) -> (r: String)
    ensures
        r@ == builtin_lookup(language, key@),
{
    let c = TranslationCatalog::builtin(language);
    c.lookup(key)
}

/// Text for `key` in the catalog built into the game for `language`, with each `{name}` of
/// `arguments` replaced.
pub fn format(language: Language, key: &str, arguments: &[(&str, &str)]) -> (r: String)
    ensures
        r@ == apply_arguments(builtin_lookup(language, key@), argument_views(arguments@)),
{
    let c = TranslationCatalog::builtin(language);
    c.format_lookup(key, arguments)
}

/// Number of keys that every language must have.
pub const VISIBLE_REQUIRED_KEY_COUNT: usize = 130;

/// Key `i` of the keys that every language must have: the text the interface shows.
pub open spec fn visible_key_at(i: int) -> Seq<char> {
    if i == 0 {
        "menu.singleplayer"@
    } else if i == 1 {
        "menu.multiplayer"@
    } else if i == 2 {
        "menu.options"@
    } else if i == 3 {
        "menu.quit_game"@
    } else if i == 4 {
        "menu.select_world"@
    } else if i == 5 {
        "menu.controls"@
    } else if i == 6 {
        "menu.accessibility"@
    } else if i == 7 {
        "menu.resource_packs"@
    } else if i == 8 {
        "menu.done"@
    } else if i == 9 {
        "menu.back"@
    } else if i == 10 {
        "menu.apply"@
    } else if i == 11 {
        "menu.reload"@
    } else if i == 12 {
        "menu.create_world"@
    } else if i == 13 {
        "menu.cancel"@
    } else if i == 14 {
        "menu.host_game"@
    } else if i == 15 {
        "menu.join_game"@
    } else if i == 16 {
        "menu.port"@
    } else if i == 17 {
        "menu.server_address"@
    } else if i == 18 {
        "menu.username"@
    } else if i == 19 {
        "menu.ping_server"@
    } else if i == 20 {
        "menu.connect"@
    } else if i == 21 {
        "menu.no_worlds"@
    } else if i == 22 {
        "menu.scroll_more_worlds"@
    } else if i == 23 {
        "menu.play_selected"@
    } else if i == 24 {
        "menu.create_new_world"@
    } else if i == 25 {
        "menu.delete"@
    } else if i == 26 {
        "menu.copy"@
    } else if i == 27 {
        "menu.backup"@
    } else if i == 28 {
        "menu.world_name"@
    } else if i == 29 {
        "menu.random"@
    } else if i == 30 {
        "menu.seed"@
    } else if i == 31 {
        "menu.game_mode"@
    } else if i == 32 {
        "menu.difficulty"@
    } else if i == 33 {
        "menu.world_type"@
    } else if i == 34 {
        "menu.structures"@
    } else if i == 35 {
        "menu.hardcore"@
    } else if i == 36 {
        "menu.bonus_chest"@
    } else if i == 37 {
        "menu.cheats"@
    } else if i == 38 {
        "menu.fov"@
    } else if i == 39 {
        "menu.render_distance"@
    } else if i == 40 {
        "menu.fullscreen"@
    } else if i == 41 {
        "menu.vsync"@
    } else if i == 42 {
        "menu.fps_cap"@
    } else if i == 43 {
        "menu.master_volume"@
    } else if i == 44 {
        "menu.music_volume"@
    } else if i == 45 {
        "menu.sound_volume"@
    } else if i == 46 {
        "menu.weather_volume"@
    } else if i == 47 {
        "menu.no_user_packs"@
    } else if i == 48 {
        "menu.mouse_sensitivity"@
    } else if i == 49 {
        "menu.press_a_key"@
    } else if i == 50 {
        "menu.delete_world"@
    } else if i == 51 {
        "menu.delete_warning"@
    } else if i == 52 {
        "menu.on"@
    } else if i == 53 {
        "menu.off"@
    } else if i == 54 {
        "menu.ui_scale_value"@
    } else if i == 55 {
        "menu.chat_scale_value"@
    } else if i == 56 {
        "menu.chat_opacity_value"@
    } else if i == 57 {
        "menu.setting_value"@
    } else if i == 58 {
        "menu.control_value"@
    } else if i == 59 {
        "menu.control_forward"@
    } else if i == 60 {
        "menu.control_backward"@
    } else if i == 61 {
        "menu.control_left"@
    } else if i == 62 {
        "menu.control_right"@
    } else if i == 63 {
        "menu.control_jump"@
    } else if i == 64 {
        "menu.control_sprint"@
    } else if i == 65 {
        "menu.control_sneak"@
    } else if i == 66 {
        "menu.control_inventory"@
    } else if i == 67 {
        "hud.save_failed"@
    } else if i == 68 {
        "hud.retry"@
    } else if i == 69 {
        "hud.quit_without_saving"@
    } else if i == 70 {
        "hud.saving_world"@
    } else if i == 71 {
        "hud.connection_lost"@
    } else if i == 72 {
        "hud.return_to_menu"@
    } else if i == 73 {
        "hud.you_died"@
    } else if i == 74 {
        "hud.respawn"@
    } else if i == 75 {
        "hud.game_paused"@
    } else if i == 76 {
        "hud.resume"@
    } else if i == 77 {
        "hud.fov"@
    } else if i == 78 {
        "hud.sensitivity"@
    } else if i == 79 {
        "hud.render_distance"@
    } else if i == 80 {
        "hud.master_volume"@
    } else if i == 81 {
        "hud.weather_volume"@
    } else if i == 82 {
        "hud.save_and_quit"@
    } else if i == 83 {
        "inventory.creative"@
    } else if i == 84 {
        "inventory.hotbar"@
    } else if i == 85 {
        "inventory.inventory"@
    } else if i == 86 {
        "inventory.crafting"@
    } else if i == 87 {
        "inventory.furnace"@
    } else if i == 88 {
        "inventory.book"@
    } else if i == 89 {
        "inventory.recipes"@
    } else if i == 90 {
        "station.enchanting"@
    } else if i == 91 {
        "station.level_bookshelves"@
    } else if i == 92 {
        "station.cost_lapis"@
    } else if i == 93 {
        "station.no_enchantment"@
    } else if i == 94 {
        "station.brewing_stand"@
    } else if i == 95 {
        "station.brewing_progress"@
    } else if i == 96 {
        "station.add_bottles_ingredient"@
    } else if i == 97 {
        "station.anvil"@
    } else if i == 98 {
        "station.type_a_name"@
    } else if i == 99 {
        "station.cost_levels"@
    } else if i == 100 {
        "station.villager_trading"@
    } else if i == 101 {
        "station.trade"@
    } else if i == 102 {
        "command.host_only"@
    } else if i == 103 {
        "command.disabled"@
    } else if i == 104 {
        "command.accepted"@
    } else if i == 105 {
        "command.rejected"@
    } else if i == 106 {
        "command.queued"@
    } else if i == 107 {
        "command.game_rule_updated_authority"@
    } else if i == 108 {
        "command.time_now"@
    } else if i == 109 {
        "command.only_local_player"@
    } else if i == 110 {
        "command.hardcore_survival"@
    } else if i == 111 {
        "command.gamemode_set"@
    } else if i == 112 {
        "command.difficulty_set"@
    } else if i == 113 {
        "command.gamerule_updated"@
    } else if i == 114 {
        "command.gamerule_invalid"@
    } else if i == 115 {
        "command.time_set"@
    } else if i == 116 {
        "command.weather_set"@
    } else if i == 117 {
        "command.teleported"@
    } else if i == 118 {
        "command.teleport_outside"@
    } else if i == 119 {
        "command.gave"@
    } else if i == 120 {
        "command.killed"@
    } else if i == 121 {
        "command.spawn_point_set"@
    } else if i == 122 {
        "command.world_spawn_set"@
    } else if i == 123 {
        "command.world_spawn_outside"@
    } else if i == 124 {
        "command.nearest_structure"@
    } else if i == 125 {
        "command.no_structure"@
    } else if i == 126 {
        "command.unknown_structure"@
    } else if i == 127 {
        "command.seed"@
    } else if i == 128 {
        "command.saved"@
    } else {
        "command.save_failed"@
    }
}

/// Keys that every language must have, in order.
pub open spec fn visible_required_keys_spec() -> Seq<Seq<char>> {
    Seq::new(VISIBLE_REQUIRED_KEY_COUNT as nat, |i: int| visible_key_at(i))
}

/// Key `i` of the keys that every language must have.
pub fn visible_required_key(i: usize) -> (r: &'static str)
    requires
        i < VISIBLE_REQUIRED_KEY_COUNT,
    ensures
        r@ == visible_key_at(i as int),
{
    if i == 0 {
        "menu.singleplayer"
    } else if i == 1 {
        "menu.multiplayer"
    } else if i == 2 {
        "menu.options"
    } else if i == 3 {
        "menu.quit_game"
    } else if i == 4 {
        "menu.select_world"
    } else if i == 5 {
        "menu.controls"
    } else if i == 6 {
        "menu.accessibility"
    } else if i == 7 {
        "menu.resource_packs"
    } else if i == 8 {
        "menu.done"
    } else if i == 9 {
        "menu.back"
    } else if i == 10 {
        "menu.apply"
    } else if i == 11 {
        "menu.reload"
    } else if i == 12 {
        "menu.create_world"
    } else if i == 13 {
        "menu.cancel"
    } else if i == 14 {
        "menu.host_game"
    } else if i == 15 {
        "menu.join_game"
    } else if i == 16 {
        "menu.port"
    } else if i == 17 {
        "menu.server_address"
    } else if i == 18 {
        "menu.username"
    } else if i == 19 {
        "menu.ping_server"
    } else if i == 20 {
        "menu.connect"
    } else if i == 21 {
        "menu.no_worlds"
    } else if i == 22 {
        "menu.scroll_more_worlds"
    } else if i == 23 {
        "menu.play_selected"
    } else if i == 24 {
        "menu.create_new_world"
    } else if i == 25 {
        "menu.delete"
    } else if i == 26 {
        "menu.copy"
    } else if i == 27 {
        "menu.backup"
    } else if i == 28 {
        "menu.world_name"
    } else if i == 29 {
        "menu.random"
    } else if i == 30 {
        "menu.seed"
    } else if i == 31 {
        "menu.game_mode"
    } else if i == 32 {
        "menu.difficulty"
    } else if i == 33 {
        "menu.world_type"
    } else if i == 34 {
        "menu.structures"
    } else if i == 35 {
        "menu.hardcore"
    } else if i == 36 {
        "menu.bonus_chest"
    } else if i == 37 {
        "menu.cheats"
    } else if i == 38 {
        "menu.fov"
    } else if i == 39 {
        "menu.render_distance"
    } else if i == 40 {
        "menu.fullscreen"
    } else if i == 41 {
        "menu.vsync"
    } else if i == 42 {
        "menu.fps_cap"
    } else if i == 43 {
        "menu.master_volume"
    } else if i == 44 {
        "menu.music_volume"
    } else if i == 45 {
        "menu.sound_volume"
    } else if i == 46 {
        "menu.weather_volume"
    } else if i == 47 {
        "menu.no_user_packs"
    } else if i == 48 {
        "menu.mouse_sensitivity"
    } else if i == 49 {
        "menu.press_a_key"
    } else if i == 50 {
        "menu.delete_world"
    } else if i == 51 {
        "menu.delete_warning"
    } else if i == 52 {
        "menu.on"
    } else if i == 53 {
        "menu.off"
    } else if i == 54 {
        "menu.ui_scale_value"
    } else if i == 55 {
        "menu.chat_scale_value"
    } else if i == 56 {
        "menu.chat_opacity_value"
    } else if i == 57 {
        "menu.setting_value"
    } else if i == 58 {
        "menu.control_value"
    } else if i == 59 {
        "menu.control_forward"
    } else if i == 60 {
        "menu.control_backward"
    } else if i == 61 {
        "menu.control_left"
    } else if i == 62 {
        "menu.control_right"
    } else if i == 63 {
        "menu.control_jump"
    } else if i == 64 {
        "menu.control_sprint"
    } else if i == 65 {
        "menu.control_sneak"
    } else if i == 66 {
        "menu.control_inventory"
    } else if i == 67 {
        "hud.save_failed"
    } else if i == 68 {
        "hud.retry"
    } else if i == 69 {
        "hud.quit_without_saving"
    } else if i == 70 {
        "hud.saving_world"
    } else if i == 71 {
        "hud.connection_lost"
    } else if i == 72 {
        "hud.return_to_menu"
    } else if i == 73 {
        "hud.you_died"
    } else if i == 74 {
        "hud.respawn"
    } else if i == 75 {
        "hud.game_paused"
    } else if i == 76 {
        "hud.resume"
    } else if i == 77 {
        "hud.fov"
    } else if i == 78 {
        "hud.sensitivity"
    } else if i == 79 {
        "hud.render_distance"
    } else if i == 80 {
        "hud.master_volume"
    } else if i == 81 {
        "hud.weather_volume"
    } else if i == 82 {
        "hud.save_and_quit"
    } else if i == 83 {
        "inventory.creative"
    } else if i == 84 {
        "inventory.hotbar"
    } else if i == 85 {
        "inventory.inventory"
    } else if i == 86 {
        "inventory.crafting"
    } else if i == 87 {
        "inventory.furnace"
    } else if i == 88 {
        "inventory.book"
    } else if i == 89 {
        "inventory.recipes"
    } else if i == 90 {
        "station.enchanting"
    } else if i == 91 {
        "station.level_bookshelves"
    } else if i == 92 {
        "station.cost_lapis"
    } else if i == 93 {
        "station.no_enchantment"
    } else if i == 94 {
        "station.brewing_stand"
    } else if i == 95 {
        "station.brewing_progress"
    } else if i == 96 {
        "station.add_bottles_ingredient"
    } else if i == 97 {
        "station.anvil"
    } else if i == 98 {
        "station.type_a_name"
    } else if i == 99 {
        "station.cost_levels"
    } else if i == 100 {
        "station.villager_trading"
    } else if i == 101 {
        "station.trade"
    } else if i == 102 {
        "command.host_only"
    } else if i == 103 {
        "command.disabled"
    } else if i == 104 {
        "command.accepted"
    } else if i == 105 {
        "command.rejected"
    } else if i == 106 {
        "command.queued"
    } else if i == 107 {
        "command.game_rule_updated_authority"
    } else if i == 108 {
        "command.time_now"
    } else if i == 109 {
        "command.only_local_player"
    } else if i == 110 {
        "command.hardcore_survival"
    } else if i == 111 {
        "command.gamemode_set"
    } else if i == 112 {
        "command.difficulty_set"
    } else if i == 113 {
        "command.gamerule_updated"
    } else if i == 114 {
        "command.gamerule_invalid"
    } else if i == 115 {
        "command.time_set"
    } else if i == 116 {
        "command.weather_set"
    } else if i == 117 {
        "command.teleported"
    } else if i == 118 {
        "command.teleport_outside"
    } else if i == 119 {
        "command.gave"
    } else if i == 120 {
        "command.killed"
    } else if i == 121 {
        "command.spawn_point_set"
    } else if i == 122 {
        "command.world_spawn_set"
    } else if i == 123 {
        "command.world_spawn_outside"
    } else if i == 124 {
        "command.nearest_structure"
    } else if i == 125 {
        "command.no_structure"
    } else if i == 126 {
        "command.unknown_structure"
    } else if i == 127 {
        "command.seed"
    } else if i == 128 {
        "command.saved"
    } else {
        "command.save_failed"
    }
}

/// Keys that every language must have: the text the interface shows.
pub fn visible_required_keys() -> (r: Vec<&'static str>)
    ensures
        str_views(r@) == visible_required_keys_spec(),
{
    let mut r: Vec<&'static str> = Vec::new();
    let mut i: usize = 0;
    while i < VISIBLE_REQUIRED_KEY_COUNT
        invariant
            i <= VISIBLE_REQUIRED_KEY_COUNT,
            r@.len() == i,
            forall|j: int| 0 <= j < i ==> (#[trigger] r@[j])@ == visible_key_at(j),
        decreases VISIBLE_REQUIRED_KEY_COUNT - i,
    {
        r.push(visible_required_key(i));
        i += 1;
    }
    assert(str_views(r@) =~= visible_required_keys_spec());
    r
}

/// English text built into the game, as JSON.
pub const BUILTIN_EN_US: &'static str = r#"{"menu.singleplayer":"SINGLEPLAYER","menu.multiplayer":"MULTIPLAYER","menu.options":"OPTIONS","menu.quit_game":"QUIT GAME","menu.select_world":"SELECT WORLD","menu.controls":"CONTROLS","menu.accessibility":"ACCESSIBILITY","menu.resource_packs":"RESOURCE PACKS","menu.done":"DONE","menu.back":"BACK","menu.apply":"APPLY","menu.reload":"RELOAD","menu.create_world":"CREATE WORLD","menu.cancel":"CANCEL","menu.host_game":"HOST GAME","menu.join_game":"JOIN GAME","menu.port":"PORT","menu.server_address":"SERVER ADDRESS","menu.username":"USERNAME","menu.ping_server":"PING SERVER","menu.connect":"CONNECT","menu.no_worlds":"NO WORLDS","menu.scroll_more_worlds":"SCROLL FOR MORE WORLDS","menu.play_selected":"PLAY SELECTED","menu.create_new_world":"CREATE NEW WORLD","menu.delete":"DELETE","menu.copy":"COPY","menu.backup":"BACKUP","menu.world_name":"WORLD NAME","menu.random":"RANDOM","menu.seed":"SEED","menu.game_mode":"GAME MODE: < {value} >","menu.difficulty":"DIFFICULTY: < {value} >","menu.world_type":"WORLD TYPE: < {value} >","menu.structures":"STRUCTURES: {value}","menu.hardcore":"HARDCORE: {value}","menu.bonus_chest":"BONUS CHEST: {value}","menu.cheats":"CHEATS: {value}","menu.fov":"FOV: {value}","menu.render_distance":"RENDER DISTANCE: {value}","menu.fullscreen":"FULLSCREEN: {value}","menu.vsync":"VSYNC: {value}","menu.fps_cap":"FPS CAP: {value}","menu.master_volume":"MASTER VOLUME: {value}%","menu.music_volume":"MUSIC VOLUME: {value}%","menu.sound_volume":"SOUND VOLUME: {value}%","menu.weather_volume":"WEATHER VOLUME: {value}%","menu.no_user_packs":"NO USER PACKS","menu.mouse_sensitivity":"MOUSE SENSITIVITY: {value}","menu.press_a_key":"PRESS A KEY","menu.delete_world":"DELETE WORLD","menu.delete_warning":"THIS CANNOT BE UNDONE","menu.on":"ON","menu.off":"OFF","menu.ui_scale_value":"UI SCALE: {value}","menu.chat_scale_value":"CHAT SCALE: {value}","menu.chat_opacity_value":"CHAT OPACITY: {value}","menu.setting_value":"{name}: {value}","menu.control_value":"{name}: {key}","menu.control_forward":"FORWARD","menu.control_backward":"BACKWARD","menu.control_left":"LEFT","menu.control_right":"RIGHT","menu.control_jump":"JUMP","menu.control_sprint":"SPRINT","menu.control_sneak":"SNEAK","menu.control_inventory":"INVENTORY","hud.save_failed":"SAVE FAILED","hud.retry":"RETRY","hud.quit_without_saving":"QUIT WITHOUT SAVING","hud.saving_world":"SAVING WORLD","hud.connection_lost":"CONNECTION LOST","hud.return_to_menu":"RETURN TO MENU","hud.you_died":"YOU DIED","hud.respawn":"RESPAWN","hud.game_paused":"GAME PAUSED","hud.resume":"RESUME","hud.fov":"FOV < {value} >","hud.sensitivity":"SENSITIVITY < {value} >","hud.render_distance":"RENDER DISTANCE < {value} >","hud.master_volume":"MASTER VOLUME < {value}% >","hud.weather_volume":"WEATHER VOLUME < {value}% >","hud.save_and_quit":"SAVE AND QUIT","inventory.creative":"CREATIVE","inventory.hotbar":"HOTBAR","inventory.inventory":"INVENTORY","inventory.crafting":"CRAFTING","inventory.furnace":"FURNACE","inventory.book":"BOOK","inventory.recipes":"RECIPES","station.enchanting":"ENCHANTING","station.level_bookshelves":"LEVEL {level}  BOOKSHELVES {bookshelves}","station.cost_lapis":"{enchantment}  COST {cost} + {lapis} LAPIS","station.no_enchantment":"NO ENCHANTMENT","station.brewing_stand":"BREWING STAND","station.brewing_progress":"BREWING {value} PERCENT","station.add_bottles_ingredient":"ADD BOTTLES AND AN INGREDIENT","station.anvil":"ANVIL","station.type_a_name":"TYPE A NAME","station.cost_levels":"COST {cost} LEVELS","station.villager_trading":"VILLAGER TRADING","station.trade":"TRADE","command.host_only":"Only the host can use this command","command.disabled":"Commands are disabled","command.accepted":"Command accepted","command.rejected":"Command rejected","command.queued":"Command queued","command.game_rule_updated_authority":"Game rule {rule} set to {value}","command.time_now":"Time is {time}","command.only_local_player":"Only the local player can be targeted","command.hardcore_survival":"Hardcore worlds stay in survival","command.gamemode_set":"Game mode set to {mode}","command.difficulty_set":"Difficulty set to {difficulty}","command.gamerule_updated":"Game rule {rule} updated to {value}","command.gamerule_invalid":"Invalid game rule {rule}","command.time_set":"Time set to {time}","command.weather_set":"Weather set to {weather}","command.teleported":"Teleported to {x}, {y}, {z}","command.teleport_outside":"Cannot teleport outside the world","command.gave":"Gave {count} {item}","command.killed":"Killed {target}","command.spawn_point_set":"Spawn point set","command.world_spawn_set":"World spawn set","command.world_spawn_outside":"World spawn must be inside the world","command.nearest_structure":"Nearest {structure} is at {x}, {z}","command.no_structure":"No {structure} nearby","command.unknown_structure":"Unknown structure {structure}","command.seed":"Seed: {seed}","command.saved":"World saved","command.save_failed":"Saving failed"}"#;

/// German text built into the game, as JSON.
pub const BUILTIN_DE_DE: &'static str = r#"{"menu.singleplayer":"EINZELSPIELER","menu.multiplayer":"MEHRSPIELER","menu.options":"OPTIONEN","menu.quit_game":"SPIEL BEENDEN","menu.select_world":"WELT AUSWAEHLEN","menu.controls":"STEUERUNG","menu.accessibility":"BARRIEREFREIHEIT","menu.resource_packs":"RESSOURCENPAKETE","menu.done":"FERTIG","menu.back":"ZURUECK","menu.apply":"ANWENDEN","menu.reload":"NEU LADEN","menu.create_world":"WELT ERSTELLEN","menu.cancel":"ABBRECHEN","menu.host_game":"SPIEL HOSTEN","menu.join_game":"SPIEL BEITRETEN","menu.port":"PORT","menu.server_address":"SERVERADRESSE","menu.username":"BENUTZERNAME","menu.ping_server":"SERVER ANPINGEN","menu.connect":"VERBINDEN","menu.no_worlds":"KEINE WELTEN","menu.scroll_more_worlds":"SCROLLEN FUER WEITERE WELTEN","menu.play_selected":"AUSWAHL SPIELEN","menu.create_new_world":"NEUE WELT ERSTELLEN","menu.delete":"LOESCHEN","menu.copy":"KOPIEREN","menu.backup":"SICHERUNG","menu.world_name":"WELTNAME","menu.random":"ZUFALL","menu.seed":"STARTWERT","menu.game_mode":"SPIELMODUS: < {value} >","menu.difficulty":"SCHWIERIGKEIT: < {value} >","menu.world_type":"WELTTYP: < {value} >","menu.structures":"BAUWERKE: {value}","menu.hardcore":"HARDCORE: {value}","menu.bonus_chest":"BONUSTRUHE: {value}","menu.cheats":"CHEATS: {value}","menu.fov":"SICHTFELD: {value}","menu.render_distance":"SICHTWEITE: {value}","menu.fullscreen":"VOLLBILD: {value}","menu.vsync":"VSYNC: {value}","menu.fps_cap":"FPS-GRENZE: {value}","menu.master_volume":"GESAMTLAUTSTAERKE: {value}%","menu.music_volume":"MUSIK: {value}%","menu.sound_volume":"GERAEUSCHE: {value}%","menu.weather_volume":"WETTER: {value}%","menu.no_user_packs":"KEINE EIGENEN PAKETE","menu.mouse_sensitivity":"MAUSEMPFINDLICHKEIT: {value}","menu.press_a_key":"TASTE DRUECKEN","menu.delete_world":"WELT LOESCHEN","menu.delete_warning":"DAS KANN NICHT RUECKGAENGIG GEMACHT WERDEN","menu.on":"AN","menu.off":"AUS","menu.ui_scale_value":"UI-GROESSE: {value}","menu.chat_scale_value":"CHATGROESSE: {value}","menu.chat_opacity_value":"CHAT-DECKKRAFT: {value}","menu.setting_value":"{name}: {value}","menu.control_value":"{name}: {key}","menu.control_forward":"VORWAERTS","menu.control_backward":"RUECKWAERTS","menu.control_left":"LINKS","menu.control_right":"RECHTS","menu.control_jump":"SPRINGEN","menu.control_sprint":"SPRINTEN","menu.control_sneak":"SCHLEICHEN","menu.control_inventory":"INVENTAR","hud.save_failed":"SPEICHERN FEHLGESCHLAGEN","hud.retry":"ERNEUT VERSUCHEN","hud.quit_without_saving":"OHNE SPEICHERN BEENDEN","hud.saving_world":"WELT WIRD GESPEICHERT","hud.connection_lost":"VERBINDUNG VERLOREN","hud.return_to_menu":"ZURUECK ZUM MENUE","hud.you_died":"DU BIST GESTORBEN","hud.respawn":"WIEDERBELEBEN","hud.game_paused":"SPIEL PAUSIERT","hud.resume":"FORTSETZEN","hud.fov":"SICHTFELD < {value} >","hud.sensitivity":"EMPFINDLICHKEIT < {value} >","hud.render_distance":"SICHTWEITE < {value} >","hud.master_volume":"GESAMTLAUTSTAERKE < {value}% >","hud.weather_volume":"WETTER < {value}% >","hud.save_and_quit":"SPEICHERN UND BEENDEN","inventory.creative":"KREATIV","inventory.hotbar":"SCHNELLZUGRIFF","inventory.inventory":"INVENTAR","inventory.crafting":"HANDWERK","inventory.furnace":"OFEN","inventory.book":"BUCH","inventory.recipes":"REZEPTE","station.enchanting":"VERZAUBERN","station.level_bookshelves":"STUFE {level}  BUECHERREGALE {bookshelves}","station.cost_lapis":"{enchantment}  KOSTEN {cost} + {lapis} LAPIS","station.no_enchantment":"KEINE VERZAUBERUNG","station.brewing_stand":"BRAUSTAND","station.brewing_progress":"BRAUEN {value} PROZENT","station.add_bottles_ingredient":"FLASCHEN UND ZUTAT HINZUFUEGEN","station.anvil":"AMBOSS","station.type_a_name":"NAMEN EINGEBEN","station.cost_levels":"KOSTEN {cost} STUFEN","station.villager_trading":"DORFBEWOHNERHANDEL","station.trade":"HANDELN","command.host_only":"Nur der Host kann diesen Befehl verwenden","command.disabled":"Befehle sind deaktiviert","command.accepted":"Befehl angenommen","command.rejected":"Befehl abgelehnt","command.queued":"Befehl eingereiht","command.game_rule_updated_authority":"Spielregel {rule} auf {value} gesetzt","command.time_now":"Es ist {time}","command.only_local_player":"Nur der lokale Spieler kann gewaehlt werden","command.hardcore_survival":"Hardcore-Welten bleiben im Ueberlebensmodus","command.gamemode_set":"Spielmodus auf {mode} gesetzt","command.difficulty_set":"Schwierigkeit auf {difficulty} gesetzt","command.gamerule_updated":"Spielregel {rule} auf {value} geaendert","command.gamerule_invalid":"Ungueltige Spielregel {rule}","command.time_set":"Zeit auf {time} gesetzt","command.weather_set":"Wetter auf {weather} gesetzt","command.teleported":"Teleportiert nach {x}, {y}, {z}","command.teleport_outside":"Teleport ausserhalb der Welt nicht moeglich","command.gave":"{count} {item} gegeben","command.killed":"{target} getoetet","command.spawn_point_set":"Einstiegspunkt gesetzt","command.world_spawn_set":"Weltspawn gesetzt","command.world_spawn_outside":"Der Weltspawn muss in der Welt liegen","command.nearest_structure":"Naechste {structure} bei {x}, {z}","command.no_structure":"Keine {structure} in der Naehe","command.unknown_structure":"Unbekanntes Bauwerk {structure}","command.seed":"Startwert: {seed}","command.saved":"Welt gespeichert","command.save_failed":"Speichern fehlgeschlagen"}"#;

} // verus!
