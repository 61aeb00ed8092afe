//! Language detection for text to be spoken, reduced to the language
//! families (ISO 639-1 codes) that installed voices can speak.
//! Returns nothing for empty input or when no installed language is known.
use vstd::prelude::*;
use crate::text::{owned, str_eq};

verus! {

/// The languages the detector is asked about.
#[derive(Debug, Clone, Copy, PartialEq, Eq, Structural)]
pub enum Lang {
    Eng,
    Fra,
    Deu,
    Spa,
    Ita,
    Por,
    Nld,
    Rus,
    Pol,
    Swe,
    Dan,
    Fin,
    Nob,
    Ces,
    Hun,
    Tur,
    Ell,
    Ron,
    Ukr,
    Hin,
}

/// The ISO 639-1 family code of a language.
pub open spec fn family_of(l: Lang) -> Seq<char> {
    match l {
        Lang::Eng => "en"@,
        Lang::Fra => "fr"@,
        Lang::Deu => "de"@,
        Lang::Spa => "es"@,
        Lang::Ita => "it"@,
        Lang::Por => "pt"@,
        Lang::Nld => "nl"@,
        Lang::Rus => "ru"@,
        Lang::Pol => "pl"@,
        Lang::Swe => "sv"@,
        Lang::Dan => "da"@,
        Lang::Fin => "fi"@,
        Lang::Nob => "no"@,
        Lang::Ces => "cs"@,
        Lang::Hun => "hu"@,
        Lang::Tur => "tr"@,
        Lang::Ell => "el"@,
        Lang::Ron => "ro"@,
        Lang::Ukr => "uk"@,
        Lang::Hin => "hi"@,
    }
}

/// The ISO 639-3 code the detector names a language by.
pub open spec fn iso_code(l: Lang) -> Seq<char> {
    match l {
        Lang::Eng => "eng"@,
        Lang::Fra => "fra"@,
        Lang::Deu => "deu"@,
        Lang::Spa => "spa"@,
        Lang::Ita => "ita"@,
        Lang::Por => "por"@,
        Lang::Nld => "nld"@,
        Lang::Rus => "rus"@,
        Lang::Pol => "pol"@,
        Lang::Swe => "swe"@,
        Lang::Dan => "dan"@,
        Lang::Fin => "fin"@,
        Lang::Nob => "nob"@,
        Lang::Ces => "ces"@,
        Lang::Hun => "hun"@,
        Lang::Tur => "tur"@,
        Lang::Ell => "ell"@,
        Lang::Ron => "ron"@,
        Lang::Ukr => "ukr"@,
        Lang::Hin => "hin"@,
    }
}

/// The language of a family code, if it is one of the supported families.
pub open spec fn lang_of_family(s: Seq<char>) -> Option<Lang> {
    if s == "en"@ {
        Some(Lang::Eng)
    } else if s == "fr"@ {
        Some(Lang::Fra)
    } else if s == "de"@ {
        Some(Lang::Deu)
    } else if s == "es"@ {
        Some(Lang::Spa)
    } else if s == "it"@ {
        Some(Lang::Ita)
    } else if s == "pt"@ {
        Some(Lang::Por)
    } else if s == "nl"@ {
        Some(Lang::Nld)
    } else if s == "ru"@ {
        Some(Lang::Rus)
    } else if s == "pl"@ {
        Some(Lang::Pol)
    } else if s == "sv"@ {
        Some(Lang::Swe)
    } else if s == "da"@ {
        Some(Lang::Dan)
    } else if s == "fi"@ {
        Some(Lang::Fin)
    } else if s == "no"@ {
        Some(Lang::Nob)
    } else if s == "cs"@ {
        Some(Lang::Ces)
    } else if s == "hu"@ {
        Some(Lang::Hun)
    } else if s == "tr"@ {
        Some(Lang::Tur)
    } else if s == "el"@ {
        Some(Lang::Ell)
    } else if s == "ro"@ {
        Some(Lang::Ron)
    } else if s == "uk"@ {
        Some(Lang::Ukr)
    } else if s == "hi"@ {
        Some(Lang::Hin)
    } else {
        None
    }
}

/// The language of an ISO 639-3 code, if it is one of the supported ones.
pub open spec fn lang_of_iso(s: Seq<char>) -> Option<Lang> {
    if s == "eng"@ {
        Some(Lang::Eng)
    } else if s == "fra"@ {
        Some(Lang::Fra)
    } else if s == "deu"@ {
        Some(Lang::Deu)
    } else if s == "spa"@ {
        Some(Lang::Spa)
    } else if s == "ita"@ {
        Some(Lang::Ita)
    } else if s == "por"@ {
        Some(Lang::Por)
    } else if s == "nld"@ {
        Some(Lang::Nld)
    } else if s == "rus"@ {
        Some(Lang::Rus)
    } else if s == "pol"@ {
        Some(Lang::Pol)
    } else if s == "swe"@ {
        Some(Lang::Swe)
    } else if s == "dan"@ {
        Some(Lang::Dan)
    } else if s == "fin"@ {
        Some(Lang::Fin)
    } else if s == "nob"@ {
        Some(Lang::Nob)
    } else if s == "ces"@ {
        Some(Lang::Ces)
    } else if s == "hun"@ {
        Some(Lang::Hun)
    } else if s == "tur"@ {
        Some(Lang::Tur)
    } else if s == "ell"@ {
        Some(Lang::Ell)
    } else if s == "ron"@ {
        Some(Lang::Ron)
    } else if s == "ukr"@ {
        Some(Lang::Ukr)
    } else if s == "hin"@ {
        Some(Lang::Hin)
    } else {
        None
    }
}

/// The family code of a language.
pub fn lang_to_family(lang: Lang) -> (r: Option<&'static str>)
    ensures
        r is Some && r->Some_0@ == family_of(lang),
{
    match lang {
        Lang::Eng => Some("en"),
        Lang::Fra => Some("fr"),
        Lang::Deu => Some("de"),
        Lang::Spa => Some("es"),
        Lang::Ita => Some("it"),
        Lang::Por => Some("pt"),
        Lang::Nld => Some("nl"),
        Lang::Rus => Some("ru"),
        Lang::Pol => Some("pl"),
        Lang::Swe => Some("sv"),
        Lang::Dan => Some("da"),
        Lang::Fin => Some("fi"),
        Lang::Nob => Some("no"),
        Lang::Ces => Some("cs"),
        Lang::Hun => Some("hu"),
        Lang::Tur => Some("tr"),
        Lang::Ell => Some("el"),
        Lang::Ron => Some("ro"),
        Lang::Ukr => Some("uk"),
        Lang::Hin => Some("hi"),
    }
}

/// The language of a family code; unknown codes give nothing.
pub fn family_to_lang(code: &str) -> (r: Option<Lang>)
    ensures
        r == lang_of_family(code@),
{
    if str_eq(code, "en") {
        Some(Lang::Eng)
    } else if str_eq(code, "fr") {
        Some(Lang::Fra)
    } else if str_eq(code, "de") {
        Some(Lang::Deu)
    } else if str_eq(code, "es") {
        Some(Lang::Spa)
    } else if str_eq(code, "it") {
        Some(Lang::Ita)
    } else if str_eq(code, "pt") {
        Some(Lang::Por)
    } else if str_eq(code, "nl") {
        Some(Lang::Nld)
    } else if str_eq(code, "ru") {
        Some(Lang::Rus)
    } else if str_eq(code, "pl") {
        Some(Lang::Pol)
    } else if str_eq(code, "sv") {
        Some(Lang::Swe)
    } else if str_eq(code, "da") {
        Some(Lang::Dan)
    } else if str_eq(code, "fi") {
        Some(Lang::Fin)
    } else if str_eq(code, "no") {
        Some(Lang::Nob)
    } else if str_eq(code, "cs") {
        Some(Lang::Ces)
    } else if str_eq(code, "hu") {
        Some(Lang::Hun)
    } else if str_eq(code, "tr") {
        Some(Lang::Tur)
    } else if str_eq(code, "el") {
        Some(Lang::Ell)
    } else if str_eq(code, "ro") {
        Some(Lang::Ron)
    } else if str_eq(code, "uk") {
        Some(Lang::Ukr)
    } else if str_eq(code, "hi") {
        Some(Lang::Hin)
    } else {
        None
    }
}

/// The ISO 639-3 code of a language.
pub fn lang_iso_code(lang: Lang) -> (r: &'static str)
    ensures
        r@ == iso_code(lang),
{
    match lang {
        Lang::Eng => "eng",
        Lang::Fra => "fra",
        Lang::Deu => "deu",
        Lang::Spa => "spa",
        Lang::Ita => "ita",
        Lang::Por => "por",
        Lang::Nld => "nld",
        Lang::Rus => "rus",
        Lang::Pol => "pol",
        Lang::Swe => "swe",
        Lang::Dan => "dan",
        Lang::Fin => "fin",
        Lang::Nob => "nob",
        Lang::Ces => "ces",
        Lang::Hun => "hun",
        Lang::Tur => "tur",
        Lang::Ell => "ell",
        Lang::Ron => "ron",
        Lang::Ukr => "ukr",
        Lang::Hin => "hin",
    }
}

/// The language of an ISO 639-3 code; others give nothing.
pub fn lang_from_iso(code: &str) -> (r: Option<Lang>)
    ensures
        r == lang_of_iso(code@),
{
    if str_eq(code, "eng") {
        Some(Lang::Eng)
    } else if str_eq(code, "fra") {
        Some(Lang::Fra)
    } else if str_eq(code, "deu") {
        Some(Lang::Deu)
    } else if str_eq(code, "spa") {
        Some(Lang::Spa)
    } else if str_eq(code, "ita") {
        Some(Lang::Ita)
    } else if str_eq(code, "por") {
        Some(Lang::Por)
    } else if str_eq(code, "nld") {
        Some(Lang::Nld)
    } else if str_eq(code, "rus") {
        Some(Lang::Rus)
    } else if str_eq(code, "pol") {
        Some(Lang::Pol)
    } else if str_eq(code, "swe") {
        Some(Lang::Swe)
    } else if str_eq(code, "dan") {
        Some(Lang::Dan)
    } else if str_eq(code, "fin") {
        Some(Lang::Fin)
    } else if str_eq(code, "nob") {
        Some(Lang::Nob)
    } else if str_eq(code, "ces") {
        Some(Lang::Ces)
    } else if str_eq(code, "hun") {
        Some(Lang::Hun)
    } else if str_eq(code, "tur") {
        Some(Lang::Tur)
    } else if str_eq(code, "ell") {
        Some(Lang::Ell)
    } else if str_eq(code, "ron") {
        Some(Lang::Ron)
    } else if str_eq(code, "ukr") {
        Some(Lang::Ukr)
    } else if str_eq(code, "hin") {
        Some(Lang::Hin)
    } else {
        None
    }
}

/// Each language's family code is its ISO 639-1 code and its detector code
/// its ISO 639-3 code: English "en"/"eng", French "fr"/"fra", German
/// "de"/"deu", Spanish "es"/"spa", Italian "it"/"ita", Portuguese "pt"/"por",
/// Dutch "nl"/"nld", Russian "ru"/"rus", Polish "pl"/"pol", Swedish
/// "sv"/"swe", Danish "da"/"dan", Finnish "fi"/"fin", Norwegian "no"/"nob",
/// Czech "cs"/"ces", Hungarian "hu"/"hun", Turkish "tr"/"tur", Greek
/// "el"/"ell", Romanian "ro"/"ron", Ukrainian "uk"/"ukr", Hindi "hi"/"hin".
pub proof fn law_language_code_table()
    ensures
        family_of(Lang::Eng) == "en"@ && iso_code(Lang::Eng) == "eng"@,
        family_of(Lang::Fra) == "fr"@ && iso_code(Lang::Fra) == "fra"@,
        family_of(Lang::Deu) == "de"@ && iso_code(Lang::Deu) == "deu"@,
        family_of(Lang::Spa) == "es"@ && iso_code(Lang::Spa) == "spa"@,
        family_of(Lang::Ita) == "it"@ && iso_code(Lang::Ita) == "ita"@,
        family_of(Lang::Por) == "pt"@ && iso_code(Lang::Por) == "por"@,
        family_of(Lang::Nld) == "nl"@ && iso_code(Lang::Nld) == "nld"@,
        family_of(Lang::Rus) == "ru"@ && iso_code(Lang::Rus) == "rus"@,
        family_of(Lang::Pol) == "pl"@ && iso_code(Lang::Pol) == "pol"@,
        family_of(Lang::Swe) == "sv"@ && iso_code(Lang::Swe) == "swe"@,
        family_of(Lang::Dan) == "da"@ && iso_code(Lang::Dan) == "dan"@,
        family_of(Lang::Fin) == "fi"@ && iso_code(Lang::Fin) == "fin"@,
        family_of(Lang::Nob) == "no"@ && iso_code(Lang::Nob) == "nob"@,
        family_of(Lang::Ces) == "cs"@ && iso_code(Lang::Ces) == "ces"@,
        family_of(Lang::Hun) == "hu"@ && iso_code(Lang::Hun) == "hun"@,
        family_of(Lang::Tur) == "tr"@ && iso_code(Lang::Tur) == "tur"@,
        family_of(Lang::Ell) == "el"@ && iso_code(Lang::Ell) == "ell"@,
        family_of(Lang::Ron) == "ro"@ && iso_code(Lang::Ron) == "ron"@,
        family_of(Lang::Ukr) == "uk"@ && iso_code(Lang::Ukr) == "ukr"@,
        family_of(Lang::Hin) == "hi"@ && iso_code(Lang::Hin) == "hin"@,
{
}

/// A language's family code and its ISO 639-3 code each name it back:
/// `family_to_lang` undoes `lang_to_family`, and `lang_from_iso` undoes
/// `lang_iso_code`.
pub proof fn law_language_codes_roundtrip(l: Lang)
    ensures
        lang_of_family(family_of(l)) == Some(l),
        lang_of_iso(iso_code(l)) == Some(l),
{
    reveal_strlit("en");
    assert("en"@[0] == 'e' && "en"@[1] == 'n');
    reveal_strlit("fr");
    assert("fr"@[0] == 'f' && "fr"@[1] == 'r');
    reveal_strlit("de");
    assert("de"@[0] == 'd' && "de"@[1] == 'e');
    reveal_strlit("es");
    assert("es"@[0] == 'e' && "es"@[1] == 's');
    reveal_strlit("it");
    assert("it"@[0] == 'i' && "it"@[1] == 't');
    reveal_strlit("pt");
    assert("pt"@[0] == 'p' && "pt"@[1] == 't');
    reveal_strlit("nl");
    assert("nl"@[0] == 'n' && "nl"@[1] == 'l');
    reveal_strlit("ru");
    assert("ru"@[0] == 'r' && "ru"@[1] == 'u');
    reveal_strlit("pl");
    assert("pl"@[0] == 'p' && "pl"@[1] == 'l');
    reveal_strlit("sv");
    assert("sv"@[0] == 's' && "sv"@[1] == 'v');
    reveal_strlit("da");
    assert("da"@[0] == 'd' && "da"@[1] == 'a');
    reveal_strlit("fi");
    assert("fi"@[0] == 'f' && "fi"@[1] == 'i');
    reveal_strlit("no");
    assert("no"@[0] == 'n' && "no"@[1] == 'o');
    reveal_strlit("cs");
    assert("cs"@[0] == 'c' && "cs"@[1] == 's');
    reveal_strlit("hu");
    assert("hu"@[0] == 'h' && "hu"@[1] == 'u');
    reveal_strlit("tr");
    assert("tr"@[0] == 't' && "tr"@[1] == 'r');
    reveal_strlit("el");
    assert("el"@[0] == 'e' && "el"@[1] == 'l');
    reveal_strlit("ro");
    assert("ro"@[0] == 'r' && "ro"@[1] == 'o');
    reveal_strlit("uk");
    assert("uk"@[0] == 'u' && "uk"@[1] == 'k');
    reveal_strlit("hi");
    assert("hi"@[0] == 'h' && "hi"@[1] == 'i');
    reveal_strlit("eng");
    assert("eng"@[0] == 'e' && "eng"@[1] == 'n' && "eng"@[2] == 'g');
    reveal_strlit("fra");
    assert("fra"@[0] == 'f' && "fra"@[1] == 'r' && "fra"@[2] == 'a');
    reveal_strlit("deu");
    assert("deu"@[0] == 'd' && "deu"@[1] == 'e' && "deu"@[2] == 'u');
    reveal_strlit("spa");
    assert("spa"@[0] == 's' && "spa"@[1] == 'p' && "spa"@[2] == 'a');
    reveal_strlit("ita");
    assert("ita"@[0] == 'i' && "ita"@[1] == 't' && "ita"@[2] == 'a');
    reveal_strlit("por");
    assert("por"@[0] == 'p' && "por"@[1] == 'o' && "por"@[2] == 'r');
    reveal_strlit("nld");
    assert("nld"@[0] == 'n' && "nld"@[1] == 'l' && "nld"@[2] == 'd');
    reveal_strlit("rus");
    assert("rus"@[0] == 'r' && "rus"@[1] == 'u' && "rus"@[2] == 's');
    reveal_strlit("pol");
    assert("pol"@[0] == 'p' && "pol"@[1] == 'o' && "pol"@[2] == 'l');
    reveal_strlit("swe");
    assert("swe"@[0] == 's' && "swe"@[1] == 'w' && "swe"@[2] == 'e');
    reveal_strlit("dan");
    assert("dan"@[0] == 'd' && "dan"@[1] == 'a' && "dan"@[2] == 'n');
    reveal_strlit("fin");
    assert("fin"@[0] == 'f' && "fin"@[1] == 'i' && "fin"@[2] == 'n');
    reveal_strlit("nob");
    assert("nob"@[0] == 'n' && "nob"@[1] == 'o' && "nob"@[2] == 'b');
    reveal_strlit("ces");
    assert("ces"@[0] == 'c' && "ces"@[1] == 'e' && "ces"@[2] == 's');
    reveal_strlit("hun");
    assert("hun"@[0] == 'h' && "hun"@[1] == 'u' && "hun"@[2] == 'n');
    reveal_strlit("tur");
    assert("tur"@[0] == 't' && "tur"@[1] == 'u' && "tur"@[2] == 'r');
    reveal_strlit("ell");
    assert("ell"@[0] == 'e' && "ell"@[1] == 'l' && "ell"@[2] == 'l');
    reveal_strlit("ron");
    assert("ron"@[0] == 'r' && "ron"@[1] == 'o' && "ron"@[2] == 'n');
    reveal_strlit("ukr");
    assert("ukr"@[0] == 'u' && "ukr"@[1] == 'k' && "ukr"@[2] == 'r');
    reveal_strlit("hin");
    assert("hin"@[0] == 'h' && "hin"@[1] == 'i' && "hin"@[2] == 'n');
}

/// The views of a list of string slices.
pub open spec fn str_views(v: Seq<&str>) -> Seq<Seq<char>> {
    v.map_values(|s: &str| s@)
}

/// The ISO 639-3 codes of a list of languages.
pub open spec fn iso_codes(v: Seq<Lang>) -> Seq<Seq<char>> {
    v.map_values(|l: Lang| iso_code(l))
}

/// The languages of the installed families, in order, unknown families
/// left out.
pub open spec fn known_langs(installed: Seq<Seq<char>>) -> Seq<Lang>
    decreases installed.len(),
{
    if installed.len() == 0 {
        Seq::<Lang>::empty()
    } else {
        let prev = known_langs(installed.drop_last());
        match lang_of_family(installed.last()) {
            Some(l) => prev.push(l),
            None => prev,
        }
    }
}

/// The ISO 639-3 code (in lower case) that the detector picks for `text`
/// among the languages with the codes in `allowlist` (`whatlang`'s
/// `Detector::with_allowlist(..).detect_lang(text)`); nothing when some code
/// names no language the detector knows.
pub uninterp spec fn detected_language(text: Seq<char>, allowlist: Seq<Seq<char>>) -> Option<Seq<char>>;

/// Runs `whatlang`'s detector restricted to the languages with the given
/// ISO 639-3 codes, and gives the code of the detected language.  The
/// detection is a fixed function of the text and the allowlist; nothing more
/// is claimed of it.
#[verifier::external_body]
fn detect_with_allowlist(text: &str, allowlist: &Vec<&str>) -> (r: Option<String>)
    ensures
        match r {
            Some(c) => detected_language(text@, str_views(allowlist@)) == Some(c@),
            None => detected_language(text@, str_views(allowlist@)) is None,
        },
{
    let mut langs = Vec::new();
    for code in allowlist.iter() {
        match whatlang::Lang::from_code(*code) {
            Some(l) => langs.push(l),
            None => return None,
        }
    }
    match whatlang::Detector::with_allowlist(langs).detect_lang(text) {
        Some(l) => Some(l.code().to_string()),
        None => None,
    }
}

/// The family detected, given what the detector answered.
pub open spec fn family_of_detection(detected: Option<Seq<char>>) -> Option<Seq<char>> {
    match detected {
        Some(c) => match lang_of_iso(c) {
            Some(l) => Some(family_of(l)),
            None => None,
        },
        None => None,
    }
}

/// The family code of what the detector answered: languages outside the
/// supported families give nothing.
pub fn family_of_detected(detected: Option<&str>) -> (r: Option<&'static str>)
    ensures
        match r {
            Some(f) => family_of_detection(
                match detected {
                    Some(c) => Some(c@),
                    None => None,
                },
            ) == Some(f@),
            None => family_of_detection(
                match detected {
                    Some(c) => Some(c@),
                    None => None,
                },
            ) is None,
        },
{
    match detected {
        None => None,
        Some(code) => match lang_from_iso(code) {
            Some(l) => lang_to_family(l),
            None => None,
        },
    }
}

/// The family a text is written in, among the installed families: the
/// detector is asked about the installed languages only, and an answer
/// outside them (the detector decides some scripts on its own) gives
/// nothing.
pub open spec fn detection_family(text: Seq<char>, installed: Seq<Seq<char>>) -> Option<Seq<char>> {
    let langs = known_langs(installed);
    if langs.len() == 0 {
        None
    } else {
        match family_of_detection(detected_language(text, iso_codes(langs))) {
            Some(f) => if installed.contains(f) {
                Some(f)
            } else {
                None
            },
            None => None,
        }
    }
}

/// Whether one of the strings equals `s`.
fn contains_str(v: &Vec<String>, s: &str) -> (r: bool)
    ensures
        r == v@.map_values(|x: String| x@).contains(s@),
{
    let ghost w = v@.map_values(|x: String| x@);
    let mut i: usize = 0;
    while i < v.len()
        invariant
            i <= v@.len(),
            w == v@.map_values(|x: String| x@),
            forall|k: int| 0 <= k < i ==> w[k] != s@,
        decreases v.len() - i,
    {
        if str_eq(v[i].as_str(), s) {
            assert(w[i as int] == s@);
            return true;
        }
        i = i + 1;
    }
    proof {
        if w.contains(s@) {
            let k = choose|k: int| 0 <= k < w.len() && w[k] == s@;
            assert(w[k] != s@);
        }
    }
    false
}

/// Detects the language family of a text, choosing only among the installed
/// families; nothing when none of them is a supported family or the text
/// is in none of them.
pub fn detect_language_family(text: &str, installed_langs: &Vec<String>) -> (r: Option<&'static str>)
    ensures
        r is Some ==> installed_langs@.map_values(|s: String| s@).contains(r->Some_0@),
        match r {
            Some(f) => detection_family(text@, installed_langs@.map_values(|s: String| s@)) == Some(f@),
            None => detection_family(text@, installed_langs@.map_values(|s: String| s@)) is None,
        },
{
    let ghost inst = installed_langs@.map_values(|s: String| s@);
    let mut codes: Vec<&str> = Vec::new();
    let ghost mut langs: Seq<Lang> = Seq::empty();
    let mut i: usize = 0;
    while i < installed_langs.len()
        invariant
            i <= installed_langs@.len(),
            inst == installed_langs@.map_values(|s: String| s@),
            langs == known_langs(inst.take(i as int)),
            str_views(codes@) == iso_codes(langs),
        decreases installed_langs.len() - i,
    {
        proof {
            assert(inst.take(i + 1).drop_last() =~= inst.take(i as int));
            assert(inst.take(i + 1).last() == installed_langs@[i as int]@);
        }
        match family_to_lang(installed_langs[i].as_str()) {
            Some(l) => {
                let ghost old_codes = codes@;
                let c = lang_iso_code(l);
                codes.push(c);
                proof {
                    let old_langs = langs;
                    langs = langs.push(l);
                    assert(str_views(old_codes).len() == old_codes.len());
                    assert(iso_codes(old_langs).len() == old_langs.len());
                    assert(codes@.len() == langs.len());
                    assert forall|k: int| 0 <= k < codes@.len() implies #[trigger] str_views(codes@)[k]
                        == iso_codes(langs)[k] by {
                        if k < old_codes.len() {
                            assert(str_views(old_codes)[k] == iso_codes(old_langs)[k]);
                            assert(codes@[k] == old_codes[k]);
                            assert(langs[k] == old_langs[k]);
                        } else {
                            assert(codes@[k] == c);
                            assert(langs[k] == l);
                        }
                    }
                    assert(str_views(codes@) =~= iso_codes(langs));
                }
            },
            None => {},
        }
        i = i + 1;
    }
    proof {
        assert(inst.take(installed_langs@.len() as int) =~= inst);
    }
    if codes.len() == 0 {
        return None;
    }
    let detected = detect_with_allowlist(text, &codes);
    let family = match detected {
        Some(c) => family_of_detected(Some(c.as_str())),
        None => family_of_detected(None),
    };
    match family {
        Some(f) => if contains_str(installed_langs, f) {
            Some(f)
        } else {
            None
        },
        None => None,
    }
}

} // verus!
