//! Turning text into the phoneme ids that the voice models take.
//!
//! Text is first turned into IPA by eSpeak NG and put into Unicode NFD; a
//! Piper voice then maps each phoneme character to an id from its
//! configuration, with padding after each, between a start and an end
//! marker.  A Kokoro voice maps characters to ids by the vocabulary of its
//! tokenizer configuration.
use vstd::prelude::*;
use unicode_normalization::UnicodeNormalization;
use crate::text::{chars_of, is_white_space, is_whitespace, owned, split_on, str_eq, push_char, push_str};

verus! {

// ── Character-to-id tables ───────────────────────────────────────

/// The id a table gives a character: the last entry for it wins.
pub open spec fn lookup(entries: Seq<(char, i64)>, c: char) -> Option<i64>
    decreases entries.len(),
{
    if entries.len() == 0 {
        None
    } else if entries.last().0 == c {
        Some(entries.last().1)
    } else {
        lookup(entries.drop_last(), c)
    }
}

/// A table from characters to ids; a later entry for a character replaces
/// an earlier one.
#[derive(Debug, Clone)]
pub struct CharIdMap {
    pub entries: Vec<(char, i64)>,
}

impl CharIdMap {
    /// The id of each character, as a map.
    pub open spec fn spec_get(&self, c: char) -> Option<i64> {
        lookup(self.entries@, c)
    }

    /// An empty table.
    pub fn new() -> (m: CharIdMap)
        ensures
            m.entries@ == Seq::<(char, i64)>::empty(),
    {
        CharIdMap { entries: Vec::new() }
    }

    /// Gives `c` the id `id`.
    pub fn insert(&mut self, c: char, id: i64)
        ensures
            final(self).entries@ == old(self).entries@.push((c, id)),
            final(self).spec_get(c) == Some(id),
            forall|d: char| d != c ==> #[trigger] final(self).spec_get(d) == old(self).spec_get(d),
    {
        self.entries.push((c, id));
        proof {
            assert(self.entries@.drop_last() =~= old(self).entries@);
        }
    }

    /// The id of `c`, if it has one.
    pub fn get(&self, c: char) -> (r: Option<i64>)
        ensures
            r == self.spec_get(c),
    {
        let mut i: usize = self.entries.len();
        assert(self.entries@.take(i as int) =~= self.entries@);
        while i > 0
            invariant
                i <= self.entries@.len(),
                lookup(self.entries@, c) == lookup(self.entries@.take(i as int), c),
            decreases i,
        {
            let (d, id) = self.entries[i - 1];
            proof {
                let t = self.entries@.take(i as int);
                assert(t.last() == self.entries@[i - 1]);
                assert(t.drop_last() =~= self.entries@.take(i - 1));
            }
            if d == c {
                return Some(id);
            }
            i = i - 1;
        }
        None
    }

    /// The id of `c`, or `default` when it has none.
    pub fn get_or(&self, c: char, default: i64) -> (r: i64)
        ensures
            r == match self.spec_get(c) {
                Some(id) => id,
                None => default,
            },
    {
        match self.get(c) {
            Some(id) => id,
            None => default,
        }
    }
}

// ── Piper ────────────────────────────────────────────────────────

/// The eSpeak voice a Piper configuration uses when it names none.
pub fn default_espeak_voice() -> (s: String)
    ensures
        s@ == "en-us"@,
{
    owned("en-us")
}

/// The sample rate a Piper configuration uses when it names none.
pub fn default_sample_rate() -> (r: u32)
    ensures
        r == 22050,
{
    22050
}

/// The eSpeak language code of a voice name: the part before the first `-`.
pub open spec fn espeak_lang_code_of(voice: Seq<char>) -> Seq<char> {
    split_on(voice, '-')[0]
}

/// The eSpeak language code of a voice name, such as "en" for "en-us".
pub fn espeak_lang_code(voice: &str) -> (r: String)
    ensures
        r@ == espeak_lang_code_of(voice@),
{
    let chars = chars_of(voice);
    let mut r = String::new();
    let mut i: usize = 0;
    while i < chars.len() && chars[i] != '-'
        invariant
            i <= chars@.len(),
            chars@ == voice@,
            r@ == chars@.take(i as int),
            forall|k: int| 0 <= k < i ==> chars@[k] != '-',
        decreases chars.len() - i,
    {
        push_char(&mut r, chars[i]);
        i = i + 1;
        assert(r@ =~= chars@.take(i as int));
    }
    proof {
        lemma_split_first_piece(voice@, '-', i as int);
    }
    r
}

/// The first piece of a split ends at the first separator.
proof fn lemma_split_first_piece(s: Seq<char>, sep: char, i: int)
    requires
        0 <= i <= s.len(),
        forall|k: int| 0 <= k < i ==> s[k] != sep,
        i == s.len() || s[i] == sep,
    ensures
        split_on(s, sep)[0] == s.take(i),
    decreases s.len(),
{
    if s.len() == 0 {
        assert(s.take(0) =~= Seq::<char>::empty());
    } else {
        let d = s.drop_last();
        let rest = split_on(d, sep);
        crate::text::lemma_split_on_nonempty(d, sep);
        if i == s.len() {
            lemma_no_sep_single_piece(d, sep);
            lemma_split_first_piece(d, sep, i - 1);
            assert(d.take(i - 1) =~= d);
            assert(s.last() == s[s.len() - 1]);
            assert(split_on(s, sep) == rest.update(0, rest[0].push(s.last())));
            assert(d.push(s.last()) =~= s.take(i));
        } else if i == s.len() - 1 {
            lemma_no_sep_single_piece(d, sep);
            lemma_split_first_piece(d, sep, i);
            assert(d.take(i) =~= d);
            assert(s.last() == sep);
            assert(split_on(s, sep) == rest.push(Seq::<char>::empty()));
            assert(d =~= s.take(i));
        } else {
            lemma_split_first_piece(d, sep, i);
            assert(d[i] == sep);
            lemma_split_has_two(d, sep, i);
            assert(d.take(i) =~= s.take(i));
        }
    }
}

/// A separator makes at least two pieces.
proof fn lemma_split_has_two(s: Seq<char>, sep: char, i: int)
    requires
        0 <= i < s.len(),
        s[i] == sep,
    ensures
        split_on(s, sep).len() >= 2,
    decreases s.len(),
{
    crate::text::lemma_split_on_nonempty(s.drop_last(), sep);
    if i < s.len() - 1 {
        lemma_split_has_two(s.drop_last(), sep, i);
    }
}

/// Without a separator there is one piece.
proof fn lemma_no_sep_single_piece(s: Seq<char>, sep: char)
    requires
        forall|k: int| 0 <= k < s.len() ==> s[k] != sep,
    ensures
        split_on(s, sep).len() == 1,
    decreases s.len(),
{
    if s.len() > 0 {
        lemma_no_sep_single_piece(s.drop_last(), sep);
        assert(s.last() == s[s.len() - 1]);
    }
}

/// The table a Piper configuration's phoneme map gives: for each phoneme
/// with at least one id, each of its characters gets the phoneme's first id.
pub open spec fn phoneme_entries(map: Seq<(Seq<char>, Seq<i64>)>) -> Seq<(char, i64)>
    decreases map.len(),
{
    if map.len() == 0 {
        Seq::<(char, i64)>::empty()
    } else {
        let prev = phoneme_entries(map.drop_last());
        let (phoneme, ids) = map.last();
        if ids.len() == 0 {
            prev
        } else {
            prev + phoneme.map_values(|c: char| (c, ids[0]))
        }
    }
}

/// The views of a phoneme map.
pub open spec fn phoneme_map_view(map: Seq<(String, Vec<i64>)>) -> Seq<(Seq<char>, Seq<i64>)> {
    map.map_values(|e: (String, Vec<i64>)| (e.0@, e.1@))
}

/// The ids of the characters of NFD-decomposed IPA: the markers `^`, `_`
/// and `$` are dropped, whitespace becomes the id of ' ' (if any) and
/// padding, a character with an id becomes that id and padding, and other
/// characters are dropped.
pub open spec fn body_ids(chars: Seq<char>, table: Seq<(char, i64)>, pad: i64) -> Seq<i64>
    decreases chars.len(),
{
    if chars.len() == 0 {
        Seq::<i64>::empty()
    } else {
        let prev = body_ids(chars.drop_last(), table, pad);
        let ch = chars.last();
        if ch == '^' || ch == '_' || ch == '$' {
            prev
        } else if is_white_space(ch) {
            match lookup(table, ' ') {
                Some(id) => prev.push(id).push(pad),
                None => prev,
            }
        } else {
            match lookup(table, ch) {
                Some(id) => prev.push(id).push(pad),
                None => prev,
            }
        }
    }
}

/// An id from the table, or a default.
pub open spec fn id_or(table: Seq<(char, i64)>, c: char, default: i64) -> i64 {
    match lookup(table, c) {
        Some(id) => id,
        None => default,
    }
}

/// The phoneme ids of NFD-decomposed IPA: the start marker `^` (1 by
/// default), the body, and the end marker `$` (2 by default); padding is `_`
/// (0 by default).
pub open spec fn phoneme_ids_spec(chars: Seq<char>, table: Seq<(char, i64)>) -> Seq<i64> {
    seq![id_or(table, '^', 1)] + body_ids(chars, table, id_or(table, '_', 0)) + seq![
        id_or(table, '$', 2),
    ]
}

/// What `unicode_normalization`'s `nfd()` gives for a string: its canonical
/// decomposition.
pub uninterp spec fn nfd_of(s: Seq<char>) -> Seq<char>;

/// Puts a string into Unicode Normalization Form D (`unicode_normalization`'s
/// `UnicodeNormalization::nfd`), collected into a `String`.  The result is
/// a fixed function of the input, named `nfd_of`.
#[verifier::external_body]
fn nfd(s: &str) -> (r: String)
    ensures
        r@ == nfd_of(s@),
{
    s.nfd().collect()
}

/// Declares eSpeak NG's error type, which its IPA conversion may return.
#[verifier::external_type_specification]
#[verifier::external_body]
pub struct ExEspeakError(espeak_ng::Error);

/// Converts text to IPA with eSpeak NG (`espeak_ng::text_to_ipa`).  The
/// result depends on the language data found on disk, so nothing is claimed
/// of it.  The translator behind the call holds `unwrap` and `unreachable`
/// sites whose reach its source does not settle, so no input is known to
/// make it panic and none is left out.
#[verifier::external_body]
fn text_to_ipa(lang: &str, text: &str) -> (r: Result<String, espeak_ng::Error>) {
    espeak_ng::text_to_ipa(lang, text)
}

/// The phoneme side of a Piper voice: its eSpeak voice and the table from
/// phoneme characters to ids.
#[derive(Debug, Clone)]
pub struct PiperPhonemizer {
    pub espeak_voice: String,
    pub phoneme_to_id: CharIdMap,
}

impl PiperPhonemizer {
    /// Builds the table from a configuration's phoneme map, in the map's
    /// order.
    pub fn new(espeak_voice: String, phoneme_id_map: &Vec<(String, Vec<i64>)>) -> (p: PiperPhonemizer)
        ensures
            p.espeak_voice == espeak_voice,
            p.phoneme_to_id.entries@ == phoneme_entries(phoneme_map_view(phoneme_id_map@)),
    {
        let ghost view = phoneme_map_view(phoneme_id_map@);
        let mut table = CharIdMap::new();
        let mut i: usize = 0;
        while i < phoneme_id_map.len()
            invariant
                i <= phoneme_id_map@.len(),
                view == phoneme_map_view(phoneme_id_map@),
                view.len() == phoneme_id_map@.len(),
                table.entries@ == phoneme_entries(view.take(i as int)),
            decreases phoneme_id_map.len() - i,
        {
            let (phoneme, ids) = (&phoneme_id_map[i].0, &phoneme_id_map[i].1);
            proof {
                assert(view.take(i + 1).drop_last() =~= view.take(i as int));
                assert(view.take(i + 1).last() == view[i as int]);
                assert(view[i as int] == (phoneme@, ids@));
            }
            if ids.len() > 0 {
                let id = ids[0];
                let chars = chars_of(phoneme.as_str());
                let ghost start = table.entries@;
                let mut k: usize = 0;
                while k < chars.len()
                    invariant
                        k <= chars@.len(),
                        chars@ == phoneme@,
                        table.entries@ == start + chars@.take(k as int).map_values(|c: char| (c, id)),
                    decreases chars.len() - k,
                {
                    table.insert(chars[k], id);
                    k = k + 1;
                    assert(table.entries@ =~= start + chars@.take(k as int).map_values(|c: char| (c, id)));
                }
                assert(chars@.take(k as int) =~= chars@);
            }
            i = i + 1;
        }
        assert(view.take(phoneme_id_map@.len() as int) =~= view);
        PiperPhonemizer { espeak_voice, phoneme_to_id: table }
    }

    /// The phoneme ids of NFD-decomposed IPA.
    pub fn ids_from_decomposed(&self, decomposed: &str) -> (r: Vec<i64>)
        ensures
            r@ == phoneme_ids_spec(decomposed@, self.phoneme_to_id.entries@),
    {
        let table = &self.phoneme_to_id;
        let bos = table.get_or('^', 1);
        let pad = table.get_or('_', 0);
        let eos = table.get_or('$', 2);
        let chars = chars_of(decomposed);
        let mut ids: Vec<i64> = Vec::new();
        let mut i: usize = 0;
        while i < chars.len()
            invariant
                i <= chars@.len(),
                chars@ == decomposed@,
                pad == id_or(table.entries@, '_', 0),
                ids@ == body_ids(chars@.take(i as int), table.entries@, pad),
            decreases chars.len() - i,
        {
            let ch = chars[i];
            proof {
                assert(chars@.take(i + 1).drop_last() =~= chars@.take(i as int));
                assert(chars@.take(i + 1).last() == ch);
            }
            if ch == '^' || ch == '_' || ch == '$' {
            } else if is_whitespace(ch) {
                if let Some(id) = table.get(' ') {
                    ids.push(id);
                    ids.push(pad);
                }
            } else if let Some(id) = table.get(ch) {
                ids.push(id);
                ids.push(pad);
            }
            i = i + 1;
        }
        assert(chars@.take(chars@.len() as int) =~= chars@);
        let mut r: Vec<i64> = Vec::new();
        r.push(bos);
        let mut k: usize = 0;
        while k < ids.len()
            invariant
                k <= ids@.len(),
                r@ == seq![bos] + ids@.take(k as int),
            decreases ids.len() - k,
        {
            r.push(ids[k]);
            k = k + 1;
            assert(r@ =~= seq![bos] + ids@.take(k as int));
        }
        r.push(eos);
        assert(ids@.take(ids@.len() as int) =~= ids@);
        assert(r@ =~= phoneme_ids_spec(decomposed@, table.entries@));
        r
    }

    /// The phoneme ids of IPA: it is put into NFD first.
    pub fn ids_from_ipa(&self, ipa: &str) -> (r: Vec<i64>)
        ensures
            r@ == phoneme_ids_spec(nfd_of(ipa@), self.phoneme_to_id.entries@),
    {
        let decomposed = nfd(ipa);
        self.ids_from_decomposed(decomposed.as_str())
    }

    /// The phoneme ids of what eSpeak answered: the ids of the IPA it gave,
    /// or none when it failed.
    pub fn ids_from_espeak(&self, answer: Result<String, espeak_ng::Error>) -> (r: Vec<i64>)
        ensures
            match answer {
                Ok(ipa) => r@ == phoneme_ids_spec(nfd_of(ipa@), self.phoneme_to_id.entries@),
                Err(_) => r@.len() == 0,
            },
    {
        match answer {
            Ok(ipa) => self.ids_from_ipa(ipa.as_str()),
            Err(_) => Vec::new(),
        }
    }

    /// The phoneme ids of a text: eSpeak turns it into IPA for the voice's
    /// language; when eSpeak fails there are no ids.
    pub fn text_to_phoneme_ids(&self, text: &str) -> (r: Vec<i64>)
        ensures
            r@.len() == 0 || exists|ipa: Seq<char>|
                r@ == phoneme_ids_spec(nfd_of(ipa), self.phoneme_to_id.entries@),
    {
        let lang = espeak_lang_code(self.espeak_voice.as_str());
        self.ids_from_espeak(text_to_ipa(lang.as_str(), text))
    }
}

/// Every phoneme-id sequence starts with the start marker and ends with the
/// end marker, and its body alternates phoneme ids with padding.
pub proof fn law_phoneme_ids_framed(chars: Seq<char>, table: Seq<(char, i64)>)
    ensures
        phoneme_ids_spec(chars, table).len() >= 2,
        phoneme_ids_spec(chars, table)[0] == id_or(table, '^', 1),
        phoneme_ids_spec(chars, table).last() == id_or(table, '$', 2),
        body_ids(chars, table, id_or(table, '_', 0)).len() % 2 == 0,
        forall|k: int|
            0 <= k < body_ids(chars, table, id_or(table, '_', 0)).len() && k % 2 == 1
                ==> #[trigger] body_ids(chars, table, id_or(table, '_', 0))[k] == id_or(table, '_', 0),
{
    lemma_body_ids_padded(chars, table, id_or(table, '_', 0));
}

/// Every whitespace character of the decomposed IPA is a word or clause
/// break: it gives the same ids as a space (the space's id and padding, when
/// the table has an id for the space), whatever came before it; eSpeak's
/// clause breaks, newlines, are among them.
pub proof fn law_whitespace_is_a_break(s: Seq<char>, table: Seq<(char, i64)>, pad: i64, w: char)
    requires
        is_white_space(w),
    ensures
        body_ids(s.push(w), table, pad) == body_ids(s.push(' '), table, pad),
        match lookup(table, ' ') {
            Some(id) => body_ids(s.push(w), table, pad) == body_ids(s, table, pad) + seq![id, pad],
            None => body_ids(s.push(w), table, pad) == body_ids(s, table, pad),
        },
        is_white_space('\n'),
        is_white_space('\t'),
        is_white_space('\r'),
        is_white_space(' '),
{
    assert(s.push(w).drop_last() =~= s);
    assert(s.push(' ').drop_last() =~= s);
    match lookup(table, ' ') {
        Some(id) => {
            assert(body_ids(s, table, pad).push(id).push(pad) =~= body_ids(s, table, pad) + seq![id, pad]);
        },
        None => {},
    }
}

proof fn lemma_body_ids_padded(chars: Seq<char>, table: Seq<(char, i64)>, pad: i64)
    ensures
        body_ids(chars, table, pad).len() % 2 == 0,
        forall|k: int|
            0 <= k < body_ids(chars, table, pad).len() && k % 2 == 1 ==> #[trigger] body_ids(
                chars,
                table,
                pad,
            )[k] == pad,
    decreases chars.len(),
{
    if chars.len() > 0 {
        lemma_body_ids_padded(chars.drop_last(), table, pad);
    }
}

// ── Kokoro ───────────────────────────────────────────────────────

/// The pattern of the tokenizer's normalizer.
#[derive(Debug, Clone)]
#[allow(non_snake_case)]
pub struct PatternConfig {
    pub Regex: String,
}

/// The tokenizer's normalizer.
#[derive(Debug, Clone)]
pub struct NormalizerConfig {
    pub pattern: PatternConfig,
}

/// A special token of the tokenizer.
#[derive(Debug, Clone)]
pub struct SpecialToken {
    pub id: String,
    pub ids: Vec<i64>,
}

/// The tokenizer's post-processor: its special tokens by name, in the
/// configuration's order.
#[derive(Debug, Clone)]
pub struct PostProcessorConfig {
    pub special_tokens: Vec<(String, SpecialToken)>,
}

/// The tokenizer's model: its vocabulary, in the configuration's order.
#[derive(Debug, Clone)]
pub struct ModelConfig {
    pub vocab: Vec<(String, i64)>,
}

/// A Kokoro tokenizer configuration.
#[derive(Debug, Clone)]
pub struct KokoroTokenizerConfig {
    pub normalizer: NormalizerConfig,
    pub post_processor: PostProcessorConfig,
    pub model: ModelConfig,
}

/// The table a vocabulary gives: each non-empty key's first character gets
/// the key's id.
pub open spec fn vocab_entries(vocab: Seq<(Seq<char>, i64)>) -> Seq<(char, i64)>
    decreases vocab.len(),
{
    if vocab.len() == 0 {
        Seq::<(char, i64)>::empty()
    } else {
        let prev = vocab_entries(vocab.drop_last());
        let (key, id) = vocab.last();
        if key.len() == 0 {
            prev
        } else {
            prev.push((key[0], id))
        }
    }
}

/// The padding id: the first id of the last special token named `$`, or 0.
pub open spec fn pad_token_id(tokens: Seq<(Seq<char>, Seq<i64>)>) -> i64
    decreases tokens.len(),
{
    if tokens.len() == 0 {
        0
    } else if tokens.last().0 == "$"@ {
        if tokens.last().1.len() > 0 {
            tokens.last().1[0]
        } else {
            0
        }
    } else {
        pad_token_id(tokens.drop_last())
    }
}

impl KokoroTokenizerConfig {
    /// The vocabulary as character sequences.
    pub open spec fn vocab_view(&self) -> Seq<(Seq<char>, i64)> {
        self.model.vocab@.map_values(|e: (String, i64)| (e.0@, e.1))
    }

    /// The special tokens as character sequences and ids.
    pub open spec fn tokens_view(&self) -> Seq<(Seq<char>, Seq<i64>)> {
        self.post_processor.special_tokens@.map_values(|e: (String, SpecialToken)| (e.0@, e.1.ids@))
    }

    /// The character table and the padding id.
    pub fn build_tokenizer(&self) -> (r: (CharIdMap, i64))
        ensures
            r.0.entries@ == vocab_entries(self.vocab_view()),
            r.1 == pad_token_id(self.tokens_view()),
    {
        let ghost vv = self.vocab_view();
        let mut table = CharIdMap::new();
        let mut i: usize = 0;
        while i < self.model.vocab.len()
            invariant
                i <= self.model.vocab@.len(),
                vv == self.vocab_view(),
                vv.len() == self.model.vocab@.len(),
                table.entries@ == vocab_entries(vv.take(i as int)),
            decreases self.model.vocab.len() - i,
        {
            let key = &self.model.vocab[i].0;
            let id = self.model.vocab[i].1;
            proof {
                assert(vv.take(i + 1).drop_last() =~= vv.take(i as int));
                assert(vv.take(i + 1).last() == vv[i as int]);
            }
            let chars = chars_of(key.as_str());
            if chars.len() > 0 {
                table.insert(chars[0], id);
            }
            i = i + 1;
        }
        assert(vv.take(self.model.vocab@.len() as int) =~= vv);
        let ghost tv = self.tokens_view();
        let mut pad: i64 = 0;
        let mut j: usize = self.post_processor.special_tokens.len();
        assert(tv.take(j as int) =~= tv);
        while j > 0
            invariant
                j <= self.post_processor.special_tokens@.len(),
                pad == 0,
                table.entries@ == vocab_entries(self.vocab_view()),
                tv == self.tokens_view(),
                tv.len() == self.post_processor.special_tokens@.len(),
                pad_token_id(tv) == pad_token_id(tv.take(j as int)),
            decreases j,
        {
            let name = &self.post_processor.special_tokens[j - 1].0;
            let token = &self.post_processor.special_tokens[j - 1].1;
            proof {
                let t = tv.take(j as int);
                assert(t.last() == tv[j - 1]);
                assert(t.drop_last() =~= tv.take(j - 1));
            }
            if str_eq(name.as_str(), "$") {
                if token.ids.len() > 0 {
                    pad = token.ids[0];
                } else {
                    pad = 0;
                }
                return (table, pad);
            }
            j = j - 1;
        }
        (table, pad)
    }
}

/// The eSpeak side of a Kokoro voice: the language it phonemizes in.
#[derive(Debug, Clone)]
pub struct KokoroPhonemizer {
    pub lang_code: String,
}

impl KokoroPhonemizer {
    /// A phonemizer for a language; the caller makes sure the language's
    /// eSpeak data is installed first.
    pub fn new(lang_code: &str) -> (p: KokoroPhonemizer)
        ensures
            p.lang_code@ == lang_code@,
    {
        KokoroPhonemizer { lang_code: owned(lang_code) }
    }

    /// The NFD-decomposed form of what eSpeak answered; empty when it
    /// failed.
    pub fn decomposed_ipa(answer: Result<String, espeak_ng::Error>) -> (r: String)
        ensures
            match answer {
                Ok(ipa) => r@ == nfd_of(ipa@),
                Err(_) => r@.len() == 0,
            },
    {
        match answer {
            Ok(ipa) => nfd(ipa.as_str()),
            Err(_) => String::new(),
        }
    }

    /// The NFD-decomposed IPA of a text; empty when eSpeak fails.
    pub fn phonemize(&self, text: &str) -> (r: String)
        ensures
            r@.len() == 0 || exists|ipa: Seq<char>| r@ == nfd_of(ipa),
    {
        Self::decomposed_ipa(text_to_ipa(self.lang_code.as_str(), text))
    }
}

} // verus!
