//! Decisions of the transcriber: which text message to synthesize next, in
//! which language and with which voice, which engine loads the voice, and
//! what the queue becomes once synthesis succeeded or failed.
use vstd::prelude::*;
use crate::catalog::{InstalledVoice, ModelType};
use crate::language::{detect_language_family, detection_family};
use crate::queue::{
    as_speech, first_waiting_index, has_id, index_of_id, text_of, with_text_status, PendingTextItem,
    Queue, QueueControllable, TextMessageStatus, Transcribable,
};
use crate::text::{owned, push_str, str_eq};

verus! {

// ── Voice preferences ────────────────────────────────────────────

/// The voice chosen for each language, and the voice used when a language
/// has none (or is unknown).
#[derive(Debug, Clone)]
pub struct VoiceMapping {
    pub language_voice: Vec<(String, String)>,
    pub fallback_voice_key: Option<String>,
}

/// The voice a mapping gives a language: the last entry for it wins.
pub open spec fn voice_for(entries: Seq<(String, String)>, language: Seq<char>) -> Option<String>
    decreases entries.len(),
{
    if entries.len() == 0 {
        None
    } else if entries.last().0@ == language {
        Some(entries.last().1)
    } else {
        voice_for(entries.drop_last(), language)
    }
}

/// The voice to speak a language with: the language's voice, else the
/// fallback.
pub open spec fn resolve_spec(m: VoiceMapping, language: Option<Seq<char>>) -> Option<String> {
    match language {
        Some(l) => match voice_for(m.language_voice@, l) {
            Some(v) => Some(v),
            None => m.fallback_voice_key,
        },
        None => m.fallback_voice_key,
    }
}

impl VoiceMapping {
    /// No preferences.
    pub fn new() -> (m: VoiceMapping)
        ensures
            m.language_voice@.len() == 0,
            m.fallback_voice_key is None,
    {
        VoiceMapping { language_voice: Vec::new(), fallback_voice_key: None }
    }

    /// Chooses the voice for a language.
    pub fn set_voice(&mut self, language: String, voice_key: String)
        ensures
            final(self).language_voice@ == old(self).language_voice@.push((language, voice_key)),
            final(self).fallback_voice_key == old(self).fallback_voice_key,
            forall|l: Seq<char>|
                #[trigger] voice_for(final(self).language_voice@, l) == if l == language@ {
                    Some(voice_key)
                } else {
                    voice_for(old(self).language_voice@, l)
                },
    {
        let ghost lang = language@;
        let ghost v = voice_key;
        self.language_voice.push((language, voice_key));
        proof {
            assert forall|l: Seq<char>|
                #[trigger] voice_for(self.language_voice@, l) == if l == lang {
                    Some(v)
                } else {
                    voice_for(old(self).language_voice@, l)
                } by {
                assert(self.language_voice@.drop_last() =~= old(self).language_voice@);
            }
        }
    }

    /// Chooses the fallback voice.
    pub fn set_fallback(&mut self, voice_key: Option<String>)
        ensures
            final(self).language_voice == old(self).language_voice,
            final(self).fallback_voice_key == voice_key,
    {
        self.fallback_voice_key = voice_key;
    }

    /// The voice to speak a language with.
    pub fn resolve(&self, language: Option<&str>) -> (r: Option<String>)
        ensures
            r == resolve_spec(
                *self,
                match language {
                    Some(l) => Some(l@),
                    None => None,
                },
            ),
    {
        let fallback = match &self.fallback_voice_key {
            Some(v) => Some(v.clone()),
            None => None,
        };
        let lang = match language {
            None => return fallback,
            Some(l) => l,
        };
        let mut i: usize = self.language_voice.len();
        assert(self.language_voice@.take(i as int) =~= self.language_voice@);
        while i > 0
            invariant
                i <= self.language_voice@.len(),
                language == Some(lang),
                fallback == self.fallback_voice_key,
                voice_for(self.language_voice@, lang@) == voice_for(
                    self.language_voice@.take(i as int),
                    lang@,
                ),
            decreases i,
        {
            proof {
                let t = self.language_voice@.take(i as int);
                assert(t.last() == self.language_voice@[i - 1]);
                assert(t.drop_last() =~= self.language_voice@.take(i - 1));
            }
            if str_eq(self.language_voice[i - 1].0.as_str(), lang) {
                let v = self.language_voice[i - 1].1.clone();
                assert(voice_for(self.language_voice@.take(i as int), lang@) == Some(
                    self.language_voice@[i - 1].1,
                ));
                return Some(v);
            }
            i = i - 1;
        }
        fallback
    }
}

/// What `set_voice` records is what `resolve` reads back: after choosing a
/// voice for a language, that language is spoken with it, every other
/// language as before, and a text of unknown language still with the
/// fallback.
pub proof fn law_resolve_reads_preference(
    before: VoiceMapping,
    after: VoiceMapping,
    language: String,
    voice_key: String,
    other: Seq<char>,
)
    requires
        after.language_voice@ == before.language_voice@.push((language, voice_key)),
        after.fallback_voice_key == before.fallback_voice_key,
        other != language@,
    ensures
        resolve_spec(after, Some(language@)) == Some(voice_key),
        resolve_spec(after, Some(other)) == resolve_spec(before, Some(other)),
        resolve_spec(after, None) == before.fallback_voice_key,
{
    assert(after.language_voice@.drop_last() =~= before.language_voice@);
}

// ── Choosing language and voice ──────────────────────────────────

/// The languages of the installed voices, in order.
pub open spec fn installed_languages(v: Seq<InstalledVoice>) -> Seq<Seq<char>> {
    v.map_values(|x: InstalledVoice| x.language@)
}

/// The language detected for a text and the voice chosen for it.
#[derive(Debug, Clone, PartialEq)]
pub struct TranscriptionPlan {
    pub language: Option<String>,
    pub voice_key: Option<String>,
}

/// Chooses the language of a text among the languages of the installed
/// voices, and the voice for that language.
pub fn plan_transcription(text: &str, installed: &Vec<InstalledVoice>, mapping: &VoiceMapping) -> (p: TranscriptionPlan)
    ensures
        match detection_family(text@, installed_languages(installed@)) {
            Some(f) => p.language is Some && p.language->Some_0@ == f,
            None => p.language is None,
        },
        p.voice_key == resolve_spec(
            *mapping,
            detection_family(text@, installed_languages(installed@)),
        ),
{
    let mut langs: Vec<String> = Vec::new();
    let mut i: usize = 0;
    while i < installed.len()
        invariant
            i <= installed@.len(),
            langs@.len() == i,
            forall|k: int| 0 <= k < i ==> #[trigger] langs@[k]@ == installed@[k].language@,
        decreases installed.len() - i,
    {
        langs.push(installed[i].language.clone());
        i = i + 1;
    }
    assert(langs@.map_values(|s: String| s@) =~= installed_languages(installed@));
    let family = detect_language_family(text, &langs);
    let voice_key = mapping.resolve(family);
    let language = match family {
        Some(f) => Some(owned(f)),
        None => None,
    };
    TranscriptionPlan { language, voice_key }
}

/// Takes the first text message waiting for synthesis and marks it
/// `Processing`.
pub fn begin_transcription(queue: &mut Queue) -> (r: Option<PendingTextItem>)
    ensures
        match first_waiting_index(old(queue)@, true) {
            Some(i) => {
                &&& r == Some(
                    PendingTextItem { id: old(queue)@[i].spec_id(), text: text_of(old(queue)@[i]) },
                )
                &&& final(queue)@ == old(queue)@.update(
                    i,
                    with_text_status(old(queue)@[i], TextMessageStatus::Processing),
                )
            },
            None => r is None && final(queue)@ == old(queue)@,
        },
        final(queue).spec_next_id() == old(queue).spec_next_id(),
        final(queue).spec_config() == old(queue).spec_config(),
{
    let pending = queue.next_text();
    match pending {
        None => None,
        Some(item) => {
            let ghost s = queue@;
            let ghost i = first_waiting_index(s, true)->Some_0;
            assert(has_id(s, item.id)) by {
                assert(s[i].spec_id() == item.id);
            }
            let _ = queue.set_text_message_status(item.id, TextMessageStatus::Processing);
            Some(item)
        },
    }
}

/// What the user interface is told about a finished synthesis.
#[derive(Debug, Clone, PartialEq)]
pub enum TranscriptionEvent {
    Completed(u64),
    Failed(u64, String),
}

/// The error when no voice is found for a text.
pub fn no_voice_error() -> (s: String)
    ensures
        s@ == "no voice resolved for language"@,
{
    owned("no voice resolved for language")
}

/// The outcome of synthesizing a text with a plan: the synthesis result
/// (the audio, or why it failed) when the plan has a voice and synthesis
/// ran; the failure "no voice resolved for language" when the plan has no
/// voice.  `synthesized` is `None` when synthesis did not run.
pub fn synthesis_outcome(plan: &TranscriptionPlan, synthesized: Option<Result<String, String>>) -> (o: Result<
    String,
    String,
>)
    ensures
        match (plan.voice_key, synthesized) {
            (Some(_), Some(x)) => o == x,
            _ => o is Err && o->Err_0@ == "no voice resolved for language"@,
        },
{
    match (&plan.voice_key, synthesized) {
        (Some(_), Some(x)) => x,
        _ => Err(no_voice_error()),
    }
}

/// Applies the outcome of a synthesis: on success the text message becomes
/// a speech with its audio, voice and language; on failure it is dropped.
/// Also tells whether a speech became ready to play (the text message was
/// still in the queue).
pub fn finish_transcription(
    queue: &mut Queue,
    id: u64,
    outcome: Result<String, String>,
    plan: TranscriptionPlan,
) -> (r: (TranscriptionEvent, bool))
    ensures
        match outcome {
            Ok(audio) => {
                &&& r.0 == TranscriptionEvent::Completed(id)
                &&& r.1 == (has_id(old(queue)@, id) && old(queue)@[index_of_id(old(queue)@, id)] is TextMessage)
                &&& r.1 ==> final(queue)@ == old(queue)@.update(
                    index_of_id(old(queue)@, id),
                    as_speech(
                        old(queue)@[index_of_id(old(queue)@, id)],
                        Some(audio),
                        plan.voice_key,
                        plan.language,
                    ),
                )
                &&& !r.1 ==> final(queue)@ == old(queue)@
            },
            Err(e) => {
                &&& r.0 == TranscriptionEvent::Failed(id, e)
                &&& !r.1
                &&& has_id(old(queue)@, id) ==> final(queue)@ == old(queue)@.remove(
                    index_of_id(old(queue)@, id),
                )
                &&& !has_id(old(queue)@, id) ==> final(queue)@ == old(queue)@
            },
        },
        final(queue).spec_next_id() == old(queue).spec_next_id(),
        final(queue).spec_config() == old(queue).spec_config(),
{
    match outcome {
        Ok(audio) => {
            let replaced = queue.replace_with_speech(id, Some(audio), plan.voice_key, plan.language);
            (TranscriptionEvent::Completed(id), replaced.is_ok())
        },
        Err(e) => {
            queue.drop_failed_item(id);
            (TranscriptionEvent::Failed(id, e), false)
        },
    }
}

// ── Choosing the engine ──────────────────────────────────────────

/// The engine that loads a voice: Piper when it has the voice, else Kokoro;
/// none when neither has it.
pub fn select_backend(piper_installed: bool, kokoro_installed: bool) -> (r: Option<ModelType>)
    ensures
        r == (if piper_installed {
            Some(ModelType::Piper)
        } else if kokoro_installed {
            Some(ModelType::Kokoro)
        } else {
            None
        }),
{
    if piper_installed {
        Some(ModelType::Piper)
    } else if kokoro_installed {
        Some(ModelType::Kokoro)
    } else {
        None
    }
}

/// "voice '{key}' not installed in any backend".
pub fn not_installed_error(voice_key: &str) -> (s: String)
    ensures
        s@ == "voice '"@ + voice_key@ + "' not installed in any backend"@,
{
    let mut s = owned("voice '");
    push_str(&mut s, voice_key);
    push_str(&mut s, "' not installed in any backend");
    s
}

} // verus!
