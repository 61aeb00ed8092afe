//! The voice catalog: the voices that can be installed, for the Piper and
//! the Kokoro backends, and the plans for installing and finding them.
//! Downloading and the files themselves are handled by the caller, which
//! follows the plans these functions return.
use vstd::prelude::*;
use std::collections::hash_map::DefaultHasher;
use std::hash::{Hash, Hasher};
use crate::text::{chars_of, hex16, hex_digits, owned, push_str, str_eq, string_from_chars};

verus! {

/// Which engine a voice runs on.
#[derive(Debug, Clone, Copy, PartialEq, Eq, Structural)]
pub enum ModelType {
    Piper,
    Kokoro,
}

/// A voice of the catalog.
#[derive(Debug, Clone, PartialEq)]
pub struct VoiceEntry {
    pub voice_key: String,
    pub name: String,
    pub language: String,
    pub quality: String,
    pub size_bytes: u64,
    pub speed: Option<String>,
    pub model_type: ModelType,
    pub checksum: Option<String>,
    pub download_url: Option<String>,
    pub config_url: Option<String>,
}

/// A copy of an optional string.
fn copy_opt(s: &Option<String>) -> (r: Option<String>)
    ensures
        r == *s,
{
    match s {
        Some(t) => Some(t.clone()),
        None => None,
    }
}

impl VoiceEntry {
    /// A field-by-field copy.
    pub fn copy(&self) -> (r: VoiceEntry)
        ensures
            r == *self,
    {
        VoiceEntry {
            voice_key: self.voice_key.clone(),
            name: self.name.clone(),
            language: self.language.clone(),
            quality: self.quality.clone(),
            size_bytes: self.size_bytes,
            speed: copy_opt(&self.speed),
            model_type: self.model_type,
            checksum: copy_opt(&self.checksum),
            download_url: copy_opt(&self.download_url),
            config_url: copy_opt(&self.config_url),
        }
    }
}

/// An installed voice.
#[derive(Debug, Clone, PartialEq)]
pub struct InstalledVoice {
    pub voice_key: String,
    pub name: String,
    pub language: String,
    pub quality: String,
    pub model_type: ModelType,
    pub model_path: String,
}

/// Progress of an installation, as reported to the user interface.
#[derive(Debug, Clone, PartialEq)]
pub enum DownloadProgress {
    Downloading { voice_key: String, bytes_downloaded: u64, total_bytes: u64 },
    Complete { voice_key: String },
    Error { voice_key: String, reason: String },
}

/// The position of the first entry with the given key, if any.
pub open spec fn first_with_key(s: Seq<VoiceEntry>, key: Seq<char>) -> Option<int> {
    if exists|i: int| 0 <= i < s.len() && (#[trigger] s[i]).voice_key@ == key {
        Some(
            choose|i: int|
                0 <= i < s.len() && (#[trigger] s[i]).voice_key@ == key && forall|j: int|
                    0 <= j < i ==> (#[trigger] s[j]).voice_key@ != key,
        )
    } else {
        None
    }
}

proof fn lemma_first_with_key(s: Seq<VoiceEntry>, key: Seq<char>, i: int)
    requires
        0 <= i < s.len(),
        s[i].voice_key@ == key,
        forall|j: int| 0 <= j < i ==> (#[trigger] s[j]).voice_key@ != key,
    ensures
        first_with_key(s, key) == Some(i),
{
    let k = choose|k: int|
        0 <= k < s.len() && (#[trigger] s[k]).voice_key@ == key && forall|j: int|
            0 <= j < k ==> (#[trigger] s[j]).voice_key@ != key;
    assert(0 <= k < s.len() && s[k].voice_key@ == key && forall|j: int|
        0 <= j < k ==> (#[trigger] s[j]).voice_key@ != key);
    if k < i {
        assert(s[k].voice_key@ != key);
    }
    if i < k {
        assert(s[i].voice_key@ != key);
    }
}

/// The position of the first entry with the given key.
fn find_index(entries: &Vec<VoiceEntry>, key: &str) -> (r: Option<usize>)
    ensures
        match r {
            Some(i) => first_with_key(entries@, key@) == Some(i as int) && i < entries@.len(),
            None => first_with_key(entries@, key@) is None,
        },
{
    let mut i: usize = 0;
    while i < entries.len()
        invariant
            i <= entries@.len(),
            forall|j: int| 0 <= j < i ==> (#[trigger] entries@[j]).voice_key@ != key@,
        decreases entries.len() - i,
    {
        if str_eq(entries[i].voice_key.as_str(), key) {
            proof {
                lemma_first_with_key(entries@, key@, i as int);
            }
            return Some(i);
        }
        i = i + 1;
    }
    None
}

/// "voice '{key}' not found in catalog".
pub open spec fn voice_not_found_message(key: Seq<char>) -> Seq<char> {
    "voice '"@ + key + "' not found in catalog"@
}

fn voice_not_found(key: &str) -> (s: String)
    ensures
        s@ == voice_not_found_message(key@),
{
    let mut s = owned("voice '");
    push_str(&mut s, key);
    push_str(&mut s, "' not found in catalog");
    s
}

/// The installed voice a catalog entry describes, found at `model_path`.
pub open spec fn installed_from(e: VoiceEntry, model_type: ModelType, model_path: String) -> InstalledVoice {
    InstalledVoice {
        voice_key: e.voice_key,
        name: e.name,
        language: e.language,
        quality: e.quality,
        model_type,
        model_path,
    }
}

/// A download-progress report.
pub fn downloading(voice_key: &str, bytes_downloaded: u64, total_bytes: u64) -> (p: DownloadProgress)
    ensures
        p matches DownloadProgress::Downloading { voice_key: k, bytes_downloaded: d, total_bytes: t }
            && k@ == voice_key@ && d == bytes_downloaded && t == total_bytes,
{
    DownloadProgress::Downloading { voice_key: owned(voice_key), bytes_downloaded, total_bytes }
}

/// A completion report.
pub fn complete(voice_key: &str) -> (p: DownloadProgress)
    ensures
        p matches DownloadProgress::Complete { voice_key: k } && k@ == voice_key@,
{
    DownloadProgress::Complete { voice_key: owned(voice_key) }
}

// ── Piper ────────────────────────────────────────────────────────

/// The model file of a Piper voice, inside the voice's directory.
pub open spec fn piper_model_file(key: Seq<char>) -> Seq<char> {
    key + ".onnx"@
}

/// The configuration file of a Piper voice, inside the voice's directory.
pub open spec fn piper_config_file(key: Seq<char>) -> Seq<char> {
    key + ".onnx.json"@
}

/// "{key}.onnx".
pub fn piper_model_file_name(key: &str) -> (s: String)
    ensures
        s@ == piper_model_file(key@),
{
    let mut s = owned(key);
    push_str(&mut s, ".onnx");
    s
}

/// "{key}.onnx.json".
pub fn piper_config_file_name(key: &str) -> (s: String)
    ensures
        s@ == piper_config_file(key@),
{
    let mut s = owned(key);
    push_str(&mut s, ".onnx.json");
    s
}

/// How to install a Piper voice: into the directory named after the voice,
/// download the model from `model_url` into `model_file` and, if there is a
/// `config_url`, the configuration into `config_file`.
#[derive(Debug, Clone, PartialEq)]
pub struct PiperInstallPlan {
    pub entry: VoiceEntry,
    pub model_file: String,
    pub config_file: String,
    pub model_url: String,
    pub config_url: Option<String>,
}

/// The Piper part of the catalog.
pub struct PiperCatalog {
    pub models_dir: String,
    pub entries: Vec<VoiceEntry>,
}

impl PiperCatalog {
    /// A catalog of the given voices, installed under `models_dir`.
    pub fn new(models_dir: String, entries: Vec<VoiceEntry>) -> (c: PiperCatalog)
        ensures
            c.models_dir == models_dir,
            c.entries == entries,
    {
        PiperCatalog { models_dir, entries }
    }

    /// The first voice with the given key.
    pub fn find_entry(&self, voice_key: &str) -> (r: Option<&VoiceEntry>)
        ensures
            match first_with_key(self.entries@, voice_key@) {
                Some(i) => r == Some(&self.entries@[i]),
                None => r is None,
            },
    {
        match find_index(&self.entries, voice_key) {
            Some(i) => Some(&self.entries[i]),
            None => None,
        }
    }

    /// The voices that can be installed.
    pub fn list_available(&self) -> (r: Vec<VoiceEntry>)
        ensures
            r@ == self.entries@,
    {
        copy_entries(&self.entries)
    }

    /// How to install a voice: refused for a voice not in the catalog or
    /// without a model URL.
    pub fn install_plan(&self, voice_key: &str) -> (r: Result<PiperInstallPlan, String>)
        ensures
            match first_with_key(self.entries@, voice_key@) {
                None => r is Err && r->Err_0@ == voice_not_found_message(voice_key@),
                Some(i) => match self.entries@[i].download_url {
                    None => r is Err && r->Err_0@ == "no download_url for voice '"@ + voice_key@
                        + "'"@,
                    Some(url) => r is Ok && r->Ok_0.entry == self.entries@[i]
                        && r->Ok_0.model_file@ == piper_model_file(voice_key@)
                        && r->Ok_0.config_file@ == piper_config_file(voice_key@)
                        && r->Ok_0.model_url == url && r->Ok_0.config_url
                        == self.entries@[i].config_url,
                },
            },
    {
        let i = match find_index(&self.entries, voice_key) {
            None => return Err(voice_not_found(voice_key)),
            Some(i) => i,
        };
        let entry = self.entries[i].copy();
        let model_url = match &entry.download_url {
            None => {
                let mut s = owned("no download_url for voice '");
                push_str(&mut s, voice_key);
                push_str(&mut s, "'");
                return Err(s);
            },
            Some(u) => u.clone(),
        };
        let config_url = copy_opt(&entry.config_url);
        Ok(PiperInstallPlan {
            entry,
            model_file: piper_model_file_name(voice_key),
            config_file: piper_config_file_name(voice_key),
            model_url,
            config_url,
        })
    }

    /// The installed voice a finished plan gives, with the model at
    /// `model_path`.
    pub fn installed_voice(plan: &PiperInstallPlan, model_path: String) -> (v: InstalledVoice)
        ensures
            v == installed_from(plan.entry, ModelType::Piper, model_path),
    {
        InstalledVoice {
            voice_key: plan.entry.voice_key.clone(),
            name: plan.entry.name.clone(),
            language: plan.entry.language.clone(),
            quality: plan.entry.quality.clone(),
            model_type: ModelType::Piper,
            model_path,
        }
    }

    /// The installed voice found in the directory `voice_key` with its model
    /// at `model_path`: described by its catalog entry, or by its key and
    /// "unknown" when the catalog does not know it.
    pub fn found_voice(&self, voice_key: &str, model_path: String) -> (v: InstalledVoice)
        ensures
            match first_with_key(self.entries@, voice_key@) {
                Some(i) => v == InstalledVoice {
                    voice_key: v.voice_key,
                    ..installed_from(self.entries@[i], ModelType::Piper, model_path)
                } && v.voice_key@ == voice_key@,
                None => v.voice_key@ == voice_key@ && v.name@ == voice_key@ && v.language@
                    == "unknown"@ && v.quality@ == "unknown"@ && v.model_type == ModelType::Piper
                    && v.model_path == model_path,
            },
    {
        match find_index(&self.entries, voice_key) {
            Some(i) => InstalledVoice {
                voice_key: owned(voice_key),
                name: self.entries[i].name.clone(),
                language: self.entries[i].language.clone(),
                quality: self.entries[i].quality.clone(),
                model_type: ModelType::Piper,
                model_path,
            },
            None => InstalledVoice {
                voice_key: owned(voice_key),
                name: owned(voice_key),
                language: owned("unknown"),
                quality: owned("unknown"),
                model_type: ModelType::Piper,
                model_path,
            },
        }
    }
}

/// A copy of a list of entries.
fn copy_entries(entries: &Vec<VoiceEntry>) -> (r: Vec<VoiceEntry>)
    ensures
        r@ == entries@,
{
    let mut r: Vec<VoiceEntry> = Vec::new();
    let mut i: usize = 0;
    while i < entries.len()
        invariant
            i <= entries@.len(),
            r@ == entries@.take(i as int),
        decreases entries.len() - i,
    {
        r.push(entries[i].copy());
        i = i + 1;
        assert(r@ =~= entries@.take(i as int));
    }
    assert(entries@.take(entries@.len() as int) =~= entries@);
    r
}

/// Whether a file's bytes match an expected checksum (sixteen lower-case
/// hexadecimal digits of the platform's default hash).
pub open spec fn checksum_of(hash: u64) -> Seq<char> {
    hex_digits(hash as nat, 16)
}

/// Feeds bytes to a hasher (`<[u8] as Hash>::hash`: a length prefix, then
/// the bytes).  The prefix is written in the platform's native width and
/// byte order, so nothing is claimed of the hasher's new state.
#[verifier::external_body]
fn hash_bytes(data: &[u8], hasher: &mut DefaultHasher) {
    data.hash(hasher);
}

/// The standard library's default hash of some bytes.  It depends on the
/// platform and the library's release, so nothing is claimed of it.
fn default_hash(data: &[u8]) -> (h: u64) {
    let mut hasher = DefaultHasher::new();
    hash_bytes(data, &mut hasher);
    hasher.finish()
}

/// The checksum of some bytes: the default hash as sixteen lower-case
/// hexadecimal digits.
pub fn simple_hash_hex(data: &[u8]) -> (s: String)
    ensures
        exists|h: u64| s@ == checksum_of(h),
        s@.len() == 16,
{
    let h = default_hash(data);
    let s = hex16(h);
    proof {
        lemma_hex_len(h as nat, 16);
        assert(s@ == checksum_of(h));
    }
    s
}

proof fn lemma_hex_len(n: nat, width: nat)
    ensures
        hex_digits(n, width).len() == width,
    decreases width,
{
    if width > 0 {
        lemma_hex_len(n / 16, (width - 1) as nat);
    }
}

/// Whether a hash, written as sixteen lower-case hexadecimal digits, is the
/// expected checksum.
pub fn checksum_matches(hash: u64, expected: &str) -> (r: bool)
    ensures
        r == (checksum_of(hash) == expected@),
{
    let digits = hex16(hash);
    str_eq(digits.as_str(), expected)
}

/// Whether a model file's bytes match the expected checksum.
pub fn verify_checksum(data: &[u8], expected: &str) -> (r: bool)
    ensures
        exists|h: u64| r == (checksum_of(h) == expected@),
        expected@.len() != 16 ==> !r,
{
    let h = default_hash(data);
    proof {
        lemma_hex_len(h as nat, 16);
    }
    checksum_matches(h, expected)
}

// ── Kokoro ───────────────────────────────────────────────────────

/// The repository the Kokoro files are downloaded from.
pub open spec fn kokoro_repo() -> Seq<char> {
    "onnx-community/Kokoro-82M-v1.0-ONNX"@
}

/// The download address of a file of the Kokoro repository.
pub open spec fn kokoro_url(path: Seq<char>) -> Seq<char> {
    "https://huggingface.co/"@ + kokoro_repo() + "/resolve/main/"@ + path
}

/// The file a Kokoro voice's embedding is stored in.
pub open spec fn kokoro_voice_file(key: Seq<char>) -> Seq<char> {
    key + ".bin"@
}

/// How to install a Kokoro voice: download the shared engine from
/// `engine_url` if it is missing, then the voice embedding from `voice_url`
/// into `voice_file`.
#[derive(Debug, Clone, PartialEq)]
pub struct KokoroInstallPlan {
    pub entry: VoiceEntry,
    pub engine_url: String,
    pub voice_url: String,
    pub voice_file: String,
}

/// The Kokoro part of the catalog: a fixed list of voices sharing one
/// engine file.
pub struct KokoroCatalog {
    pub models_dir: String,
    pub shared_engine_file: String,
}

/// The entry of the one Kokoro voice offered.
pub open spec fn af_heart_entry(e: VoiceEntry) -> bool {
    &&& e.voice_key@ == "af_heart"@
    &&& e.name@ == "Heart (American Female)"@
    &&& e.language@ == "en"@
    &&& e.quality@ == "high"@
    &&& e.size_bytes == 15_000_000
    &&& e.speed.is_some() && e.speed.unwrap()@ == "1.0x"@
    &&& e.model_type == ModelType::Kokoro
    &&& e.checksum is None
    &&& e.download_url is None
    &&& e.config_url is None
}

impl KokoroCatalog {
    /// A catalog whose files live under `models_dir`, with the shared engine
    /// in "kokoro_engine.onnx" there.
    pub fn new(models_dir: String) -> (c: KokoroCatalog)
        ensures
            c.models_dir == models_dir,
            c.shared_engine_file@ == "kokoro_engine.onnx"@,
    {
        KokoroCatalog { models_dir, shared_engine_file: owned("kokoro_engine.onnx") }
    }

    /// The voices offered: only "af_heart".
    pub fn hardcoded_voices() -> (r: Vec<VoiceEntry>)
        ensures
            r@.len() == 1,
            af_heart_entry(r@[0]),
    {
        let mut r = Vec::new();
        r.push(
            VoiceEntry {
                voice_key: owned("af_heart"),
                name: owned("Heart (American Female)"),
                language: owned("en"),
                quality: owned("high"),
                size_bytes: 15_000_000,
                speed: Some(owned("1.0x")),
                model_type: ModelType::Kokoro,
                checksum: None,
                download_url: None,
                config_url: None,
            },
        );
        r
    }

    /// The voices that can be installed.
    pub fn list_available(&self) -> (r: Vec<VoiceEntry>)
        ensures
            r@.len() == 1,
            af_heart_entry(r@[0]),
    {
        Self::hardcoded_voices()
    }

    /// The download address of a file of the repository.
    pub fn download_url(path: &str) -> (s: String)
        ensures
            s@ == kokoro_url(path@),
    {
        let mut s = owned("https://huggingface.co/");
        push_str(&mut s, "onnx-community/Kokoro-82M-v1.0-ONNX");
        push_str(&mut s, "/resolve/main/");
        push_str(&mut s, path);
        s
    }

    /// How to install a voice; refused for a voice not offered.
    pub fn install_plan(&self, voice_key: &str) -> (r: Result<KokoroInstallPlan, String>)
        ensures
            voice_key@ == "af_heart"@ ==> r is Ok && af_heart_entry(r->Ok_0.entry)
                && r->Ok_0.engine_url@ == kokoro_url("onnx/model_q4.onnx"@)
                && r->Ok_0.voice_url@ == kokoro_url("voices/"@ + voice_key@ + ".bin"@)
                && r->Ok_0.voice_file@ == kokoro_voice_file(voice_key@),
            voice_key@ != "af_heart"@ ==> r is Err && r->Err_0@ == voice_not_found_message(voice_key@),
    {
        let voices = Self::hardcoded_voices();
        let i = match find_index(&voices, voice_key) {
            None => {
                proof {
                    if voice_key@ == "af_heart"@ {
                        assert(voices@[0].voice_key@ == voice_key@);
                    }
                }
                return Err(voice_not_found(voice_key));
            },
            Some(i) => i,
        };
        let entry = voices[i].copy();
        let mut voice_path = owned("voices/");
        push_str(&mut voice_path, voice_key);
        push_str(&mut voice_path, ".bin");
        let mut voice_file = owned(voice_key);
        push_str(&mut voice_file, ".bin");
        Ok(KokoroInstallPlan {
            entry,
            engine_url: Self::download_url("onnx/model_q4.onnx"),
            voice_url: Self::download_url(voice_path.as_str()),
            voice_file,
        })
    }

    /// The installed voice a finished plan gives, with the embedding at
    /// `voice_path`.
    pub fn installed_voice(plan: &KokoroInstallPlan, voice_path: String) -> (v: InstalledVoice)
        ensures
            v == installed_from(plan.entry, ModelType::Kokoro, voice_path),
    {
        InstalledVoice {
            voice_key: plan.entry.voice_key.clone(),
            name: plan.entry.name.clone(),
            language: plan.entry.language.clone(),
            quality: plan.entry.quality.clone(),
            model_type: ModelType::Kokoro,
            model_path: voice_path,
        }
    }

    /// The installed voice a file of the models directory stands for: only
    /// files whose name ends in ".bin" do; the voice key is the name with
    /// every trailing ".bin" removed.
    pub fn found_voice(file_name: &str, path: String) -> (v: Option<InstalledVoice>)
        ensures
            !ends_with_bin(file_name@) ==> v is None,
            ends_with_bin(file_name@) ==> v is Some && v->Some_0.voice_key@ == strip_bin(file_name@)
                && v->Some_0.model_type == ModelType::Kokoro && v->Some_0.model_path == path && (
            if strip_bin(file_name@) == "af_heart"@ {
                v->Some_0.name@ == "Heart (American Female)"@ && v->Some_0.language@ == "en"@
                    && v->Some_0.quality@ == "high"@
            } else {
                v->Some_0.name@ == strip_bin(file_name@) && v->Some_0.language@ == "unknown"@
                    && v->Some_0.quality@ == "unknown"@
            }),
    {
        let chars = chars_of(file_name);
        if !chars_end_with_bin(&chars) {
            return None;
        }
        let key_chars = strip_bin_chars(&chars);
        let key = string_from_chars(&key_chars);
        let voices = Self::hardcoded_voices();
        let found = find_index(&voices, key.as_str());
        let (name, language, quality) = match found {
            Some(i) => (voices[i].name.clone(), voices[i].language.clone(), voices[i].quality.clone()),
            None => {
                proof {
                    if key@ == "af_heart"@ {
                        assert(voices@[0].voice_key@ == key@);
                    }
                }
                (key.clone(), owned("unknown"), owned("unknown"))
            },
        };
        Some(InstalledVoice {
            voice_key: key,
            name,
            language,
            quality,
            model_type: ModelType::Kokoro,
            model_path: path,
        })
    }
}

/// Whether a name ends in ".bin".
pub open spec fn ends_with_bin(s: Seq<char>) -> bool {
    s.len() >= 4 && s.subrange(s.len() - 4, s.len() as int) == ".bin"@
}

/// A name with every trailing ".bin" removed.
pub open spec fn strip_bin(s: Seq<char>) -> Seq<char>
    decreases s.len(),
{
    if ends_with_bin(s) {
        strip_bin(s.subrange(0, s.len() - 4))
    } else {
        s
    }
}

fn chars_end_with_bin(s: &Vec<char>) -> (r: bool)
    ensures
        r == ends_with_bin(s@),
{
    proof {
        reveal_strlit(".bin");
    }
    let n = s.len();
    if n < 4 {
        return false;
    }
    let r = s[n - 4] == '.' && s[n - 3] == 'b' && s[n - 2] == 'i' && s[n - 1] == 'n';
    proof {
        let t = s@.subrange(n - 4, n as int);
        if r {
            assert(t =~= ".bin"@);
        } else {
            if t == ".bin"@ {
                assert(t[0] == s@[n - 4]);
                assert(t[1] == s@[n - 3]);
                assert(t[2] == s@[n - 2]);
                assert(t[3] == s@[n - 1]);
            }
        }
    }
    r
}

fn strip_bin_chars(s: &Vec<char>) -> (r: Vec<char>)
    ensures
        r@ == strip_bin(s@),
{
    proof {
        reveal_strlit(".bin");
    }
    let mut n = s.len();
    assert(s@.take(n as int) =~= s@);
    while n >= 4 && s[n - 4] == '.' && s[n - 3] == 'b' && s[n - 2] == 'i' && s[n - 1] == 'n'
        invariant
            n <= s@.len(),
            strip_bin(s@) == strip_bin(s@.take(n as int)),
        decreases n,
    {
        proof {
            reveal_strlit(".bin");
            let t = s@.take(n as int);
            assert(t.subrange(t.len() - 4, t.len() as int) =~= ".bin"@);
            assert(t.subrange(0, t.len() - 4) =~= s@.take(n - 4));
        }
        n = n - 4;
    }
    proof {
        let t = s@.take(n as int);
        if ends_with_bin(t) {
            let u = t.subrange(t.len() - 4, t.len() as int);
            assert(u[0] == s@[n - 4]);
            assert(u[1] == s@[n - 3]);
            assert(u[2] == s@[n - 2]);
            assert(u[3] == s@[n - 1]);
        }
    }
    let mut r: Vec<char> = Vec::new();
    let mut k: usize = 0;
    while k < n
        invariant
            k <= n <= s@.len(),
            r@ == s@.take(k as int),
        decreases n - k,
    {
        r.push(s[k]);
        k = k + 1;
        assert(r@ =~= s@.take(k as int));
    }
    r
}

// ── The whole catalog ────────────────────────────────────────────

/// The entries of one engine, in order.
pub open spec fn entries_of(s: Seq<VoiceEntry>, t: ModelType) -> Seq<VoiceEntry> {
    s.filter(|e: VoiceEntry| e.model_type == t)
}

/// The catalog over both engines.
pub struct VoiceCatalog {
    pub piper: PiperCatalog,
    pub kokoro: KokoroCatalog,
    pub entries: Vec<VoiceEntry>,
}

impl VoiceCatalog {
    /// A catalog of the given voices: the Piper ones are installed under
    /// `piper_models_dir`, the Kokoro ones under `kokoro_models_dir`.
    pub fn new(piper_models_dir: String, kokoro_models_dir: String, entries: Vec<VoiceEntry>) -> (c: VoiceCatalog)
        ensures
            c.entries@ == entries@,
            c.piper.models_dir == piper_models_dir,
            c.piper.entries@ == entries_of(entries@, ModelType::Piper),
            c.kokoro.models_dir == kokoro_models_dir,
    {
        let mut piper_entries: Vec<VoiceEntry> = Vec::new();
        let mut i: usize = 0;
        while i < entries.len()
            invariant
                i <= entries@.len(),
                piper_entries@ == entries_of(entries@.take(i as int), ModelType::Piper),
            decreases entries.len() - i,
        {
            proof {
                assert(entries@.take(i + 1).drop_last() =~= entries@.take(i as int));
                reveal(Seq::filter);
            }
            if entries[i].model_type == ModelType::Piper {
                piper_entries.push(entries[i].copy());
            }
            i = i + 1;
        }
        assert(entries@.take(entries@.len() as int) =~= entries@);
        VoiceCatalog {
            piper: PiperCatalog::new(piper_models_dir, piper_entries),
            kokoro: KokoroCatalog::new(kokoro_models_dir),
            entries,
        }
    }

    /// The voices that can be installed.
    pub fn list_available(&self) -> (r: Vec<VoiceEntry>)
        ensures
            r@ == self.entries@,
    {
        copy_entries(&self.entries)
    }

    /// Which engine installs a voice: the engine of its first catalog entry;
    /// refused for a voice not in the catalog.
    pub fn install_backend(&self, voice_key: &str) -> (r: Result<ModelType, String>)
        ensures
            match first_with_key(self.entries@, voice_key@) {
                Some(i) => r == Ok::<ModelType, String>(self.entries@[i].model_type),
                None => r is Err && r->Err_0@ == voice_not_found_message(voice_key@),
            },
    {
        match find_index(&self.entries, voice_key) {
            Some(i) => Ok(self.entries[i].model_type),
            None => Err(voice_not_found(voice_key)),
        }
    }
}

/// The position of the first installed voice with the given key.
pub open spec fn first_installed(s: Seq<InstalledVoice>, key: Seq<char>) -> Option<int> {
    if exists|i: int| 0 <= i < s.len() && (#[trigger] s[i]).voice_key@ == key {
        Some(
            choose|i: int|
                0 <= i < s.len() && (#[trigger] s[i]).voice_key@ == key && forall|j: int|
                    0 <= j < i ==> (#[trigger] s[j]).voice_key@ != key,
        )
    } else {
        None
    }
}

/// Which engine removes an installed voice: the engine of the first
/// installed voice with the key; nothing to remove when none has it.
pub fn uninstall_backend(installed: &Vec<InstalledVoice>, voice_key: &str) -> (r: Option<ModelType>)
    ensures
        match first_installed(installed@, voice_key@) {
            Some(i) => r == Some(installed@[i].model_type),
            None => r is None,
        },
{
    let mut i: usize = 0;
    while i < installed.len()
        invariant
            i <= installed@.len(),
            forall|j: int| 0 <= j < i ==> (#[trigger] installed@[j]).voice_key@ != voice_key@,
        decreases installed.len() - i,
    {
        if str_eq(installed[i].voice_key.as_str(), voice_key) {
            proof {
                let s = installed@;
                let k = choose|k: int|
                    0 <= k < s.len() && (#[trigger] s[k]).voice_key@ == voice_key@ && forall|j: int|
                        0 <= j < k ==> (#[trigger] s[j]).voice_key@ != voice_key@;
                assert(0 <= k < s.len() && s[k].voice_key@ == voice_key@ && forall|j: int|
                    0 <= j < k ==> (#[trigger] s[j]).voice_key@ != voice_key@);
                if k < i {
                    assert(s[k].voice_key@ != voice_key@);
                }
                if (i as int) < k {
                    assert(s[i as int].voice_key@ != voice_key@);
                }
            }
            return Some(installed[i].model_type);
        }
        i = i + 1;
    }
    None
}

} // verus!
