//! In-memory queue of text messages and synthesized speech.
//!
//! A text message enters the queue as `Pending`, is marked `Processing` while
//! the transcriber synthesizes it, and is then replaced in place by a
//! `Speech` item that the player takes through `ToPlay`, `Playing`,
//! `Paused` and `Played`.  Item ids are handed out in increasing order and are
//! never shared by two items of the queue.
use vstd::prelude::*;
use crate::text::{decimal, owned, push_decimal, push_str};

verus! {

/// Where a text message stands on its way to speech.
#[derive(Debug, Clone, Copy, PartialEq, Eq, Structural)]
pub enum TextMessageStatus {
    Pending,
    Processing,
}

/// Where a speech item stands in playback.
#[derive(Debug, Clone, Copy, PartialEq, Eq, Structural)]
pub enum SpeechStatus {
    ToPlay,
    Playing,
    Paused,
    Played,
}

/// One entry of the queue.
#[derive(Debug, Clone, PartialEq)]
pub enum QueueItem {
    TextMessage { id: u64, text: String, status: TextMessageStatus },
    Speech {
        id: u64,
        text: String,
        audio_path: Option<String>,
        voice_key: Option<String>,
        language: Option<String>,
        status: SpeechStatus,
    },
}

impl QueueItem {
    pub open spec fn spec_id(&self) -> u64 {
        match *self {
            QueueItem::TextMessage { id, .. } => id,
            QueueItem::Speech { id, .. } => id,
        }
    }

    /// The item's id.
    #[verifier::when_used_as_spec(spec_id)]
    pub fn id(&self) -> (r: u64)
        ensures
            r == self.spec_id(),
    {
        match self {
            QueueItem::TextMessage { id, .. } => *id,
            QueueItem::Speech { id, .. } => *id,
        }
    }
}

/// Whether an item is a text message waiting for synthesis.
pub open spec fn is_pending_text(item: QueueItem) -> bool {
    item matches QueueItem::TextMessage { status: TextMessageStatus::Pending, .. }
}

/// Whether an item is a speech waiting to be played.
pub open spec fn is_to_play(item: QueueItem) -> bool {
    item matches QueueItem::Speech { status: SpeechStatus::ToPlay, .. }
}

/// Whether some item of `s` has the id `id`.
pub open spec fn has_id(s: Seq<QueueItem>, id: u64) -> bool {
    exists|i: int| 0 <= i < s.len() && #[trigger] s[i].spec_id() == id
}

/// The position of the item with id `id` (meaningful when `has_id` holds).
pub open spec fn index_of_id(s: Seq<QueueItem>, id: u64) -> int {
    choose|i: int| 0 <= i < s.len() && #[trigger] s[i].spec_id() == id
}

/// No two items share an id.
pub open spec fn ids_unique(s: Seq<QueueItem>) -> bool {
    forall|i: int, j: int|
        0 <= i < s.len() && 0 <= j < s.len() && i != j ==> #[trigger] s[i].spec_id()
            != #[trigger] s[j].spec_id()
}

/// Every id of `s` is below `bound`.
pub open spec fn ids_below(s: Seq<QueueItem>, bound: u64) -> bool {
    forall|i: int| 0 <= i < s.len() ==> #[trigger] s[i].spec_id() < bound
}

/// Whether an item waits for the transcriber (`text`) or for the player.
pub open spec fn is_waiting(item: QueueItem, text: bool) -> bool {
    if text {
        is_pending_text(item)
    } else {
        is_to_play(item)
    }
}

/// The position of the first waiting item, if any.
pub open spec fn first_waiting_index(s: Seq<QueueItem>, text: bool) -> Option<int> {
    if exists|i: int| 0 <= i < s.len() && is_waiting(#[trigger] s[i], text) {
        Some(
            choose|i: int|
                0 <= i < s.len() && is_waiting(#[trigger] s[i], text) && forall|j: int|
                    0 <= j < i ==> !is_waiting(#[trigger] s[j], text),
        )
    } else {
        None
    }
}

/// The first waiting item's position and id.
pub open spec fn first_waiting(s: Seq<QueueItem>, text: bool) -> Option<(usize, u64)> {
    match first_waiting_index(s, text) {
        Some(i) => Some((i as usize, s[i].spec_id())),
        None => None,
    }
}

/// A text message with another status; other items unchanged.
pub open spec fn with_text_status(item: QueueItem, status: TextMessageStatus) -> QueueItem {
    match item {
        QueueItem::TextMessage { id, text, .. } => QueueItem::TextMessage { id, text, status },
        _ => item,
    }
}

/// A speech item with another status; other items unchanged.
pub open spec fn with_speech_status(item: QueueItem, status: SpeechStatus) -> QueueItem {
    match item {
        QueueItem::Speech { id, text, audio_path, voice_key, language, .. } => QueueItem::Speech {
            id,
            text,
            audio_path,
            voice_key,
            language,
            status,
        },
        _ => item,
    }
}

/// The speech that replaces a text message: same id and text, ready to play.
pub open spec fn as_speech(
    item: QueueItem,
    audio_path: Option<String>,
    voice_key: Option<String>,
    language: Option<String>,
) -> QueueItem {
    match item {
        QueueItem::TextMessage { id, text, .. } => QueueItem::Speech {
            id,
            text,
            audio_path,
            voice_key,
            language,
            status: SpeechStatus::ToPlay,
        },
        _ => item,
    }
}

/// The message of a lookup for an id that no item has.
pub open spec fn not_found_message(id: u64) -> Seq<char> {
    "item with id "@ + decimal(id as nat) + " not found"@
}

/// "item with id {id} not found".
pub fn not_found_error(id: u64) -> (s: String)
    ensures
        s@ == not_found_message(id),
{
    let mut s = owned("item with id ");
    push_decimal(&mut s, id);
    push_str(&mut s, " not found");
    s
}

/// Settings of the queue that outlive a run.
#[derive(Debug, Clone, Copy, PartialEq, Eq, Structural)]
pub struct QueueConfig {
    pub max_items: usize,
    pub auto_read: bool,
    pub show_overlay: bool,
}

impl QueueConfig {
    /// The settings a fresh installation starts with: fifty items, auto-read
    /// and overlay on.
    pub fn default_config() -> (c: QueueConfig)
        ensures
            c == (QueueConfig { max_items: 50, auto_read: true, show_overlay: true }),
    {
        QueueConfig { max_items: 50, auto_read: true, show_overlay: true }
    }
}

impl Default for QueueConfig {
    fn default() -> (c: QueueConfig)
        ensures
            c == (QueueConfig { max_items: 50, auto_read: true, show_overlay: true }),
    {
        QueueConfig::default_config()
    }
}

/// The queue: its items in order, the next id to hand out, its settings and
/// the file its settings are saved to.
pub struct Queue {
    items: Vec<QueueItem>,
    next_id: u64,
    config: QueueConfig,
    config_path: Option<String>,
}

impl View for Queue {
    type V = Seq<QueueItem>;

    closed spec fn view(&self) -> Seq<QueueItem> {
        self.items@
    }
}

impl Queue {
    #[verifier::type_invariant]
    closed spec fn inv(self) -> bool {
        &&& self.next_id >= 1
        &&& ids_unique(self.items@)
        &&& ids_below(self.items@, self.next_id)
    }

    /// The id the next added item receives.
    pub closed spec fn spec_next_id(&self) -> u64 {
        self.next_id
    }

    pub closed spec fn spec_config(&self) -> QueueConfig {
        self.config
    }

    pub closed spec fn spec_config_path(&self) -> Option<String> {
        self.config_path
    }

    /// Whether the queue holds as many items as its settings allow
    /// (a limit of zero means no limit).
    pub open spec fn is_full(&self) -> bool {
        self.spec_config().max_items > 0 && self@.len() >= self.spec_config().max_items
    }

    /// An empty queue with default settings and no settings file; ids start
    /// at one.
    pub fn new() -> (q: Queue)
        ensures
            q@ == Seq::<QueueItem>::empty(),
            q.spec_next_id() == 1,
            q.spec_config() == (QueueConfig { max_items: 50, auto_read: true, show_overlay: true }),
            q.spec_config_path() == None::<String>,
    {
        Queue {
            items: Vec::new(),
            next_id: 1,
            config: QueueConfig::default_config(),
            config_path: None,
        }
    }

    /// The same queue with other settings.
    pub fn with_config(self, config: QueueConfig) -> (q: Queue)
        ensures
            q@ == self@,
            q.spec_next_id() == self.spec_next_id(),
            q.spec_config() == config,
            q.spec_config_path() == self.spec_config_path(),
    {
        proof {
            use_type_invariant(&self);
        }
        let Queue { items, next_id, config: _, config_path } = self;
        Queue { items, next_id, config, config_path }
    }

    /// The same queue, saving its settings to `path`.
    pub fn with_config_path(self, path: String) -> (q: Queue)
        ensures
            q@ == self@,
            q.spec_next_id() == self.spec_next_id(),
            q.spec_config() == self.spec_config(),
            q.spec_config_path() == Some(path),
    {
        proof {
            use_type_invariant(&self);
        }
        let Queue { items, next_id, config, config_path: _ } = self;
        Queue { items, next_id, config, config_path: Some(path) }
    }

    /// The current settings.
    pub fn config(&self) -> (c: QueueConfig)
        ensures
            c == self.spec_config(),
    {
        self.config
    }

    /// The id the next added item receives.
    pub fn next_id(&self) -> (r: u64)
        ensures
            r == self.spec_next_id(),
    {
        self.next_id
    }

    /// The file the settings are saved to, or the error that there is none.
    pub fn config_path(&self) -> (r: Result<&String, String>)
        ensures
            match self.spec_config_path() {
                Some(p) => r == Ok::<&String, String>(&p),
                None => r is Err && r->Err_0@ == "no config path configured"@,
            },
    {
        match &self.config_path {
            Some(p) => Ok(p),
            None => Err(owned("no config path configured")),
        }
    }
}


impl Queue {
    /// The position of the item with id `id`, if there is one.
    fn position_of(&self, id: u64) -> (r: Option<usize>)
        ensures
            match r {
                Some(i) => i < self@.len() && self@[i as int].spec_id() == id && i as int
                    == index_of_id(self@, id),
                None => !has_id(self@, id),
            },
    {
        proof {
            use_type_invariant(self);
        }
        let mut i: usize = 0;
        while i < self.items.len()
            invariant
                i <= self.items@.len(),
                ids_unique(self.items@),
                forall|j: int| 0 <= j < i ==> #[trigger] self.items@[j].spec_id() != id,
            decreases self.items.len() - i,
        {
            if self.items[i].id() == id {
                proof {
                    let k = index_of_id(self@, id);
                    assert(self@[i as int].spec_id() == id);
                    assert(0 <= k < self@.len() && self@[k].spec_id() == id);
                    if k != i {
                        assert(self.items@[k].spec_id() != self.items@[i as int].spec_id());
                    }
                }
                return Some(i);
            }
            i = i + 1;
        }
        None
    }

    /// The position and id of the first waiting item.
    fn find_waiting(&self, text: bool) -> (r: Option<(usize, u64)>)
        ensures
            r == first_waiting(self@, text),
            match r {
                Some((j, id)) => {
                    &&& first_waiting_index(self@, text) == Some(j as int)
                    &&& j < self@.len()
                    &&& is_waiting(self@[j as int], text)
                    &&& id == self@[j as int].spec_id()
                },
                None => first_waiting_index(self@, text) is None && forall|j: int|
                    0 <= j < self@.len() ==> !is_waiting(#[trigger] self@[j], text),
            },
    {
        let mut i: usize = 0;
        while i < self.items.len()
            invariant
                i <= self.items@.len(),
                forall|j: int| 0 <= j < i ==> !is_waiting(#[trigger] self.items@[j], text),
            decreases self.items.len() - i,
        {
            let hit = match &self.items[i] {
                QueueItem::TextMessage { status: TextMessageStatus::Pending, .. } => text,
                QueueItem::Speech { status: SpeechStatus::ToPlay, .. } => !text,
                _ => false,
            };
            if hit {
                proof {
                    lemma_first_waiting(self@, text, i as int);
                }
                return Some((i, self.items[i].id()));
            }
            i = i + 1;
        }
        None
    }
}

/// The first waiting position is the one before which nothing waits.
proof fn lemma_first_waiting(s: Seq<QueueItem>, text: bool, i: int)
    requires
        0 <= i < s.len(),
        is_waiting(s[i], text),
        forall|j: int| 0 <= j < i ==> !is_waiting(#[trigger] s[j], text),
    ensures
        first_waiting_index(s, text) == Some(i),
{
    let k = choose|k: int|
        0 <= k < s.len() && is_waiting(#[trigger] s[k], text) && forall|j: int|
            0 <= j < k ==> !is_waiting(#[trigger] s[j], text);
    assert(0 <= k < s.len() && is_waiting(s[k], text) && forall|j: int|
        0 <= j < k ==> !is_waiting(#[trigger] s[j], text));
    if k < i {
        assert(!is_waiting(s[k], text));
    }
    if i < k {
        assert(!is_waiting(s[i], text));
    }
}

/// Removing one item keeps ids unique and bounded, and drops the removed id.
proof fn lemma_remove_keeps_ids(s: Seq<QueueItem>, i: int, bound: u64)
    requires
        0 <= i < s.len(),
        ids_unique(s),
        ids_below(s, bound),
    ensures
        ids_unique(s.remove(i)),
        ids_below(s.remove(i), bound),
        !has_id(s.remove(i), s[i].spec_id()),
        forall|id: u64| #[trigger] has_id(s.remove(i), id) ==> has_id(s, id),
{
    s.remove_ensures(i);
    let t = s.remove(i);
    assert forall|a: int, b: int|
        0 <= a < t.len() && 0 <= b < t.len() && a != b implies #[trigger] t[a].spec_id()
        != #[trigger] t[b].spec_id() by {
        let a2 = if a < i { a } else { a + 1 };
        let b2 = if b < i { b } else { b + 1 };
        assert(t[a] == s[a2]);
        assert(t[b] == s[b2]);
        assert(s[a2].spec_id() != s[b2].spec_id());
    }
    assert forall|a: int| 0 <= a < t.len() implies #[trigger] t[a].spec_id() < bound by {
        let a2 = if a < i { a } else { a + 1 };
        assert(t[a] == s[a2]);
    }
    if has_id(t, s[i].spec_id()) {
        let a = choose|a: int| 0 <= a < t.len() && #[trigger] t[a].spec_id() == s[i].spec_id();
        let a2 = if a < i { a } else { a + 1 };
        assert(t[a] == s[a2]);
        assert(s[a2].spec_id() != s[i].spec_id());
    }
    assert forall|id: u64| #[trigger] has_id(t, id) implies has_id(s, id) by {
        let a = choose|a: int| 0 <= a < t.len() && #[trigger] t[a].spec_id() == id;
        let a2 = if a < i { a } else { a + 1 };
        assert(t[a] == s[a2]);
    }
}

/// Inserting an item with a fresh id keeps ids unique and bounded.
proof fn lemma_insert_keeps_ids(u: Seq<QueueItem>, k: int, x: QueueItem, bound: u64)
    requires
        0 <= k <= u.len(),
        ids_unique(u),
        ids_below(u, bound),
        !has_id(u, x.spec_id()),
        x.spec_id() < bound,
    ensures
        ids_unique(u.insert(k, x)),
        ids_below(u.insert(k, x), bound),
{
    u.insert_ensures(k, x);
    let t = u.insert(k, x);
    assert forall|a: int| 0 <= a < t.len() implies #[trigger] t[a].spec_id() < bound by {
        if a < k {
            assert(t[a] == u[a]);
        } else if a > k {
            assert(t[(a - 1) + 1] == u[a - 1]);
        }
    }
    assert forall|a: int, b: int|
        0 <= a < t.len() && 0 <= b < t.len() && a != b implies #[trigger] t[a].spec_id()
        != #[trigger] t[b].spec_id() by {
        if a != k && b != k {
            let a2 = if a < k { a } else { a - 1 };
            let b2 = if b < k { b } else { b - 1 };
            if a < k { assert(t[a] == u[a2]); } else { assert(t[a2 + 1] == u[a2]); }
            if b < k { assert(t[b] == u[b2]); } else { assert(t[b2 + 1] == u[b2]); }
        } else if a == k {
            let b2 = if b < k { b } else { b - 1 };
            if b < k { assert(t[b] == u[b2]); } else { assert(t[b2 + 1] == u[b2]); }
            assert(u[b2].spec_id() != x.spec_id());
        } else {
            let a2 = if a < k { a } else { a - 1 };
            if a < k { assert(t[a] == u[a2]); } else { assert(t[a2 + 1] == u[a2]); }
            assert(u[a2].spec_id() != x.spec_id());
        }
    }
}

/// The index an item is moved to: `new_index`, or the last position when
/// `new_index` lies past it.
pub open spec fn clamped_index(new_index: usize, len: nat) -> int {
    if new_index < len - 1 {
        new_index as int
    } else {
        len - 1
    }
}

/// Queue operations offered to the user interface.
pub trait QueueControllable {
    /// Whether adding an item cannot exhaust the id counter.
    spec fn can_add(&self) -> bool;

    /// The items, in queue order.
    fn items(&self) -> &[QueueItem];

    /// Appends a pending text message and returns its id.
    fn add_text(&mut self, text: String) -> Result<u64, String>
        requires
            old(self).can_add(),
    ;

    /// Removes the item with the given id.
    fn remove(&mut self, id: u64) -> Result<(), String>;

    /// Removes every item.
    fn clear(&mut self) -> Result<(), String>;

    /// Moves the item with the given id to `new_index`, or to the end when
    /// `new_index` is past it.
    fn reorder(&mut self, id: u64, new_index: usize) -> Result<(), String>;
}

impl QueueControllable for Queue {
    open spec fn can_add(&self) -> bool {
        self.is_full() || self.spec_next_id() < u64::MAX
    }

    fn items(&self) -> (r: &[QueueItem])
        ensures
            r@ == self@,
    {
        self.items.as_slice()
    }

    fn add_text(&mut self, text: String) -> (r: Result<u64, String>)
        ensures
            old(self).is_full() ==> {
                &&& r is Err
                &&& r->Err_0@ == "queue is full"@
                &&& final(self)@ == old(self)@
                &&& final(self).spec_next_id() == old(self).spec_next_id()
            },
            !old(self).is_full() ==> {
                &&& r == Ok::<u64, String>(old(self).spec_next_id())
                &&& final(self)@ == old(self)@.push(
                    QueueItem::TextMessage {
                        id: old(self).spec_next_id(),
                        text,
                        status: TextMessageStatus::Pending,
                    },
                )
                &&& final(self).spec_next_id() == old(self).spec_next_id() + 1
                &&& !has_id(old(self)@, old(self).spec_next_id())
                &&& forall|k: int|
                    0 <= k < old(self)@.len() ==> #[trigger] old(self)@[k].spec_id() < old(self).spec_next_id()
            },
            final(self).spec_config() == old(self).spec_config(),
            final(self).spec_config_path() == old(self).spec_config_path(),
            ids_unique(final(self)@),
    {
        proof {
            use_type_invariant(&*self);
        }
        if self.config.max_items > 0 && self.items.len() >= self.config.max_items {
            return Err(owned("queue is full"));
        }
        let id = self.next_id;
        let mut items: Vec<QueueItem> = Vec::new();
        std::mem::swap(&mut items, &mut self.items);
        items.push(QueueItem::TextMessage { id, text, status: TextMessageStatus::Pending });
        self.next_id = id + 1;
        self.items = items;
        Ok(id)
    }

    fn remove(&mut self, id: u64) -> (r: Result<(), String>)
        ensures
            has_id(old(self)@, id) ==> {
                &&& r is Ok
                &&& final(self)@ == old(self)@.remove(index_of_id(old(self)@, id))
            },
            !has_id(old(self)@, id) ==> {
                &&& r is Err
                &&& r->Err_0@ == not_found_message(id)
                &&& final(self)@ == old(self)@
            },
            !has_id(final(self)@, id),
            final(self).spec_next_id() == old(self).spec_next_id(),
            final(self).spec_config() == old(self).spec_config(),
            final(self).spec_config_path() == old(self).spec_config_path(),
            ids_unique(final(self)@),
    {
        proof {
            use_type_invariant(&*self);
        }
        match self.position_of(id) {
            None => Err(not_found_error(id)),
            Some(i) => {
                proof {
                    lemma_remove_keeps_ids(self@, i as int, self.next_id);
                }
                let mut items: Vec<QueueItem> = Vec::new();
                std::mem::swap(&mut items, &mut self.items);
                items.remove(i);
                self.items = items;
                Ok(())
            },
        }
    }

    fn clear(&mut self) -> (r: Result<(), String>)
        ensures
            r is Ok,
            final(self)@ == Seq::<QueueItem>::empty(),
            final(self).spec_next_id() == old(self).spec_next_id(),
            final(self).spec_config() == old(self).spec_config(),
            final(self).spec_config_path() == old(self).spec_config_path(),
    {
        proof {
            use_type_invariant(&*self);
        }
        self.items = Vec::new();
        Ok(())
    }

    fn reorder(&mut self, id: u64, new_index: usize) -> (r: Result<(), String>)
        ensures
            has_id(old(self)@, id) ==> {
                let i = index_of_id(old(self)@, id);
                &&& r is Ok
                &&& final(self)@ == old(self)@.remove(i).insert(
                    clamped_index(new_index, old(self)@.len()),
                    old(self)@[i],
                )
            },
            !has_id(old(self)@, id) ==> {
                &&& r is Err
                &&& r->Err_0@ == not_found_message(id)
                &&& final(self)@ == old(self)@
            },
            final(self).spec_next_id() == old(self).spec_next_id(),
            final(self).spec_config() == old(self).spec_config(),
            final(self).spec_config_path() == old(self).spec_config_path(),
            ids_unique(final(self)@),
    {
        proof {
            use_type_invariant(&*self);
        }
        let old_index = match self.position_of(id) {
            None => return Err(not_found_error(id)),
            Some(i) => i,
        };
        let last = self.items.len() - 1;
        let clamped = if new_index < last { new_index } else { last };
        let ghost s = self@;
        if old_index == clamped {
            proof {
                s.remove_ensures(old_index as int);
                s.remove(old_index as int).insert_ensures(clamped as int, s[old_index as int]);
                assert(s.remove(old_index as int).insert(clamped as int, s[old_index as int]) =~= s);
            }
            return Ok(());
        }
        proof {
            lemma_remove_keeps_ids(s, old_index as int, self.next_id);
            lemma_insert_keeps_ids(s.remove(old_index as int), clamped as int, s[old_index as int], self.next_id);
        }
        let mut items: Vec<QueueItem> = Vec::new();
        std::mem::swap(&mut items, &mut self.items);
        let item = items.remove(old_index);
        items.insert(clamped, item);
        self.items = items;
        Ok(())
    }
}


/// Queue operations of the transcriber.
pub trait Transcribable {
    /// The position and id of the first text message waiting for synthesis.
    fn next_pending_text_message(&self) -> Option<(usize, u64)>;

    /// Sets the status of the text message with the given id.
    fn set_text_message_status(&mut self, id: u64, status: TextMessageStatus) -> Result<(), String>;

    /// Replaces the text message with the given id, in place, by a speech
    /// item ready to play.
    fn replace_with_speech(
        &mut self,
        id: u64,
        audio_path: Option<String>,
        voice_key: Option<String>,
        language: Option<String>,
    ) -> Result<(), String>;
}

/// Queue operations of the player.
pub trait Playable {
    /// The position and id of the first speech waiting to be played.
    fn next_to_play_speech(&self) -> Option<(usize, u64)>;

    /// Sets the status of the speech item with the given id.
    fn set_speech_status(&mut self, id: u64, status: SpeechStatus) -> Result<(), String>;
}

impl Transcribable for Queue {
    fn next_pending_text_message(&self) -> (r: Option<(usize, u64)>)
        ensures
            r == first_waiting(self@, true),
    {
        self.find_waiting(true)
    }

    fn set_text_message_status(&mut self, id: u64, status: TextMessageStatus) -> (r: Result<(), String>)
        ensures
            !has_id(old(self)@, id) ==> {
                &&& r is Err
                &&& r->Err_0@ == not_found_message(id)
                &&& final(self)@ == old(self)@
            },
            has_id(old(self)@, id) ==> {
                let i = index_of_id(old(self)@, id);
                if old(self)@[i] is TextMessage {
                    &&& r is Ok
                    &&& final(self)@ == old(self)@.update(i, with_text_status(old(self)@[i], status))
                } else {
                    &&& r is Err
                    &&& r->Err_0@ == "item is not a TextMessage"@
                    &&& final(self)@ == old(self)@
                }
            },
            final(self).spec_next_id() == old(self).spec_next_id(),
            final(self).spec_config() == old(self).spec_config(),
            final(self).spec_config_path() == old(self).spec_config_path(),
            ids_unique(final(self)@),
    {
        proof {
            use_type_invariant(&*self);
        }
        let i = match self.position_of(id) {
            None => return Err(not_found_error(id)),
            Some(i) => i,
        };
        let text = match &self.items[i] {
            QueueItem::TextMessage { text, .. } => text.clone(),
            _ => return Err(owned("item is not a TextMessage")),
        };
        let item = QueueItem::TextMessage { id, text, status };
        proof {
            lemma_update_keeps_ids(self@, i as int, item, self.next_id);
        }
        let mut items: Vec<QueueItem> = Vec::new();
        std::mem::swap(&mut items, &mut self.items);
        items.set(i, item);
        self.items = items;
        Ok(())
    }

    fn replace_with_speech(
        &mut self,
        id: u64,
        audio_path: Option<String>,
        voice_key: Option<String>,
        language: Option<String>,
    ) -> (r: Result<(), String>)
        ensures
            !has_id(old(self)@, id) ==> {
                &&& r is Err
                &&& r->Err_0@ == not_found_message(id)
                &&& final(self)@ == old(self)@
            },
            has_id(old(self)@, id) ==> {
                let i = index_of_id(old(self)@, id);
                if old(self)@[i] is TextMessage {
                    &&& r is Ok
                    &&& final(self)@ == old(self)@.update(
                        i,
                        as_speech(old(self)@[i], audio_path, voice_key, language),
                    )
                } else {
                    &&& r is Err
                    &&& r->Err_0@ == "item is not a TextMessage"@
                    &&& final(self)@ == old(self)@
                }
            },
            final(self).spec_next_id() == old(self).spec_next_id(),
            final(self).spec_config() == old(self).spec_config(),
            final(self).spec_config_path() == old(self).spec_config_path(),
            ids_unique(final(self)@),
    {
        proof {
            use_type_invariant(&*self);
        }
        let i = match self.position_of(id) {
            None => return Err(not_found_error(id)),
            Some(i) => i,
        };
        let text = match &self.items[i] {
            QueueItem::TextMessage { text, .. } => text.clone(),
            _ => return Err(owned("item is not a TextMessage")),
        };
        let item = QueueItem::Speech {
            id,
            text,
            audio_path,
            voice_key,
            language,
            status: SpeechStatus::ToPlay,
        };
        proof {
            lemma_update_keeps_ids(self@, i as int, item, self.next_id);
        }
        let mut items: Vec<QueueItem> = Vec::new();
        std::mem::swap(&mut items, &mut self.items);
        items.set(i, item);
        self.items = items;
        Ok(())
    }
}

impl Playable for Queue {
    fn next_to_play_speech(&self) -> (r: Option<(usize, u64)>)
        ensures
            r == first_waiting(self@, false),
    {
        self.find_waiting(false)
    }

    fn set_speech_status(&mut self, id: u64, status: SpeechStatus) -> (r: Result<(), String>)
        ensures
            !has_id(old(self)@, id) ==> {
                &&& r is Err
                &&& r->Err_0@ == not_found_message(id)
                &&& final(self)@ == old(self)@
            },
            has_id(old(self)@, id) ==> {
                let i = index_of_id(old(self)@, id);
                if old(self)@[i] is Speech {
                    &&& r is Ok
                    &&& final(self)@ == old(self)@.update(i, with_speech_status(old(self)@[i], status))
                } else {
                    &&& r is Err
                    &&& r->Err_0@ == "item is not a Speech"@
                    &&& final(self)@ == old(self)@
                }
            },
            final(self).spec_next_id() == old(self).spec_next_id(),
            final(self).spec_config() == old(self).spec_config(),
            final(self).spec_config_path() == old(self).spec_config_path(),
            ids_unique(final(self)@),
    {
        proof {
            use_type_invariant(&*self);
        }
        let i = match self.position_of(id) {
            None => return Err(not_found_error(id)),
            Some(i) => i,
        };
        let item = match &self.items[i] {
            QueueItem::Speech { text, audio_path, voice_key, language, .. } => QueueItem::Speech {
                id,
                text: text.clone(),
                audio_path: clone_opt(audio_path),
                voice_key: clone_opt(voice_key),
                language: clone_opt(language),
                status,
            },
            _ => return Err(owned("item is not a Speech")),
        };
        proof {
            lemma_update_keeps_ids(self@, i as int, item, self.next_id);
        }
        let mut items: Vec<QueueItem> = Vec::new();
        std::mem::swap(&mut items, &mut self.items);
        items.set(i, item);
        self.items = items;
        Ok(())
    }
}

/// A copy of an optional string.
pub fn clone_opt(s: &Option<String>) -> (r: Option<String>)
    ensures
        r == *s,
{
    match s {
        Some(t) => Some(t.clone()),
        None => None,
    }
}

/// Replacing an item by one with the same id keeps ids unique and bounded.
proof fn lemma_update_keeps_ids(s: Seq<QueueItem>, i: int, x: QueueItem, bound: u64)
    requires
        0 <= i < s.len(),
        ids_unique(s),
        ids_below(s, bound),
        x.spec_id() == s[i].spec_id(),
    ensures
        ids_unique(s.update(i, x)),
        ids_below(s.update(i, x), bound),
{
    let t = s.update(i, x);
    assert forall|a: int| 0 <= a < t.len() implies #[trigger] t[a].spec_id() == s[a].spec_id() by {}
    assert forall|a: int, b: int|
        0 <= a < t.len() && 0 <= b < t.len() && a != b implies #[trigger] t[a].spec_id()
        != #[trigger] t[b].spec_id() by {
        assert(t[a].spec_id() == s[a].spec_id());
        assert(t[b].spec_id() == s[b].spec_id());
    }
}


/// A text message handed to the transcriber.
#[derive(Debug, Clone, PartialEq)]
pub struct PendingTextItem {
    pub id: u64,
    pub text: String,
}

/// A speech item handed to the player.
#[derive(Debug, Clone, PartialEq)]
pub struct PendingSpeechItem {
    pub id: u64,
    pub audio_path: Option<String>,
}

/// Whether some text message waits for synthesis.
pub open spec fn has_pending_text(s: Seq<QueueItem>) -> bool {
    exists|i: int| 0 <= i < s.len() && is_pending_text(#[trigger] s[i])
}

/// The audio of a speech item (none for a text message).
pub open spec fn audio_of(item: QueueItem) -> Option<String> {
    match item {
        QueueItem::Speech { audio_path, .. } => audio_path,
        _ => None,
    }
}

/// The text of an item.
pub open spec fn text_of(item: QueueItem) -> String {
    match item {
        QueueItem::TextMessage { text, .. } => text,
        QueueItem::Speech { text, .. } => text,
    }
}

impl Queue {
    /// Whether something is left to play: a speech ready to play, or a text
    /// message that will become one.
    pub fn has_playable_items(&self) -> (r: bool)
        ensures
            r == (first_waiting(self@, false) is Some || has_pending_text(self@)),
    {
        if self.next_to_play_speech().is_some() {
            return true;
        }
        let found = self.find_waiting(true);
        match found {
            Some(pair) => {
                let i = pair.0;
                assert(is_waiting(self@[i as int], true));
                true
            },
            None => false,
        }
    }

    /// Flips whether the overlay is shown and returns the new setting.
    pub fn toggle_overlay(&mut self) -> (r: bool)
        ensures
            r == !old(self).spec_config().show_overlay,
            final(self).spec_config() == (QueueConfig { show_overlay: r, ..old(self).spec_config() }),
            final(self)@ == old(self)@,
            final(self).spec_next_id() == old(self).spec_next_id(),
            final(self).spec_config_path() == old(self).spec_config_path(),
    {
        proof {
            use_type_invariant(&*self);
        }
        let value = !self.config.show_overlay;
        self.config.show_overlay = value;
        value
    }

    /// The first text message waiting for synthesis, with its text.
    pub fn next_text(&self) -> (r: Option<PendingTextItem>)
        ensures
            match first_waiting_index(self@, true) {
                Some(i) => r == Some(
                    PendingTextItem { id: self@[i].spec_id(), text: text_of(self@[i]) },
                ) && 0 <= i < self@.len() && index_of_id(self@, self@[i].spec_id()) == i
                    && self@[i] is TextMessage,
                None => r is None,
            },
    {
        proof {
            use_type_invariant(self);
        }
        let found = self.find_waiting(true);
        match found {
            None => None,
            Some(pair) => {
                let (i, id) = pair;
                assert(first_waiting_index(self@, true) == Some(i as int));
                proof {
                    let k = index_of_id(self@, id);
                    assert(has_id(self@, id));
                    assert(0 <= k < self@.len() && self@[k].spec_id() == id);
                    if k != i as int {
                        assert(self@[k].spec_id() != self@[i as int].spec_id());
                    }
                }
                match &self.items[i] {
                QueueItem::TextMessage { text, .. } => Some(PendingTextItem { id, text: text.clone() }),
                QueueItem::Speech { text, .. } => Some(PendingTextItem { id, text: text.clone() }),
                }
            },
        }
    }

    /// Takes the first speech waiting to be played: marks it `Playing` and
    /// hands out its id and audio.
    pub fn poll_next_speech(&mut self) -> (r: Option<PendingSpeechItem>)
        ensures
            match first_waiting_index(old(self)@, false) {
                Some(i) => {
                    &&& r == Some(
                        PendingSpeechItem {
                            id: old(self)@[i].spec_id(),
                            audio_path: audio_of(old(self)@[i]),
                        },
                    )
                    &&& final(self)@ == old(self)@.update(
                        i,
                        with_speech_status(old(self)@[i], SpeechStatus::Playing),
                    )
                },
                None => r is None && final(self)@ == old(self)@,
            },
            final(self).spec_next_id() == old(self).spec_next_id(),
            final(self).spec_config() == old(self).spec_config(),
            final(self).spec_config_path() == old(self).spec_config_path(),
            ids_unique(final(self)@),
    {
        proof {
            use_type_invariant(&*self);
        }
        let found = self.find_waiting(false);
        let (i, id) = match found {
            None => return None,
            Some(pair) => pair,
        };
        let ghost s = self@;
        assert(first_waiting_index(s, false) == Some(i as int));
        proof {
            let k = index_of_id(s, id);
            assert(0 <= k < s.len() && s[k].spec_id() == id);
            if k != i as int {
                assert(s[k].spec_id() != s[i as int].spec_id());
            }
        }
        let audio_path = match &self.items[i] {
            QueueItem::Speech { audio_path, .. } => clone_opt(audio_path),
            QueueItem::TextMessage { .. } => None,
        };
        let _ = self.set_speech_status(id, SpeechStatus::Playing);
        Some(PendingSpeechItem { id, audio_path })
    }

    /// Puts a played speech back in front of the queue, ready to play again.
    pub fn replay_item(&mut self, id: u64) -> (r: Result<(), String>)
        ensures
            !has_id(old(self)@, id) ==> {
                &&& r is Err
                &&& r->Err_0@ == not_found_message(id)
                &&& final(self)@ == old(self)@
            },
            has_id(old(self)@, id) ==> {
                let i = index_of_id(old(self)@, id);
                if old(self)@[i] is Speech {
                    &&& r is Ok
                    &&& final(self)@ == old(self)@.remove(i).insert(
                        0,
                        with_speech_status(old(self)@[i], SpeechStatus::ToPlay),
                    )
                } else {
                    &&& r is Err
                    &&& r->Err_0@ == "item is not a Speech"@
                    &&& final(self)@ == old(self)@
                }
            },
            final(self).spec_next_id() == old(self).spec_next_id(),
            final(self).spec_config() == old(self).spec_config(),
            final(self).spec_config_path() == old(self).spec_config_path(),
            ids_unique(final(self)@),
    {
        proof {
            use_type_invariant(&*self);
        }
        let ghost s = self@;
        let ghost i = index_of_id(s, id);
        self.set_speech_status(id, SpeechStatus::ToPlay)?;
        proof {
            let t = self@;
            assert(t[i].spec_id() == id);
            assert(has_id(t, id));
            let k = index_of_id(t, id);
            assert(0 <= k < t.len() && t[k].spec_id() == id);
            if k != i {
                assert(t[k].spec_id() != t[i].spec_id());
            }
            assert(t.remove(i) =~= s.remove(i));
        }
        self.reorder(id, 0)
    }

    /// Drops a text message whose synthesis failed; an id no item has is
    /// ignored.
    pub fn drop_failed_item(&mut self, id: u64)
        ensures
            has_id(old(self)@, id) ==> final(self)@ == old(self)@.remove(index_of_id(old(self)@, id)),
            !has_id(old(self)@, id) ==> final(self)@ == old(self)@,
            final(self).spec_next_id() == old(self).spec_next_id(),
            final(self).spec_config() == old(self).spec_config(),
            final(self).spec_config_path() == old(self).spec_config_path(),
            ids_unique(final(self)@),
    {
        let _ = self.remove(id);
    }
}


// ── Laws ─────────────────────────────────────────────────────────

/// Moving an item (what `reorder` does) keeps the same items: it only
/// permutes the queue, and the moved item lands at the target position.
pub proof fn law_reorder_permutes(s: Seq<QueueItem>, i: int, k: int)
    requires
        0 <= i < s.len(),
        0 <= k < s.len(),
    ensures
        s.remove(i).insert(k, s[i]).len() == s.len(),
        s.remove(i).insert(k, s[i])[k] == s[i],
        s.remove(i).insert(k, s[i]).to_multiset() =~= s.to_multiset(),
{
    broadcast use vstd::seq_lib::group_to_multiset_ensures;
    s.remove_ensures(i);
    s.remove(i).insert_ensures(k, s[i]);
    let r = s.remove(i);
    assert(s =~= s.subrange(0, i) + seq![s[i]] + s.subrange(i + 1, s.len() as int));
    assert(r =~= s.subrange(0, i) + s.subrange(i + 1, s.len() as int));
    vstd::seq_lib::lemma_multiset_commutative(s.subrange(0, i) + seq![s[i]], s.subrange(i + 1, s.len() as int));
    vstd::seq_lib::lemma_multiset_commutative(s.subrange(0, i), seq![s[i]]);
    vstd::seq_lib::lemma_multiset_commutative(s.subrange(0, i), s.subrange(i + 1, s.len() as int));
    assert(r.insert(k, s[i]) =~= r.subrange(0, k) + seq![s[i]] + r.subrange(k, r.len() as int));
    assert(r =~= r.subrange(0, k) + r.subrange(k, r.len() as int));
    vstd::seq_lib::lemma_multiset_commutative(r.subrange(0, k) + seq![s[i]], r.subrange(k, r.len() as int));
    vstd::seq_lib::lemma_multiset_commutative(r.subrange(0, k), seq![s[i]]);
    vstd::seq_lib::lemma_multiset_commutative(r.subrange(0, k), r.subrange(k, r.len() as int));
}

/// Removing the item that was just added (what `remove` does after
/// `add_text`) gives back the queue as it was before.
pub proof fn law_remove_undoes_add(s: Seq<QueueItem>, x: QueueItem)
    requires
        ids_unique(s),
        !has_id(s, x.spec_id()),
    ensures
        has_id(s.push(x), x.spec_id()),
        index_of_id(s.push(x), x.spec_id()) == s.len(),
        s.push(x).remove(index_of_id(s.push(x), x.spec_id())) == s,
{
    let t = s.push(x);
    assert(t[s.len() as int] == x);
    assert(has_id(t, x.spec_id()));
    let k = index_of_id(t, x.spec_id());
    if k < s.len() {
        assert(t[k] == s[k]);
        assert(has_id(s, x.spec_id()));
    }
    assert(t.remove(s.len() as int) =~= s);
}

/// Replacing a text message by its speech (what `replace_with_speech`
/// does) keeps every item at its position with its id, and keeps the text.
pub proof fn law_replace_keeps_positions(
    s: Seq<QueueItem>,
    i: int,
    audio_path: Option<String>,
    voice_key: Option<String>,
    language: Option<String>,
)
    requires
        0 <= i < s.len(),
        s[i] is TextMessage,
    ensures
        ({
            let t = s.update(i, as_speech(s[i], audio_path, voice_key, language));
            &&& t.len() == s.len()
            &&& forall|k: int| 0 <= k < s.len() ==> #[trigger] t[k].spec_id() == s[k].spec_id()
            &&& forall|k: int| 0 <= k < s.len() && k != i ==> #[trigger] t[k] == s[k]
            &&& text_of(t[i]) == text_of(s[i])
            &&& is_to_play(t[i])
        }),
{
}

/// A status change (what `set_text_message_status` and
/// `set_speech_status` do) touches only the item it names, and keeps its id.
pub proof fn law_status_change_is_local(s: Seq<QueueItem>, i: int, x: QueueItem)
    requires
        0 <= i < s.len(),
        x == with_text_status(s[i], TextMessageStatus::Processing) || x == with_text_status(
            s[i],
            TextMessageStatus::Pending,
        ) || exists|st: SpeechStatus| x == with_speech_status(s[i], st),
    ensures
        s.update(i, x).len() == s.len(),
        s.update(i, x)[i].spec_id() == s[i].spec_id(),
        forall|k: int| 0 <= k < s.len() && k != i ==> #[trigger] s.update(i, x)[k] == s[k],
{
}

/// A replayed speech (what `replay_item` does) is the next one the player
/// takes (what `poll_next_speech` hands out), whatever else waits.
pub proof fn law_replay_plays_next(s: Seq<QueueItem>, i: int)
    requires
        0 <= i < s.len(),
        s[i] is Speech,
    ensures
        ({
            let t = s.remove(i).insert(0, with_speech_status(s[i], SpeechStatus::ToPlay));
            &&& first_waiting_index(t, false) == Some(0int)
            &&& t[0].spec_id() == s[i].spec_id()
            &&& audio_of(t[0]) == audio_of(s[i])
        }),
{
    let t = s.remove(i).insert(0, with_speech_status(s[i], SpeechStatus::ToPlay));
    s.remove_ensures(i);
    s.remove(i).insert_ensures(0, with_speech_status(s[i], SpeechStatus::ToPlay));
    assert(is_waiting(t[0], false));
    let w = choose|k: int|
        0 <= k < t.len() && is_waiting(#[trigger] t[k], false) && forall|j: int|
            0 <= j < k ==> !is_waiting(#[trigger] t[j], false);
    assert(0 <= w < t.len() && is_waiting(t[w], false) && forall|j: int|
        0 <= j < w ==> !is_waiting(#[trigger] t[j], false)) by {
        assert(0 <= 0int < t.len() && is_waiting(t[0], false) && forall|j: int|
            0 <= j < 0int ==> !is_waiting(#[trigger] t[j], false));
    }
    if w > 0 {
        assert(!is_waiting(t[0], false));
    }
}

} // verus!
