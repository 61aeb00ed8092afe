//! The cache of loaded voice models: at most `max_size` models, keyed by
//! voice, the least recently used evicted first, and models idle for longer
//! than the idle timeout unloaded.
//!
//! Times are given by the caller, in milliseconds of a clock of its choice;
//! the idle timeout is kept in the same unit.
use vstd::prelude::*;
use crate::text::{owned, str_eq};

verus! {

/// A cached model with the voice it was loaded for and when it was last
/// used.
#[derive(Debug, Clone)]
pub struct PoolEntry<M> {
    pub key: String,
    pub model: M,
    pub last_used: u64,
}

/// Whether no two entries are for the same voice.
pub open spec fn keys_unique<M>(s: Seq<PoolEntry<M>>) -> bool {
    forall|i: int, j: int|
        0 <= i < s.len() && 0 <= j < s.len() && i != j ==> (#[trigger] s[i]).key@
            != (#[trigger] s[j]).key@
}

/// Whether some entry is for the voice `key`.
pub open spec fn has_key<M>(s: Seq<PoolEntry<M>>, key: Seq<char>) -> bool {
    exists|i: int| 0 <= i < s.len() && (#[trigger] s[i]).key@ == key
}

/// The position of the entry for `key` (meaningful when `has_key` holds).
pub open spec fn index_of_key<M>(s: Seq<PoolEntry<M>>, key: Seq<char>) -> int {
    choose|i: int| 0 <= i < s.len() && (#[trigger] s[i]).key@ == key
}

/// How long ago `t` was at time `now`; zero when `t` lies ahead.
pub open spec fn elapsed(now: u64, t: u64) -> u64 {
    if now >= t {
        (now - t) as u64
    } else {
        0
    }
}

/// Whether an entry has been idle for longer than the timeout.
pub open spec fn is_expired<M>(e: PoolEntry<M>, now: u64, timeout: u64) -> bool {
    elapsed(now, e.last_used) > timeout
}

/// The entries that have not been idle for longer than the timeout, in
/// order.
pub open spec fn unexpired<M>(s: Seq<PoolEntry<M>>, now: u64, timeout: u64) -> Seq<PoolEntry<M>> {
    s.filter(|e: PoolEntry<M>| !is_expired(e, now, timeout))
}

/// The entries that have been idle for longer than the timeout, in order.
pub open spec fn expired<M>(s: Seq<PoolEntry<M>>, now: u64, timeout: u64) -> Seq<PoolEntry<M>> {
    s.filter(|e: PoolEntry<M>| is_expired(e, now, timeout))
}

/// The keys of a list of entries.
pub open spec fn keys_of<M>(s: Seq<PoolEntry<M>>) -> Seq<Seq<char>> {
    s.map_values(|e: PoolEntry<M>| e.key@)
}

/// The entries after caching `e` as the most recently used entry: it
/// replaces the entry for the same voice; otherwise, in a full pool, the
/// least recently used entry makes room.
pub open spec fn after_insert<M>(s: Seq<PoolEntry<M>>, e: PoolEntry<M>, max_size: int) -> Seq<PoolEntry<M>> {
    if has_key(s, e.key@) {
        s.remove(index_of_key(s, e.key@)).push(e)
    } else if s.len() >= max_size {
        s.drop_first().push(e)
    } else {
        s.push(e)
    }
}

/// Settings of the pool that outlive a run.
#[derive(Debug, Clone, Copy, PartialEq, Eq, Structural)]
pub struct PoolConfig {
    pub idle_timeout_secs: u64,
}

impl PoolConfig {
    /// Five minutes.
    pub fn default_config() -> (c: PoolConfig)
        ensures
            c.idle_timeout_secs == 300,
    {
        PoolConfig { idle_timeout_secs: 300 }
    }
}

/// The cache, least recently used first.
pub struct ModelPool<M> {
    entries: Vec<PoolEntry<M>>,
    max_size: usize,
    idle_timeout: Option<u64>,
    config_path: Option<String>,
}

impl<M> View for ModelPool<M> {
    type V = Seq<PoolEntry<M>>;

    closed spec fn view(&self) -> Seq<PoolEntry<M>> {
        self.entries@
    }
}

impl<M> ModelPool<M> {
    #[verifier::type_invariant]
    closed spec fn inv(self) -> bool {
        &&& keys_unique(self.entries@)
        &&& self.entries@.len() <= self.max_size
    }

    pub closed spec fn spec_max_size(&self) -> usize {
        self.max_size
    }

    pub closed spec fn spec_idle_timeout(&self) -> Option<u64> {
        self.idle_timeout
    }

    pub closed spec fn spec_config_path(&self) -> Option<String> {
        self.config_path
    }

    /// An empty pool holding at most `max_size` models, unloading models idle
    /// for longer than `idle_timeout` milliseconds (never, if none).
    pub fn new(max_size: usize, idle_timeout: Option<u64>) -> (p: ModelPool<M>)
        ensures
            p@ == Seq::<PoolEntry<M>>::empty(),
            p.spec_max_size() == max_size,
            p.spec_idle_timeout() == idle_timeout,
            p.spec_config_path() == None::<String>,
    {
        ModelPool { entries: Vec::new(), max_size, idle_timeout, config_path: None }
    }

    /// The same pool with the idle timeout read from its settings file
    /// (given in seconds) and saving to `path`.
    pub fn with_config(self, config: PoolConfig, path: String) -> (p: ModelPool<M>)
        ensures
            p@ == self@,
            p.spec_max_size() == self.spec_max_size(),
            p.spec_idle_timeout() == Some(
                (if config.idle_timeout_secs <= u64::MAX / 1000 {
                    config.idle_timeout_secs * 1000
                } else {
                    u64::MAX as int
                }) as u64,
            ),
            p.spec_config_path() == Some(path),
    {
        proof {
            use_type_invariant(&self);
        }
        let ms = if config.idle_timeout_secs <= u64::MAX / 1000 {
            config.idle_timeout_secs * 1000
        } else {
            u64::MAX
        };
        let ModelPool { entries, max_size, idle_timeout: _, config_path: _ } = self;
        ModelPool { entries, max_size, idle_timeout: Some(ms), config_path: Some(path) }
    }

    /// The largest number of models held.
    pub fn max_size(&self) -> (r: usize)
        ensures
            r == self.spec_max_size(),
    {
        self.max_size
    }

    /// The settings file, if any.
    pub fn config_path(&self) -> (r: Option<&String>)
        ensures
            match self.spec_config_path() {
                Some(p) => r == Some(&p),
                None => r is None,
            },
    {
        match &self.config_path {
            Some(p) => Some(p),
            None => None,
        }
    }

    /// The idle timeout in whole seconds; 0 when models are never unloaded.
    pub fn idle_timeout_secs(&self) -> (r: u64)
        ensures
            r == match self.spec_idle_timeout() {
                Some(ms) => ms / 1000,
                None => 0,
            },
    {
        match self.idle_timeout {
            Some(ms) => ms / 1000,
            None => 0,
        }
    }

    /// Sets the idle timeout (milliseconds; none for never) and gives the
    /// settings to save.
    pub fn set_idle_timeout(&mut self, timeout: Option<u64>) -> (c: PoolConfig)
        ensures
            final(self)@ == old(self)@,
            final(self).spec_max_size() == old(self).spec_max_size(),
            final(self).spec_idle_timeout() == timeout,
            final(self).spec_config_path() == old(self).spec_config_path(),
            c.idle_timeout_secs == match timeout {
                Some(ms) => ms / 1000,
                None => 0,
            },
    {
        proof {
            use_type_invariant(&*self);
        }
        self.idle_timeout = timeout;
        PoolConfig { idle_timeout_secs: self.idle_timeout_secs() }
    }

    /// The number of cached models.
    pub fn len(&self) -> (r: usize)
        ensures
            r == self@.len(),
    {
        self.entries.len()
    }

    /// The cached voices, least recently used first.
    pub fn keys(&self) -> (r: Vec<String>)
        ensures
            r@.map_values(|s: String| s@) == keys_of(self@),
    {
        let mut r: Vec<String> = Vec::new();
        let mut i: usize = 0;
        while i < self.entries.len()
            invariant
                i <= self.entries@.len(),
                r@.len() == i,
                forall|k: int| 0 <= k < i ==> #[trigger] r@[k]@ == self.entries@[k].key@,
            decreases self.entries.len() - i,
        {
            r.push(self.entries[i].key.clone());
            i = i + 1;
        }
        assert(r@.map_values(|s: String| s@) =~= keys_of(self@));
        r
    }

    fn position_of(&self, key: &str) -> (r: Option<usize>)
        ensures
            match r {
                Some(i) => i < self@.len() && self@[i as int].key@ == key@ && i as int
                    == index_of_key(self@, key@),
                None => !has_key(self@, key@),
            },
    {
        proof {
            use_type_invariant(self);
        }
        let mut i: usize = 0;
        while i < self.entries.len()
            invariant
                i <= self.entries@.len(),
                keys_unique(self.entries@),
                forall|j: int| 0 <= j < i ==> (#[trigger] self.entries@[j]).key@ != key@,
            decreases self.entries.len() - i,
        {
            if str_eq(self.entries[i].key.as_str(), key) {
                proof {
                    let k = index_of_key(self@, key@);
                    assert(self@[i as int].key@ == key@);
                    assert(0 <= k < self@.len() && self@[k].key@ == key@);
                    if k != i {
                        assert(self.entries@[k].key@ != self.entries@[i as int].key@);
                    }
                }
                return Some(i);
            }
            i = i + 1;
        }
        None
    }

    /// The model cached for `key`, if any.
    pub fn get(&self, key: &str) -> (r: Option<&M>)
        ensures
            has_key(self@, key@) ==> r == Some(&self@[index_of_key(self@, key@)].model),
            !has_key(self@, key@) ==> r is None,
    {
        match self.position_of(key) {
            Some(i) => Some(&self.entries[i].model),
            None => None,
        }
    }

    /// Marks the model cached for `key` as used at `now`, making it the most
    /// recently used; tells whether there was one.
    pub fn touch(&mut self, key: &str, now: u64) -> (hit: bool)
        ensures
            hit == has_key(old(self)@, key@),
            hit ==> {
                let i = index_of_key(old(self)@, key@);
                final(self)@ == old(self)@.remove(i).push(
                    PoolEntry { last_used: now, ..old(self)@[i] },
                )
            },
            !hit ==> final(self)@ == old(self)@,
            final(self).spec_max_size() == old(self).spec_max_size(),
            final(self).spec_idle_timeout() == old(self).spec_idle_timeout(),
            final(self).spec_config_path() == old(self).spec_config_path(),
    {
        proof {
            use_type_invariant(&*self);
        }
        let i = match self.position_of(key) {
            None => return false,
            Some(i) => i,
        };
        let ghost s = self@;
        let mut entries: Vec<PoolEntry<M>> = Vec::new();
        std::mem::swap(&mut entries, &mut self.entries);
        let e = entries.remove(i);
        let PoolEntry { key: k, model, last_used: _ } = e;
        proof {
            lemma_move_to_back_keeps_keys(s, i as int, PoolEntry { key: k, model, last_used: now });
        }
        entries.push(PoolEntry { key: k, model, last_used: now });
        self.entries = entries;
        true
    }

    /// Evicts least recently used models until one more fits; gives the
    /// voices evicted, in eviction order.
    pub fn make_room(&mut self) -> (evicted: Vec<String>)
        requires
            old(self).spec_max_size() >= 1,
        ensures
            ({
                let n = if old(self)@.len() >= old(self).spec_max_size() {
                    old(self)@.len() - old(self).spec_max_size() + 1
                } else {
                    0
                };
                &&& final(self)@ == old(self)@.skip(n)
                &&& evicted@.map_values(|s: String| s@) == keys_of(old(self)@.take(n))
            }),
            final(self)@.len() < final(self).spec_max_size(),
            final(self).spec_max_size() == old(self).spec_max_size(),
            final(self).spec_idle_timeout() == old(self).spec_idle_timeout(),
            final(self).spec_config_path() == old(self).spec_config_path(),
    {
        proof {
            use_type_invariant(&*self);
        }
        let ghost s = self@;
        let ghost n: int = if s.len() >= self.max_size {
            s.len() - self.max_size + 1
        } else {
            0
        };
        let mut evicted: Vec<String> = Vec::new();
        let mut entries: Vec<PoolEntry<M>> = Vec::new();
        std::mem::swap(&mut entries, &mut self.entries);
        let mut k: usize = 0;
        while entries.len() >= self.max_size
            invariant
                self.max_size >= 1,
                s.len() <= self.max_size,
                n == (if s.len() >= self.max_size { s.len() - self.max_size + 1 } else { 0 }),
                0 <= k <= n,
                entries@ == s.skip(k as int),
                evicted@.len() == k,
                forall|j: int| 0 <= j < k ==> #[trigger] evicted@[j]@ == s[j].key@,
            decreases entries.len(),
        {
            let e = entries.remove(0);
            evicted.push(e.key);
            k = k + 1;
            assert(entries@ =~= s.skip(k as int));
        }
        proof {
            assert(evicted@.map_values(|x: String| x@) =~= keys_of(s.take(n)));
            lemma_skip_keeps_keys(s, n);
        }
        self.entries = entries;
        evicted
    }

    /// Caches `model` for `key`, used at `now`, as the most recently used:
    /// it replaces a model cached for the same voice, and otherwise evicts
    /// the least recently used model if the pool is full.  Gives the voices
    /// evicted.
    pub fn insert(&mut self, key: String, model: M, now: u64) -> (evicted: Vec<String>)
        requires
            old(self).spec_max_size() >= 1,
        ensures
            final(self)@ == after_insert(
                old(self)@,
                PoolEntry { key, model, last_used: now },
                old(self).spec_max_size() as int,
            ),
            has_key(old(self)@, key@) ==> evicted@.len() == 0,
            !has_key(old(self)@, key@) ==> if old(self)@.len() >= old(self).spec_max_size() {
                &&& evicted@.len() == 1
                &&& evicted@[0]@ == old(self)@[0].key@
            } else {
                evicted@.len() == 0
            },
            final(self)@.len() <= final(self).spec_max_size(),
            final(self).spec_max_size() == old(self).spec_max_size(),
            final(self).spec_idle_timeout() == old(self).spec_idle_timeout(),
            final(self).spec_config_path() == old(self).spec_config_path(),
    {
        proof {
            use_type_invariant(&*self);
        }
        let ghost s = self@;
        let found = self.position_of(key.as_str());
        let mut evicted: Vec<String> = Vec::new();
        let mut entries: Vec<PoolEntry<M>> = Vec::new();
        std::mem::swap(&mut entries, &mut self.entries);
        match found {
            Some(i) => {
                let _ = entries.remove(i);
                proof {
                    lemma_move_to_back_keeps_keys(s, i as int, PoolEntry { key, model, last_used: now });
                }
            },
            None => {
                if entries.len() >= self.max_size {
                    let e = entries.remove(0);
                    evicted.push(e.key);
                    proof {
                        lemma_skip_keeps_keys(s, 1);
                        assert(s.skip(1) =~= s.drop_first());
                    }
                }
                proof {
                    let t = entries@;
                    assert forall|j: int| 0 <= j < t.len() implies (#[trigger] t[j]).key@ != key@ by {
                        if s.len() >= self.max_size {
                            assert(t[j] == s[j + 1]);
                        } else {
                            assert(t[j] == s[j]);
                        }
                    }
                    lemma_push_fresh_keeps_keys(t, PoolEntry { key, model, last_used: now });
                }
            },
        }
        entries.push(PoolEntry { key, model, last_used: now });
        self.entries = entries;
        evicted
    }

    /// Unloads every model idle for longer than the timeout at `now` (none
    /// when there is no timeout); gives the voices unloaded, in order.
    pub fn evict_expired(&mut self, now: u64) -> (evicted: Vec<String>)
        ensures
            match old(self).spec_idle_timeout() {
                Some(t) => {
                    &&& final(self)@ == unexpired(old(self)@, now, t)
                    &&& evicted@.map_values(|k: String| k@) == keys_of(expired(old(self)@, now, t))
                },
                None => final(self)@ == old(self)@ && evicted@.len() == 0,
            },
            forall|j: int| 0 <= j < evicted@.len() ==> has_key(old(self)@, #[trigger] evicted@[j]@),
            forall|j: int| 0 <= j < evicted@.len() ==> !has_key(final(self)@, #[trigger] evicted@[j]@),
            final(self).spec_max_size() == old(self).spec_max_size(),
            final(self).spec_idle_timeout() == old(self).spec_idle_timeout(),
            final(self).spec_config_path() == old(self).spec_config_path(),
    {
        proof {
            use_type_invariant(&*self);
        }
        let timeout = match self.idle_timeout {
            None => return Vec::new(),
            Some(t) => t,
        };
        let ghost s = self@;
        let mut evicted: Vec<String> = Vec::new();
        let mut entries: Vec<PoolEntry<M>> = Vec::new();
        std::mem::swap(&mut entries, &mut self.entries);
        let mut kept: Vec<PoolEntry<M>> = Vec::new();
        let mut i: usize = 0;
        let n = entries.len();
        while i < n
            invariant
                n == s.len(),
                i <= n,
                entries@ == s.skip(i as int),
                kept@ == unexpired(s.take(i as int), now, timeout),
                evicted@.map_values(|k: String| k@) == keys_of(expired(s.take(i as int), now, timeout)),
                keys_unique(s),
                forall|j: int| 0 <= j < evicted@.len() ==> has_key(s, #[trigger] evicted@[j]@),
                forall|j: int|
                    0 <= j < evicted@.len() ==> !has_key(s.skip(i as int), #[trigger] evicted@[j]@),
                forall|j: int| 0 <= j < evicted@.len() ==> !has_key(kept@, #[trigger] evicted@[j]@),
                forall|j: int| 0 <= j < kept@.len() ==> has_key(s.take(i as int), (#[trigger] kept@[j]).key@),
            decreases n - i,
        {
            let e = entries.remove(0);
            proof {
                reveal(Seq::filter);
                assert(s.take(i + 1).drop_last() =~= s.take(i as int));
                assert(s.take(i + 1).last() == s[i as int]);
                assert(e == s[i as int]);
                assert(entries@ =~= s.skip(i + 1));
            }
            let elapsed_ms = if now >= e.last_used {
                now - e.last_used
            } else {
                0
            };
            if elapsed_ms > timeout {
                proof {
                    assert forall|j: int| 0 <= j < kept@.len() implies (#[trigger] kept@[j]).key@ != e.key@ by {
                        let w = choose|w: int| 0 <= w < i && (#[trigger] s.take(i as int)[w]).key@ == kept@[j].key@;
                        assert(s.take(i as int)[w] == s[w]);
                        assert(s[w].key@ != s[i as int].key@);
                    }
                    assert forall|w: int| 0 <= w < s.skip(i + 1).len() implies (#[trigger] s.skip(i + 1)[w]).key@ != e.key@ by {
                        assert(s.skip(i + 1)[w] == s[i + 1 + w]);
                    }
                }
                let ghost before = evicted@;
                evicted.push(e.key);
                proof {
                    assert(expired(s.take(i + 1), now, timeout) =~= expired(s.take(i as int), now, timeout).push(e));
                    assert(evicted@.map_values(|k: String| k@) =~= before.map_values(|k: String| k@).push(e.key@));
                    assert(keys_of(expired(s.take(i as int), now, timeout).push(e)) =~= keys_of(expired(s.take(i as int), now, timeout)).push(e.key@));
                }
            } else {
                proof {
                    assert(expired(s.take(i + 1), now, timeout) =~= expired(s.take(i as int), now, timeout));
                }
                proof {
                    assert forall|j: int| 0 <= j < evicted@.len() implies e.key@ != (#[trigger] evicted@[j])@ by {
                        assert(s.skip(i as int)[0] == e);
                    }
                }
                kept.push(e);
            }
            i = i + 1;
            proof {
                assert forall|j: int| 0 <= j < kept@.len() implies has_key(s.take(i as int), (#[trigger] kept@[j]).key@) by {
                    if j < kept@.len() - 1 || elapsed_ms > timeout {
                        let w = choose|w: int| 0 <= w < i - 1 && (#[trigger] s.take(i - 1)[w]).key@ == kept@[j].key@;
                        assert(s.take(i as int)[w] == s.take(i - 1)[w]);
                    } else {
                        assert(s.take(i as int)[i - 1] == s[i - 1]);
                    }
                }
            }
        }
        proof {
            assert(s.take(n as int) =~= s);
            lemma_filter_keeps_keys(s, now, timeout);
        }
        self.entries = kept;
        evicted
    }
}

/// Moving an entry to the back (with a new model or time, same key) keeps
/// keys unique.
proof fn lemma_move_to_back_keeps_keys<M>(s: Seq<PoolEntry<M>>, i: int, e: PoolEntry<M>)
    requires
        0 <= i < s.len(),
        keys_unique(s),
        e.key@ == s[i].key@,
    ensures
        keys_unique(s.remove(i).push(e)),
        s.remove(i).push(e).len() == s.len(),
{
    s.remove_ensures(i);
    let r = s.remove(i);
    assert forall|a: int| 0 <= a < r.len() implies (#[trigger] r[a]).key@ != e.key@ by {
        let a2 = if a < i { a } else { a + 1 };
        assert(r[a] == s[a2]);
    }
    let t = r.push(e);
    assert forall|a: int, b: int|
        0 <= a < t.len() && 0 <= b < t.len() && a != b implies (#[trigger] t[a]).key@
        != (#[trigger] t[b]).key@ by {
        if a < r.len() && b < r.len() {
            let a2 = if a < i { a } else { a + 1 };
            let b2 = if b < i { b } else { b + 1 };
            assert(r[a] == s[a2]);
            assert(r[b] == s[b2]);
        }
    }
}

/// Pushing an entry for a new key keeps keys unique.
proof fn lemma_push_fresh_keeps_keys<M>(s: Seq<PoolEntry<M>>, e: PoolEntry<M>)
    requires
        keys_unique(s),
        forall|j: int| 0 <= j < s.len() ==> (#[trigger] s[j]).key@ != e.key@,
    ensures
        keys_unique(s.push(e)),
{
    let t = s.push(e);
    assert forall|a: int, b: int|
        0 <= a < t.len() && 0 <= b < t.len() && a != b implies (#[trigger] t[a]).key@
        != (#[trigger] t[b]).key@ by {
        if a < s.len() && b < s.len() {
            assert(t[a] == s[a] && t[b] == s[b]);
        }
    }
}

/// Dropping a prefix keeps keys unique.
proof fn lemma_skip_keeps_keys<M>(s: Seq<PoolEntry<M>>, n: int)
    requires
        0 <= n <= s.len(),
        keys_unique(s),
    ensures
        keys_unique(s.skip(n)),
{
    let t = s.skip(n);
    assert forall|a: int, b: int|
        0 <= a < t.len() && 0 <= b < t.len() && a != b implies (#[trigger] t[a]).key@
        != (#[trigger] t[b]).key@ by {
        assert(t[a] == s[a + n] && t[b] == s[b + n]);
    }
}

/// Keeping the unexpired entries keeps keys unique and the size bound.
proof fn lemma_filter_keeps_keys<M>(s: Seq<PoolEntry<M>>, now: u64, timeout: u64)
    requires
        keys_unique(s),
    ensures
        keys_unique(unexpired(s, now, timeout)),
        unexpired(s, now, timeout).len() <= s.len(),
    decreases s.len(),
{
    reveal(Seq::filter);
    if s.len() > 0 {
        let d = s.drop_last();
        assert(keys_unique(d)) by {
            assert forall|a: int, b: int|
                0 <= a < d.len() && 0 <= b < d.len() && a != b implies (#[trigger] d[a]).key@
                != (#[trigger] d[b]).key@ by {
                assert(d[a] == s[a] && d[b] == s[b]);
            }
        }
        lemma_filter_keeps_keys(d, now, timeout);
        let f = unexpired(d, now, timeout);
        if !is_expired(s.last(), now, timeout) {
            assert forall|j: int| 0 <= j < f.len() implies (#[trigger] f[j]).key@ != s.last().key@ by {
                assert(f.contains(f[j]));
                d.lemma_filter_contains_rev(|e: PoolEntry<M>| !is_expired(e, now, timeout), f[j]);
                let w = choose|w: int| 0 <= w < d.len() && d[w] == f[j];
                assert(s[w] == d[w]);
                assert(s[w].key@ != s[s.len() - 1].key@);
            }
            lemma_push_fresh_keeps_keys(f, s.last());
        }
    }
}

/// A model just inserted is held once, as the most recently used one, and
/// the pool keeps to its size; when a full pool has to make room for a new
/// voice, the model evicted is the least recently used one and the others
/// keep their order.
pub proof fn law_lru_order<M>(s: Seq<PoolEntry<M>>, e: PoolEntry<M>, max_size: int)
    requires
        1 <= max_size,
        s.len() <= max_size,
        keys_unique(s),
    ensures
        after_insert(s, e, max_size).last() == e,
        after_insert(s, e, max_size).len() <= max_size,
        keys_unique(after_insert(s, e, max_size)),
        !has_key(s, e.key@) && s.len() == max_size ==> {
            &&& !has_key(after_insert(s, e, max_size), s[0].key@)
            &&& forall|j: int|
                1 <= j < s.len() ==> #[trigger] after_insert(s, e, max_size)[j - 1] == s[j]
        },
{
    if has_key(s, e.key@) {
        let i = index_of_key(s, e.key@);
        lemma_move_to_back_keeps_keys(s, i, e);
    } else {
        let t = if s.len() >= max_size { s.drop_first() } else { s };
        assert forall|j: int| 0 <= j < t.len() implies (#[trigger] t[j]).key@ != e.key@ by {
            if s.len() >= max_size {
                assert(t[j] == s[j + 1]);
            } else {
                assert(t[j] == s[j]);
            }
        }
        if s.len() >= max_size {
            lemma_skip_keeps_keys(s, 1);
            assert(s.skip(1) =~= s.drop_first());
        }
        lemma_push_fresh_keeps_keys(t, e);
        if s.len() == max_size {
            let r = after_insert(s, e, max_size);
            assert(s[0].key@ != e.key@);
            assert forall|j: int| 0 <= j < r.len() implies (#[trigger] r[j]).key@ != s[0].key@ by {
                if j < r.len() - 1 {
                    assert(r[j] == s[j + 1]);
                }
            }
        }
    }
}

/// Unloading idle models keeps exactly the models used within the timeout,
/// in their order.
pub proof fn law_evict_expired_keeps_recent<M>(s: Seq<PoolEntry<M>>, now: u64, timeout: u64)
    ensures
        forall|j: int|
            0 <= j < unexpired(s, now, timeout).len() ==> !is_expired(
                #[trigger] unexpired(s, now, timeout)[j],
                now,
                timeout,
            ),
        forall|j: int|
            0 <= j < s.len() && !is_expired(#[trigger] s[j], now, timeout) ==> unexpired(
                s,
                now,
                timeout,
            ).contains(s[j]),
{
    assert forall|j: int| 0 <= j < unexpired(s, now, timeout).len() implies !is_expired(
        #[trigger] unexpired(s, now, timeout)[j],
        now,
        timeout,
    ) by {
        s.lemma_filter_pred(|e: PoolEntry<M>| !is_expired(e, now, timeout), j);
    }
    assert forall|j: int| 0 <= j < s.len() && !is_expired(#[trigger] s[j], now, timeout) implies unexpired(
        s,
        now,
        timeout,
    ).contains(s[j]) by {
        s.lemma_filter_contains(|e: PoolEntry<M>| !is_expired(e, now, timeout), j);
    }
}

/// An entry is unloaded exactly when it has been idle for longer than the
/// timeout: an entry last used at `t` is evicted by `evict_expired(now)`
/// when `now > t + timeout`, and kept when `t <= now <= t + timeout` or
/// when `t` lies ahead of `now`.
pub proof fn law_idle_timeout_decides<M>(s: Seq<PoolEntry<M>>, now: u64, timeout: u64, j: int)
    requires
        0 <= j < s.len(),
    ensures
        now > s[j].last_used + timeout ==> expired(s, now, timeout).contains(s[j]) && !unexpired(
            s,
            now,
            timeout,
        ).contains(s[j]),
        now <= s[j].last_used + timeout ==> unexpired(s, now, timeout).contains(s[j]) && !expired(
            s,
            now,
            timeout,
        ).contains(s[j]),
{
    let e = s[j];
    let keep = |x: PoolEntry<M>| !is_expired(x, now, timeout);
    let drop = |x: PoolEntry<M>| is_expired(x, now, timeout);
    if now > e.last_used + timeout {
        assert(is_expired(e, now, timeout));
        s.lemma_filter_contains(drop, j);
        if unexpired(s, now, timeout).contains(e) {
            s.lemma_filter_contains_rev(keep, e);
        }
    } else {
        assert(!is_expired(e, now, timeout));
        s.lemma_filter_contains(keep, j);
        if expired(s, now, timeout).contains(e) {
            s.lemma_filter_contains_rev(drop, e);
        }
    }
}

} // verus!
