//! Bookkeeping of MCP sessions: when each was created and last used, which
//! are closing, which have idled too long and which to evict first. Times
//! are milliseconds on one monotonic clock.

use vstd::prelude::*;
use crate::text::str_eq;

verus! {

/// How long a session may idle, by default: thirty minutes.
pub const DEFAULT_IDLE_TTL_MS: u64 = 1800000;

/// How often idle sessions are swept, by default: every minute.
pub const DEFAULT_SWEEP_INTERVAL_MS: u64 = 60000;

/// How many sessions are kept at once, by default.
pub const DEFAULT_MAX_SESSIONS: usize = 64;

/// The limits of session keeping.
#[derive(Clone, Copy, Debug, PartialEq, Eq, Structural)]
pub struct SessionManagerConfig {
    /// How long a session may idle before it is swept.
    pub idle_ttl_ms: u64,
    /// How often idle sessions are swept.
    pub sweep_interval_ms: u64,
    /// How many open sessions are kept at once.
    pub max_sessions: usize,
}

impl SessionManagerConfig {
    /// Limits from their three values.
    pub fn new(idle_ttl_ms: u64, sweep_interval_ms: u64, max_sessions: usize) -> (c: SessionManagerConfig)
        ensures
            c == (SessionManagerConfig { idle_ttl_ms, sweep_interval_ms, max_sessions }),
    {
        SessionManagerConfig { idle_ttl_ms, sweep_interval_ms, max_sessions }
    }
}

impl Default for SessionManagerConfig {
    /// Thirty minutes of idling, a sweep every minute, sixty-four sessions.
    fn default() -> (c: SessionManagerConfig)
        ensures
            c.idle_ttl_ms == DEFAULT_IDLE_TTL_MS,
            c.sweep_interval_ms == DEFAULT_SWEEP_INTERVAL_MS,
            c.max_sessions == DEFAULT_MAX_SESSIONS,
    {
        SessionManagerConfig {
            idle_ttl_ms: DEFAULT_IDLE_TTL_MS,
            sweep_interval_ms: DEFAULT_SWEEP_INTERVAL_MS,
            max_sessions: DEFAULT_MAX_SESSIONS,
        }
    }
}

/// What is kept of a session.
#[derive(Clone, Copy, Debug, PartialEq, Eq, Structural)]
pub struct SessionMeta {
    /// When it was created.
    pub created_at: u64,
    /// When it was last used.
    pub last_access_at: u64,
    /// Whether it is being closed.
    pub closing: bool,
}

impl SessionMeta {
    /// A session created and last used at `now`, not closing.
    pub fn new(now: u64) -> (m: SessionMeta)
        ensures
            m == (SessionMeta { created_at: now, last_access_at: now, closing: false }),
    {
        SessionMeta { created_at: now, last_access_at: now, closing: false }
    }
}

/// One kept session.
#[derive(Clone, Debug)]
pub struct SessionEntry {
    /// The session id.
    pub id: String,
    /// What is kept of it.
    pub meta: SessionMeta,
}

/// No id occurs twice.
pub open spec fn ids_unique(s: Seq<SessionEntry>) -> bool {
    forall|i: int, j: int| 0 <= i < s.len() && 0 <= j < s.len() && i != j ==> s[i].id@ != s[j].id@
}

/// Whether `k` is the id of an entry.
pub open spec fn has_id(s: Seq<SessionEntry>, k: Seq<char>) -> bool {
    exists|i: int| 0 <= i < s.len() && s[i].id@ == k
}

/// The sessions of a list of entries, by id.
pub open spec fn map_of(s: Seq<SessionEntry>) -> Map<Seq<char>, SessionMeta> {
    Map::new(
        |k: Seq<char>| has_id(s, k),
        |k: Seq<char>| s[choose|i: int| 0 <= i < s.len() && s[i].id@ == k].meta,
    )
}

/// In a list without repeated ids, each entry gives the session of its id.
proof fn lemma_map_at(s: Seq<SessionEntry>, i: int)
    requires
        ids_unique(s),
        0 <= i < s.len(),
    ensures
        map_of(s).dom().contains(s[i].id@),
        map_of(s)[s[i].id@] == s[i].meta,
{
    assert(has_id(s, s[i].id@));
    let j = choose|j: int| 0 <= j < s.len() && s[j].id@ == s[i].id@;
    assert(j == i);
}

/// How long ago `at` was at `now`; a time after `now` counts as no time.
pub open spec fn elapsed(now: u64, at: u64) -> int {
    if now >= at {
        now - at
    } else {
        0
    }
}

/// Whether a session has idled for at least `idle_ttl_ms` at `now` (one
/// being closed is left to its close).
pub open spec fn is_expired(m: SessionMeta, now: u64, idle_ttl_ms: u64) -> bool {
    !m.closing && elapsed(now, m.last_access_at) >= idle_ttl_ms
}

/// Whether `a` was used no later than `b`: by last use, then by creation.
pub open spec fn used_no_later(a: SessionMeta, b: SessionMeta) -> bool {
    a.last_access_at < b.last_access_at || (a.last_access_at == b.last_access_at && a.created_at
        <= b.created_at)
}

/// The ids of the open (not closing) sessions.
pub open spec fn open_ids(m: Map<Seq<char>, SessionMeta>) -> Set<Seq<char>> {
    m.dom().filter(|k: Seq<char>| !m[k].closing)
}

/// Whether `id` names the open session used longest ago.
pub open spec fn is_lru(m: Map<Seq<char>, SessionMeta>, id: Seq<char>) -> bool {
    &&& m.contains_key(id)
    &&& !m[id].closing
    &&& forall|k: Seq<char>| #[trigger] m.contains_key(k) && !m[k].closing ==> used_no_later(m[id], m[k])
}

/// The sessions after a use of `id` at `now`: an open session's last use
/// moves to `now`; anything else is unchanged.
pub open spec fn touched(m: Map<Seq<char>, SessionMeta>, id: Seq<char>, now: u64) -> Map<
    Seq<char>,
    SessionMeta,
> {
    if m.contains_key(id) && !m[id].closing {
        m.insert(id, SessionMeta { last_access_at: now, ..m[id] })
    } else {
        m
    }
}

/// Whether a close of `id` goes on: the session is kept and open.
pub open spec fn close_goes_on(m: Map<Seq<char>, SessionMeta>, id: Seq<char>) -> bool {
    m.contains_key(id) && !m[id].closing
}

/// The sessions after a close of `id` begins.
pub open spec fn close_begun(m: Map<Seq<char>, SessionMeta>, id: Seq<char>) -> Map<
    Seq<char>,
    SessionMeta,
> {
    if close_goes_on(m, id) {
        m.insert(id, SessionMeta { closing: true, ..m[id] })
    } else {
        m
    }
}

/// The ids of the open sessions among the first `n` entries.
pub open spec fn open_prefix_ids(s: Seq<SessionEntry>, n: int) -> Set<Seq<char>> {
    Set::new(|k: Seq<char>| exists|j: int| 0 <= j < n && j < s.len() && s[j].id@ == k && !s[j].meta.closing)
}

/// The kept sessions and the limits they are kept under.
#[derive(Clone, Debug)]
pub struct ManagedSessionManager {
    entries: Vec<SessionEntry>,
    config: SessionManagerConfig,
}

impl View for ManagedSessionManager {
    type V = Map<Seq<char>, SessionMeta>;

    closed spec fn view(&self) -> Map<Seq<char>, SessionMeta> {
        map_of(self.entries@)
    }
}

impl ManagedSessionManager {
    /// The table's invariant: no session is kept twice.
    pub closed spec fn wf(&self) -> bool {
        ids_unique(self.entries@)
    }

    /// The limits.
    pub closed spec fn spec_config(&self) -> SessionManagerConfig {
        self.config
    }

    /// No session yet, under the default limits.
    pub fn new() -> (t: ManagedSessionManager)
        ensures
            t.wf(),
            t@ == Map::<Seq<char>, SessionMeta>::empty(),
            t.spec_config() == (SessionManagerConfig {
                idle_ttl_ms: DEFAULT_IDLE_TTL_MS,
                sweep_interval_ms: DEFAULT_SWEEP_INTERVAL_MS,
                max_sessions: DEFAULT_MAX_SESSIONS,
            }),
    {
        ManagedSessionManager::new_with_config(SessionManagerConfig::default())
    }

    /// No session yet, under the given limits.
    pub fn new_with_config(config: SessionManagerConfig) -> (t: ManagedSessionManager)
        ensures
            t.wf(),
            t@ == Map::<Seq<char>, SessionMeta>::empty(),
            t.spec_config() == config,
    {
        let t = ManagedSessionManager { entries: Vec::new(), config };
        assert(t@ =~= Map::<Seq<char>, SessionMeta>::empty());
        t
    }

    /// The limits.
    pub fn config(&self) -> (c: SessionManagerConfig)
        ensures
            c == self.spec_config(),
    {
        self.config
    }

    fn position(&self, id: &str) -> (r: Option<usize>)
        ensures
            match r {
                Some(i) => i < self.entries@.len() && self.entries@[i as int].id@ == id@,
                None => !has_id(self.entries@, id@),
            },
    {
        let mut i: usize = 0;
        while i < self.entries.len()
            invariant
                i <= self.entries@.len(),
                forall|j: int| 0 <= j < i ==> self.entries@[j].id@ != id@,
            decreases self.entries@.len() - i,
        {
            if str_eq(self.entries[i].id.as_str(), id) {
                return Some(i);
            }
            i = i + 1;
        }
        None
    }

    /// Records a new session created at `now` (replacing what was kept of
    /// the id, if anything).
    pub fn insert_metadata(&mut self, id: String, now: u64)
        requires
            old(self).wf(),
        ensures
            final(self).wf(),
            final(self).spec_config() == old(self).spec_config(),
            final(self)@ == old(self)@.insert(id@, SessionMeta { created_at: now, last_access_at: now, closing: false }),
    {
        let meta = SessionMeta::new(now);
        let ghost old_entries = self.entries@;
        match self.position(id.as_str()) {
            Some(i) => {
                self.entries.set(i, SessionEntry { id, meta });
                let ghost s = self.entries@;
                assert(ids_unique(s));
                assert forall|k: Seq<char>| #[trigger] map_of(s).contains_key(k) == old(self)@.insert(id@, meta).contains_key(k) by {
                    if has_id(s, k) {
                        let j = choose|j: int| 0 <= j < s.len() && s[j].id@ == k;
                        assert(has_id(old_entries, k) || k == id@);
                    }
                    if has_id(old_entries, k) {
                        let j = choose|j: int| 0 <= j < old_entries.len() && old_entries[j].id@ == k;
                        assert(s[j].id@ == k);
                    }
                }
                assert forall|k: Seq<char>| #[trigger] map_of(s).contains_key(k) implies map_of(s)[k] == old(self)@.insert(id@, meta)[k] by {
                    let j = choose|j: int| 0 <= j < s.len() && s[j].id@ == k;
                    lemma_map_at(s, j);
                    if j != i {
                        lemma_map_at(old_entries, j);
                    }
                }
                assert(map_of(s) =~= old(self)@.insert(id@, meta));
            },
            None => {
                let ghost k0 = id@;
                self.entries.push(SessionEntry { id, meta });
                let ghost s = self.entries@;
                assert(ids_unique(s));
                assert forall|k: Seq<char>| #[trigger] map_of(s).contains_key(k) == old(self)@.insert(k0, meta).contains_key(k) by {
                    if has_id(s, k) {
                        let j = choose|j: int| 0 <= j < s.len() && s[j].id@ == k;
                        if j < old_entries.len() {
                            assert(has_id(old_entries, k));
                        }
                    }
                    if has_id(old_entries, k) {
                        let j = choose|j: int| 0 <= j < old_entries.len() && old_entries[j].id@ == k;
                        assert(s[j].id@ == k);
                    }
                    if k == k0 {
                        assert(s[old_entries.len() as int].id@ == k);
                    }
                }
                assert forall|k: Seq<char>| #[trigger] map_of(s).contains_key(k) implies map_of(s)[k] == old(self)@.insert(k0, meta)[k] by {
                    let j = choose|j: int| 0 <= j < s.len() && s[j].id@ == k;
                    lemma_map_at(s, j);
                    if j < old_entries.len() {
                        lemma_map_at(old_entries, j);
                    }
                }
                assert(map_of(s) =~= old(self)@.insert(k0, meta));
            },
        }
    }

    fn set_meta(&mut self, i: usize, meta: SessionMeta)
        requires
            old(self).wf(),
            i < old(self).entries@.len(),
        ensures
            final(self).wf(),
            final(self).spec_config() == old(self).spec_config(),
            final(self).entries@.len() == old(self).entries@.len(),
            final(self)@ == old(self)@.insert(old(self).entries@[i as int].id@, meta),
    {
        let ghost old_entries = self.entries@;
        let ghost k0 = self.entries@[i as int].id@;
        let id = self.entries[i].id.clone();
        self.entries.set(i, SessionEntry { id, meta });
        let ghost s = self.entries@;
        assert(ids_unique(s));
        assert forall|k: Seq<char>| #[trigger] map_of(s).contains_key(k) == old(self)@.insert(k0, meta).contains_key(k) by {
            if has_id(s, k) {
                let j = choose|j: int| 0 <= j < s.len() && s[j].id@ == k;
                assert(old_entries[j].id@ == k);
            }
            if has_id(old_entries, k) {
                let j = choose|j: int| 0 <= j < old_entries.len() && old_entries[j].id@ == k;
                assert(s[j].id@ == k);
            }
            if k == k0 {
                assert(s[i as int].id@ == k);
            }
        }
        assert forall|k: Seq<char>| #[trigger] map_of(s).contains_key(k) implies map_of(s)[k] == old(self)@.insert(k0, meta)[k] by {
            let j = choose|j: int| 0 <= j < s.len() && s[j].id@ == k;
            lemma_map_at(s, j);
            if j != i {
                lemma_map_at(old_entries, j);
            }
        }
        assert(map_of(s) =~= old(self)@.insert(k0, meta));
    }

    /// Whether the session is kept and not closing.
    pub fn has_session(&self, id: &str) -> (r: bool)
        requires
            self.wf(),
        ensures
            r == (self@.contains_key(id@) && !self@[id@].closing),
    {
        match self.position(id) {
            Some(i) => {
                proof {
                    lemma_map_at(self.entries@, i as int);
                }
                !self.entries[i].meta.closing
            },
            None => {
                assert(!self@.contains_key(id@));
                false
            },
        }
    }

    /// Notes a use of the session at `now`; a closing session is left as it
    /// is.
    pub fn touch_session(&mut self, id: &str, now: u64)
        requires
            old(self).wf(),
        ensures
            final(self).wf(),
            final(self).spec_config() == old(self).spec_config(),
            final(self)@ == touched(old(self)@, id@, now),
    {
        if let Some(i) = self.position(id) {
            proof {
                lemma_map_at(self.entries@, i as int);
            }
            let meta = self.entries[i].meta;
            if !meta.closing {
                self.set_meta(i, SessionMeta { last_access_at: now, ..meta });
            }
        } else {
            assert(!old(self)@.contains_key(id@));
        }
    }

    /// Marks the session as closing. Whether the close should go on: not
    /// when the session is unknown or already closing.
    pub fn begin_close(&mut self, id: &str) -> (r: bool)
        requires
            old(self).wf(),
        ensures
            final(self).wf(),
            final(self).spec_config() == old(self).spec_config(),
            r == close_goes_on(old(self)@, id@),
            final(self)@ == close_begun(old(self)@, id@),
    {
        match self.position(id) {
            Some(i) => {
                proof {
                    lemma_map_at(self.entries@, i as int);
                }
                let meta = self.entries[i].meta;
                if meta.closing {
                    false
                } else {
                    self.set_meta(i, SessionMeta { closing: true, ..meta });
                    true
                }
            },
            None => {
                assert(!old(self)@.contains_key(id@));
                false
            },
        }
    }

    /// Forgets the session.
    pub fn remove_metadata(&mut self, id: &str)
        requires
            old(self).wf(),
        ensures
            final(self).wf(),
            final(self).spec_config() == old(self).spec_config(),
            final(self)@ == old(self)@.remove(id@),
    {
        match self.position(id) {
            Some(i) => {
                let ghost old_entries = self.entries@;
                let ghost k0 = id@;
                let _ = self.entries.remove(i);
                let ghost s = self.entries@;
                assert(forall|j: int| 0 <= j < s.len() ==> #[trigger] s[j] == old_entries[if j < i { j } else { j + 1 }]);
                assert(ids_unique(s));
                assert forall|k: Seq<char>| #[trigger] map_of(s).contains_key(k) == old(self)@.remove(k0).contains_key(k) by {
                    if has_id(s, k) {
                        let j = choose|j: int| 0 <= j < s.len() && s[j].id@ == k;
                        let jj = if j < i { j } else { j + 1 };
                        assert(old_entries[jj].id@ == k);
                        assert(jj != i);
                    }
                    if has_id(old_entries, k) && k != k0 {
                        let j = choose|j: int| 0 <= j < old_entries.len() && old_entries[j].id@ == k;
                        assert(j != i);
                        if j < i {
                            assert(s[j].id@ == k);
                        } else {
                            assert(s[j - 1].id@ == k);
                        }
                    }
                }
                assert forall|k: Seq<char>| #[trigger] map_of(s).contains_key(k) implies map_of(s)[k] == old(self)@.remove(k0)[k] by {
                    let j = choose|j: int| 0 <= j < s.len() && s[j].id@ == k;
                    let jj = if j < i { j } else { j + 1 };
                    lemma_map_at(s, j);
                    lemma_map_at(old_entries, jj);
                }
                assert(map_of(s) =~= old(self)@.remove(k0));
            },
            None => {
                assert(self@ =~= old(self)@.remove(id@));
            },
        }
    }

    /// The open sessions that have idled for at least the idle limit at
    /// `now`, each once.
    pub fn collect_expired_sessions(&self, now: u64) -> (r: Vec<String>)
        requires
            self.wf(),
        ensures
            forall|k: Seq<char>| r@.map_values(|x: String| x@).contains(k) <==> (self@.contains_key(k)
                && is_expired(self@[k], now, self.spec_config().idle_ttl_ms)),
            forall|a: int, b: int| 0 <= a < r@.len() && 0 <= b < r@.len() && a != b ==> r@[a]@ != r@[b]@,
    {
        let idle_ttl_ms = self.config.idle_ttl_ms;
        let ghost s = self.entries@;
        let mut out: Vec<String> = Vec::new();
        let mut i: usize = 0;
        while i < self.entries.len()
            invariant
                s == self.entries@,
                ids_unique(s),
                i <= s.len(),
                forall|t: int| 0 <= t < out@.len() ==> exists|j: int| 0 <= j < i && s[j].id@ == #[trigger] out@[t]@ && is_expired(s[j].meta, now, idle_ttl_ms),
                forall|j: int| 0 <= j < i && #[trigger] is_expired(s[j].meta, now, idle_ttl_ms) ==> exists|t: int| 0 <= t < out@.len() && #[trigger] out@[t]@ == s[j].id@,
                forall|a: int, b: int| 0 <= a < out@.len() && 0 <= b < out@.len() && a != b ==> out@[a]@ != out@[b]@,
            decreases s.len() - i,
        {
            let ghost old_out = out@;
            let meta = self.entries[i].meta;
            let expired = !meta.closing && (if now >= meta.last_access_at {
                now - meta.last_access_at >= idle_ttl_ms
            } else {
                0 >= idle_ttl_ms
            });
            if expired {
                let id = self.entries[i].id.clone();
                proof {
                    assert forall|t: int| 0 <= t < out@.len() implies out@[t]@ != id@ by {
                        let j = choose|j: int| 0 <= j < i && s[j].id@ == out@[t]@ && is_expired(s[j].meta, now, idle_ttl_ms);
                        assert(j != i);
                    }
                }
                out.push(id);
            }
            proof {
                assert forall|j: int| 0 <= j < i + 1 && #[trigger] is_expired(s[j].meta, now, idle_ttl_ms) implies exists|t: int| 0 <= t < out@.len() && #[trigger] out@[t]@ == s[j].id@ by {
                    if j == i {
                        let n = (out@.len() - 1) as int;
                        assert(out@[n]@ == s[j].id@);
                    } else {
                        let t = choose|t: int| 0 <= t < old_out.len() && #[trigger] old_out[t]@ == s[j].id@;
                        assert(out@[t] == old_out[t]);
                    }
                }
            }
            i = i + 1;
        }
        proof {
            assert forall|k: Seq<char>| out@.map_values(|x: String| x@).contains(k) <==> (self@.contains_key(k)
                && is_expired(self@[k], now, idle_ttl_ms)) by {
                if out@.map_values(|x: String| x@).contains(k) {
                    let mv = out@.map_values(|x: String| x@);
                    let t = choose|t: int| 0 <= t < mv.len() && #[trigger] mv[t] == k;
                    assert(out@[t]@ == k);
                    let j = choose|j: int| 0 <= j < i && s[j].id@ == out@[t]@ && is_expired(s[j].meta, now, idle_ttl_ms);
                    lemma_map_at(s, j);
                }
                if self@.contains_key(k) && is_expired(self@[k], now, idle_ttl_ms) {
                    let j = choose|j: int| 0 <= j < s.len() && s[j].id@ == k;
                    lemma_map_at(s, j);
                    let t = choose|t: int| 0 <= t < out@.len() && out@[t]@ == s[j].id@;
                    assert(out@.map_values(|x: String| x@)[t] == k);
                }
            }
        }
        out
    }

    /// The open session used longest ago (by last use, then by creation),
    /// if any session is open.
    pub fn select_lru_session(&self) -> (r: Option<String>)
        requires
            self.wf(),
        ensures
            r is None <==> open_ids(self@).is_empty(),
            r matches Some(id) ==> is_lru(self@, id@),
    {
        let ghost s = self.entries@;
        let mut best: Option<usize> = None;
        let mut i: usize = 0;
        while i < self.entries.len()
            invariant
                s == self.entries@,
                ids_unique(s),
                i <= s.len(),
                best is None <==> forall|j: int| 0 <= j < i ==> s[j].meta.closing,
                best matches Some(b) ==> b < i && !s[b as int].meta.closing && forall|j: int|
                    0 <= j < i && !s[j].meta.closing ==> used_no_later(s[b as int].meta, #[trigger] s[j].meta),
            decreases s.len() - i,
        {
            let meta = self.entries[i].meta;
            if !meta.closing {
                match best {
                    None => {
                        best = Some(i);
                    },
                    Some(b) => {
                        let bm = self.entries[b].meta;
                        if meta.last_access_at < bm.last_access_at || (meta.last_access_at
                            == bm.last_access_at && meta.created_at < bm.created_at) {
                            best = Some(i);
                        }
                    },
                }
            }
            i = i + 1;
        }
        match best {
            None => {
                assert(open_ids(self@) =~= Set::<Seq<char>>::empty()) by {
                    assert forall|k: Seq<char>| !#[trigger] open_ids(self@).contains(k) by {
                        if self@.contains_key(k) {
                            let j = choose|j: int| 0 <= j < s.len() && s[j].id@ == k;
                            lemma_map_at(s, j);
                        }
                    }
                }
                None
            },
            Some(b) => {
                proof {
                    lemma_map_at(s, b as int);
                    assert(open_ids(self@).contains(s[b as int].id@));
                    assert forall|k: Seq<char>| #[trigger] self@.contains_key(k) && !self@[k].closing implies used_no_later(self@[s[b as int].id@], self@[k]) by {
                        let j = choose|j: int| 0 <= j < s.len() && s[j].id@ == k;
                        lemma_map_at(s, j);
                    }
                }
                Some(self.entries[b].id.clone())
            },
        }
    }

    /// How many sessions are open.
    pub fn open_count(&self) -> (n: usize)
        requires
            self.wf(),
        ensures
            n == open_ids(self@).len(),
            open_ids(self@).finite(),
    {
        let ghost s = self.entries@;
        let mut n: usize = 0;
        let mut i: usize = 0;
        proof {
            assert(open_prefix_ids(s, 0) =~= Set::<Seq<char>>::empty());
        }
        while i < self.entries.len()
            invariant
                s == self.entries@,
                ids_unique(s),
                i <= s.len(),
                n <= i,
                open_prefix_ids(s, i as int).finite(),
                n == open_prefix_ids(s, i as int).len(),
            decreases s.len() - i,
        {
            let ghost before = open_prefix_ids(s, i as int);
            if !self.entries[i].meta.closing {
                proof {
                    assert(!before.contains(s[i as int].id@)) by {
                        if before.contains(s[i as int].id@) {
                            let j = choose|j: int| 0 <= j < i && j < s.len() && s[j].id@ == s[i as int].id@ && !s[j].meta.closing;
                        }
                    }
                    assert(open_prefix_ids(s, i + 1) =~= before.insert(s[i as int].id@));
                }
                n = n + 1;
            } else {
                proof {
                    assert(open_prefix_ids(s, i + 1) =~= before);
                }
            }
            i = i + 1;
        }
        proof {
            assert forall|k: Seq<char>| #[trigger] open_prefix_ids(s, i as int).contains(k) == open_ids(self@).contains(k) by {
                if open_prefix_ids(s, i as int).contains(k) {
                    let j = choose|j: int| 0 <= j < i && j < s.len() && s[j].id@ == k && !s[j].meta.closing;
                    lemma_map_at(s, j);
                }
                if open_ids(self@).contains(k) {
                    let j = choose|j: int| 0 <= j < s.len() && s[j].id@ == k;
                    lemma_map_at(s, j);
                }
            }
            assert(open_prefix_ids(s, i as int) =~= open_ids(self@));
        }
        n
    }

    /// One step of making room before a session is created: the session to
    /// close next, the one used longest ago, while at least the maximum
    /// number of sessions are open; none once there is room (or nothing is
    /// left to close).
    pub fn evict_lru_if_needed(&self) -> (r: Option<String>)
        requires
            self.wf(),
        ensures
            r is Some <==> (open_ids(self@).len() >= self.spec_config().max_sessions
                && !open_ids(self@).is_empty()),
            r matches Some(id) ==> is_lru(self@, id@),
    {
        if self.open_count() >= self.config.max_sessions {
            self.select_lru_session()
        } else {
            None
        }
    }
}

/// A session used at `now` is open and has not idled at `now`, whatever
/// positive idle limit applies.
pub proof fn law_touched_session_is_fresh(m: Map<Seq<char>, SessionMeta>, id: Seq<char>, now: u64, idle_ttl_ms: u64)
    requires
        close_goes_on(m, id),
        idle_ttl_ms > 0,
    ensures
        touched(m, id, now).contains_key(id),
        !is_expired(touched(m, id, now)[id], now, idle_ttl_ms),
{
}

/// A use changes no session's openness.
pub proof fn law_touch_keeps_open_ids(m: Map<Seq<char>, SessionMeta>, id: Seq<char>, now: u64)
    ensures
        open_ids(touched(m, id, now)) == open_ids(m),
{
    assert(open_ids(touched(m, id, now)) =~= open_ids(m));
}

/// A close goes on once: right after it began, a second close of the same
/// session does not.
pub proof fn law_close_goes_on_once(m: Map<Seq<char>, SessionMeta>, id: Seq<char>)
    ensures
        !close_goes_on(close_begun(m, id), id),
{
}

/// A close that goes on takes exactly its session out of the open ones.
pub proof fn law_close_takes_one_open_session(m: Map<Seq<char>, SessionMeta>, id: Seq<char>)
    requires
        close_goes_on(m, id),
        open_ids(m).finite(),
    ensures
        open_ids(close_begun(m, id)) == open_ids(m).remove(id),
        open_ids(close_begun(m, id)).len() + 1 == open_ids(m).len(),
{
    assert(open_ids(close_begun(m, id)) =~= open_ids(m).remove(id));
    assert(open_ids(m).contains(id));
}

/// Recording a new session adds exactly it to the open ones.
pub proof fn law_new_session_opens_one(m: Map<Seq<char>, SessionMeta>, id: Seq<char>, now: u64)
    requires
        !m.contains_key(id),
        open_ids(m).finite(),
    ensures
        open_ids(m.insert(id, SessionMeta { created_at: now, last_access_at: now, closing: false }))
            == open_ids(m).insert(id),
        open_ids(m.insert(id, SessionMeta { created_at: now, last_access_at: now, closing: false })).len()
            == open_ids(m).len() + 1,
{
    let n = m.insert(id, SessionMeta { created_at: now, last_access_at: now, closing: false });
    assert(open_ids(n) =~= open_ids(m).insert(id));
    assert(!open_ids(m).contains(id));
}

/// Closing the session chosen for eviction frees one place among the open
/// sessions, so that making room ends.
pub proof fn law_eviction_frees_a_place(m: Map<Seq<char>, SessionMeta>, id: Seq<char>)
    requires
        is_lru(m, id),
        open_ids(m).finite(),
    ensures
        close_goes_on(m, id),
        open_ids(close_begun(m, id)).len() + 1 == open_ids(m).len(),
{
    law_close_takes_one_open_session(m, id);
}

/// Forgetting a session leaves it unknown, and every other session as it
/// was.
pub proof fn law_removed_session_is_gone(m: Map<Seq<char>, SessionMeta>, id: Seq<char>, other: Seq<char>)
    requires
        other != id,
    ensures
        !m.remove(id).contains_key(id),
        m.remove(id).contains_key(other) == m.contains_key(other),
        m.contains_key(other) ==> m.remove(id)[other] == m[other],
{
}

} // verus!
