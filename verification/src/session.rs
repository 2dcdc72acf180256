//! The session pool: sessions found again by their `X-Session-Id`, expired after a
//! time to live, and evicted oldest first beyond a capacity.
//!
//! Times are plain ticks of a monotonic clock (the caller reads the clock); a session
//! carries an opaque connection handle `T`.
use vstd::prelude::*;

use crate::text::str_eq;

verus! {

broadcast use vstd::seq_lib::group_to_multiset_ensures, vstd::multiset::group_multiset_axioms;

/// One session: its ID, its Copilot conversation, its lifetime, and its connection.
#[derive(Debug)]
pub struct SessionState<T> {
    /// Unique session identifier.
    pub id: String,
    /// Conversation ID from the Copilot backend.
    pub conversation_id: String,
    /// When this session was created.
    pub created_at: u64,
    /// When this session expires: its creation time plus the time to live, which a
    /// `u128` holds without overflow.
    pub expires_at: u128,
    /// The connection of this session.
    pub handle: T,
}

impl<T> SessionState<T> {
    /// The session has expired at time `now`.
    pub fn is_expired(&self, now: u64) -> (r: bool)
        ensures
            r == (now >= self.expires_at),
    {
        now as u128 >= self.expires_at
    }
}

/// The expiry time of a session opened at `now` that lives `ttl` ticks.
pub open spec fn expiry(now: u64, ttl: u64) -> u128 {
    (now + ttl) as u128
}

/// Some session of `s` has ID `id`.
pub open spec fn has_id<T>(s: Seq<SessionState<T>>, id: Seq<char>) -> bool {
    exists|i: int| #![trigger s[i]] 0 <= i < s.len() && s[i].id@ == id
}

/// No two sessions of `s` share an ID.
pub open spec fn distinct_ids<T>(s: Seq<SessionState<T>>) -> bool {
    forall|i: int, j: int|
        #![trigger s[i], s[j]]
        0 <= i < s.len() && 0 <= j < s.len() && i != j ==> s[i].id@ != s[j].id@
}

/// The index of the session with ID `id`.
pub open spec fn index_of_id<T>(s: Seq<SessionState<T>>, id: Seq<char>) -> int {
    choose|i: int| #![trigger s[i]] 0 <= i < s.len() && s[i].id@ == id
}

/// The connection of the session `id` if it is in `s` and has not expired at `now`.
pub open spec fn session_lookup<T>(s: Seq<SessionState<T>>, id: Seq<char>, now: u64) -> Option<T> {
    if has_id(s, id) {
        let e = s[index_of_id(s, id)];
        if now < e.expires_at {
            Some(e.handle)
        } else {
            None
        }
    } else {
        None
    }
}

/// In a table without repeated IDs, the session at `i` is the one found by its ID.
pub proof fn lemma_lookup_at<T>(s: Seq<SessionState<T>>, i: int)
    requires
        distinct_ids(s),
        0 <= i < s.len(),
    ensures
        has_id(s, s[i].id@),
        index_of_id(s, s[i].id@) == i,
        forall|t: u64|
            session_lookup(s, s[i].id@, t) == if t < s[i].expires_at {
                Some(s[i].handle)
            } else {
                None
            },
{
    assert(s[i].id@ == s[i].id@);
    let j = index_of_id(s, s[i].id@);
    assert(s[j].id@ == s[i].id@);
}

/// Removing one session keeps the IDs distinct, makes its ID absent, and leaves what
/// every other ID finds unchanged.
pub proof fn lemma_remove_lookups<T>(s: Seq<SessionState<T>>, i: int)
    requires
        distinct_ids(s),
        0 <= i < s.len(),
    ensures
        distinct_ids(s.remove(i)),
        !has_id(s.remove(i), s[i].id@),
        forall|id: Seq<char>, t: u64|
            id != s[i].id@ ==> session_lookup(s.remove(i), id, t) == session_lookup(s, id, t),
{
    let r = s.remove(i);
    assert forall|k: int| 0 <= k < r.len() implies r[k] == s[if k < i {
        k
    } else {
        k + 1
    }] by {}
    assert forall|a: int, b: int|
        #![trigger r[a], r[b]]
        0 <= a < r.len() && 0 <= b < r.len() && a != b implies r[a].id@ != r[b].id@ by {
        let ia = if a < i {
            a
        } else {
            a + 1
        };
        let ib = if b < i {
            b
        } else {
            b + 1
        };
        assert(r[a] == s[ia] && r[b] == s[ib]);
    }
    if has_id(r, s[i].id@) {
        let k = index_of_id(r, s[i].id@);
        let ik = if k < i {
            k
        } else {
            k + 1
        };
        assert(r[k] == s[ik]);
        assert(false);
    }
    assert forall|id: Seq<char>, t: u64| id != s[i].id@ implies session_lookup(r, id, t)
        == session_lookup(s, id, t) by {
        if has_id(s, id) {
            let j = index_of_id(s, id);
            assert(s[j].id@ == id);
            assert(j != i);
            let k = if j < i {
                j
            } else {
                j - 1
            };
            assert(r[k] == s[j]);
            lemma_lookup_at(s, j);
            lemma_lookup_at(r, k);
        } else if has_id(r, id) {
            let k = index_of_id(r, id);
            let ik = if k < i {
                k
            } else {
                k + 1
            };
            assert(r[k] == s[ik]);
            assert(s[ik].id@ == id);
        }
    }
}

/// Appending a session with a new ID keeps the IDs distinct, makes the new session the
/// one its ID finds, and leaves what every other ID finds unchanged.
pub proof fn lemma_push_lookups<T>(s: Seq<SessionState<T>>, e: SessionState<T>)
    requires
        distinct_ids(s),
        !has_id(s, e.id@),
    ensures
        distinct_ids(s.push(e)),
        forall|t: u64|
            session_lookup(s.push(e), e.id@, t) == if t < e.expires_at {
                Some(e.handle)
            } else {
                None
            },
        forall|id: Seq<char>, t: u64|
            id != e.id@ ==> session_lookup(s.push(e), id, t) == session_lookup(s, id, t),
{
    let p = s.push(e);
    assert forall|a: int, b: int|
        #![trigger p[a], p[b]]
        0 <= a < p.len() && 0 <= b < p.len() && a != b implies p[a].id@ != p[b].id@ by {
        if a == s.len() {
            assert(p[b] == s[b]);
        } else if b == s.len() {
            assert(p[a] == s[a]);
        } else {
            assert(p[a] == s[a] && p[b] == s[b]);
        }
    }
    assert(p[s.len() as int] == e);
    lemma_lookup_at(p, s.len() as int);
    assert forall|id: Seq<char>, t: u64| id != e.id@ implies session_lookup(p, id, t)
        == session_lookup(s, id, t) by {
        if has_id(s, id) {
            let j = index_of_id(s, id);
            assert(p[j] == s[j]);
            lemma_lookup_at(s, j);
            lemma_lookup_at(p, j);
        } else if has_id(p, id) {
            let k = index_of_id(p, id);
            if k < s.len() {
                assert(p[k] == s[k]);
            }
        }
    }
}

/// A pool of sessions in the order they were opened.
pub struct SessionTable<T> {
    sessions: Vec<SessionState<T>>,
    max_sessions: usize,
    ttl: u64,
}

impl<T> SessionTable<T> {
    /// The sessions, oldest opened first.
    pub closed spec fn entries(&self) -> Seq<SessionState<T>> {
        self.sessions@
    }

    /// The capacity the table was made with.
    pub closed spec fn max_sessions(&self) -> usize {
        self.max_sessions
    }

    /// The time to live of a session.
    pub closed spec fn ttl(&self) -> u64 {
        self.ttl
    }

    /// No two sessions share an ID, and there are no more than the capacity.
    pub closed spec fn wf(&self) -> bool {
        &&& distinct_ids(self.sessions@)
        &&& self.sessions@.len() <= self.max_sessions
    }

    /// An empty table that holds up to `max_sessions` sessions, each living `ttl` ticks.
    pub fn new(max_sessions: usize, ttl: u64) -> (r: Self)
        ensures
            r.wf(),
            r.entries().len() == 0,
            r.max_sessions() == max_sessions,
            r.ttl() == ttl,
    {
        SessionTable { sessions: Vec::new(), max_sessions, ttl }
    }

    /// The number of sessions.
    pub fn len(&self) -> (r: usize)
        ensures
            r == self.entries().len(),
    {
        self.sessions.len()
    }

    /// The index of the session with ID `id`.
    fn find(&self, id: &str) -> (r: Option<usize>)
        ensures
            match r {
                Some(i) => i < self.entries().len() && self.entries()[i as int].id@ == id@,
                None => !has_id(self.entries(), id@),
            },
    {
        let mut i: usize = 0;
        while i < self.sessions.len()
            invariant
                0 <= i <= self.sessions@.len(),
                forall|j: int| 0 <= j < i ==> self.sessions@[j].id@ != id@,
            decreases self.sessions.len() - i,
        {
            if str_eq(self.sessions[i].id.as_str(), id) {
                return Some(i);
            }
            i = i + 1;
        }
        None
    }

    /// The connection of session `id`, unless it is missing or has expired at `now`.
    pub fn get(&self, id: &str, now: u64) -> (r: Option<&T>)
        requires
            self.wf(),
        ensures
            match session_lookup(self.entries(), id@, now) {
                Some(h) => r matches Some(x) && *x == h,
                None => r is None,
            },
    {
        match self.find(id) {
            Some(i) => {
                proof {
                    lemma_lookup_at(self.sessions@, i as int);
                }
                if self.sessions[i].is_expired(now) {
                    None
                } else {
                    Some(&self.sessions[i].handle)
                }
            },
            None => None,
        }
    }

    /// The index of the session opened earliest.
    fn oldest_index(&self) -> (r: usize)
        requires
            self.sessions@.len() > 0,
        ensures
            r < self.sessions@.len(),
            forall|j: int|
                0 <= j < self.sessions@.len() ==> self.sessions@[r as int].created_at
                    <= #[trigger] self.sessions@[j].created_at,
    {
        let mut best: usize = 0;
        let mut i: usize = 1;
        while i < self.sessions.len()
            invariant
                self.sessions@.len() > 0,
                best < self.sessions@.len(),
                1 <= i <= self.sessions@.len(),
                forall|j: int|
                    0 <= j < i ==> self.sessions@[best as int].created_at
                        <= #[trigger] self.sessions@[j].created_at,
            decreases self.sessions.len() - i,
        {
            if self.sessions[i].created_at < self.sessions[best].created_at {
                best = i;
            }
            i = i + 1;
        }
        best
    }

    /// Closes session `id`: removes it and hands it back, or `None` when there is none.
    pub fn remove(&mut self, id: &str) -> (r: Option<SessionState<T>>)
        requires
            old(self).wf(),
        ensures
            final(self).wf(),
            final(self).max_sessions() == old(self).max_sessions(),
            final(self).ttl() == old(self).ttl(),
            match r {
                Some(e) => has_id(old(self).entries(), id@) && e == old(self).entries()[index_of_id(
                    old(self).entries(),
                    id@,
                )] && final(self).entries() == old(self).entries().remove(
                    index_of_id(old(self).entries(), id@),
                ),
                None => !has_id(old(self).entries(), id@) && final(self).entries() == old(self).entries(),
            },
            forall|t: u64| session_lookup(final(self).entries(), id@, t) is None,
            forall|other: Seq<char>, t: u64|
                other != id@ ==> session_lookup(final(self).entries(), other, t) == session_lookup(
                    old(self).entries(),
                    other,
                    t,
                ),
    {
        match self.find(id) {
            Some(i) => {
                proof {
                    lemma_lookup_at(self.sessions@, i as int);
                    lemma_remove_lookups(self.sessions@, i as int);
                }
                let e = self.sessions.remove(i);
                Some(e)
            },
            None => None,
        }
    }

    /// Closes every session that has expired at `now` and hands them back. What every ID
    /// finds at `now` or later is unchanged, and no session left has expired at `now`.
    pub fn remove_expired(&mut self, now: u64) -> (removed: Vec<SessionState<T>>)
        requires
            old(self).wf(),
        ensures
            final(self).wf(),
            final(self).max_sessions() == old(self).max_sessions(),
            final(self).ttl() == old(self).ttl(),
            forall|k: int|
                0 <= k < final(self).entries().len() ==> now < #[trigger] final(self).entries()[k].expires_at,
            forall|k: int| 0 <= k < removed@.len() ==> now >= #[trigger] removed@[k].expires_at,
            old(self).entries().to_multiset() == final(self).entries().to_multiset().add(
                removed@.to_multiset(),
            ),
            forall|id: Seq<char>, t: u64|
                t >= now ==> session_lookup(final(self).entries(), id, t) == session_lookup(
                    old(self).entries(),
                    id,
                    t,
                ),
    {
        let ghost old_entries = self.sessions@;
        let mut removed: Vec<SessionState<T>> = Vec::new();
        let mut i: usize = 0;
        assert(old_entries.to_multiset() =~= self.sessions@.to_multiset().add(
            removed@.to_multiset(),
        ));
        while i < self.sessions.len()
            invariant
                self.max_sessions == old(self).max_sessions,
                self.ttl == old(self).ttl,
                old_entries == old(self).sessions@,
                distinct_ids(self.sessions@),
                self.sessions@.len() <= old_entries.len(),
                old_entries.len() <= self.max_sessions,
                0 <= i <= self.sessions@.len(),
                forall|k: int| 0 <= k < i ==> now < #[trigger] self.sessions@[k].expires_at,
                forall|k: int| 0 <= k < removed@.len() ==> now >= #[trigger] removed@[k].expires_at,
                old_entries.to_multiset() == self.sessions@.to_multiset().add(
                    removed@.to_multiset(),
                ),
                forall|id: Seq<char>, t: u64|
                    t >= now ==> session_lookup(self.sessions@, id, t) == session_lookup(
                        old_entries,
                        id,
                        t,
                    ),
            decreases self.sessions.len() - i,
        {
            if self.sessions[i].is_expired(now) {
                let ghost cur = self.sessions@;
                proof {
                    lemma_lookup_at(cur, i as int);
                    lemma_remove_lookups(cur, i as int);
                }
                let e = self.sessions.remove(i);
                removed.push(e);
                proof {
                    assert(cur.remove(i as int).to_multiset() == cur.to_multiset().remove(cur[i as int]));
                    assert(cur.to_multiset().count(cur[i as int]) > 0) by {
                        assert(cur.contains(cur[i as int]));
                    }
                    assert(old_entries.to_multiset() =~= self.sessions@.to_multiset().add(
                        removed@.to_multiset(),
                    ));
                    assert forall|k: int| 0 <= k < i implies now < #[trigger] self.sessions@[k].expires_at by {
                        assert(self.sessions@[k] == cur[k]);
                    }
                    assert forall|id: Seq<char>, t: u64| t >= now implies session_lookup(
                        self.sessions@,
                        id,
                        t,
                    ) == session_lookup(old_entries, id, t) by {
                        if id == cur[i as int].id@ {
                            assert(session_lookup(cur, id, t) is None);
                        }
                    }
                }
            } else {
                i = i + 1;
            }
        }
        removed
    }

    /// Opens session `id` at `now` with connection `handle`, living `ttl` ticks. A session
    /// with the same ID is replaced, and the oldest sessions are evicted so that the table
    /// stays within its capacity; the replaced and evicted sessions are handed back. A
    /// table of capacity 0 keeps nothing: the new session is handed back as well.
    pub fn insert(&mut self, id: String, conversation_id: String, now: u64, handle: T) -> (removed: Vec<SessionState<T>>)
        requires
            old(self).wf(),
        ensures
            final(self).wf(),
            final(self).max_sessions() == old(self).max_sessions(),
            final(self).ttl() == old(self).ttl(),
            // the new session is the newest one kept, or, at capacity 0, handed back
            old(self).max_sessions() > 0 ==> final(self).entries().len() > 0
                && final(self).entries().last() == (SessionState {
                id,
                conversation_id,
                created_at: now,
                expires_at: expiry(now, old(self).ttl()),
                handle,
            }),
            old(self).max_sessions() == 0 ==> removed@ == seq![
                (SessionState {
                    id,
                    conversation_id,
                    created_at: now,
                    expires_at: expiry(now, old(self).ttl()),
                    handle,
                }),
            ],
            // the table is filled up to its capacity, and no further
            final(self).entries().len() == vstd::math::min(
                old(self).entries().len() - (if has_id(old(self).entries(), id@) {
                    1int
                } else {
                    0
                }) + 1,
                old(self).max_sessions() as int,
            ),
            // every session, the new one too, is kept or handed back, exactly once
            old(self).entries().to_multiset().insert(
                (SessionState {
                    id,
                    conversation_id,
                    created_at: now,
                    expires_at: expiry(now, old(self).ttl()),
                    handle,
                }),
            ) == final(self).entries().to_multiset().add(removed@.to_multiset()),
            // evicted sessions are the oldest
            forall|k: int, m: int|
                0 <= k < removed@.len() && 0 <= m < final(self).entries().len() - 1
                    && removed@[k].id@ != id@ ==> #[trigger] removed@[k].created_at
                    <= #[trigger] final(self).entries()[m].created_at,
            // the new session is what its ID finds until it expires
            old(self).max_sessions() > 0 ==> forall|t: u64|
                session_lookup(final(self).entries(), id@, t) == if t < expiry(
                    now,
                    old(self).ttl(),
                ) {
                    Some(handle)
                } else {
                    None
                },
            old(self).max_sessions() == 0 ==> forall|t: u64|
                session_lookup(final(self).entries(), id@, t) is None,
            // every other ID finds what it found before, unless its session was evicted
            forall|other: Seq<char>, t: u64|
                other != id@ ==> session_lookup(final(self).entries(), other, t) == session_lookup(
                    old(self).entries(),
                    other,
                    t,
                ) || (exists|k: int|
                    0 <= k < removed@.len() && #[trigger] removed@[k].id@ == other),
    {
        let expires_at: u128 = now as u128 + self.ttl as u128;
        if self.max_sessions == 0 {
            let mut removed: Vec<SessionState<T>> = Vec::new();
            let entry = SessionState { id, conversation_id, created_at: now, expires_at, handle };
            removed.push(entry);
            proof {
                assert(self.sessions@ =~= Seq::<SessionState<T>>::empty());
                assert(removed@ =~= seq![entry]);
                assert(removed@.to_multiset() =~= vstd::multiset::Multiset::<SessionState<T>>::empty().insert(entry));
                assert(!has_id(self.sessions@, id@));
            }
            return removed;
        }
        let ghost old_entries = self.sessions@;
        let mut removed: Vec<SessionState<T>> = Vec::new();
        assert(old_entries.to_multiset() =~= self.sessions@.to_multiset().add(
            removed@.to_multiset(),
        ));
        match self.find(id.as_str()) {
            Some(i) => {
                let ghost cur = self.sessions@;
                proof {
                    lemma_lookup_at(cur, i as int);
                    lemma_remove_lookups(cur, i as int);
                }
                let e = self.sessions.remove(i);
                removed.push(e);
                proof {
                    assert(cur.to_multiset().count(cur[i as int]) > 0) by {
                        assert(cur.contains(cur[i as int]));
                    }
                    assert(old_entries.to_multiset() =~= self.sessions@.to_multiset().add(
                        removed@.to_multiset(),
                    ));
                }
            },
            None => {},
        }
        let ghost base_len = self.sessions@.len();
        assert(base_len == old_entries.len() - (if has_id(old_entries, id@) {
            1int
        } else {
            0
        }));
        while self.sessions.len() > 0 && self.sessions.len() >= self.max_sessions
            invariant
                self.max_sessions == old(self).max_sessions,
                self.ttl == old(self).ttl,
                old_entries == old(self).sessions@,
                distinct_ids(self.sessions@),
                !has_id(self.sessions@, id@),
                self.sessions@.len() <= base_len,
                self.max_sessions >= 1 ==> self.sessions@.len() >= vstd::math::min(
                    base_len as int,
                    self.max_sessions - 1,
                ),
                old_entries.to_multiset() == self.sessions@.to_multiset().add(
                    removed@.to_multiset(),
                ),
                forall|k: int, m: int|
                    0 <= k < removed@.len() && 0 <= m < self.sessions@.len() && removed@[k].id@
                        != id@ ==> #[trigger] removed@[k].created_at
                        <= #[trigger] self.sessions@[m].created_at,
                forall|other: Seq<char>, t: u64|
                    other != id@ ==> session_lookup(self.sessions@, other, t) == session_lookup(
                        old_entries,
                        other,
                        t,
                    ) || (exists|k: int|
                        0 <= k < removed@.len() && #[trigger] removed@[k].id@ == other),
            decreases self.sessions.len(),
        {
            let i = self.oldest_index();
            let ghost cur = self.sessions@;
            let ghost old_removed = removed@;
            proof {
                lemma_lookup_at(cur, i as int);
                lemma_remove_lookups(cur, i as int);
            }
            let e = self.sessions.remove(i);
            removed.push(e);
            proof {
                assert(cur.to_multiset().count(cur[i as int]) > 0) by {
                    assert(cur.contains(cur[i as int]));
                }
                assert(old_entries.to_multiset() =~= self.sessions@.to_multiset().add(
                    removed@.to_multiset(),
                ));
                assert forall|k: int, m: int|
                    0 <= k < removed@.len() && 0 <= m < self.sessions@.len() && removed@[k].id@
                        != id@ implies #[trigger] removed@[k].created_at
                    <= #[trigger] self.sessions@[m].created_at by {
                    let im = if m < i {
                        m
                    } else {
                        m + 1
                    };
                    assert(self.sessions@[m] == cur[im]);
                    if k < old_removed.len() {
                        assert(removed@[k] == old_removed[k]);
                    } else {
                        assert(removed@[k] == cur[i as int]);
                    }
                }
                assert forall|other: Seq<char>, t: u64| other != id@ implies session_lookup(
                    self.sessions@,
                    other,
                    t,
                ) == session_lookup(old_entries, other, t) || (exists|k: int|
                    0 <= k < removed@.len() && #[trigger] removed@[k].id@ == other) by {
                    if other == cur[i as int].id@ {
                        assert(removed@[removed@.len() - 1].id@ == other);
                    } else {
                        if !(session_lookup(cur, other, t) == session_lookup(old_entries, other, t)) {
                            let k = choose|k: int|
                                0 <= k < old_removed.len() && #[trigger] old_removed[k].id@ == other;
                            assert(removed@[k] == old_removed[k]);
                        }
                    }
                }
            }
        }
        let ghost kept = self.sessions@;
        let entry = SessionState { id, conversation_id, created_at: now, expires_at, handle };
        proof {
            lemma_push_lookups(kept, entry);
        }
        self.sessions.push(entry);
        proof {
            assert(self.sessions@.drop_last() =~= kept);
            assert(self.sessions@ =~= kept.push(entry));
        }
        removed
    }
}

} // verus!
