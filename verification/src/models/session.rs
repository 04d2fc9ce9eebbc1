//! Sessions and the store that holds them.

use crate::trusted::clock::{is_clock_reading, now_millis};
use crate::trusted::ident::{new_ulid, ulid_alphabet, ULID_LEN};
use crate::trusted::session_cache::{
    cache_entries, cache_get, cache_insert, cache_invalidate, cache_limit, cache_new, cache_remove,
    cache_within_limit, drawn_from,
};
use moka::sync::Cache;
use vstd::prelude::*;

verus! {

/// Lifetime of a session in milliseconds: one hour.
pub const SESSION_TTL_MILLIS: i64 = 3_600_000;

/// Number of sessions the store is made to hold.
pub const SESSION_CAPACITY: u64 = 10_000;

/// Number of characters of a session id: two identifiers in a row.
pub const SESSION_ID_LEN: usize = 52;

/// Name of the cookie that carries the session id.
pub const SESSION_COOKIE: &'static str = "sambro_cookie";

/// What a session is, as mathematics.
pub struct SessionView {
    pub id: Seq<char>,
    pub user_id: Seq<char>,
    pub expires: int,
}

/// One authenticated client context. `expires` counts milliseconds since the
/// Unix epoch; the session is valid strictly before that instant.
#[derive(Debug, Clone)]
pub struct Session {
    pub id: String,
    pub user_id: String,
    pub expires: i64,
}

impl View for Session {
    type V = SessionView;

    open spec fn view(&self) -> SessionView {
        SessionView { id: self.id@, user_id: self.user_id@, expires: self.expires as int }
    }
}

/// A session is expired from the instant `expires` on.
pub open spec fn is_expired(session: SessionView, now: int) -> bool {
    now >= session.expires
}

/// The session that a login of `user_id` at `now` creates under `id`.
pub open spec fn created_session(id: Seq<char>, user_id: Seq<char>, now: int) -> SessionView {
    SessionView { id, user_id, expires: now + SESSION_TTL_MILLIS }
}

/// Whether `text` has the shape of a session id.
pub open spec fn is_session_id(text: Seq<char>) -> bool {
    &&& text.len() == SESSION_ID_LEN
    &&& forall|i: int| 0 <= i < text.len() ==> ulid_alphabet().contains(#[trigger] text[i])
}

/// Draws a session id: two identifiers in a row, each with eighty bits drawn
/// at random, so that the id holds more than the 128 random bits a session
/// token needs. What is random is not told apart here; only the shape is.
pub fn new_session_id() -> (id: String)
    ensures
        is_session_id(id@),
{
    let mut id = new_ulid();
    let more = new_ulid();
    let ghost first = id@;
    id.append(more.as_str());
    proof {
        assert forall|i: int| 0 <= i < id@.len() implies ulid_alphabet().contains(
            #[trigger] id@[i],
        ) by {
            if i < ULID_LEN {
                assert(id@[i] == first[i]);
            } else {
                assert(id@[i] == more@[i - ULID_LEN]);
            }
        }
    }
    id
}

/// The sum of `a` and `b` within `0..modulus`, for `a` and `b` within it.
pub open spec fn wrapped_sum(a: nat, b: nat, modulus: nat) -> nat {
    if a + b >= modulus {
        (a + b - modulus) as nat
    } else {
        a + b
    }
}

/// The shard, out of `shards`, that holds the sessions under `id`: the
/// numbers of the characters of the id, summed up within `0..shards`. It
/// depends on the id alone, so that a session is looked up and deleted where
/// it was added.
pub open spec fn shard_index(id: Seq<char>, shards: nat) -> nat
    decreases id.len(),
{
    if id.len() == 0 {
        0
    } else {
        wrapped_sum(shard_index(id.drop_last(), shards), (id.last() as nat) % shards, shards)
    }
}

/// Picks the shard, out of `shards`, that holds the sessions under `id`. A
/// server that keeps a store per shard, each behind a lock of its own, lets
/// requests with different ids through side by side.
pub fn shard_of(id: &str, shards: usize) -> (shard: usize)
    requires
        shards > 0,
    ensures
        shard == shard_index(id@, shards as nat),
        shard < shards,
{
    let len = id.unicode_len();
    let mut shard: usize = 0;
    let mut at: usize = 0;
    proof {
        assert(id@.take(0) =~= Seq::<char>::empty());
    }
    while at < len
        invariant
            at <= len,
            len == id@.len(),
            shards > 0,
            shard < shards,
            shard == shard_index(id@.take(at as int), shards as nat),
        decreases len - at,
    {
        let c = id.get_char(at);
        let step = (c as u32 as usize) % shards;
        proof {
            assert(id@.take(at + 1).drop_last() =~= id@.take(at as int));
            assert(id@.take(at + 1).last() == c);
        }
        if shard >= shards - step {
            shard = shard - (shards - step);
        } else {
            shard = shard + step;
        }
        at = at + 1;
    }
    proof {
        assert(id@.take(len as int) =~= id@);
    }
    shard
}

/// Whether `session` can have come from a login of `user_id`: it carries a
/// well-formed session id and `user_id`, and expires one session lifetime
/// after an instant that the clock can show.
pub open spec fn is_fresh_session(session: SessionView, user_id: Seq<char>) -> bool {
    &&& is_session_id(session.id)
    &&& session.user_id == user_id
    &&& is_clock_reading(session.expires - SESSION_TTL_MILLIS)
}

/// What a lookup of `id` at `now` answers: the session under `id` unless it
/// is expired.
pub open spec fn lookup(
    sessions: Map<Seq<char>, SessionView>,
    id: Seq<char>,
    now: int,
) -> Option<SessionView> {
    if sessions.contains_key(id) && !is_expired(sessions[id], now) {
        Some(sessions[id])
    } else {
        None
    }
}

/// Whether `found` is what a lookup of `id` at `now` answers: the session
/// that `lookup` names, which carries the id that was asked for, or nothing.
pub open spec fn is_lookup_answer(
    found: Option<Session>,
    sessions: Map<Seq<char>, SessionView>,
    id: Seq<char>,
    now: int,
) -> bool {
    match found {
        Some(session) => lookup(sessions, id, now) == Some(session@) && session.id@ == id,
        None => lookup(sessions, id, now).is_none(),
    }
}

/// What a lookup of `id` at `now` leaves behind: an expired session under
/// `id` is evicted, and nothing else changes.
pub open spec fn after_lookup(
    sessions: Map<Seq<char>, SessionView>,
    id: Seq<char>,
    now: int,
) -> Map<Seq<char>, SessionView> {
    if sessions.contains_key(id) && is_expired(sessions[id], now) {
        sessions.remove(id)
    } else {
        sessions
    }
}

/// Whether every session of `sessions` is held under its own id, so that no
/// two of them carry the same id. The store keeps its sessions so.
pub open spec fn keyed_by_id(sessions: Map<Seq<char>, SessionView>) -> bool {
    forall|id: Seq<char>| sessions.contains_key(id) ==> (#[trigger] sessions[id]).id == id
}

/// What the store keeps true of the sessions it holds: they are finitely
/// many, and each is held under its own id.
pub open spec fn well_kept(sessions: Map<Seq<char>, SessionView>) -> bool {
    sessions.dom().finite() && keyed_by_id(sessions)
}

/// Sessions that are well kept stay so when some of them are dropped.
proof fn lemma_kept_sessions_are_well_kept(sessions: Map<Seq<char>, SessionView>)
    requires
        well_kept(sessions),
    ensures
        forall|kept: Map<Seq<char>, SessionView>| #[trigger]
            drawn_from(kept, sessions) ==> well_kept(kept),
{
    assert forall|kept: Map<Seq<char>, SessionView>| #[trigger]
        drawn_from(kept, sessions) implies well_kept(kept) by {
        assert forall|id: Seq<char>| kept.contains_key(id) implies (#[trigger] kept[id]).id
            == id by {
            assert(sessions.contains_key(id) && kept[id] == sessions[id]);
        }
        assert(kept.dom().subset_of(sessions.dom()));
        vstd::set_lib::lemma_len_subset(kept.dom(), sessions.dom());
    }
}

/// The in-memory session store. Its view maps each session id to the session
/// held under it.
///
/// The store is made for `capacity()` sessions. While `within_capacity()`
/// holds it keeps every session until that session is deleted or found
/// expired. Once it has been filled past its capacity it may drop sessions of
/// its choosing, at any later call; it still never invents or alters one.
///
/// A store has one owner at a time: every operation takes it by `&mut`, and
/// there is no way to copy it. What it holds is therefore what its owner's
/// calls have left in it. A server that serves many requests at once keeps
/// several stores, each behind a lock of its own, and picks the store of a
/// session by `shard_of` its id.
pub struct SessionManager {
    sessions: Cache<String, Session>,
}

impl View for SessionManager {
    type V = Map<Seq<char>, SessionView>;

    closed spec fn view(&self) -> Map<Seq<char>, SessionView> {
        cache_entries(self.sessions)
    }
}

impl SessionManager {
    /// The number of sessions the store is made to hold.
    pub closed spec fn capacity(&self) -> nat {
        cache_limit(self.sessions)
    }

    /// True as long as the store has never been filled past its capacity.
    pub closed spec fn within_capacity(&self) -> bool {
        cache_within_limit(self.sessions)
    }

    /// Whether the store is certain to keep a session added under `id`,
    /// together with all it holds.
    pub open spec fn has_room_for(&self, id: Seq<char>) -> bool {
        self.within_capacity() && self@.dom().insert(id).len() <= self.capacity()
    }

    /// How the store stands after `session` was added to `before`: nothing
    /// is in it that was not in `before`, but `session`. Where `before` had
    /// room, the store holds `session` and all that `before` held.
    pub open spec fn holds_added(&self, before: &SessionManager, session: SessionView) -> bool {
        &&& self.capacity() == before.capacity()
        &&& drawn_from(self@, before@.insert(session.id, session))
        &&& before.has_room_for(session.id) ==> self.within_capacity() && self@
            == before@.insert(session.id, session)
    }

    /// How the store stands after `id` was looked up in `before` at `now`:
    /// it holds no more than `after_lookup` says, and exactly that while it
    /// is within its capacity.
    pub open spec fn holds_looked_up(
        &self,
        before: &SessionManager,
        id: Seq<char>,
        now: int,
    ) -> bool {
        &&& self.capacity() == before.capacity()
        &&& self.within_capacity() == before.within_capacity()
        &&& drawn_from(self@, after_lookup(before@, id, now))
        &&& before.within_capacity() ==> self@ == after_lookup(before@, id, now)
    }

    /// How the store stands after `id` was deleted from `before`: `id` is
    /// gone and nothing was added. Nothing else is gone either while the
    /// store is within its capacity, or where `before` did not hold `id`.
    pub open spec fn holds_deleted(&self, before: &SessionManager, id: Seq<char>) -> bool {
        &&& self.capacity() == before.capacity()
        &&& self.within_capacity() == before.within_capacity()
        &&& !self@.contains_key(id)
        &&& drawn_from(self@, before@.remove(id))
        &&& before.within_capacity() || !before@.contains_key(id) ==> self@ == before@.remove(id)
    }

    #[verifier::type_invariant]
    spec fn well_formed(&self) -> bool {
        well_kept(self@)
    }

    /// An empty store for `SESSION_CAPACITY` sessions.
    pub fn new() -> (store: SessionManager)
        ensures
            store@ =~= Map::empty(),
            store.capacity() == SESSION_CAPACITY,
            store.within_capacity(),
            well_kept(store@),
    {
        SessionManager { sessions: cache_new(SESSION_CAPACITY) }
    }

    /// Stores a session for `user_id` under `id`, created at `now`, and
    /// returns it. A session already held under `id` is replaced.
    pub fn add_session_at(&mut self, id: String, user_id: String, now: i64) -> (session: Session)
        requires
            now + SESSION_TTL_MILLIS <= i64::MAX,
        ensures
            session@ == created_session(id@, user_id@, now as int),
            final(self).holds_added(old(self), session@),
            well_kept(final(self)@),
    {
        let expires: i64 = now + SESSION_TTL_MILLIS;
        let stored = Session { id: id.clone(), user_id: user_id.clone(), expires };
        let session = Session { id: id.clone(), user_id, expires };
        proof {
            use_type_invariant(&*self);
            lemma_kept_sessions_are_well_kept(self@.insert(id@, stored@));
        }
        cache_insert(&mut self.sessions, id, stored);
        proof {
            use_type_invariant(&*self);
        }
        session
    }

    /// Creates a session for `user_id` that expires one hour from now, stores
    /// it under `id`, and returns it. The id is one that `new_session_id`
    /// drew; it is taken as an argument by a caller that picks the store by
    /// the id.
    ///
    /// The time comes from outside; whatever it is, the session is the one
    /// that `add_session_at` stores for it.
    pub fn add_session_under(&mut self, id: String, user_id: String) -> (session: Session)
        ensures
            session.id@ == id@,
            is_session_id(id@) ==> is_fresh_session(session@, user_id@),
            session@ == created_session(id@, user_id@, session.expires - SESSION_TTL_MILLIS),
            is_clock_reading(session.expires - SESSION_TTL_MILLIS),
            final(self).holds_added(old(self), session@),
            well_kept(final(self)@),
    {
        let now = now_millis();
        self.add_session_at(id, user_id, now)
    }

    /// Creates a session for `user_id` that expires one hour from now, stores
    /// it under a fresh session id, and returns it.
    ///
    /// The id and the time come from outside; whatever they are, the session
    /// is the one that `add_session_at` stores for them.
    pub fn add_session(&mut self, user_id: String) -> (session: Session)
        ensures
            is_fresh_session(session@, user_id@),
            final(self).holds_added(old(self), session@),
            well_kept(final(self)@),
    {
        let id = new_session_id();
        self.add_session_under(id, user_id)
    }

    /// Looks up `id` at the instant `now`. A session that is expired at `now`
    /// is not returned; it is evicted instead. A session that is returned is
    /// the one held under `id`, and carries that id.
    pub fn get_session_at(&mut self, id: &String, now: i64) -> (found: Option<Session>)
        ensures
            is_lookup_answer(found, old(self)@, id@, now as int),
            final(self).holds_looked_up(old(self), id@, now as int),
            found.is_none() ==> !final(self)@.contains_key(id@),
            well_kept(final(self)@),
    {
        proof {
            use_type_invariant(&*self);
            lemma_kept_sessions_are_well_kept(self@);
        }
        let held = cache_get(&mut self.sessions, id.as_str());
        proof {
            use_type_invariant(&*self);
        }
        match held {
            Some(session) => {
                if now >= session.expires {
                    proof {
                        lemma_kept_sessions_are_well_kept(self@.remove(id@));
                    }
                    cache_remove(&mut self.sessions, id.as_str());
                    proof {
                        use_type_invariant(&*self);
                    }
                    None
                } else {
                    Some(session)
                }
            },
            None => None,
        }
    }

    /// Looks up `id` now. The clock is read once; the answer is the one that
    /// `get_session_at` gives for that reading.
    pub fn get_session(&mut self, id: &String) -> (found: Option<Session>)
        ensures
            exists|now: int|
                {
                    &&& is_clock_reading(now)
                    &&& #[trigger] is_lookup_answer(found, old(self)@, id@, now)
                    &&& final(self).holds_looked_up(old(self), id@, now)
                },
            found.is_none() ==> !final(self)@.contains_key(id@),
            well_kept(final(self)@),
    {
        let now = now_millis();
        self.get_session_at(id, now)
    }

    /// Removes the session under `id`, if there is one. Removing an absent
    /// session changes nothing.
    pub fn delete_session(&mut self, id: &String)
        ensures
            final(self).holds_deleted(old(self), id@),
            well_kept(final(self)@),
    {
        proof {
            use_type_invariant(&*self);
            lemma_kept_sessions_are_well_kept(self@.remove(id@));
        }
        cache_invalidate(&mut self.sessions, id.as_str());
        proof {
            use_type_invariant(&*self);
        }
    }
}

/// A session that was just created is found under its id, with the user it
/// was created for, at every instant before it expires. This holds of a store
/// that had room for the session.
pub proof fn lemma_created_session_is_found(
    before: SessionManager,
    after: SessionManager,
    id: Seq<char>,
    user_id: Seq<char>,
    now: int,
    at: int,
)
    requires
        before.has_room_for(id),
        after.holds_added(&before, created_session(id, user_id, now)),
        at < now + SESSION_TTL_MILLIS,
    ensures
        lookup(after@, id, at) == Some(created_session(id, user_id, now)),
        lookup(after@, id, at).unwrap().user_id == user_id,
{
}

/// The life of a session in a store that had room for it: a lookup before it
/// expires finds it, with the user it was created for; a lookup from the
/// instant it expires on finds nothing; and after that no lookup finds it
/// again, whatever the clock shows.
pub proof fn lemma_session_is_found_until_it_expires(
    before: SessionManager,
    created: SessionManager,
    found: SessionManager,
    evicted: SessionManager,
    id: Seq<char>,
    user_id: Seq<char>,
    now: int,
    early: int,
    late: int,
    ever: int,
)
    requires
        before.has_room_for(id),
        created.holds_added(&before, created_session(id, user_id, now)),
        early < now + SESSION_TTL_MILLIS,
        found.holds_looked_up(&created, id, early),
        now + SESSION_TTL_MILLIS <= late,
        evicted.holds_looked_up(&found, id, late),
    ensures
        lookup(created@, id, early) == Some(created_session(id, user_id, now)),
        lookup(found@, id, late).is_none(),
        lookup(evicted@, id, ever).is_none(),
{
    lemma_expired_session_stays_absent(found, evicted, id, late, ever);
}

/// A store that has never been filled past its capacity and holds fewer
/// sessions than it is made for has room for a session under any id.
pub proof fn lemma_store_below_capacity_has_room(store: SessionManager, id: Seq<char>)
    requires
        store.within_capacity(),
        well_kept(store@),
        store@.len() < store.capacity(),
    ensures
        store.has_room_for(id),
{
}

/// Deleting a session from a store that has never been filled past its
/// capacity leaves every other session as it was found before.
pub proof fn lemma_delete_leaves_the_others(
    before: SessionManager,
    after: SessionManager,
    deleted: Seq<char>,
    other: Seq<char>,
    at: int,
)
    requires
        before.within_capacity(),
        after.holds_deleted(&before, deleted),
        other != deleted,
    ensures
        lookup(after@, other, at) == lookup(before@, other, at),
{
}

/// From the instant a session expires, a lookup of its id answers nothing and
/// leaves nothing under that id, so that no later lookup answers anything
/// either, whatever the clock shows then.
pub proof fn lemma_expired_session_stays_absent(
    before: SessionManager,
    after: SessionManager,
    id: Seq<char>,
    now: int,
    later: int,
)
    requires
        before@.contains_key(id) ==> is_expired(before@[id], now),
        after.holds_looked_up(&before, id, now),
    ensures
        lookup(before@, id, now).is_none(),
        !after@.contains_key(id),
        lookup(after@, id, later).is_none(),
{
    assert(!after_lookup(before@, id, now).contains_key(id));
}

/// A lookup never answers with an expired session, and what it answers with
/// is held under the id that was asked for.
pub proof fn lemma_lookup_answers_live_sessions(
    sessions: Map<Seq<char>, SessionView>,
    id: Seq<char>,
    now: int,
)
    ensures
        lookup(sessions, id, now) matches Some(session) ==> sessions.contains_key(id)
            && sessions[id] == session && now < session.expires,
{
}

/// Deleting the same id twice in a row: the second deletion changes nothing.
pub proof fn lemma_second_delete_changes_nothing(
    start: SessionManager,
    once: SessionManager,
    twice: SessionManager,
    id: Seq<char>,
)
    requires
        once.holds_deleted(&start, id),
        twice.holds_deleted(&once, id),
    ensures
        twice@ == once@,
        twice.capacity() == once.capacity(),
        twice.within_capacity() == once.within_capacity(),
{
}

/// Whether the step `i` of `stores` adds the session `i` of `sessions` to a
/// store that has room for it.
pub open spec fn is_added_with_room(
    stores: Seq<SessionManager>,
    sessions: Seq<SessionView>,
    i: int,
) -> bool {
    stores[i].has_room_for(sessions[i].id) && stores[i + 1].holds_added(&stores[i], sessions[i])
}

/// Whether `stores` holds a store before the first of `sessions` is added
/// and after each one of them, every addition finding room.
pub open spec fn is_run_of_additions(
    stores: Seq<SessionManager>,
    sessions: Seq<SessionView>,
) -> bool {
    &&& stores.len() == sessions.len() + 1
    &&& forall|i: int|
        0 <= i < sessions.len() ==> #[trigger] is_added_with_room(stores, sessions, i)
}

/// Whether no two of `sessions` carry the same id.
pub open spec fn have_distinct_ids(sessions: Seq<SessionView>) -> bool {
    forall|i: int, j: int|
        0 <= i < j < sessions.len() ==> (#[trigger] sessions[i]).id != (#[trigger] sessions[j]).id
}

/// Sessions added one after another under ids that all differ, to a store
/// that had room for each, are all found afterwards, each as it was added and
/// so with its own user, at every instant before the first of them expires.
/// In whatever order callers reach the store, it takes their additions one
/// after another; that the ids they draw differ rests on the random source.
pub proof fn lemma_added_sessions_are_all_found(
    stores: Seq<SessionManager>,
    sessions: Seq<SessionView>,
    at: int,
)
    requires
        is_run_of_additions(stores, sessions),
        have_distinct_ids(sessions),
        forall|i: int| 0 <= i < sessions.len() ==> at < (#[trigger] sessions[i]).expires,
    ensures
        forall|i: int|
            0 <= i < sessions.len() ==> lookup(stores.last()@, (#[trigger] sessions[i]).id, at)
                == Some(sessions[i]),
    decreases sessions.len(),
{
    if sessions.len() > 0 {
        let n = sessions.len() - 1;
        let earlier_stores = stores.drop_last();
        let earlier = sessions.drop_last();
        assert forall|i: int| 0 <= i < earlier.len() implies #[trigger] is_added_with_room(
            earlier_stores,
            earlier,
            i,
        ) by {
            assert(is_added_with_room(stores, sessions, i));
        }
        assert forall|i: int| 0 <= i < earlier.len() implies
            at < (#[trigger] earlier[i]).expires by {
            assert(at < sessions[i].expires);
        }
        assert(have_distinct_ids(earlier)) by {
            assert forall|i: int, j: int| 0 <= i < j < earlier.len() implies
                (#[trigger] earlier[i]).id != (#[trigger] earlier[j]).id by {
                assert(sessions[i].id != sessions[j].id);
            }
        }
        lemma_added_sessions_are_all_found(earlier_stores, earlier, at);
        assert(earlier_stores.last() == stores[n]);
        assert(is_added_with_room(stores, sessions, n));
        assert(stores.last()@ == stores[n]@.insert(sessions[n].id, sessions[n]));
        assert forall|i: int| 0 <= i < sessions.len() implies lookup(
            stores.last()@,
            (#[trigger] sessions[i]).id,
            at,
        ) == Some(sessions[i]) by {
            if i < n {
                assert(sessions[i].id != sessions[n].id);
                assert(lookup(stores[n]@, earlier[i].id, at) == Some(earlier[i]));
            }
        }
    }
}

} // verus!
