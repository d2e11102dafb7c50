//! Process-local event store for tax profiles, with optimistic concurrency and
//! an index that makes the hashed TIN identity exclusive across profiles.
//!
//! Streams and the identity index are association lists keyed by string; the
//! store's well-formedness ([`InMemoryTaxProfileStore::wf`]) keeps their keys
//! distinct, points every indexed hash at a registered stream carrying that
//! hash, and indexes every registered stream under its hash.

use vstd::prelude::*;

use crate::domain::tax_profile::{
    apply_spec, events_model, handle_spec, initial_profile, well_formed,
    CommandModel, ErrorModel, EventModel, HolderModel, ProfileModel, TaxProfile, TaxProfileCommand,
    TaxProfileError, TaxProfileEvent,
};
use crate::domain::profile_laws::{
    lemma_apply_preserves_well_formed, lemma_handle_emits_one_event, lemma_identity_is_immutable,
    lemma_missing_profile_is_not_found, lemma_only_personal_holder_transfers,
};
use crate::text::{owned, str_eq};

verus! {

// ---------------------------------------------------------------------------
// Association lists
// ---------------------------------------------------------------------------

pub open spec fn assoc_has<V>(s: Seq<(Seq<char>, V)>, k: Seq<char>) -> bool {
    exists|i: int| 0 <= i < s.len() && #[trigger] s[i].0 == k
}

pub open spec fn assoc_get<V>(s: Seq<(Seq<char>, V)>, k: Seq<char>) -> V {
    s[choose|i: int| 0 <= i < s.len() && #[trigger] s[i].0 == k].1
}

pub open spec fn assoc_distinct<V>(s: Seq<(Seq<char>, V)>) -> bool {
    forall|i: int, j: int| 0 <= i < s.len() && 0 <= j < s.len() && i != j ==> s[i].0 != s[j].0
}

proof fn lemma_assoc_at<V>(s: Seq<(Seq<char>, V)>, i: int)
    requires
        assoc_distinct(s),
        0 <= i < s.len(),
    ensures
        assoc_has(s, s[i].0),
        assoc_get(s, s[i].0) == s[i].1,
{
    let k = s[i].0;
    assert(s[i].0 == k);
    let j = choose|j: int| 0 <= j < s.len() && #[trigger] s[j].0 == k;
    assert(j == i);
}

proof fn lemma_assoc_push<V>(s: Seq<(Seq<char>, V)>, k: Seq<char>, v: V)
    requires
        assoc_distinct(s),
        !assoc_has(s, k),
    ensures
        assoc_distinct(s.push((k, v))),
        assoc_has(s.push((k, v)), k),
        assoc_get(s.push((k, v)), k) == v,
        forall|k2: Seq<char>|
            k2 != k ==> (assoc_has(s.push((k, v)), k2) == assoc_has(s, k2) && (assoc_has(s, k2)
                ==> assoc_get(s.push((k, v)), k2) == assoc_get(s, k2))),
{
    let t = s.push((k, v));
    assert forall|i: int, j: int| 0 <= i < t.len() && 0 <= j < t.len() && i != j implies t[i].0
        != t[j].0 by {
        if i == s.len() {
            assert(s[j].0 == t[j].0);
        } else if j == s.len() {
            assert(s[i].0 == t[i].0);
        }
    }
    lemma_assoc_at(t, s.len() as int);
    assert forall|k2: Seq<char>| k2 != k implies (assoc_has(t, k2) == assoc_has(s, k2) && (
    assoc_has(s, k2) ==> assoc_get(t, k2) == assoc_get(s, k2))) by {
        if assoc_has(s, k2) {
            let i = choose|i: int| 0 <= i < s.len() && #[trigger] s[i].0 == k2;
            assert(t[i].0 == k2);
            lemma_assoc_at(s, i);
            lemma_assoc_at(t, i);
        }
        if assoc_has(t, k2) {
            let i = choose|i: int| 0 <= i < t.len() && #[trigger] t[i].0 == k2;
            assert(i < s.len());
            assert(s[i].0 == k2);
        }
    }
}

proof fn lemma_assoc_update<V>(s: Seq<(Seq<char>, V)>, i: int, v: V)
    requires
        assoc_distinct(s),
        0 <= i < s.len(),
    ensures
        assoc_distinct(s.update(i, (s[i].0, v))),
        assoc_get(s.update(i, (s[i].0, v)), s[i].0) == v,
        forall|k2: Seq<char>| #[trigger]
            assoc_has(s.update(i, (s[i].0, v)), k2) == assoc_has(s, k2),
        forall|k2: Seq<char>|
            k2 != s[i].0 && assoc_has(s, k2) ==> assoc_get(s.update(i, (s[i].0, v)), k2)
                == assoc_get(s, k2),
{
    let k = s[i].0;
    let t = s.update(i, (k, v));
    assert forall|a: int, b: int| 0 <= a < t.len() && 0 <= b < t.len() && a != b implies t[a].0
        != t[b].0 by {
        assert(t[a].0 == s[a].0);
        assert(t[b].0 == s[b].0);
    }
    lemma_assoc_at(t, i);
    assert forall|k2: Seq<char>| #[trigger] assoc_has(t, k2) == assoc_has(s, k2) by {
        if assoc_has(s, k2) {
            let j = choose|j: int| 0 <= j < s.len() && #[trigger] s[j].0 == k2;
            assert(t[j].0 == k2);
        }
        if assoc_has(t, k2) {
            let j = choose|j: int| 0 <= j < t.len() && #[trigger] t[j].0 == k2;
            assert(s[j].0 == k2);
        }
    }
    assert forall|k2: Seq<char>| k2 != k && assoc_has(s, k2) implies assoc_get(t, k2)
        == assoc_get(s, k2) by {
        let j = choose|j: int| 0 <= j < s.len() && #[trigger] s[j].0 == k2;
        assert(j != i);
        lemma_assoc_at(s, j);
        assert(t[j].0 == k2);
        lemma_assoc_at(t, j);
    }
}

// ---------------------------------------------------------------------------
// Replay
// ---------------------------------------------------------------------------

/// Folds events into a state, oldest first.
pub open spec fn fold_events(p: ProfileModel, evs: Seq<EventModel>) -> ProfileModel
    decreases evs.len(),
{
    if evs.len() == 0 {
        p
    } else {
        apply_spec(fold_events(p, evs.drop_last()), evs.last())
    }
}

/// The state of a stream.
pub open spec fn replay(evs: Seq<EventModel>) -> ProfileModel {
    fold_events(initial_profile(), evs)
}

/// Replaying a stream always yields a well-formed state.
pub proof fn lemma_replay_well_formed(evs: Seq<EventModel>)
    ensures
        well_formed(replay(evs)),
    decreases evs.len(),
{
    lemma_apply_preserves_well_formed(initial_profile(), evs.last());
    if evs.len() > 0 {
        lemma_replay_well_formed(evs.drop_last());
        lemma_apply_preserves_well_formed(replay(evs.drop_last()), evs.last());
    }
}

proof fn lemma_replay_push(evs: Seq<EventModel>, e: EventModel)
    ensures
        replay(evs.push(e)) == apply_spec(replay(evs), e),
{
    assert(evs.push(e).drop_last() =~= evs);
}

// ---------------------------------------------------------------------------
// The store
// ---------------------------------------------------------------------------

pub open spec fn streams_model(v: Seq<(String, Vec<TaxProfileEvent>)>) -> Seq<
    (Seq<char>, Seq<EventModel>),
> {
    v.map_values(|e: (String, Vec<TaxProfileEvent>)| (e.0@, events_model(e.1@)))
}

pub open spec fn index_model(v: Seq<(String, String)>) -> Seq<(Seq<char>, Seq<char>)> {
    v.map_values(|e: (String, String)| (e.0@, e.1@))
}

/// Process-local event store used by domain tests (optimistic concurrency).
#[derive(Debug)]
pub struct InMemoryTaxProfileStore {
    streams: Vec<(String, Vec<TaxProfileEvent>)>,
    identity_index: Vec<(String, String)>,
}

impl InMemoryTaxProfileStore {
    /// The events recorded for profile `id` (empty when none).
    pub closed spec fn stream_events(&self, id: Seq<char>) -> Seq<EventModel> {
        let m = streams_model(self.streams@);
        if assoc_has(m, id) {
            assoc_get(m, id)
        } else {
            Seq::empty()
        }
    }

    /// The profile that holds identity hash `h`, if any.
    pub closed spec fn indexed(&self, h: Seq<char>) -> Option<Seq<char>> {
        let m = index_model(self.identity_index@);
        if assoc_has(m, h) {
            Some(assoc_get(m, h))
        } else {
            None
        }
    }

    /// The state of profile `id`.
    pub open spec fn state_of(&self, id: Seq<char>) -> ProfileModel {
        replay(self.stream_events(id))
    }

    /// Distinct keys; every indexed hash names a registered stream with that
    /// hash; every registered stream is indexed under its hash.
    pub closed spec fn wf(&self) -> bool {
        &&& assoc_distinct(streams_model(self.streams@))
        &&& assoc_distinct(index_model(self.identity_index@))
        &&& forall|h: Seq<char>| #[trigger]
            self.indexed(h) is Some ==> self.state_of(self.indexed(h)->0).exists
                && self.state_of(self.indexed(h)->0).identity_hash == Some(h)
        &&& forall|id: Seq<char>| #[trigger]
            self.state_of(id).exists ==> self.state_of(id).identity_hash is Some && self.indexed(
                self.state_of(id).identity_hash->0,
            ) == Some(id)
    }

    /// Unchanged streams and index.
    pub open spec fn same_contents(&self, other: &Self) -> bool {
        &&& forall|k: Seq<char>| #[trigger] self.stream_events(k) == other.stream_events(k)
        &&& forall|k: Seq<char>| #[trigger] self.indexed(k) == other.indexed(k)
    }

    pub fn new() -> (s: Self)
        ensures
            s.wf(),
            forall|k: Seq<char>| #[trigger] s.stream_events(k) == Seq::<EventModel>::empty(),
            forall|k: Seq<char>| #[trigger] s.indexed(k) is None,
    {
        let s = InMemoryTaxProfileStore { streams: Vec::new(), identity_index: Vec::new() };
        assert(streams_model(s.streams@) =~= Seq::empty());
        assert(index_model(s.identity_index@) =~= Seq::empty());
        assert forall|id: Seq<char>| !(#[trigger] s.state_of(id)).exists by {
            assert(s.stream_events(id) =~= Seq::<EventModel>::empty());
        }
        s
    }

    fn find_stream(&self, id: &str) -> (r: Option<usize>)
        ensures
            r matches Some(i) ==> i < self.streams@.len() && self.streams@[i as int].0@ == id@,
            r is None ==> !assoc_has(streams_model(self.streams@), id@),
    {
        let mut i: usize = 0;
        while i < self.streams.len()
            invariant
                i <= self.streams@.len(),
                forall|j: int| 0 <= j < i ==> self.streams@[j].0@ != id@,
            decreases self.streams.len() - i,
        {
            if str_eq(self.streams[i].0.as_str(), id) {
                return Some(i);
            }
            i = i + 1;
        }
        proof {
            let m = streams_model(self.streams@);
            if assoc_has(m, id@) {
                let j = choose|j: int| 0 <= j < m.len() && #[trigger] m[j].0 == id@;
                assert(self.streams@[j].0@ == id@);
            }
        }
        None
    }

    fn find_index(&self, h: &str) -> (r: Option<usize>)
        ensures
            r matches Some(i) ==> i < self.identity_index@.len()
                && self.identity_index@[i as int].0@ == h@,
            r is None ==> !assoc_has(index_model(self.identity_index@), h@),
    {
        let mut i: usize = 0;
        while i < self.identity_index.len()
            invariant
                i <= self.identity_index@.len(),
                forall|j: int| 0 <= j < i ==> self.identity_index@[j].0@ != h@,
            decreases self.identity_index.len() - i,
        {
            if str_eq(self.identity_index[i].0.as_str(), h) {
                return Some(i);
            }
            i = i + 1;
        }
        proof {
            let m = index_model(self.identity_index@);
            if assoc_has(m, h@) {
                let j = choose|j: int| 0 <= j < m.len() && #[trigger] m[j].0 == h@;
                assert(self.identity_index@[j].0@ == h@);
            }
        }
        None
    }

    /// Replays the stream of `profile_id`; the revision is its event count.
    pub fn load(&self, profile_id: &str) -> (r: (TaxProfile, u64))
        requires
            self.wf(),
        ensures
            r.0@ == self.state_of(profile_id@),
            r.1 == self.stream_events(profile_id@).len(),
    {
        let mut state = TaxProfile::new();
        match self.find_stream(profile_id) {
            None => {
                assert(self.stream_events(profile_id@) =~= Seq::<EventModel>::empty());
                (state, 0)
            },
            Some(i) => {
                let events = &self.streams[i].1;
                proof {
                    lemma_assoc_at(streams_model(self.streams@), i as int);
                }
                let ghost evs = events_model(events@);
                assert(self.stream_events(profile_id@) == evs);
                let mut j: usize = 0;
                while j < events.len()
                    invariant
                        j <= events@.len(),
                        evs == events_model(events@),
                        state@ == replay(evs.subrange(0, j as int)),
                    decreases events.len() - j,
                {
                    state.apply(&events[j]);
                    proof {
                        lemma_replay_push(evs.subrange(0, j as int), evs[j as int]);
                        assert(evs.subrange(0, j as int).push(evs[j as int]) =~= evs.subrange(
                            0,
                            j as int + 1,
                        ));
                    }
                    j = j + 1;
                }
                assert(evs.subrange(0, events@.len() as int) =~= evs);
                (state, events.len() as u64)
            },
        }
    }
}

/// The hash that a decided event list registers, if it registers one.
pub open spec fn registered_hash(evs: Seq<EventModel>) -> Option<Seq<char>> {
    if evs.len() > 0 && evs[0] is TaxProfileRegistered {
        Some(evs[0]->TaxProfileRegistered_tin_hash)
    } else {
        None
    }
}

/// What [`InMemoryTaxProfileStore::execute`] decides: the events to append to
/// the stream of `pid`, or the error.
pub open spec fn execute_decision(
    s: InMemoryTaxProfileStore,
    pid: Seq<char>,
    c: CommandModel,
    expected_revision: u64,
) -> Result<Seq<EventModel>, ErrorModel> {
    if c is RegisterTaxProfile && s.indexed(c->RegisterTaxProfile_tin_hash) is Some && s.indexed(
        c->RegisterTaxProfile_tin_hash,
    )->0 != pid {
        Err(
            ErrorModel::AlreadyHeld(
                s.state_of(s.indexed(c->RegisterTaxProfile_tin_hash)->0).holder->0,
            ),
        )
    } else if s.stream_events(pid).len() != expected_revision {
        Err(ErrorModel::ConcurrentModification)
    } else {
        handle_spec(s.state_of(pid), c)
    }
}

/// Only registration decides a registration event, and only on a profile
/// that does not exist yet; it carries the command's hash.
proof fn lemma_registered_event_origin(p: ProfileModel, c: CommandModel)
    requires
        handle_spec(p, c) is Ok,
    ensures
        registered_hash(handle_spec(p, c)->Ok_0) is Some ==> (c is RegisterTaxProfile && !p.exists
            && registered_hash(handle_spec(p, c)->Ok_0) == Some(c->RegisterTaxProfile_tin_hash)
            && handle_spec(p, c)->Ok_0[0]->TaxProfileRegistered_profile_id
            == c->RegisterTaxProfile_profile_id),
        registered_hash(handle_spec(p, c)->Ok_0) is None ==> p.exists,
{
    lemma_handle_emits_one_event(p, c);
    if !p.exists && !(c is RegisterTaxProfile) {
        lemma_missing_profile_is_not_found(p, c);
    }
}

impl InMemoryTaxProfileStore {
    proof fn lemma_execute_keeps_wf(
        pre: Self,
        post: Self,
        pid: Seq<char>,
        c: CommandModel,
        e: EventModel,
    )
        requires
            pre.wf(),
            assoc_distinct(streams_model(post.streams@)),
            assoc_distinct(index_model(post.identity_index@)),
            handle_spec(pre.state_of(pid), c) == Ok::<Seq<EventModel>, ErrorModel>(seq![e]),
            !(c is RegisterTaxProfile && pre.indexed(c->RegisterTaxProfile_tin_hash) is Some
                && pre.indexed(c->RegisterTaxProfile_tin_hash)->0 != pid),
            forall|k: Seq<char>| #[trigger]
                post.stream_events(k) == if k == pid {
                    pre.stream_events(pid).push(e)
                } else {
                    pre.stream_events(k)
                },
            forall|h: Seq<char>| #[trigger]
                post.indexed(h) == if registered_hash(seq![e]) == Some(h) {
                    Some(pid)
                } else {
                    pre.indexed(h)
                },
        ensures
            post.wf(),
    {
        let p = pre.state_of(pid);
        lemma_registered_event_origin(p, c);
        lemma_replay_push(pre.stream_events(pid), e);
        assert(post.state_of(pid) == apply_spec(p, e));
        if registered_hash(seq![e]) is None {
            lemma_identity_is_immutable(p, c, 0);
        }
        assert forall|h: Seq<char>| #[trigger] post.indexed(h) is Some implies post.state_of(
            post.indexed(h)->0,
        ).exists && post.state_of(post.indexed(h)->0).identity_hash == Some(h) by {
            if registered_hash(seq![e]) != Some(h) {
                let id = pre.indexed(h)->0;
                assert(pre.indexed(h) is Some);
                if id != pid {
                    assert(post.stream_events(id) == pre.stream_events(id));
                } else {
                    assert(pre.state_of(pid).exists);
                }
            }
        }
        assert forall|id: Seq<char>| #[trigger] post.state_of(id).exists implies post.state_of(
            id,
        ).identity_hash is Some && post.indexed(post.state_of(id).identity_hash->0) == Some(id) by {
            if id != pid {
                assert(post.stream_events(id) == pre.stream_events(id));
                assert(pre.state_of(id).exists);
                let h = pre.state_of(id).identity_hash->0;
                assert(pre.indexed(h) == Some(id));
                if registered_hash(seq![e]) == Some(h) {
                    assert(false);
                }
            } else if registered_hash(seq![e]) is None {
                assert(pre.state_of(pid).exists);
                let h = pre.state_of(pid).identity_hash->0;
                assert(pre.indexed(h) == Some(pid));
            }
        }
    }

    /// Runs a command against the stream of `profile_id` with optimistic
    /// concurrency: `expected_revision` must be the stream's event count.
    /// Registration is refused when another profile already holds the hash.
    pub fn execute(
        &mut self,
        profile_id: &str,
        command: TaxProfileCommand,
        expected_revision: u64,
    ) -> (res: Result<(TaxProfile, u64), TaxProfileError>)
        requires
            old(self).wf(),
            command@ is RegisterTaxProfile ==> command@->RegisterTaxProfile_profile_id
                == profile_id@,
        ensures
            final(self).wf(),
            match execute_decision(*old(self), profile_id@, command@, expected_revision) {
                Err(e) => res matches Err(x) && x@ == e && final(self).same_contents(&*old(self)),
                Ok(evs) => res matches Ok(r) && r.0@ == final(self).state_of(profile_id@) && r.1
                    == final(self).stream_events(profile_id@).len() && final(self).stream_events(
                    profile_id@,
                ) == old(self).stream_events(profile_id@) + evs && (forall|k: Seq<char>|
                    k != profile_id@ ==> #[trigger] final(self).stream_events(k) == old(
                        self,
                    ).stream_events(k)) && (forall|h: Seq<char>| #[trigger]
                    final(self).indexed(h) == if registered_hash(evs) == Some(h) {
                        Some(profile_id@)
                    } else {
                        old(self).indexed(h)
                    }),
            },
    {
        let ghost pre = *self;
        if let TaxProfileCommand::RegisterTaxProfile { tin_hash, .. } = &command {
            if let Some(err) = self.identity_conflict(tin_hash.as_str(), profile_id) {
                return Err(err);
            }
        }
        let (state, revision) = self.load(profile_id);
        if revision != expected_revision {
            return Err(TaxProfileError::ConcurrentModification);
        }
        proof {
            lemma_replay_well_formed(self.stream_events(profile_id@));
        }
        let ghost cmd = command@;
        let events = state.handle(command)?;
        proof {
            lemma_handle_emits_one_event(state@, cmd);
            lemma_registered_event_origin(state@, cmd);
        }
        let ghost evs = events_model(events@);
        let ghost e = evs[0];
        assert(evs == seq![e]);
        let ghost before_index = *self;
        if let TaxProfileEvent::TaxProfileRegistered { tin_hash, profile_id: created_id, .. } =
            &events[0]
        {
            assert(registered_hash(evs) == Some(tin_hash@));
            assert(created_id@ == profile_id@);
            self.index_identity(tin_hash.as_str(), created_id.as_str());
        } else {
            assert(registered_hash(evs) is None);
        }
        assert forall|h: Seq<char>| #[trigger]
            self.indexed(h) == if registered_hash(evs) == Some(h) {
                Some(profile_id@)
            } else {
                pre.indexed(h)
            } by {}
        assert(registered_hash(evs) == registered_hash(seq![e]));
        let ghost mid = *self;
        self.append_events(profile_id, events);
        assert forall|h: Seq<char>| #[trigger] self.indexed(h) == mid.indexed(h) by {
            assert(index_model(self.identity_index@) == index_model(mid.identity_index@));
        }
        proof {
            assert(pre.stream_events(profile_id@) + evs =~= pre.stream_events(profile_id@).push(e));
            Self::lemma_execute_keeps_wf(pre, *self, profile_id@, cmd, e);
        }
        Ok(self.load(profile_id))
    }

    /// The error for registering hash `h` under `pid` when another profile
    /// already holds it.
    fn identity_conflict(&self, h: &str, pid: &str) -> (r: Option<TaxProfileError>)
        requires
            self.wf(),
        ensures
            r is Some <==> (self.indexed(h@) is Some && self.indexed(h@)->0 != pid@),
            r matches Some(e) ==> e@ == ErrorModel::AlreadyHeld(
                self.state_of(self.indexed(h@)->0).holder->0,
            ),
    {
        match self.find_index(h) {
            None => None,
            Some(k) => {
                proof {
                    lemma_assoc_at(index_model(self.identity_index@), k as int);
                }
                if str_eq(self.identity_index[k].1.as_str(), pid) {
                    None
                } else {
                    let (existing, _) = self.load(self.identity_index[k].1.as_str());
                    proof {
                        lemma_replay_well_formed(
                            self.stream_events(self.identity_index@[k as int].1@),
                        );
                    }
                    let holder = existing.holder.unwrap();
                    Some(TaxProfileError::AlreadyHeld { holder })
                }
            },
        }
    }

    /// Points hash `h` at profile `pid`.
    fn index_identity(&mut self, h: &str, pid: &str)
        requires
            assoc_distinct(index_model(old(self).identity_index@)),
        ensures
            assoc_distinct(index_model(final(self).identity_index@)),
            final(self).streams@ == old(self).streams@,
            forall|k: Seq<char>| #[trigger]
                final(self).indexed(k) == if k == h@ {
                    Some(pid@)
                } else {
                    old(self).indexed(k)
                },
    {
        let ghost index_pre = index_model(self.identity_index@);
        let key = owned(h);
        let value = owned(pid);
        match self.find_index(h) {
            Some(k) => {
                let _ = self.identity_index.remove(k);
                self.identity_index.insert(k, (key, value));
                proof {
                    assert(index_model(self.identity_index@) =~= index_pre.update(
                        k as int,
                        (index_pre[k as int].0, pid@),
                    ));
                    lemma_assoc_update(index_pre, k as int, pid@);
                    lemma_assoc_at(index_pre, k as int);
                }
            },
            None => {
                self.identity_index.push((key, value));
                proof {
                    assert(index_model(self.identity_index@) =~= index_pre.push((h@, pid@)));
                    lemma_assoc_push(index_pre, h@, pid@);
                }
            },
        }
    }

    /// Appends `events` to the stream of `pid`, creating it when absent.
    fn append_events(&mut self, pid: &str, events: Vec<TaxProfileEvent>)
        requires
            assoc_distinct(streams_model(old(self).streams@)),
        ensures
            assoc_distinct(streams_model(final(self).streams@)),
            final(self).identity_index@ == old(self).identity_index@,
            forall|k: Seq<char>| #[trigger]
                final(self).stream_events(k) == if k == pid@ {
                    old(self).stream_events(pid@) + events_model(events@)
                } else {
                    old(self).stream_events(k)
                },
    {
        let ghost streams_pre = streams_model(self.streams@);
        let ghost evs = events_model(events@);
        let mut events = events;
        match self.find_stream(pid) {
            Some(i) => {
                proof {
                    lemma_assoc_at(streams_pre, i as int);
                }
                let (key, mut stream) = self.streams.remove(i);
                let ghost before = stream@;
                stream.append(&mut events);
                assert(events_model(stream@) =~= events_model(before) + evs);
                self.streams.insert(i, (key, stream));
                proof {
                    assert(streams_model(self.streams@) =~= streams_pre.update(
                        i as int,
                        (streams_pre[i as int].0, streams_pre[i as int].1 + evs),
                    ));
                    lemma_assoc_update(streams_pre, i as int, streams_pre[i as int].1 + evs);
                }
            },
            None => {
                self.streams.push((owned(pid), events));
                proof {
                    assert(streams_model(self.streams@) =~= streams_pre.push((pid@, evs)));
                    lemma_assoc_push(streams_pre, pid@, evs);
                    assert(Seq::<EventModel>::empty() + evs =~= evs);
                }
            },
        }
    }
}

impl Default for InMemoryTaxProfileStore {
    fn default() -> (s: Self)
        ensures
            s.wf(),
            forall|k: Seq<char>| #[trigger] s.stream_events(k) == Seq::<EventModel>::empty(),
            forall|k: Seq<char>| #[trigger] s.indexed(k) is None,
    {
        Self::new()
    }
}

/// No two registered profiles of a well-formed store share an identity hash.
pub proof fn lemma_identity_exclusive(s: InMemoryTaxProfileStore, id1: Seq<char>, id2: Seq<char>)
    requires
        s.wf(),
        s.state_of(id1).exists,
        s.state_of(id2).exists,
        id1 != id2,
    ensures
        s.state_of(id1).identity_hash != s.state_of(id2).identity_hash,
{
    reveal(InMemoryTaxProfileStore::wf);
    assert(s.state_of(id1).exists);
    assert(s.state_of(id2).exists);
}

/// Registering a hash that another registered profile holds is refused with
/// `AlreadyHeld`, naming that profile's holder.
pub proof fn lemma_second_holder_refused(
    s: InMemoryTaxProfileStore,
    pid: Seq<char>,
    other: Seq<char>,
    c: CommandModel,
    expected_revision: u64,
)
    requires
        s.wf(),
        other != pid,
        c is RegisterTaxProfile,
        s.state_of(other).exists,
        s.state_of(other).identity_hash == Some(c->RegisterTaxProfile_tin_hash),
    ensures
        execute_decision(s, pid, c, expected_revision) == Err::<Seq<EventModel>, ErrorModel>(
            ErrorModel::AlreadyHeld(s.state_of(other).holder->0),
        ),
{
    assert(s.state_of(other).exists);
}

/// A command carrying a revision other than the stream's event count is
/// refused with `ConcurrentModification` (unless the identity conflict applies).
pub proof fn lemma_stale_revision_refused(
    s: InMemoryTaxProfileStore,
    pid: Seq<char>,
    c: CommandModel,
    expected_revision: u64,
)
    requires
        s.stream_events(pid).len() != expected_revision,
        !(c is RegisterTaxProfile && s.indexed(c->RegisterTaxProfile_tin_hash) is Some && s.indexed(
            c->RegisterTaxProfile_tin_hash,
        )->0 != pid),
    ensures
        execute_decision(s, pid, c, expected_revision) == Err::<Seq<EventModel>, ErrorModel>(
            ErrorModel::ConcurrentModification,
        ),
{
}

/// In the store, a transfer of a personally held profile asked for by anyone but the
/// holding user is refused at the current revision with `NotHolder` (and `execute` then
/// leaves every stream, so the holder, as it was).
pub proof fn lemma_store_refuses_foreign_transfer(
    s: InMemoryTaxProfileStore,
    pid: Seq<char>,
    holder_user_id: Seq<char>,
    new_holder: HolderModel,
    actor_user_id: Seq<char>,
    expected_revision: u64,
)
    requires
        s.stream_events(pid).len() == expected_revision,
        s.state_of(pid).exists,
        s.state_of(pid).holder == Some(HolderModel::Personal(holder_user_id)),
        actor_user_id != holder_user_id,
    ensures
        execute_decision(
            s,
            pid,
            CommandModel::Transfer { new_holder, actor_user_id },
            expected_revision,
        ) == Err::<Seq<EventModel>, ErrorModel>(ErrorModel::NotHolder),
{
    lemma_only_personal_holder_transfers(s.state_of(pid), holder_user_id, new_holder, actor_user_id);
}

} // verus!
