//! Draft records and the store that holds one of them per building user.
//!
//! The store is a plain value: whoever owns it decides how it is shared. Every
//! operation takes the store by reference for its whole duration, so each one
//! is a single step with respect to every other.

use std::collections::HashMap;
use vstd::hash_map::StringHashMap;
use vstd::prelude::*;
use vstd::std_specs::hash::*;

verus! {

broadcast use vstd::std_specs::hash::group_hash_axioms;

/// Handle of the one remote message that a build keeps editing.
#[derive(Clone, Copy, Debug, PartialEq, Eq, Structural)]
pub struct Anchor {
    pub channel_id: u64,
    pub message_id: u64,
}

/// The field values gathered so far, by storage key.
///
/// Values are only ever added or overwritten: there is no way to take a
/// single key out again.
pub struct Collected {
    fields: StringHashMap<String>,
}

impl View for Collected {
    type V = Map<Seq<char>, Seq<char>>;

    closed spec fn view(&self) -> Map<Seq<char>, Seq<char>> {
        self.fields@.map_values(|value: String| value@)
    }
}

impl Collected {
    /// An empty collection.
    pub fn new() -> (collected: Collected)
        ensures
            collected@ == Map::<Seq<char>, Seq<char>>::empty(),
    {
        let collected = Collected { fields: StringHashMap::new() };
        assert(collected@ =~= Map::<Seq<char>, Seq<char>>::empty());
        collected
    }

    /// Stores `value` under `key`, replacing what was there.
    pub fn insert(&mut self, key: String, value: String)
        ensures
            final(self)@ == old(self)@.insert(key@, value@),
    {
        self.fields.insert(key, value);
        assert(self@ =~= old(self)@.insert(key@, value@));
    }

    /// Whether a value is stored under `key`.
    pub fn contains_key(&self, key: &str) -> (present: bool)
        ensures
            present == self@.contains_key(key@),
    {
        self.fields.contains_key(key)
    }

    /// The value stored under `key`, if any.
    pub fn get(&self, key: &str) -> (value: Option<&String>)
        ensures
            match value {
                Some(found) => self@.contains_key(key@) && found@ == self@[key@],
                None => !self@.contains_key(key@),
            },
    {
        self.fields.get(key)
    }

    /// The number of keys that hold a value.
    pub fn len(&self) -> (count: usize)
        ensures
            count == self@.len(),
    {
        assert(self@.dom() =~= self.fields@.dom());
        self.fields.len()
    }

    /// Whether no key holds a value.
    pub fn is_empty(&self) -> (empty: bool)
        ensures
            empty == self@.is_empty(),
    {
        assert(self@.dom() =~= self.fields@.dom());
        self.fields.is_empty()
    }
}

/// One user's build in progress: what has been gathered, and the message
/// that shows the current stage.
pub struct DraftRecord {
    pub collected: Collected,
    /// `None` until the message of the build has been captured.
    pub anchor: Option<Anchor>,
}

/// What a draft record holds.
pub struct DraftView {
    pub collected: Map<Seq<char>, Seq<char>>,
    pub anchor: Option<Anchor>,
}

impl View for DraftRecord {
    type V = DraftView;

    open spec fn view(&self) -> DraftView {
        DraftView { collected: self.collected@, anchor: self.anchor }
    }
}

/// The record of a build that has just begun: nothing gathered, no anchor.
pub open spec fn fresh_draft() -> DraftView {
    DraftView { collected: Map::<Seq<char>, Seq<char>>::empty(), anchor: None }
}

impl DraftRecord {
    /// A record with nothing gathered and no anchor yet.
    pub fn new() -> (record: DraftRecord)
        ensures
            record@ == fresh_draft(),
    {
        DraftRecord { collected: Collected::new(), anchor: None }
    }
}

/// The answer to a user who begins a build while another of theirs is open.
#[derive(Clone, Copy, Debug, PartialEq, Eq, Structural)]
pub struct AlreadyBuilding;

/// The store as a map from user to draft record. A user is a key at most
/// once, so no user ever has two records.
pub type Sessions = Map<u64, DraftView>;

/// Whether `user` may begin.
pub open spec fn begin_outcome(sessions: Sessions, user: u64) -> Result<(), AlreadyBuilding> {
    if sessions.contains_key(user) {
        Err(AlreadyBuilding)
    } else {
        Ok(())
    }
}

/// The store after `user` has tried to begin.
pub open spec fn after_begin(sessions: Sessions, user: u64) -> Sessions {
    if sessions.contains_key(user) {
        sessions
    } else {
        sessions.insert(user, fresh_draft())
    }
}

/// The record that leaves the store when `user` is removed.
pub open spec fn removed_draft(sessions: Sessions, user: u64) -> Option<DraftView> {
    if sessions.contains_key(user) {
        Some(sessions[user])
    } else {
        None
    }
}

/// The store after `user` has been removed.
pub open spec fn after_removal(sessions: Sessions, user: u64) -> Sessions {
    sessions.remove(user)
}

/// `HashMap::get_mut`: a mutable reference to the value stored under the key,
/// or `None` where the key is absent. Whatever the caller writes through the
/// reference is what the map then holds under that key; nothing else changes.
#[verifier::external_body]
fn record_slot<'a>(sessions: &'a mut HashMap<u64, DraftRecord>, user_id: u64) -> (slot: Option<
    &'a mut DraftRecord,
>)
    ensures
        match slot {
            Some(record) => old(sessions)@.contains_key(user_id) && *record == old(
                sessions,
            )@[user_id] && final(sessions)@ == old(sessions)@.insert(user_id, *final(record)),
            None => !old(sessions)@.contains_key(user_id) && final(sessions)@ == old(sessions)@,
        },
{
    sessions.get_mut(&user_id)
}

/// The draft records of all users who are building.
pub struct SessionStore {
    sessions: HashMap<u64, DraftRecord>,
}

impl View for SessionStore {
    type V = Sessions;

    closed spec fn view(&self) -> Sessions {
        self.sessions@.map_values(|record: DraftRecord| record@)
    }
}

impl SessionStore {
    /// A store without any build.
    pub fn new() -> (store: SessionStore)
        ensures
            store@ == Sessions::empty(),
    {
        let store = SessionStore { sessions: HashMap::new() };
        assert(store@ =~= Sessions::empty());
        store
    }

    /// Whether `user_id` has a build in progress.
    pub fn contains(&self, user_id: u64) -> (present: bool)
        ensures
            present == self@.contains_key(user_id),
    {
        self.sessions.contains_key(&user_id)
    }

    /// The number of builds in progress.
    pub fn len(&self) -> (count: usize)
        ensures
            count == self@.len(),
    {
        assert(self@.dom() =~= self.sessions@.dom());
        self.sessions.len()
    }

    /// Opens a build for `user_id` with a fresh record, unless they have one
    /// already.
    pub fn begin(&mut self, user_id: u64) -> (started: Result<(), AlreadyBuilding>)
        ensures
            started == begin_outcome(old(self)@, user_id),
            final(self)@ == after_begin(old(self)@, user_id),
    {
        if self.sessions.contains_key(&user_id) {
            return Err(AlreadyBuilding);
        }
        self.sessions.insert(user_id, DraftRecord::new());
        assert(self@ =~= old(self)@.insert(user_id, fresh_draft()));
        Ok(())
    }

    /// The record of `user_id`, if they are building.
    pub fn get(&self, user_id: u64) -> (found: Option<&DraftRecord>)
        ensures
            match found {
                Some(record) => self@.contains_key(user_id) && record@ == self@[user_id],
                None => !self@.contains_key(user_id),
            },
    {
        self.sessions.get(&user_id)
    }

    /// The record of `user_id` for writing, if they are building. What the
    /// caller leaves in it is what the store holds afterwards; no other
    /// user's record changes.
    pub fn get_mut(&mut self, user_id: u64) -> (slot: Option<&mut DraftRecord>)
        ensures
            match slot {
                Some(record) => old(self)@.contains_key(user_id) && record@ == old(self)@[user_id]
                    && final(self)@ == old(self)@.insert(user_id, final(record)@),
                None => !old(self)@.contains_key(user_id) && final(self)@ == old(self)@,
            },
    {
        record_slot(&mut self.sessions, user_id)
    }

    /// Tears down the build of `user_id` and hands back its record. Without a
    /// build the store stays as it is.
    pub fn cancel(&mut self, user_id: u64) -> (removed: Option<DraftRecord>)
        ensures
            final(self)@ == after_removal(old(self)@, user_id),
            match removed {
                Some(record) => removed_draft(old(self)@, user_id) == Some(record@),
                None => removed_draft(old(self)@, user_id) is None && final(self)@ == old(self)@,
            },
    {
        let removed = self.sessions.remove(&user_id);
        assert(self@ =~= old(self)@.remove(user_id));
        if removed.is_none() {
            assert(self@ =~= old(self)@);
        }
        removed
    }

    /// Ends the build of `user_id` once persisting has been tried, whatever
    /// came of it, and hands back its record.
    pub fn finish(&mut self, user_id: u64) -> (removed: Option<DraftRecord>)
        ensures
            final(self)@ == after_removal(old(self)@, user_id),
            match removed {
                Some(record) => removed_draft(old(self)@, user_id) == Some(record@),
                None => removed_draft(old(self)@, user_id) is None && final(self)@ == old(self)@,
            },
    {
        self.cancel(user_id)
    }
}

/// No user ever has two records: a second `begin` without a removal in
/// between is refused and leaves the store as the first one left it.
pub proof fn lemma_begin_is_exclusive(sessions: Sessions, user: u64)
    ensures
        after_begin(sessions, user).contains_key(user),
        begin_outcome(after_begin(sessions, user), user) == Err::<(), AlreadyBuilding>(
            AlreadyBuilding,
        ),
        after_begin(after_begin(sessions, user), user) == after_begin(sessions, user),
{
}

/// `begin` touches no record but that of the user who begins, and never one
/// that exists.
pub proof fn lemma_begin_keeps_other_records(sessions: Sessions, user: u64, other: u64)
    requires
        sessions.contains_key(other),
    ensures
        after_begin(sessions, user).contains_key(other),
        after_begin(sessions, user)[other] == sessions[other],
{
}

/// Removing a user who is not building changes nothing.
pub proof fn lemma_cancel_without_record(sessions: Sessions, user: u64)
    requires
        !sessions.contains_key(user),
    ensures
        after_removal(sessions, user) == sessions,
        removed_draft(sessions, user) is None,
{
    assert(sessions.remove(user) =~= sessions);
}

/// After a removal, the user may begin at once, and starts from a fresh
/// record.
pub proof fn lemma_begin_after_cancel(sessions: Sessions, user: u64)
    ensures
        begin_outcome(after_removal(sessions, user), user) == Ok::<(), AlreadyBuilding>(()),
        after_begin(after_removal(sessions, user), user)[user] == fresh_draft(),
{
}

/// Removing one user leaves every other user's record in place.
pub proof fn lemma_cancel_keeps_other_records(sessions: Sessions, user: u64, other: u64)
    requires
        other != user,
        sessions.contains_key(other),
    ensures
        after_removal(sessions, user).contains_key(other),
        after_removal(sessions, user)[other] == sessions[other],
{
}

} // verus!
