//! The screen-cast sessions of the portal.

use vstd::prelude::*;

use crate::text::{same_text, to_decimal};

verus! {

/// How many sessions may be open at a time.
pub const LIMIT: usize = 64;

/// What a session captures, by the number the compositor gave it.
#[derive(Clone, Copy, Debug, PartialEq, Eq, Structural)]
pub struct CaptureSource {
    pub id: u64,
}

/// How the cursor appears in a capture.
#[derive(Clone, Copy, Debug, PartialEq, Eq, Structural)]
pub enum CursorMode {
    Hidden,
    Embedded,
    Metadata,
}

/// A session of the portal.
#[derive(Debug)]
pub struct PortalSession {
    pub id: String,
    pub owner: String,
    pub app_id: String,
    pub selected: Option<CaptureSource>,
    pub cursor_mode: CursorMode,
}

/// A session with its texts as characters.
#[verifier::ext_equal]
pub struct PortalSessionView {
    pub id: Seq<char>,
    pub owner: Seq<char>,
    pub app_id: Seq<char>,
    pub selected: Option<CaptureSource>,
    pub cursor_mode: CursorMode,
}

impl View for PortalSession {
    type V = PortalSessionView;

    open spec fn view(&self) -> PortalSessionView {
        PortalSessionView {
            id: self.id@,
            owner: self.owner@,
            app_id: self.app_id@,
            selected: self.selected,
            cursor_mode: self.cursor_mode,
        }
    }
}

impl Clone for PortalSession {
    fn clone(&self) -> (res: Self)
        ensures
            res@ == self@,
    {
        PortalSession {
            id: self.id.clone(),
            owner: self.owner.clone(),
            app_id: self.app_id.clone(),
            selected: self.selected,
            cursor_mode: self.cursor_mode,
        }
    }
}

/// The open sessions by their handles, and how many were created so far.
#[verifier::ext_equal]
pub struct SessionStoreView {
    pub sessions: Map<Seq<char>, PortalSessionView>,
    pub next_id: u64,
}

/// The open sessions of the portal.
pub struct SessionStore {
    entries: Vec<(String, PortalSession)>,
    next_id: u64,
}

spec fn as_map(entries: Seq<(String, PortalSession)>) -> Map<Seq<char>, PortalSessionView>
    decreases entries.len(),
{
    if entries.len() == 0 {
        Map::empty()
    } else {
        as_map(entries.drop_last()).insert(entries.last().0@, entries.last().1@)
    }
}

spec fn distinct(entries: Seq<(String, PortalSession)>) -> bool {
    forall|i: int, j: int|
        #![trigger entries[i], entries[j]]
        0 <= i < entries.len() && 0 <= j < entries.len() && entries[i].0@ == entries[j].0@ ==> i
            == j
}

proof fn entries_are_found(entries: Seq<(String, PortalSession)>)
    requires
        distinct(entries),
    ensures
        forall|i: int|
            0 <= i < entries.len() ==> as_map(entries).contains_key(#[trigger] entries[i].0@)
                && as_map(entries)[entries[i].0@] == entries[i].1@,
        forall|handle: Seq<char>| #[trigger]
            as_map(entries).contains_key(handle) ==> exists|i: int|
                0 <= i < entries.len() && #[trigger] entries[i].0@ == handle,
        as_map(entries).dom().finite(),
        as_map(entries).dom().len() == entries.len(),
    decreases entries.len(),
{
    if entries.len() > 0 {
        let rest = entries.drop_last();
        let map = as_map(entries);
        assert forall|i: int, j: int|
            #![trigger rest[i], rest[j]]
            0 <= i < rest.len() && 0 <= j < rest.len() && rest[i].0@ == rest[j].0@ implies i
            == j by {
            assert(entries[i] == rest[i] && entries[j] == rest[j]);
        }
        entries_are_found(rest);
        assert(!as_map(rest).contains_key(entries.last().0@)) by {
            if as_map(rest).contains_key(entries.last().0@) {
                let i = choose|i: int|
                    0 <= i < rest.len() && #[trigger] rest[i].0@ == entries.last().0@;
                assert(entries[i] == rest[i]);
                assert(entries[entries.len() - 1].0@ == entries[i].0@);
            }
        }
        assert(map.dom() == as_map(rest).dom().insert(entries.last().0@));
        assert forall|i: int| 0 <= i < entries.len() implies map.contains_key(
            #[trigger] entries[i].0@,
        ) && map[entries[i].0@] == entries[i].1@ by {
            if i < rest.len() {
                assert(entries[i] == rest[i]);
                assert(as_map(rest).contains_key(rest[i].0@));
            }
        }
        assert forall|handle: Seq<char>| #[trigger] map.contains_key(handle) implies exists|i: int|
            0 <= i < entries.len() && #[trigger] entries[i].0@ == handle by {
            if handle == entries.last().0@ {
                assert(entries[entries.len() - 1].0@ == handle);
            } else {
                assert(as_map(rest).contains_key(handle));
                let i = choose|i: int| 0 <= i < rest.len() && #[trigger] rest[i].0@ == handle;
                assert(entries[i] == rest[i]);
            }
        }
    }
}

impl View for SessionStore {
    type V = SessionStoreView;

    closed spec fn view(&self) -> SessionStoreView {
        SessionStoreView { sessions: as_map(self.entries@), next_id: self.next_id }
    }
}

/// The identifier of the session with the number `n`.
pub open spec fn session_id(n: nat) -> Seq<char> {
    "halley"@ + crate::text::decimal(n)
}

/// The message when a session cannot be created.
pub open spec fn not_created() -> Seq<char> {
    "session already exists or session limit reached"@
}

/// The number that follows `n`, beginning again at zero.
pub open spec fn following(n: u64) -> u64 {
    if n == u64::MAX {
        0
    } else {
        (n + 1) as u64
    }
}

/// A session with this handle can be created.
pub open spec fn has_room(store: SessionStoreView, handle: Seq<char>) -> bool {
    !store.sessions.contains_key(handle) && store.sessions.dom().len() < LIMIT
}

/// The session that is created in `store`.
pub open spec fn created(store: SessionStoreView, owner: Seq<char>, app_id: Seq<char>) -> PortalSessionView {
    PortalSessionView {
        id: session_id(following(store.next_id) as nat),
        owner,
        app_id,
        selected: None,
        cursor_mode: CursorMode::Hidden,
    }
}

/// The store once a session was asked for.
pub open spec fn after_create(
    store: SessionStoreView,
    handle: Seq<char>,
    owner: Seq<char>,
    app_id: Seq<char>,
) -> SessionStoreView {
    if has_room(store, handle) {
        SessionStoreView {
            sessions: store.sessions.insert(handle, created(store, owner, app_id)),
            next_id: following(store.next_id),
        }
    } else {
        store
    }
}

/// The store once a session was removed.
pub open spec fn after_remove(store: SessionStoreView, handle: Seq<char>) -> SessionStoreView {
    SessionStoreView { sessions: store.sessions.remove(handle), ..store }
}

impl Default for SessionStore {
    /// No session is open.
    fn default() -> (res: Self)
        ensures
            res.wf(),
            res@.sessions == Map::<Seq<char>, PortalSessionView>::empty(),
            res@.next_id == 0,
    {
        SessionStore { entries: Vec::new(), next_id: 0 }
    }
}

impl SessionStore {
    /// Every handle is there once, and there are no more sessions than allowed.
    pub closed spec fn wf(&self) -> bool {
        distinct(self.entries@) && self.entries@.len() <= LIMIT
    }

    fn find(&self, handle: &str) -> (res: Option<usize>)
        requires
            self.wf(),
        ensures
            match res {
                Some(i) => i < self.entries@.len() && self.entries@[i as int].0@ == handle@
                    && self@.sessions.contains_key(handle@) && self@.sessions[handle@]
                    == self.entries@[i as int].1@,
                None => !self@.sessions.contains_key(handle@),
            },
    {
        proof {
            entries_are_found(self.entries@);
        }
        for i in 0..self.entries.len()
            invariant
                self.wf(),
                forall|k: int|
                    0 <= k < self.entries@.len() ==> self@.sessions.contains_key(
                        #[trigger] self.entries@[k].0@,
                    ) && self@.sessions[self.entries@[k].0@] == self.entries@[k].1@,
                forall|k: int| 0 <= k < i ==> #[trigger] self.entries@[k].0@ != handle@,
        {
            if same_text(self.entries[i].0.as_str(), handle) {
                return Some(i);
            }
        }
        None
    }

    /// Opens a session under `handle` for the connection `owner` and the
    /// application `app_id`.
    pub fn create(&mut self, handle: String, owner: String, app_id: String) -> (res: Result<
        PortalSession,
        String,
    >)
        requires
            old(self).wf(),
        ensures
            final(self).wf(),
            final(self)@ == after_create(old(self)@, handle@, owner@, app_id@),
            match res {
                Ok(session) => has_room(old(self)@, handle@) && session@ == created(
                    old(self)@,
                    owner@,
                    app_id@,
                ),
                Err(message) => !has_room(old(self)@, handle@) && message@ == not_created(),
            },
    {
        proof {
            entries_are_found(self.entries@);
        }
        if self.find(handle.as_str()).is_some() || self.entries.len() >= LIMIT {
            return Err("session already exists or session limit reached".to_owned());
        }
        self.next_id = self.next_id.wrapping_add(1);
        let digits = to_decimal(self.next_id);
        let mut id = "halley".to_owned();
        id.append(digits.as_str());
        let session = PortalSession {
            owner,
            app_id,
            id,
            selected: None,
            cursor_mode: CursorMode::Hidden,
        };
        let ghost before = self.entries@;
        let entry = (handle, session.clone());
        self.entries.push(entry);
        assert(self.entries@.drop_last() == before);
        Ok(session)
    }

    /// The session under `handle`.
    pub fn get(&self, handle: &str) -> (res: Option<&PortalSession>)
        requires
            self.wf(),
        ensures
            match res {
                Some(session) => self@.sessions.contains_key(handle@) && session@
                    == self@.sessions[handle@],
                None => !self@.sessions.contains_key(handle@),
            },
    {
        match self.find(handle) {
            Some(i) => Some(&self.entries[i].1),
            None => None,
        }
    }

    /// The session under `handle`, to be changed.
    pub fn get_mut(&mut self, handle: &str) -> (res: Option<&mut PortalSession>)
        requires
            old(self).wf(),
        ensures
            final(self).wf(),
            match res {
                Some(session) => old(self)@.sessions.contains_key(handle@) && session@ == old(
                    self,
                )@.sessions[handle@] && final(self)@ == (SessionStoreView {
                    sessions: old(self)@.sessions.insert(handle@, final(session)@),
                    ..old(self)@
                }),
                None => !old(self)@.sessions.contains_key(handle@) && final(self)@ == old(self)@,
            },
    {
        match self.find(handle) {
            Some(i) => {
                proof {
                    let entries = self.entries@;
                    assert forall|changed: (String, PortalSession)|
                        changed.0 == entries[i as int].0 implies as_map(
                        #[trigger] entries.update(i as int, changed),
                    ) == as_map(entries).insert(changed.0@, changed.1@) && distinct(
                        entries.update(i as int, changed),
                    ) by {
                        update_changes_one(entries, i as int, changed);
                    }
                }
                Some(&mut self.entries[i].1)
            },
            None => None,
        }
    }

    /// Closes the session under `handle`, if there is one.
    pub fn remove(&mut self, handle: &str)
        requires
            old(self).wf(),
        ensures
            final(self).wf(),
            final(self)@ == after_remove(old(self)@, handle@),
    {
        match self.find(handle) {
            Some(i) => {
                let ghost before = self.entries@;
                let _ = self.entries.remove(i);
                proof {
                    removal_forgets_one(before, i as int);
                }
            },
            None => {
                assert(self@.sessions.remove(handle@) == self@.sessions);
            },
        }
    }
}

proof fn removal_forgets_one(entries: Seq<(String, PortalSession)>, i: int)
    requires
        distinct(entries),
        0 <= i < entries.len(),
    ensures
        distinct(entries.remove(i)),
        as_map(entries.remove(i)) == as_map(entries).remove(entries[i].0@),
{
    let rest = entries.remove(i);
    assert forall|a: int, b: int|
        #![trigger rest[a], rest[b]]
        0 <= a < rest.len() && 0 <= b < rest.len() && rest[a].0@ == rest[b].0@ implies a == b by {
        let x = if a < i { a } else { a + 1 };
        let y = if b < i { b } else { b + 1 };
        assert(rest[a] == entries[x] && rest[b] == entries[y]);
    }
    entries_are_found(entries);
    entries_are_found(rest);
    let left = as_map(rest);
    let right = as_map(entries).remove(entries[i].0@);
    assert forall|handle: Seq<char>| #[trigger] left.contains_key(handle) implies right.contains_key(
        handle,
    ) && left[handle] == right[handle] by {
        let a = choose|a: int| 0 <= a < rest.len() && #[trigger] rest[a].0@ == handle;
        let x = if a < i { a } else { a + 1 };
        assert(rest[a] == entries[x]);
        assert(entries[x].0@ == handle);
        assert(entries[x].0@ != entries[i].0@);
    }
    assert forall|handle: Seq<char>| #[trigger] right.contains_key(handle) implies left.contains_key(
        handle,
    ) by {
        assert(as_map(entries).contains_key(handle));
        let x = choose|x: int| 0 <= x < entries.len() && #[trigger] entries[x].0@ == handle;
        let a = if x < i { x } else { x - 1 };
        assert(rest[a] == entries[x]);
        assert(rest[a].0@ == handle);
    }
    assert(left.dom() =~= right.dom());
    assert(left == right);
}

proof fn update_changes_one(
    entries: Seq<(String, PortalSession)>,
    i: int,
    changed: (String, PortalSession),
)
    requires
        distinct(entries),
        0 <= i < entries.len(),
        changed.0 == entries[i].0,
    ensures
        distinct(entries.update(i, changed)),
        as_map(entries.update(i, changed)) == as_map(entries).insert(changed.0@, changed.1@),
{
    let all = entries.update(i, changed);
    assert forall|a: int, b: int|
        #![trigger all[a], all[b]]
        0 <= a < all.len() && 0 <= b < all.len() && all[a].0@ == all[b].0@ implies a == b by {
        assert(all[a].0 == entries[a].0 && all[b].0 == entries[b].0);
    }
    entries_are_found(entries);
    entries_are_found(all);
    let left = as_map(all);
    let right = as_map(entries).insert(changed.0@, changed.1@);
    assert forall|handle: Seq<char>| #[trigger] left.contains_key(handle) implies right.contains_key(
        handle,
    ) && left[handle] == right[handle] by {
        let a = choose|a: int| 0 <= a < all.len() && #[trigger] all[a].0@ == handle;
        assert(entries[a].0@ == handle);
        if a != i {
            assert(all[a] == entries[a]);
            assert(entries[a].0@ != entries[i].0@);
        }
    }
    assert forall|handle: Seq<char>| #[trigger] right.contains_key(handle) implies left.contains_key(
        handle,
    ) by {
        if handle == changed.0@ {
            assert(all[i].0@ == handle);
        } else {
            assert(as_map(entries).contains_key(handle));
            let x = choose|x: int| 0 <= x < entries.len() && #[trigger] entries[x].0@ == handle;
            assert(all[x].0@ == handle);
        }
    }
    assert(left.dom() =~= right.dom());
    assert(left == right);
}

/// A store never holds more sessions than allowed.
pub proof fn stores_are_within_the_limit(store: SessionStore)
    requires
        store.wf(),
    ensures
        store@.sessions.dom().finite(),
        store@.sessions.dom().len() <= LIMIT,
{
    entries_are_found(store.entries@);
}

/// The store that no session was created in yet.
pub open spec fn empty_store() -> SessionStoreView {
    SessionStoreView { sessions: Map::empty(), next_id: 0 }
}

/// A session that is open is never overwritten: creating one, under its handle
/// or another, leaves it as it is.
pub proof fn open_sessions_are_never_overwritten(
    store: SessionStoreView,
    handle: Seq<char>,
    taken: Seq<char>,
    owner: Seq<char>,
    app_id: Seq<char>,
)
    requires
        store.sessions.contains_key(taken),
    ensures
        after_create(store, handle, owner, app_id).sessions.contains_key(taken),
        after_create(store, handle, owner, app_id).sessions[taken] == store.sessions[taken],
        handle == taken ==> !has_room(store, handle) && after_create(store, handle, owner, app_id)
            == store,
{
}

/// A session that is created is bound to its connection and its application.
pub proof fn sessions_retain_their_identity(
    store: SessionStoreView,
    handle: Seq<char>,
    owner: Seq<char>,
    app_id: Seq<char>,
)
    requires
        has_room(store, handle),
    ensures
        ({
            let after = after_create(store, handle, owner, app_id);
            &&& after.sessions.contains_key(handle)
            &&& after.sessions[handle].owner == owner
            &&& after.sessions[handle].app_id == app_id
            &&& after.sessions[handle].selected is None
            &&& after.sessions[handle].cursor_mode is Hidden
        }),
{
}

/// The limit on open sessions is kept by creating and removing.
pub proof fn the_limit_is_kept(
    store: SessionStoreView,
    handle: Seq<char>,
    owner: Seq<char>,
    app_id: Seq<char>,
)
    requires
        store.sessions.dom().finite(),
        store.sessions.dom().len() <= LIMIT,
    ensures
        after_create(store, handle, owner, app_id).sessions.dom().finite(),
        after_create(store, handle, owner, app_id).sessions.dom().len() <= LIMIT,
        after_remove(store, handle).sessions.dom().finite(),
        after_remove(store, handle).sessions.dom().len() <= LIMIT,
{
    let session = created(store, owner, app_id);
    assert(store.sessions.insert(handle, session).dom() == store.sessions.dom().insert(handle));
    assert(store.sessions.remove(handle).dom() == store.sessions.dom().remove(handle));
}

/// Closing a session of a full store makes room for any handle that is not open.
pub proof fn closing_makes_room(store: SessionStoreView, closed: Seq<char>, handle: Seq<char>)
    requires
        store.sessions.dom().finite(),
        store.sessions.dom().len() <= LIMIT,
        store.sessions.contains_key(closed),
        handle == closed || !store.sessions.contains_key(handle),
    ensures
        has_room(after_remove(store, closed), handle),
{
    assert(store.sessions.remove(closed).dom() == store.sessions.dom().remove(closed));
}

/// Sessions with different numbers have different identifiers.
pub proof fn session_ids_are_distinct(a: nat, b: nat)
    requires
        session_id(a) == session_id(b),
    ensures
        a == b,
{
    let prefix = "halley"@;
    let id = session_id(a);
    assert(crate::text::decimal(a) == id.skip(prefix.len() as int));
    assert(crate::text::decimal(b) == session_id(b).skip(prefix.len() as int));
    crate::text::decimal_is_injective(a, b);
}

/// Every open session has a number that was given out already, and no two have
/// the same one.
pub open spec fn numbered(store: SessionStoreView) -> bool {
    &&& forall|handle: Seq<char>| #[trigger]
        store.sessions.contains_key(handle) ==> exists|n: nat|
            0 < n <= store.next_id && store.sessions[handle].id == #[trigger] session_id(n)
    &&& forall|a: Seq<char>, b: Seq<char>|
        #![trigger store.sessions[a], store.sessions[b]]
        store.sessions.contains_key(a) && store.sessions.contains_key(b) && store.sessions[a].id
            == store.sessions[b].id ==> a == b
}

/// No two open sessions share an identifier: it is so at the beginning, creating
/// keeps it until the numbers run out, and removing keeps it.
pub proof fn open_sessions_have_distinct_ids(
    store: SessionStoreView,
    handle: Seq<char>,
    owner: Seq<char>,
    app_id: Seq<char>,
)
    requires
        numbered(store),
    ensures
        numbered(empty_store()),
        numbered(after_remove(store, handle)),
        store.next_id < u64::MAX ==> numbered(after_create(store, handle, owner, app_id)),
{
    if store.next_id < u64::MAX && has_room(store, handle) {
        let after = after_create(store, handle, owner, app_id);
        let n = following(store.next_id) as nat;
        assert(after.sessions[handle].id == session_id(n));
        assert forall|h: Seq<char>| #[trigger] after.sessions.contains_key(h) implies exists|m: nat|
            0 < m <= after.next_id && after.sessions[h].id == #[trigger] session_id(m) by {
            if h != handle {
                assert(store.sessions.contains_key(h));
                let m = choose|m: nat|
                    0 < m <= store.next_id && store.sessions[h].id == #[trigger] session_id(m);
                assert(0 < m <= after.next_id && after.sessions[h].id == session_id(m));
            } else {
                assert(0 < n <= after.next_id && after.sessions[h].id == session_id(n));
            }
        }
        assert forall|h: Seq<char>| store.sessions.contains_key(h) implies (
        #[trigger] store.sessions[h]).id != session_id(n) by {
            let m = choose|m: nat|
                0 < m <= store.next_id && store.sessions[h].id == #[trigger] session_id(m);
            if session_id(m) == session_id(n) {
                session_ids_are_distinct(m, n);
            }
        }
        assert forall|a: Seq<char>, b: Seq<char>|
            #![trigger after.sessions[a], after.sessions[b]]
            after.sessions.contains_key(a) && after.sessions.contains_key(b)
                && after.sessions[a].id == after.sessions[b].id implies a == b by {
            if a != handle {
                assert(after.sessions[a] == store.sessions[a]);
                assert(store.sessions.contains_key(a));
            }
            if b != handle {
                assert(after.sessions[b] == store.sessions[b]);
                assert(store.sessions.contains_key(b));
            }
        }
    }
    let removed = after_remove(store, handle);
    assert forall|h: Seq<char>| #[trigger] removed.sessions.contains_key(h) implies exists|m: nat|
        0 < m <= removed.next_id && removed.sessions[h].id == #[trigger] session_id(m) by {
        assert(store.sessions.contains_key(h));
        let m = choose|m: nat|
            0 < m <= store.next_id && store.sessions[h].id == #[trigger] session_id(m);
        assert(0 < m <= removed.next_id && removed.sessions[h].id == session_id(m));
    }
    assert forall|a: Seq<char>, b: Seq<char>|
        #![trigger removed.sessions[a], removed.sessions[b]]
        removed.sessions.contains_key(a) && removed.sessions.contains_key(b)
            && removed.sessions[a].id == removed.sessions[b].id implies a == b by {
        assert(removed.sessions[a] == store.sessions[a]);
        assert(removed.sessions[b] == store.sessions[b]);
    }
}

/// There is room for a session exactly when its handle is free and fewer than 64
/// are open.
pub proof fn rooms_are_free_handles_below_the_limit(store: SessionStoreView, handle: Seq<char>)
    ensures
        has_room(store, handle) <==> !store.sessions.contains_key(handle)
            && store.sessions.dom().len() < 64,
{
}

/// Creating a session opens its handle and no other, and uses up one number, the
/// next one; a session that is refused uses up none.
pub proof fn creating_opens_one_handle(
    store: SessionStoreView,
    handle: Seq<char>,
    owner: Seq<char>,
    app_id: Seq<char>,
    other: Seq<char>,
)
    ensures
        ({
            let after = after_create(store, handle, owner, app_id);
            let number = (store.next_id as int + 1) % 0x1_0000_0000_0000_0000;
            &&& has_room(store, handle) ==> {
                &&& after.next_id == number
                &&& after.sessions.contains_key(handle)
                &&& after.sessions[handle].id == "halley"@ + crate::text::decimal(number as nat)
            }
            &&& !has_room(store, handle) ==> after.next_id == store.next_id && after.sessions
                == store.sessions
            &&& other != handle ==> after.sessions.contains_key(other)
                == store.sessions.contains_key(other) && after.sessions[other]
                == store.sessions[other]
        }),
{
}

/// The session that creating returns is the one that is kept.
pub proof fn created_sessions_are_the_kept_ones(
    store: SessionStoreView,
    handle: Seq<char>,
    owner: Seq<char>,
    app_id: Seq<char>,
)
    requires
        has_room(store, handle),
    ensures
        after_create(store, handle, owner, app_id).sessions[handle] == created(
            store,
            owner,
            app_id,
        ),
{
}

/// Removing a session closes its handle and no other, and numbers go on as before.
pub proof fn removing_closes_one_handle(
    store: SessionStoreView,
    handle: Seq<char>,
    other: Seq<char>,
)
    ensures
        ({
            let after = after_remove(store, handle);
            &&& !after.sessions.contains_key(handle)
            &&& after.next_id == store.next_id
            &&& other != handle ==> after.sessions.contains_key(other)
                == store.sessions.contains_key(other) && after.sessions[other]
                == store.sessions[other]
        }),
{
}

/// A session that was created and removed leaves the open sessions as they were.
pub proof fn removing_undoes_creating(
    store: SessionStoreView,
    handle: Seq<char>,
    owner: Seq<char>,
    app_id: Seq<char>,
)
    requires
        has_room(store, handle),
    ensures
        after_remove(after_create(store, handle, owner, app_id), handle).sessions
            == store.sessions,
{
    assert(after_remove(after_create(store, handle, owner, app_id), handle).sessions
        =~= store.sessions);
}

} // verus!
