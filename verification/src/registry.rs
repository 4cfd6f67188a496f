//! The connection registry: the one shared table mapping opaque string
//! identifiers to the live handle pair opened for them. Creation inserts
//! the connection handle and its owning database handle together, close
//! removes them together and is idempotent, and every lookup of an absent
//! identifier reports a handle-not-found error and changes nothing.

use vstd::prelude::*;

use crate::backend::{mint_identifier, open_session};
use crate::error::BridgeError;

verus! {

/// How many fresh identifiers `create` is willing to mint before giving
/// up; a mint only ever collides with an identifier already in use, which
/// fresh randomness makes all but impossible.
pub const MAX_MINT_ATTEMPTS: usize = 16;

/// One registered connection: the minted identifier, the session handle
/// derived for it, the owning database handle, and whether that database
/// was opened as a replica syncing against a remote origin.
pub struct Entry {
    pub id: String,
    pub conn: libsql::Connection,
    pub db: libsql::Database,
    pub replica: bool,
}

/// No two entries of the sequence carry the same identifier.
spec fn distinct_ids(s: Seq<Entry>) -> bool {
    forall|i: int, j: int|
        0 <= i < j < s.len() ==> #[trigger] s[i].id@ != #[trigger] s[j].id@
}

/// Some entry of the sequence carries the identifier `k`.
spec fn has_entry(s: Seq<Entry>, k: Seq<char>) -> bool {
    exists|i: int| 0 <= i < s.len() && #[trigger] s[i].id@ == k
}

/// The position of the entry carrying `k`, where one exists.
spec fn entry_index(s: Seq<Entry>, k: Seq<char>) -> int {
    choose|i: int| 0 <= i < s.len() && #[trigger] s[i].id@ == k
}

/// The sequence of entries read as a map from identifier to entry.
spec fn map_view(s: Seq<Entry>) -> Map<Seq<char>, Entry> {
    Map::new(|k: Seq<char>| has_entry(s, k), |k: Seq<char>| s[entry_index(s, k)])
}

proof fn lemma_same_id_same_index(s: Seq<Entry>, i: int, j: int)
    requires
        distinct_ids(s),
        0 <= i < s.len(),
        0 <= j < s.len(),
        s[i].id@ == s[j].id@,
    ensures
        i == j,
{
    if i < j {
        assert(s[i].id@ != s[j].id@);
    }
    if j < i {
        assert(s[j].id@ != s[i].id@);
    }
}

proof fn lemma_entry_at(s: Seq<Entry>, i: int)
    requires
        distinct_ids(s),
        0 <= i < s.len(),
    ensures
        has_entry(s, s[i].id@),
        entry_index(s, s[i].id@) == i,
        map_view(s).dom().contains(s[i].id@),
        map_view(s)[s[i].id@] == s[i],
{
    let k = s[i].id@;
    assert(has_entry(s, k));
    let j = entry_index(s, k);
    assert(0 <= j < s.len() && s[j].id@ == k);
    lemma_same_id_same_index(s, i, j);
}

proof fn lemma_push_view(s: Seq<Entry>, e: Entry)
    requires
        distinct_ids(s),
        !has_entry(s, e.id@),
    ensures
        distinct_ids(s.push(e)),
        map_view(s.push(e)) == map_view(s).insert(e.id@, e),
{
    let t = s.push(e);
    assert forall|i: int, j: int| 0 <= i < j < t.len() implies #[trigger] t[i].id@
        != #[trigger] t[j].id@ by {
        if j < s.len() {
            assert(s[i].id@ != s[j].id@);
        } else {
            assert(t[j] == e);
            assert(t[i] == s[i]);
            assert(s[i].id@ != e.id@);
        }
    }
    assert forall|k: Seq<char>| #[trigger] map_view(t).dom().contains(k) == map_view(
        s,
    ).insert(e.id@, e).dom().contains(k) by {
        if has_entry(t, k) {
            let i = entry_index(t, k);
            assert(0 <= i < t.len() && t[i].id@ == k);
            if i < s.len() {
                assert(s[i].id@ == k);
                assert(has_entry(s, k));
            } else {
                assert(t[i] == e);
            }
        }
        if has_entry(s, k) {
            let i = entry_index(s, k);
            assert(0 <= i < s.len() && s[i].id@ == k);
            assert(t[i].id@ == k);
            assert(has_entry(t, k));
        }
        if k == e.id@ {
            assert(t[s.len() as int].id@ == k);
            assert(has_entry(t, k));
        }
    }
    assert forall|k: Seq<char>| map_view(t).dom().contains(k) implies #[trigger] map_view(t)[k]
        == map_view(s).insert(e.id@, e)[k] by {
        let i = entry_index(t, k);
        assert(0 <= i < t.len() && t[i].id@ == k);
        if k == e.id@ {
            lemma_entry_at(t, s.len() as int);
            assert(map_view(t)[k] == e);
        } else {
            assert(i < s.len());
            assert(s[i].id@ == k);
            lemma_entry_at(s, i);
            lemma_entry_at(t, i);
        }
    }
    assert(map_view(t) =~= map_view(s).insert(e.id@, e));
}

proof fn lemma_remove_view(s: Seq<Entry>, n: int)
    requires
        distinct_ids(s),
        0 <= n < s.len(),
    ensures
        distinct_ids(s.remove(n)),
        map_view(s.remove(n)) == map_view(s).remove(s[n].id@),
{
    let t = s.remove(n);
    s.remove_ensures(n);
    assert forall|i: int, j: int| 0 <= i < j < t.len() implies #[trigger] t[i].id@
        != #[trigger] t[j].id@ by {
        let i0 = if i < n {
            i
        } else {
            i + 1
        };
        let j0 = if j < n {
            j
        } else {
            j + 1
        };
        assert(t[i] == s[i0]);
        assert(t[j] == s[j0]);
        assert(s[i0].id@ != s[j0].id@);
    }
    assert forall|k: Seq<char>| #[trigger] map_view(t).dom().contains(k) == map_view(s).remove(
        s[n].id@,
    ).dom().contains(k) by {
        if has_entry(t, k) {
            let i = entry_index(t, k);
            assert(0 <= i < t.len() && t[i].id@ == k);
            let i0 = if i < n {
                i
            } else {
                i + 1
            };
            assert(t[i] == s[i0]);
            assert(s[i0].id@ == k);
            assert(has_entry(s, k));
            if k == s[n].id@ {
                lemma_same_id_same_index(s, i0, n);
                assert(false);
            }
        }
        if has_entry(s, k) && k != s[n].id@ {
            let i = entry_index(s, k);
            assert(0 <= i < s.len() && s[i].id@ == k);
            let i1 = if i < n {
                i
            } else {
                i - 1
            };
            assert(t[i1] == s[i]);
            assert(has_entry(t, k));
        }
    }
    assert forall|k: Seq<char>| map_view(t).dom().contains(k) implies #[trigger] map_view(t)[k]
        == map_view(s).remove(s[n].id@)[k] by {
        let i = entry_index(t, k);
        assert(0 <= i < t.len() && t[i].id@ == k);
        let i0 = if i < n {
            i
        } else {
            i + 1
        };
        assert(t[i] == s[i0]);
        lemma_entry_at(s, i0);
        lemma_entry_at(t, i);
    }
    assert(map_view(t) =~= map_view(s).remove(s[n].id@));
}

/// The registry table: the dynamic set of live connections, viewed as a
/// map from identifier to its entry. The callers around the library hold
/// it under one exclusive-access scope, so every operation below sees and
/// leaves an atomic state.
pub struct Registry {
    entries: Vec<Entry>,
}

impl View for Registry {
    type V = Map<Seq<char>, Entry>;

    closed spec fn view(&self) -> Map<Seq<char>, Entry> {
        map_view(self.entries@)
    }
}

impl Registry {
    /// Well-formedness: identifiers are never shared between entries.
    #[verifier::type_invariant]
    spec fn wf(self) -> bool {
        distinct_ids(self.entries@)
    }

    /// An empty registry: no identifier is registered.
    pub fn new() -> (r: Registry)
        ensures
            r@ == Map::<Seq<char>, Entry>::empty(),
    {
        let r = Registry { entries: Vec::new() };
        proof {
            assert(r@ =~= Map::<Seq<char>, Entry>::empty());
        }
        r
    }

    /// The position of the entry registered under `id`, if any.
    fn find(&self, id: &String) -> (r: Option<usize>)
        ensures
            match r {
                Some(i) => i < self.entries@.len() && self.entries@[i as int].id@ == id@
                    && self@.dom().contains(id@) && self@[id@] == self.entries@[i as int],
                None => !self@.dom().contains(id@),
            },
    {
        proof {
            use_type_invariant(self);
        }
        let n = self.entries.len();
        let mut i: usize = 0;
        while i < n
            invariant
                n == self.entries@.len(),
                i <= n,
                distinct_ids(self.entries@),
                forall|k: int| 0 <= k < i ==> #[trigger] self.entries@[k].id@ != id@,
            decreases n - i,
        {
            if self.entries[i].id == *id {
                proof {
                    lemma_entry_at(self.entries@, i as int);
                }
                return Some(i);
            }
            i += 1;
        }
        proof {
            if has_entry(self.entries@, id@) {
                let w = entry_index(self.entries@, id@);
                assert(0 <= w < n && self.entries@[w].id@ == id@);
            }
        }
        None
    }

    /// Whether `id` is currently registered.
    pub fn contains(&self, id: &String) -> (r: bool)
        ensures
            r == self@.dom().contains(id@),
    {
        match self.find(id) {
            Some(_) => true,
            None => false,
        }
    }

    /// Looks up the connection handle registered under `id`: the handle of
    /// the registered entry, or a handle-not-found error naming `id`, and
    /// never anything else.
    pub fn get(&self, id: &String) -> (r: Result<&libsql::Connection, BridgeError>)
        ensures
            match r {
                Ok(c) => self@.dom().contains(id@) && *c == self@[id@].conn,
                Err(e) => !self@.dom().contains(id@) && (e matches BridgeError::HandleNotFound(m)
                    && m@ == id@),
            },
    {
        match self.find(id) {
            Some(i) => Ok(&self.entries[i].conn),
            None => Err(BridgeError::HandleNotFound(id.clone())),
        }
    }

    /// Looks up the owning database handle registered under `id`, with the
    /// same contract as `get`.
    pub fn get_database(&self, id: &String) -> (r: Result<&libsql::Database, BridgeError>)
        ensures
            match r {
                Ok(d) => self@.dom().contains(id@) && *d == self@[id@].db,
                Err(e) => !self@.dom().contains(id@) && (e matches BridgeError::HandleNotFound(m)
                    && m@ == id@),
            },
    {
        match self.find(id) {
            Some(i) => Ok(&self.entries[i].db),
            None => Err(BridgeError::HandleNotFound(id.clone())),
        }
    }

    /// What a synchronization request for `id` must do. An absent
    /// identifier is a handle-not-found error. A registered pure-local
    /// connection needs nothing: the request succeeds without side
    /// effects. A registered replica hands back its database handle, for
    /// the host to run the blocking replication pass on.
    pub fn sync_plan(&self, id: &String) -> (r: Result<Option<&libsql::Database>, BridgeError>)
        ensures
            match r {
                Ok(plan) => self@.dom().contains(id@) && (match plan {
                    Some(d) => self@[id@].replica && *d == self@[id@].db,
                    None => !self@[id@].replica,
                }),
                Err(e) => !self@.dom().contains(id@) && (e matches BridgeError::HandleNotFound(m)
                    && m@ == id@),
            },
    {
        match self.find(id) {
            Some(i) => {
                if self.entries[i].replica {
                    Ok(Some(&self.entries[i].db))
                } else {
                    Ok(None)
                }
            },
            None => Err(BridgeError::HandleNotFound(id.clone())),
        }
    }

    /// Removes the entry registered under `id`, releasing both handles
    /// together. Closing an identifier that is absent — in particular one
    /// closed already — is not an error: close converges on the state in
    /// which `id` is not registered.
    pub fn close(&mut self, id: &String)
        ensures
            final(self)@ == old(self)@.remove(id@),
    {
        proof {
            use_type_invariant(&*self);
        }
        let found = self.find(id);
        match found {
            Some(i) => {
                let ghost old_s = self.entries@;
                let mut tmp: Vec<Entry> = Vec::new();
                core::mem::swap(&mut tmp, &mut self.entries);
                tmp.remove(i);
                proof {
                    lemma_remove_view(old_s, i as int);
                }
                self.entries = tmp;
            },
            None => {
                proof {
                    assert(self@ =~= old(self)@.remove(id@));
                }
            },
        }
    }

    /// Inserts a fresh entry; `id` must not be registered yet.
    fn push_entry(&mut self, e: Entry)
        requires
            !old(self)@.dom().contains(e.id@),
        ensures
            final(self)@ == old(self)@.insert(e.id@, e),
    {
        proof {
            use_type_invariant(&*self);
        }
        let ghost old_s = self.entries@;
        let mut tmp: Vec<Entry> = Vec::new();
        core::mem::swap(&mut tmp, &mut self.entries);
        tmp.push(e);
        proof {
            lemma_push_view(old_s, e);
        }
        self.entries = tmp;
    }

    /// Registers an opened database handle: derives a connection handle
    /// over it, mints a fresh identifier absent from the registry, and
    /// inserts both handles atomically under that identifier. Fails with a
    /// storage-open error when the backend refuses the session — or, all
    /// but impossibly, when no fresh identifier was minted — and then
    /// leaves the registry unchanged.
    pub fn create(&mut self, db: libsql::Database, replica: bool) -> (r: Result<String, BridgeError>)
        ensures
            match r {
                Ok(id) => !old(self)@.dom().contains(id@) && final(self)@.dom().contains(id@)
                    && (final(self)@[id@].db == db && final(self)@[id@].replica == replica
                    && final(self)@[id@].id@ == id@) && final(self)@ == old(self)@.insert(
                    id@,
                    final(self)@[id@],
                ),
                Err(e) => final(self)@ == old(self)@ && e matches BridgeError::StorageOpenError(
                    _,
                ),
            },
    {
        let conn = match open_session(&db) {
            Ok(c) => c,
            Err(e) => {
                return Err(e);
            },
        };
        let mut attempts: usize = 0;
        while attempts < MAX_MINT_ATTEMPTS
            invariant
                *self == *old(self),
            decreases MAX_MINT_ATTEMPTS - attempts,
        {
            let id = mint_identifier();
            if !self.contains(&id) {
                let entry = Entry { id: id.clone(), conn, db, replica };
                self.push_entry(entry);
                return Ok(id);
            }
            attempts += 1;
        }
        Err(BridgeError::StorageOpenError(String::from_str("could not mint an unused identifier")))
    }
}

/// Law: `close` is idempotent — closing an identifier a second time is not
/// an error (close never fails) and leaves the registry exactly as the
/// first close left it.
pub proof fn lemma_close_idempotent(m: Map<Seq<char>, Entry>, id: Seq<char>)
    ensures
        m.remove(id).remove(id) == m.remove(id),
{
    assert(m.remove(id).remove(id) =~= m.remove(id));
}

/// Law: an operation referencing an absent identifier leaves the registry
/// unchanged — the lookups report the handle-not-found error without
/// touching the table, and a close of an absent identifier is the identity
/// on the registry's contents.
pub proof fn lemma_remove_absent(m: Map<Seq<char>, Entry>, id: Seq<char>)
    requires
        !m.dom().contains(id),
    ensures
        m.remove(id) == m,
{
    assert(m.remove(id) =~= m);
}

/// Law: connections registered under distinct identifiers are independent
/// — registering or closing one identifier never changes whether the other
/// is registered, nor which handles it is registered with.
pub proof fn lemma_distinct_ids_independent(
    m: Map<Seq<char>, Entry>,
    id1: Seq<char>,
    id2: Seq<char>,
    e: Entry,
)
    requires
        id1 != id2,
    ensures
        m.insert(id1, e).dom().contains(id2) == m.dom().contains(id2),
        m.dom().contains(id2) ==> m.insert(id1, e)[id2] == m[id2],
        m.remove(id1).dom().contains(id2) == m.dom().contains(id2),
        m.dom().contains(id2) ==> m.remove(id1)[id2] == m[id2],
{
}

} // verus!
