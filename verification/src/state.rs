//! The process-wide persisted root: the installation's client identifier and
//! the mirrored state of every configured server, keyed by the server's own
//! identifier string.

use vstd::prelude::*;
use crate::error::Error;
use crate::server::ServerState;

verus! {

/// The mapping a sequence of server entries represents: entries are taken in
/// order, each keyed by its identifier string, and of two entries with the
/// same identifier the later wins.
pub open spec fn server_entries_map(s: Seq<(String, ServerState)>) -> Map<Seq<char>, ServerState>
    decreases s.len(),
{
    if s.len() == 0 {
        Map::empty()
    } else {
        server_entries_map(s.drop_last()).insert(s.last().0@, s.last().1)
    }
}

/// No two entries in the sequence share an identifier string.
pub open spec fn distinct_server_ids(s: Seq<(String, ServerState)>) -> bool {
    forall|i: int, j: int| 0 <= i < j < s.len() ==> s[i].0@ != s[j].0@
}

/// The configured servers, keyed by identifier string, held in a stable
/// order. Well-formedness — no identifier repeated — is established by the
/// constructor and preserved by every operation.
#[derive(Debug, PartialEq)]
pub struct ServerMap {
    entries: Vec<(String, ServerState)>,
}

impl ServerMap {
    /// The held entries, in held order, at the specification level.
    pub closed spec fn list(&self) -> Seq<(String, ServerState)> {
        self.entries@
    }

    /// The mapping this collection represents.
    pub open spec fn view(&self) -> Map<Seq<char>, ServerState> {
        server_entries_map(self.list())
    }

    /// Well-formedness: no two held entries share an identifier string.
    pub open spec fn wf(&self) -> bool {
        distinct_server_ids(self.list())
    }

    /// No servers configured.
    pub fn new() -> (r: ServerMap)
        ensures
            r.wf(),
            r@ == Map::<Seq<char>, ServerState>::empty(),
            r.list() == Seq::<(String, ServerState)>::empty(),
    {
        ServerMap { entries: Vec::new() }
    }

    /// How many servers are configured.
    pub fn len(&self) -> (n: usize)
        ensures
            n == self.list().len(),
    {
        self.entries.len()
    }

    /// The held entries in held order, for enumeration and for encoding.
    pub fn records(&self) -> (r: &Vec<(String, ServerState)>)
        ensures
            r@ == self.list(),
    {
        &self.entries
    }

    /// Surrender the held entries in held order, for encoding.
    pub fn into_list(self) -> (r: Vec<(String, ServerState)>)
        ensures
            r@ == self.list(),
    {
        self.entries
    }

    /// The state of the server identified by `id`, if one is configured.
    pub fn get(&self, id: &String) -> (r: Option<&ServerState>)
        requires
            self.wf(),
        ensures
            match r {
                Some(v) => self@.dom().contains(id@) && *v == self@[id@],
                None => !self@.dom().contains(id@),
            },
    {
        let n = self.entries.len();
        let mut i: usize = 0;
        while i < n
            invariant
                self.wf(),
                n == self.list().len(),
                0 <= i <= n,
                forall|j: int| 0 <= j < i ==> self.list()[j].0@ != id@,
            decreases n - i,
        {
            if self.entries[i].0 == *id {
                proof {
                    lemma_server_entries_member(self.list(), i as int);
                }
                return Some(&self.entries[i].1);
            }
            i += 1;
        }
        proof {
            lemma_server_entries_dom(self.list());
        }
        None
    }

    /// Remove the server identified by `id`, if one is configured; without
    /// one this is a no-op.
    pub fn remove(&mut self, id: &String)
        requires
            old(self).wf(),
        ensures
            final(self).wf(),
            final(self)@ == old(self)@.remove(id@),
            forall|j: int| 0 <= j < final(self).list().len() ==> final(self).list()[j].0@ != id@,
    {
        let n = self.entries.len();
        let mut i: usize = 0;
        while i < n
            invariant
                self == old(self),
                self.wf(),
                n == self.list().len(),
                0 <= i <= n,
                forall|j: int| 0 <= j < i ==> self.list()[j].0@ != id@,
            decreases n - i,
        {
            if self.entries[i].0 == *id {
                let ghost before = self.list();
                self.entries.remove(i);
                proof {
                    lemma_server_entries_removed(before, i as int);
                    lemma_server_entries_map_remove(before, i as int);
                }
                return ;
            }
            i += 1;
        }
        proof {
            lemma_server_entries_dom(self.list());
            assert(self@ =~= self@.remove(id@));
        }
    }

    /// Configure `server` under `id`, replacing any state already held for
    /// that identifier.
    pub fn insert(&mut self, id: String, server: ServerState)
        requires
            old(self).wf(),
        ensures
            final(self).wf(),
            final(self)@ == old(self)@.insert(id@, server),
    {
        self.remove(&id);
        let ghost removed = self.list();
        self.entries.push((id, server));
        proof {
            assert(self.list().drop_last() =~= removed);
            assert(forall|j: int|
                0 <= j < removed.len() ==> self.list()[j] == #[trigger] removed[j]);
            assert(distinct_server_ids(self.list()));
            assert(self@ =~= old(self)@.insert(id@, server));
        }
    }

    /// The identifiers of every configured server, in held order.
    pub fn ids(&self) -> (r: Vec<String>)
        ensures
            r@.len() == self.list().len(),
            forall|i: int| 0 <= i < r@.len() ==> r@[i]@ == self.list()[i].0@,
    {
        let n = self.entries.len();
        let mut out: Vec<String> = Vec::new();
        let mut i: usize = 0;
        while i < n
            invariant
                n == self.list().len(),
                0 <= i <= n,
                out@.len() == i,
                forall|j: int| 0 <= j < i ==> out@[j]@ == self.list()[j].0@,
            decreases n - i,
        {
            out.push(self.entries[i].0.clone());
            i += 1;
        }
        out
    }
}

/// Every identifier maps to an entry and every entry to an identifier: the
/// represented mapping's domain is exactly the set of identifier strings the
/// entries carry.
proof fn lemma_server_entries_dom(s: Seq<(String, ServerState)>)
    ensures
        forall|k: Seq<char>|
            server_entries_map(s).dom().contains(k) <==> exists|i: int|
                0 <= i < s.len() && #[trigger] s[i].0@ == k,
    decreases s.len(),
{
    if s.len() == 0 {
    } else {
        lemma_server_entries_dom(s.drop_last());
        assert forall|k: Seq<char>| server_entries_map(s).dom().contains(k) implies exists|i: int|
            0 <= i < s.len() && #[trigger] s[i].0@ == k by {
            if k == s.last().0@ {
                assert(s[s.len() - 1].0@ == k);
            } else {
                assert(server_entries_map(s.drop_last()).dom().contains(k));
                let i = choose|i: int|
                    0 <= i < s.drop_last().len() && #[trigger] s.drop_last()[i].0@ == k;
                assert(s[i].0@ == k);
            }
        }
        assert forall|k: Seq<char>|
            (exists|i: int| 0 <= i < s.len() && #[trigger] s[i].0@ == k) implies server_entries_map(
            s,
        ).dom().contains(k) by {
            let i = choose|i: int| 0 <= i < s.len() && #[trigger] s[i].0@ == k;
            if i == s.len() - 1 {
                assert(k == s.last().0@);
            } else {
                assert(s.drop_last()[i].0@ == k);
                assert(server_entries_map(s.drop_last()).dom().contains(k));
            }
        }
    }
}

/// With no identifier repeated, each entry is found in the represented
/// mapping under its own identifier string.
proof fn lemma_server_entries_member(s: Seq<(String, ServerState)>, i: int)
    requires
        distinct_server_ids(s),
        0 <= i < s.len(),
    ensures
        server_entries_map(s).dom().contains(s[i].0@),
        server_entries_map(s)[s[i].0@] == s[i].1,
    decreases s.len(),
{
    if i == s.len() - 1 {
    } else {
        lemma_server_entries_member(s.drop_last(), i);
    }
}

/// Removing one position shifts the later entries down by one and keeps the
/// identifiers distinct.
proof fn lemma_server_entries_removed(s: Seq<(String, ServerState)>, i: int)
    requires
        distinct_server_ids(s),
        0 <= i < s.len(),
    ensures
        s.remove(i).len() == s.len() - 1,
        forall|j: int| 0 <= j < i ==> s.remove(i)[j] == s[j],
        forall|j: int| i <= j < s.len() - 1 ==> s.remove(i)[j] == s[j + 1],
        distinct_server_ids(s.remove(i)),
{
    let s2 = s.remove(i);
    assert forall|a: int, b: int| 0 <= a < b < s2.len() implies s2[a].0@ != s2[b].0@ by {
        let a0 = if a < i {
            a
        } else {
            a + 1
        };
        let b0 = if b < i {
            b
        } else {
            b + 1
        };
        assert(s2[a] == s[a0] && s2[b] == s[b0]);
    }
}

/// Removing the entry at position `i` removes exactly its identifier's entry
/// from the represented mapping, provided no identifier is repeated.
proof fn lemma_server_entries_map_remove(s: Seq<(String, ServerState)>, i: int)
    requires
        distinct_server_ids(s),
        0 <= i < s.len(),
    ensures
        server_entries_map(s.remove(i)) == server_entries_map(s).remove(s[i].0@),
{
    let k = s[i].0@;
    let s2 = s.remove(i);
    lemma_server_entries_removed(s, i);
    lemma_server_entries_dom(s);
    lemma_server_entries_dom(s2);
    assert forall|k2: Seq<char>| server_entries_map(s2).dom().contains(k2) implies server_entries_map(
        s,
    ).remove(k).dom().contains(k2) && server_entries_map(s2)[k2] == server_entries_map(s).remove(
        k,
    )[k2] by {
        let j = choose|j: int| 0 <= j < s2.len() && #[trigger] s2[j].0@ == k2;
        let j0 = if j < i {
            j
        } else {
            j + 1
        };
        assert(s[j0] == s2[j]);
        assert(k2 != k);
        lemma_server_entries_member(s2, j);
        lemma_server_entries_member(s, j0);
    }
    assert forall|k2: Seq<char>|
        server_entries_map(s).remove(k).dom().contains(k2) implies server_entries_map(
        s2,
    ).dom().contains(k2) by {
        let j0 = choose|j0: int| 0 <= j0 < s.len() && #[trigger] s[j0].0@ == k2;
        assert(j0 != i);
        let j = if j0 < i {
            j0
        } else {
            j0 - 1
        };
        assert(s2[j] == s[j0]);
        lemma_server_entries_member(s2, j);
    }
    assert(server_entries_map(s.remove(i)) =~= server_entries_map(s).remove(s[i].0@));
}

/// A freshly generated installation identifier.
///
/// Relies on `uuid::Uuid::new_v4` and `uuid::fmt::Braced`: a random
/// version-4 identifier rendered in braced hyphenated form, which is always
/// 38 characters, the first an opening brace and the last a closing brace.
/// The value between the braces is random, so nothing is promised of it.
#[verifier::external_body]
fn new_client_id() -> (r: String)
    ensures
        r@.len() == 38,
        r@[0] == '{',
        r@[37] == '}',
{
    uuid::Uuid::new_v4().braced().to_string()
}

/// The process-wide persisted root: the client identifier this installation
/// presents to the remote system, generated once at first construction, and
/// the mirrored state of every configured server.
#[derive(Debug, PartialEq)]
pub struct State {
    pub client_id: String,
    pub servers: ServerMap,
}

impl Default for State {
    /// The state of a first run: a freshly generated, brace-enclosed client
    /// identifier and no servers.
    fn default() -> (r: State)
        ensures
            r.servers.wf(),
            r.servers@ == Map::<Seq<char>, ServerState>::empty(),
            r.client_id@.len() == 38,
            r.client_id@[0] == '{',
            r.client_id@[37] == '}',
    {
        State { client_id: new_client_id(), servers: ServerMap::new() }
    }
}

impl State {
    /// Resolve the servers a command names to the servers to act on: every
    /// identifier in `ids`, in order — or every configured server, in held
    /// order, when `ids` is empty. Fails exactly when some named identifier
    /// is unknown, reporting the first such identifier and resolving
    /// nothing.
    pub fn select_servers(&self, ids: &Vec<String>) -> (r: Result<Vec<String>, Error>)
        requires
            self.servers.wf(),
        ensures
            r is Ok <==> (forall|i: int|
                0 <= i < ids@.len() ==> self.servers@.dom().contains(ids@[i]@)),
            r matches Ok(out) ==> (if ids@.len() == 0 {
                &&& out@.len() == self.servers.list().len()
                &&& (forall|i: int| 0 <= i < out@.len() ==> out@[i]@ == self.servers.list()[i].0@)
            } else {
                &&& out@.len() == ids@.len()
                &&& (forall|i: int| 0 <= i < out@.len() ==> out@[i]@ == ids@[i]@)
            }),
            r matches Err(e) ==> exists|i: int|
                {
                    &&& 0 <= i < ids@.len()
                    &&& !self.servers@.dom().contains(#[trigger] ids@[i]@)
                    &&& (forall|j: int| 0 <= j < i ==> self.servers@.dom().contains(ids@[j]@))
                    &&& (e matches Error::UnknownServer(u) && u@ == ids@[i]@)
                },
    {
        if ids.len() == 0 {
            return Ok(self.servers.ids());
        }
        let n = ids.len();
        let mut out: Vec<String> = Vec::new();
        let mut i: usize = 0;
        while i < n
            invariant
                self.servers.wf(),
                n == ids@.len(),
                0 <= i <= n,
                out@.len() == i,
                forall|j: int| 0 <= j < i ==> out@[j]@ == ids@[j]@,
                forall|j: int| 0 <= j < i ==> self.servers@.dom().contains(ids@[j]@),
            decreases n - i,
        {
            let id = &ids[i];
            match self.servers.get(id) {
                Some(_) => out.push(id.clone()),
                None => {
                    return Err(Error::UnknownServer(id.clone()));
                },
            }
            i += 1;
        }
        Ok(out)
    }
}

} // verus!
