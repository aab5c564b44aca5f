//! Service registry for internal name resolution.
//!
//! The registry maps service names to service IDs and back. It is the single
//! source of truth for what is an internal service: only registered names
//! are internal.

use vstd::prelude::*;

use crate::keyed::KeyedList;
use crate::policy::model::{names_view, opt_text};
use crate::text::{chars_of, seq_starts_with};

verus! {

/// Maps service names to IDs, and IDs back to names.
pub struct ServiceRegistry {
    name_to_id: KeyedList<String>,
    id_to_name: KeyedList<String>,
}

/// The text stored under `k` in `m`, if any.
pub open spec fn lookup(m: Map<Seq<char>, Seq<char>>, k: Seq<char>) -> Option<Seq<char>> {
    if m.contains_key(k) { Some(m[k]) } else { None }
}

/// The texts of a table of strings.
pub open spec fn texts(m: Map<Seq<char>, String>) -> Map<Seq<char>, Seq<char>> {
    m.map_values(|v: String| v@)
}

impl ServiceRegistry {
    /// Service name to service ID.
    pub closed spec fn names(&self) -> Map<Seq<char>, Seq<char>> {
        texts(self.name_to_id@)
    }

    /// Service ID to service name.
    pub closed spec fn ids(&self) -> Map<Seq<char>, Seq<char>> {
        texts(self.id_to_name@)
    }

    /// Both tables are well formed.
    pub closed spec fn wf(&self) -> bool {
        self.name_to_id.wf() && self.id_to_name.wf()
    }

    /// Creates an empty registry.
    pub fn new() -> (r: Self)
        ensures
            r.wf(),
            r.names() == Map::<Seq<char>, Seq<char>>::empty(),
            r.ids() == Map::<Seq<char>, Seq<char>>::empty(),
    {
        let r = ServiceRegistry { name_to_id: KeyedList::new(), id_to_name: KeyedList::new() };
        assert(r.names() =~= Map::<Seq<char>, Seq<char>>::empty());
        assert(r.ids() =~= Map::<Seq<char>, Seq<char>>::empty());
        r
    }

    /// Registers a service name to ID mapping (and the reverse mapping),
    /// replacing earlier mappings of the same name and of the same ID.
    pub fn register(&mut self, name: String, id: String)
        requires
            old(self).wf(),
        ensures
            final(self).wf(),
            final(self).names() == old(self).names().insert(name@, id@),
            final(self).ids() == old(self).ids().insert(id@, name@),
    {
        let name2 = name.clone();
        let id2 = id.clone();
        self.name_to_id.insert(name, id);
        self.id_to_name.insert(id2, name2);
        assert(self.names() =~= old(self).names().insert(name2@, id2@));
        assert(self.ids() =~= old(self).ids().insert(id2@, name2@));
    }

    /// Unregisters a service by ID: the ID's entry goes, and so does the
    /// entry of the name it was registered under.
    pub fn unregister_by_id(&mut self, id: &str)
        requires
            old(self).wf(),
        ensures
            final(self).wf(),
            final(self).ids() == old(self).ids().remove(id@),
            final(self).names() == (if old(self).ids().contains_key(id@) {
                old(self).names().remove(old(self).ids()[id@])
            } else {
                old(self).names()
            }),
    {
        match self.id_to_name.remove(id) {
            Some(name) => {
                let _ = self.name_to_id.remove(name.as_str());
            },
            None => {},
        }
        proof {
            assert(self.ids() =~= old(self).ids().remove(id@));
            if old(self).ids().contains_key(id@) {
                assert(self.names() =~= old(self).names().remove(old(self).ids()[id@]));
            } else {
                assert(self.names() =~= old(self).names());
            }
        }
    }

    /// Unregisters a service by name: the name's entry goes, and so does the
    /// entry of the ID it was registered to.
    pub fn unregister_by_name(&mut self, name: &str)
        requires
            old(self).wf(),
        ensures
            final(self).wf(),
            final(self).names() == old(self).names().remove(name@),
            final(self).ids() == (if old(self).names().contains_key(name@) {
                old(self).ids().remove(old(self).names()[name@])
            } else {
                old(self).ids()
            }),
    {
        match self.name_to_id.remove(name) {
            Some(id) => {
                let _ = self.id_to_name.remove(id.as_str());
            },
            None => {},
        }
        proof {
            assert(self.names() =~= old(self).names().remove(name@));
            if old(self).names().contains_key(name@) {
                assert(self.ids() =~= old(self).ids().remove(old(self).names()[name@]));
            } else {
                assert(self.ids() =~= old(self).ids());
            }
        }
    }

    /// Resolves a service name to its ID; `None` if the name is not registered.
    pub fn resolve(&self, name: &str) -> (r: Option<String>)
        requires
            self.wf(),
        ensures
            opt_text(r) == lookup(self.names(), name@),
    {
        match self.name_to_id.get(name) {
            Some(id) => Some(id.clone()),
            None => None,
        }
    }

    /// Looks up the name a service ID is registered under.
    pub fn reverse_lookup(&self, id: &str) -> (r: Option<String>)
        requires
            self.wf(),
        ensures
            opt_text(r) == lookup(self.ids(), id@),
    {
        match self.id_to_name.get(id) {
            Some(name) => Some(name.clone()),
            None => None,
        }
    }

    /// Whether a service name is registered, i.e. names an internal service.
    pub fn is_internal_service(&self, name: &str) -> (r: bool)
        requires
            self.wf(),
        ensures
            r == self.names().contains_key(name@),
    {
        self.name_to_id.contains_key(name)
    }

    /// Number of registered service names.
    pub fn count(&self) -> (r: usize)
        requires
            self.wf(),
        ensures
            r == self.names().len(),
    {
        proof { self.name_to_id.lemma_view(); assert(self.names().dom() =~= self.name_to_id@.dom()); }
        self.name_to_id.len()
    }

    /// All registered service names, each once.
    pub fn all_names(&self) -> (r: Vec<String>)
        requires
            self.wf(),
        ensures
            names_view(r@).no_duplicates(),
            names_view(r@).to_set() == self.names().dom(),
            r@.len() == self.names().len(),
    {
        let mut out: Vec<String> = Vec::new();
        let n = self.name_to_id.len();
        let mut i: usize = 0;
        proof { self.name_to_id.lemma_view(); }
        while i < n
            invariant
                self.wf(),
                n == self.name_to_id.size(),
                i <= n,
                out@.len() == i,
                forall|j: int| 0 <= j < i ==> #[trigger] out@[j]@ == self.name_to_id.keys()[j],
            decreases n - i,
        {
            out.push(self.name_to_id.key_at(i).clone());
            i = i + 1;
        }
        proof {
            self.name_to_id.lemma_view();
            assert(names_view(out@) =~= self.name_to_id.keys());
            assert(self.names().dom() =~= self.name_to_id@.dom());
        }
        out
    }
}

/// The name part of a `host:port` text: everything before the first ':'.
pub open spec fn host_name_part(host: Seq<char>, r: Seq<char>) -> bool {
    &&& seq_starts_with(host, r)
    &&& !r.contains(':')
    &&& r.len() < host.len() ==> host[r.len() as int] == ':'
}

/// The text before the first ':' of `host`, or all of it when it has none.
pub open spec fn name_part(host: Seq<char>) -> Seq<char>
    decreases host.len(),
{
    if host.len() == 0 {
        host
    } else if host[0] == ':' {
        Seq::empty()
    } else {
        seq![host[0]] + name_part(host.drop_first())
    }
}

/// The name part of `host` is its first `i` characters when none of them is
/// ':' and the next one, if any, is.
proof fn lemma_name_part(host: Seq<char>, i: int)
    requires
        0 <= i <= host.len(),
        forall|k: int| 0 <= k < i ==> host[k] != ':',
        i < host.len() ==> host[i] == ':',
    ensures
        name_part(host) == host.take(i),
    decreases i,
{
    if i == 0 {
        assert(host.take(0) =~= Seq::<char>::empty());
    } else {
        let rest = host.drop_first();
        assert forall|k: int| 0 <= k < i - 1 implies rest[k] != ':' by {
            assert(rest[k] == host[k + 1]);
        }
        lemma_name_part(rest, i - 1);
        assert(seq![host[0]] + rest.take(i - 1) =~= host.take(i));
    }
}

/// Extracts the service name from a `host:port` string: the text before the
/// first ':', or the whole text when it has none.
pub fn extract_service_name(host: &str) -> (r: &str)
    ensures
        r@ == name_part(host@),
        host_name_part(host@, r@),
{
    let cs = chars_of(host);
    let mut i: usize = 0;
    while i < cs.len()
        invariant
            cs@ == host@,
            i <= cs.len(),
            forall|k: int| 0 <= k < i ==> cs@[k] != ':',
        ensures
            i <= cs.len(),
            forall|k: int| 0 <= k < i ==> cs@[k] != ':',
            i < cs.len() ==> cs@[i as int] == ':',
        decreases cs.len() - i,
    {
        if cs[i] == ':' {
            break;
        }
        i = i + 1;
    }
    let r = host.substring_char(0, i);
    proof {
        assert(r@ =~= host@.subrange(0, i as int));
        assert(host@.subrange(0, r@.len() as int) =~= r@);
        assert forall|k: int| 0 <= k < r@.len() implies r@[k] != ':' by {
            assert(r@[k] == cs@[k]);
        }
        lemma_name_part(host@, i as int);
    }
    r
}

/// Registering `name` under `id` makes `name` resolve to `id` and `id`
/// look back to `name`, whatever was registered before.
pub proof fn lemma_register_resolves(names: Map<Seq<char>, Seq<char>>, ids: Map<Seq<char>, Seq<char>>, name: Seq<char>, id: Seq<char>)
    ensures
        lookup(names.insert(name, id), name) == Some(id),
        lookup(ids.insert(id, name), id) == Some(name),
{
}

/// Once a name has been registered under an ID, unregistering that ID makes
/// both the name and the ID unknown.
pub proof fn lemma_unregister_by_id_forgets(names: Map<Seq<char>, Seq<char>>, ids: Map<Seq<char>, Seq<char>>, name: Seq<char>, id: Seq<char>)
    ensures
        ({
            let names1 = names.insert(name, id);
            let ids1 = ids.insert(id, name);
            lookup(names1.remove(ids1[id]), name) is None && lookup(ids1.remove(id), id) is None
        }),
{
}

/// Once a name has been registered under an ID, unregistering that name
/// makes both the name and the ID unknown.
pub proof fn lemma_unregister_by_name_forgets(names: Map<Seq<char>, Seq<char>>, ids: Map<Seq<char>, Seq<char>>, name: Seq<char>, id: Seq<char>)
    ensures
        ({
            let names1 = names.insert(name, id);
            let ids1 = ids.insert(id, name);
            lookup(names1.remove(name), name) is None && lookup(ids1.remove(names1[name]), id) is None
        }),
{
}

} // verus!
