//! The process-wide categorized registry and the directory of connected
//! clients, each guarded by its own global reader/writer lock.

use vstd::prelude::*;
use vstd::rwlock::{RwLock, ReadHandle, WriteHandle};
use crate::errors::CommandError;
use crate::strutil::str_eq;

verus! {

/// One named category: a namespace of uniquely keyed entries.
pub struct Category {
    /// The category's name, unique within the registry.
    pub name: String,
    /// The entries, keyed uniquely.
    pub entries: Vec<(String, String)>,
}

impl Category {
    /// Entry keys are unique.
    pub open spec fn wf(self) -> bool {
        forall|j: int, k: int|
            0 <= j < self.entries@.len() && 0 <= k < self.entries@.len() && j != k ==> (
            #[trigger] self.entries@[j]).0@ != (#[trigger] self.entries@[k]).0@
    }

    /// Whether an entry with this key exists.
    pub open spec fn has_key(self, key: Seq<char>) -> bool {
        exists|j: int| 0 <= j < self.entries@.len() && (#[trigger] self.entries@[j]).0@ == key
    }

    /// The index of the entry with this key (unique when present).
    pub open spec fn key_idx_of(self, key: Seq<char>) -> int {
        choose|j: int| 0 <= j < self.entries@.len() && (#[trigger] self.entries@[j]).0@ == key
    }

    /// The value stored under a key, if any.
    pub open spec fn value_of(self, key: Seq<char>) -> Option<Seq<char>> {
        if self.has_key(key) {
            Some(self.entries@[self.key_idx_of(key)].1@)
        } else {
            None
        }
    }

    /// The index of the entry with this key, by linear search.
    fn find_key(&self, key: &str) -> (r: Option<usize>)
        requires
            self.wf(),
        ensures
            match r {
                Some(j) => self.has_key(key@) && j < self.entries@.len()
                    && self.entries@[j as int].0@ == key@ && self.key_idx_of(key@) == j,
                None => !self.has_key(key@),
            },
    {
        let mut j: usize = 0;
        while j < self.entries.len()
            invariant
                self.wf(),
                j <= self.entries@.len(),
                forall|k: int| 0 <= k < j ==> (#[trigger] self.entries@[k]).0@ != key@,
            decreases self.entries@.len() - j,
        {
            let e: &(String, String) = &self.entries[j];
            if str_eq(e.0.as_str(), key) {
                proof {
                    let v = self.key_idx_of(key@);
                    assert(0 <= v < self.entries@.len() && self.entries@[v].0@ == key@);
                    if v != j {
                        assert(self.entries@[v].0@ != self.entries@[j as int].0@);
                    }
                }
                return Some(j);
            }
            j = j + 1;
        }
        None
    }

    /// Reads the value stored under a key.
    pub fn get(&self, key: &str) -> (r: Option<String>)
        requires
            self.wf(),
        ensures
            match r {
                Some(v) => self.value_of(key@) == Some(v@),
                None => self.value_of(key@) is None,
            },
    {
        match self.find_key(key) {
            Some(j) => {
                let e: &(String, String) = &self.entries[j];
                Some(e.1.clone())
            },
            None => None,
        }
    }

    /// Stores a value under a key, replacing any previous value. Other
    /// entries are untouched.
    pub fn set(&mut self, key: String, value: String) -> (r: ())
        requires
            old(self).wf(),
        ensures
            final(self).wf(),
            final(self).name == old(self).name,
            final(self).value_of(key@) == Some(value@),
            forall|k: Seq<char>|
                k != key@ ==> #[trigger] final(self).value_of(k) == old(self).value_of(k),
    {
        let ghost gkey = key@;
        match self.find_key(key.as_str()) {
            Some(j) => {
                self.entries.set(j, (key, value));
                proof {
                    let pre = *old(self);
                    let post = *self;
                    assert forall|a: int| 0 <= a < post.entries@.len() implies (
                    #[trigger] post.entries@[a]).0@ == pre.entries@[a].0@ by {}
                    assert forall|a: int, b: int|
                        0 <= a < post.entries@.len() && 0 <= b < post.entries@.len() && a
                            != b implies (#[trigger] post.entries@[a]).0@ != (
                    #[trigger] post.entries@[b]).0@ by {
                        assert(pre.entries@[a].0@ != pre.entries@[b].0@);
                    }
                    lemma_category_lookup(post);
                    assert(post.value_of(gkey) == Some(post.entries@[j as int].1@));
                    assert forall|k: Seq<char>| k != gkey implies post.value_of(k)
                        == pre.value_of(k) by {
                        if pre.has_key(k) {
                            let a = pre.key_idx_of(k);
                            assert(0 <= a < pre.entries@.len() && pre.entries@[a].0@ == k);
                            assert(a != j as int);
                            assert(post.entries@[a].0@ == k);
                            assert(post.has_key(k));
                            assert(post.key_idx_of(k) == a);
                        } else {
                            if post.has_key(k) {
                                let b = post.key_idx_of(k);
                                assert(0 <= b < post.entries@.len() && post.entries@[b].0@ == k);
                                assert(pre.entries@[b].0@ == k);
                                assert(pre.has_key(k));
                            }
                        }
                    }
                }
            },
            None => {
                self.entries.push((key, value));
                proof {
                    let pre = *old(self);
                    let post = *self;
                    let n = pre.entries@.len() as int;
                    assert forall|a: int, b: int|
                        0 <= a < post.entries@.len() && 0 <= b < post.entries@.len() && a
                            != b implies (#[trigger] post.entries@[a]).0@ != (
                    #[trigger] post.entries@[b]).0@ by {
                        if a < n && b < n {
                            assert(pre.entries@[a].0@ != pre.entries@[b].0@);
                        } else if a == n {
                            assert(pre.entries@[b].0@ != gkey);
                        } else {
                            assert(pre.entries@[a].0@ != gkey);
                        }
                    }
                    lemma_category_lookup(post);
                    assert(post.entries@[n].0@ == gkey);
                    assert(post.value_of(gkey) == Some(post.entries@[n].1@));
                    assert forall|k: Seq<char>| k != gkey implies post.value_of(k)
                        == pre.value_of(k) by {
                        if pre.has_key(k) {
                            let a = pre.key_idx_of(k);
                            assert(0 <= a < pre.entries@.len() && pre.entries@[a].0@ == k);
                            assert(post.entries@[a].0@ == k);
                            assert(post.has_key(k));
                            assert(post.key_idx_of(k) == a);
                        } else {
                            if post.has_key(k) {
                                let b = post.key_idx_of(k);
                                assert(0 <= b < post.entries@.len() && post.entries@[b].0@ == k);
                                assert(b != n);
                                assert(pre.entries@[b].0@ == k);
                                assert(pre.has_key(k));
                            }
                        }
                    }
                }
            },
        }
    }
}

/// In a well-formed category each present key is found at its unique
/// index, so lookups are pinned.
proof fn lemma_category_lookup(c: Category)
    requires
        c.wf(),
    ensures
        forall|j: int|
            0 <= j < c.entries@.len() ==> c.has_key((#[trigger] c.entries@[j]).0@)
                && c.key_idx_of(c.entries@[j].0@) == j,
{
    assert forall|j: int| 0 <= j < c.entries@.len() implies c.has_key(
        (#[trigger] c.entries@[j]).0@,
    ) && c.key_idx_of(c.entries@[j].0@) == j by {
        let key = c.entries@[j].0@;
        assert(c.has_key(key));
        let v = c.key_idx_of(key);
        assert(0 <= v < c.entries@.len() && c.entries@[v].0@ == key);
        if v != j {
            assert(c.entries@[v].0@ != c.entries@[j].0@);
        }
    }
}

/// The categorized registry: a set of uniquely named categories.
pub struct Registry {
    /// All categories, names unique.
    pub categories: Vec<Category>,
}

impl Registry {
    /// Category names are unique and each category is well-formed.
    pub open spec fn wf(self) -> bool {
        &&& (forall|j: int|
            0 <= j < self.categories@.len() ==> (#[trigger] self.categories@[j]).wf())
        &&& (forall|j: int, k: int|
            0 <= j < self.categories@.len() && 0 <= k < self.categories@.len() && j != k ==> (
            #[trigger] self.categories@[j]).name@ != (#[trigger] self.categories@[k]).name@)
    }

    /// Whether a category with this name exists.
    pub open spec fn has_category_spec(self, name: Seq<char>) -> bool {
        exists|j: int|
            0 <= j < self.categories@.len() && (#[trigger] self.categories@[j]).name@ == name
    }

    /// The index of the category with this name (unique when present).
    pub open spec fn cat_idx_of(self, name: Seq<char>) -> int {
        choose|j: int|
            0 <= j < self.categories@.len() && (#[trigger] self.categories@[j]).name@ == name
    }

    /// An empty registry.
    pub fn new() -> (r: Registry)
        ensures
            r.wf(),
            r.categories@.len() == 0,
    {
        Registry { categories: Vec::new() }
    }

    /// The index of the category with this name, by linear search.
    fn find_category(&self, name: &str) -> (r: Option<usize>)
        requires
            self.wf(),
        ensures
            match r {
                Some(j) => self.has_category_spec(name@) && j < self.categories@.len()
                    && self.categories@[j as int].name@ == name@ && self.cat_idx_of(name@) == j,
                None => !self.has_category_spec(name@),
            },
    {
        let mut j: usize = 0;
        while j < self.categories.len()
            invariant
                self.wf(),
                j <= self.categories@.len(),
                forall|k: int| 0 <= k < j ==> (#[trigger] self.categories@[k]).name@ != name@,
            decreases self.categories@.len() - j,
        {
            let c: &Category = &self.categories[j];
            if str_eq(c.name.as_str(), name) {
                proof {
                    let v = self.cat_idx_of(name@);
                    assert(0 <= v < self.categories@.len() && self.categories@[v].name@ == name@);
                    if v != j {
                        assert(self.categories@[v].name@ != self.categories@[j as int].name@);
                    }
                }
                return Some(j);
            }
            j = j + 1;
        }
        None
    }

    /// Whether a category with this name exists.
    pub fn has_category(&self, name: &str) -> (r: bool)
        requires
            self.wf(),
        ensures
            r == self.has_category_spec(name@),
    {
        match self.find_category(name) {
            Some(_) => true,
            None => false,
        }
    }

    /// Creates an empty category with a fresh name. A duplicate name is a
    /// failure and leaves every existing category untouched; a fresh name
    /// becomes visible to subsequent lookups.
    pub fn add_category(&mut self, name: String) -> (r: Result<(), CommandError>)
        requires
            old(self).wf(),
        ensures
            final(self).wf(),
            match r {
                Ok(()) => !old(self).has_category_spec(name@) && final(self).categories@.len()
                    == old(self).categories@.len() + 1 && (forall|j: int|
                    0 <= j < old(self).categories@.len() ==> final(self).categories@[j] == old(
                        self,
                    ).categories@[j]) && final(self).categories@[old(self).categories@.len() as int].name@
                    == name@ && final(self).categories@[old(self).categories@.len() as int].entries@.len()
                    == 0 && final(self).has_category_spec(name@),
                Err(e) => old(self).has_category_spec(name@) && *final(self) == *old(self) && (e
                    matches CommandError::CategoryAlreadyExists(n) && n@ == name@),
            },
    {
        match self.find_category(name.as_str()) {
            Some(_) => Err(CommandError::CategoryAlreadyExists(name)),
            None => {
                let ghost pre = self.categories@;
                let ghost nm = name@;
                self.categories.push(Category { name, entries: Vec::new() });
                proof {
                    assert(self.categories@[pre.len() as int].name@ == nm);
                }
                Ok(())
            },
        }
    }
}

/// A client's permission set.
#[derive(PartialEq, Eq, Structural, Clone, Copy, Debug)]
pub struct Permissions {
    /// May read shared state.
    pub read: bool,
    /// May change shared state.
    pub write: bool,
}

/// One connected client and its permissions.
#[derive(PartialEq, Eq, Structural, Clone, Copy, Debug)]
pub struct Client {
    /// The client's connection identity.
    pub id: u64,
    /// What the client may do.
    pub permissions: Permissions,
}

/// The directory of connected clients, ids unique.
pub struct Clients {
    /// All connected clients.
    pub clients: Vec<Client>,
}

impl Clients {
    /// Client ids are unique.
    pub open spec fn wf(self) -> bool {
        forall|j: int, k: int|
            0 <= j < self.clients@.len() && 0 <= k < self.clients@.len() && j != k ==> (
            #[trigger] self.clients@[j]).id != (#[trigger] self.clients@[k]).id
    }

    /// Whether a client with this identity is connected.
    pub open spec fn has_client(self, id: u64) -> bool {
        exists|j: int| 0 <= j < self.clients@.len() && (#[trigger] self.clients@[j]).id == id
    }

    /// The index of the client with this identity (unique when present).
    pub open spec fn client_idx_of(self, id: u64) -> int {
        choose|j: int| 0 <= j < self.clients@.len() && (#[trigger] self.clients@[j]).id == id
    }

    /// An empty directory.
    pub fn new() -> (r: Clients)
        ensures
            r.wf(),
            r.clients@.len() == 0,
    {
        Clients { clients: Vec::new() }
    }

    /// The index of the client with this identity, by linear search.
    fn find_client(&self, id: u64) -> (r: Option<usize>)
        requires
            self.wf(),
        ensures
            match r {
                Some(j) => self.has_client(id) && j < self.clients@.len()
                    && self.clients@[j as int].id == id && self.client_idx_of(id) == j,
                None => !self.has_client(id),
            },
    {
        let mut j: usize = 0;
        while j < self.clients.len()
            invariant
                self.wf(),
                j <= self.clients@.len(),
                forall|k: int| 0 <= k < j ==> (#[trigger] self.clients@[k]).id != id,
            decreases self.clients@.len() - j,
        {
            if self.clients[j].id == id {
                proof {
                    let v = self.client_idx_of(id);
                    assert(0 <= v < self.clients@.len() && self.clients@[v].id == id);
                    if v != j {
                        assert(self.clients@[v].id != self.clients@[j as int].id);
                    }
                }
                return Some(j);
            }
            j = j + 1;
        }
        None
    }

    /// Registers a newly connected client; a duplicate identity is refused.
    pub fn register(&mut self, id: u64, permissions: Permissions) -> (r: bool)
        requires
            old(self).wf(),
        ensures
            final(self).wf(),
            r == !old(self).has_client(id),
            r ==> final(self).clients@ == old(self).clients@.push(Client { id, permissions }),
            !r ==> *final(self) == *old(self),
    {
        match self.find_client(id) {
            Some(_) => false,
            None => {
                self.clients.push(Client { id, permissions });
                true
            },
        }
    }

    /// The permission set of a connected client.
    pub fn permissions_of(&self, id: u64) -> (r: Option<Permissions>)
        requires
            self.wf(),
        ensures
            match r {
                Some(p) => self.has_client(id) && p == self.clients@[self.client_idx_of(
                    id,
                )].permissions,
                None => !self.has_client(id),
            },
    {
        match self.find_client(id) {
            Some(j) => Some(self.clients[j].permissions),
            None => None,
        }
    }

    /// Removes a disconnected client.
    pub fn remove(&mut self, id: u64) -> (r: bool)
        requires
            old(self).wf(),
        ensures
            final(self).wf(),
            r == old(self).has_client(id),
            r ==> final(self).clients@ == old(self).clients@.remove(old(self).client_idx_of(id)),
            !r ==> *final(self) == *old(self),
    {
        match self.find_client(id) {
            Some(j) => {
                self.clients.remove(j);
                proof {
                    let s0 = old(self).clients@;
                    let s1 = self.clients@;
                    assert forall|a: int| 0 <= a < s1.len() implies #[trigger] s1[a] == (if a
                        < j as int {
                        s0[a]
                    } else {
                        s0[a + 1]
                    }) by {}
                }
                true
            },
            None => false,
        }
    }
}

/// The category list as startup fixes it: exactly the four base
/// categories, in creation order, and no others. Entry contents are left
/// free; category creation itself is a startup-only act.
pub open spec fn base_category_names(r: Registry) -> bool {
    &&& r.categories@.len() == 4
    &&& r.categories@[0].name@ == "windows"@
    &&& r.categories@[1].name@ == "programs"@
    &&& r.categories@[2].name@ == "mouse"@
    &&& r.categories@[3].name@ == "screen"@
}

/// The registry lock stores well-formed registries whose categories are
/// exactly the four created at startup.
pub open spec fn registry_lock_inv() -> spec_fn(Registry) -> bool {
    |r: Registry| r.wf() && base_category_names(r)
}

/// The client-directory lock stores well-formed directories.
pub open spec fn clients_lock_inv() -> spec_fn(Clients) -> bool {
    |c: Clients| c.wf()
}

/// The global reader/writer lock guarding the registry.
pub type RegistryLock = RwLock<Registry, spec_fn(Registry) -> bool>;

/// The global reader/writer lock guarding the client directory.
pub type ClientDirectory = RwLock<Clients, spec_fn(Clients) -> bool>;

/// Acquires shared access to the client directory; blocks until available.
pub fn clients_read<'a>(dir: &'a ClientDirectory) -> (h: ReadHandle<
    'a,
    Clients,
    spec_fn(Clients) -> bool,
>)
    requires
        dir.pred() == clients_lock_inv(),
    ensures
        h.rwlock() == *dir,
        h.view().wf(),
{
    dir.acquire_read()
}

/// Acquires exclusive access to the client directory; blocks until
/// available and hands the directory out for modification.
pub fn clients_write<'a>(dir: &'a ClientDirectory) -> (r: (
    Clients,
    WriteHandle<'a, Clients, spec_fn(Clients) -> bool>,
))
    requires
        dir.pred() == clients_lock_inv(),
    ensures
        r.1.rwlock() == *dir,
        r.0.wf(),
{
    dir.acquire_write()
}

/// The registry as startup creates it: exactly the four base categories,
/// in creation order, each newly created and empty, each visible to
/// subsequent lookups. On a fresh registry none of the four creations can
/// fail, so startup cannot be left half done.
pub fn initial_registry() -> (r: Registry)
    ensures
        r.wf(),
        base_category_names(r),
        r.has_category_spec("windows"@),
        r.has_category_spec("programs"@),
        r.has_category_spec("mouse"@),
        r.has_category_spec("screen"@),
        forall|j: int|
            0 <= j < r.categories@.len() ==> (#[trigger] r.categories@[j]).entries@.len() == 0,
{
    proof {
        reveal_strlit("windows");
        reveal_strlit("programs");
        reveal_strlit("mouse");
        reveal_strlit("screen");
        assert("windows"@.len() == 7);
        assert("programs"@.len() == 8);
        assert("mouse"@.len() == 5);
        assert("screen"@.len() == 6);
    }
    let mut registry = Registry::new();
    let r1 = registry.add_category("windows".to_owned());
    assert(r1 is Ok);
    let r2 = registry.add_category("programs".to_owned());
    assert(r2 is Ok);
    let r3 = registry.add_category("mouse".to_owned());
    assert(r3 is Ok);
    let r4 = registry.add_category("screen".to_owned());
    assert(r4 is Ok);
    registry
}

/// Builds the registry and the client directory, once, at process start:
/// exactly the four base categories exist before any dispatch call can
/// occur, and creating them on a fresh registry cannot fail.
pub fn init() -> (r: (RegistryLock, ClientDirectory))
    ensures
        r.0.pred() == registry_lock_inv(),
        r.1.pred() == clients_lock_inv(),
{
    let registry = initial_registry();
    let registry_lock: RegistryLock = RwLock::new(registry, Ghost(registry_lock_inv()));
    let clients_lock: ClientDirectory = RwLock::new(Clients::new(), Ghost(clients_lock_inv()));
    (registry_lock, clients_lock)
}

} // verus!
