//! The key store: named-secret persistence with atomic-looking insert and
//! delete.
//!
//! Two backend shapes stand behind one interface. The single store holds
//! scheme metadata and secret bytes in one table, so insert and delete are
//! naturally atomic. The dual store keeps metadata and secrets in two
//! independently failing backends with no shared transaction, and uses
//! compensating actions: a failed second step undoes or restores the first,
//! so that either both records exist or neither does.
//!
//! Each backend can be armed to fail its next write or delete, which is how
//! the compensation paths are exercised.

use vstd::prelude::*;

use crate::error::Error;
use crate::kv::KvList;
use crate::scheme::Scheme;
use crate::util::push_bytes;

verus! {

/// Copy a byte vector.
fn clone_bytes(v: &Vec<u8>) -> (r: Vec<u8>)
    ensures
        r@ == v@,
{
    let mut out: Vec<u8> = Vec::new();
    push_bytes(&mut out, v.as_slice());
    out
}

/// One independently failing storage backend: an association table plus
/// failure injection for exercising the compensation paths.
pub struct BackendStore<V> {
    table: KvList<V>,
    fail_next_write: bool,
    fail_next_delete: bool,
}

impl<V> View for BackendStore<V> {
    type V = Map<Seq<char>, V>;

    closed spec fn view(&self) -> Map<Seq<char>, V> {
        self.table@
    }
}

impl<V> BackendStore<V> {
    /// Well-formedness of the underlying table.
    pub closed spec fn wf(self) -> bool {
        self.table.wf()
    }

    /// Whether the next write attempt will fail.
    pub closed spec fn write_armed(self) -> bool {
        self.fail_next_write
    }

    /// Whether the next delete attempt will fail.
    pub closed spec fn delete_armed(self) -> bool {
        self.fail_next_delete
    }

    /// Arm the backend so that its next write attempt fails: the test
    /// double's way of standing in for an independently failing backend.
    pub fn arm_write_failure(&mut self)
        ensures
            final(self)@ == old(self)@,
            final(self).wf() == old(self).wf(),
            final(self).write_armed(),
            final(self).delete_armed() == old(self).delete_armed(),
    {
        self.fail_next_write = true;
    }

    /// Arm the backend so that its next delete attempt fails.
    pub fn arm_delete_failure(&mut self)
        ensures
            final(self)@ == old(self)@,
            final(self).wf() == old(self).wf(),
            final(self).delete_armed(),
            final(self).write_armed() == old(self).write_armed(),
    {
        self.fail_next_delete = true;
    }

    /// An empty backend with no failure armed.
    pub fn empty() -> (r: BackendStore<V>)
        ensures
            r@ == Map::<Seq<char>, V>::empty(),
            r.wf(),
            !r.write_armed(),
            !r.delete_armed(),
    {
        BackendStore { table: KvList::empty(), fail_next_write: false, fail_next_delete: false }
    }

    /// The value stored under `name`, if any. Reads are not subject to
    /// failure injection.
    pub fn get<'a>(&'a self, name: &String) -> (r: Option<&'a V>)
        requires
            self.wf(),
        ensures
            match r {
                Some(v) => self@.contains_key(name@) && *v == self@[name@],
                None => !self@.contains_key(name@),
            },
    {
        self.table.get(name)
    }

    /// Attempt to store a fresh entry: rejects a present name, and an armed
    /// write failure consumes its flag and fails the attempt.
    pub fn put(&mut self, name: String, value: V) -> (r: Result<(), Error>)
        requires
            old(self).wf(),
        ensures
            final(self).wf(),
            final(self).delete_armed() == old(self).delete_armed(),
            old(self)@.contains_key(name@) ==> r == Err::<(), Error>(Error::NameAlreadyExists)
                && *final(self) == *old(self),
            !old(self)@.contains_key(name@) && old(self).write_armed() ==> r == Err::<(),
            Error>(Error::BackendIO) && final(self)@ == old(self)@ && !final(self).write_armed(),
            !old(self)@.contains_key(name@) && !old(self).write_armed() ==> r == Ok::<(),
            Error>(()) && final(self)@ == old(self)@.insert(name@, value)
                && !final(self).write_armed(),
    {
        if self.table.contains(&name) {
            return Err(Error::NameAlreadyExists);
        }
        if self.fail_next_write {
            self.fail_next_write = false;
            return Err(Error::BackendIO);
        }
        let inserted = self.table.insert_new(name, value);
        Ok(())
    }

    /// Attempt to delete the entry under `name`: fails with `NameNotFound`
    /// for an absent name, and an armed delete failure consumes its flag and
    /// fails the attempt.
    pub fn delete(&mut self, name: &String) -> (r: Result<V, Error>)
        requires
            old(self).wf(),
        ensures
            final(self).wf(),
            final(self).write_armed() == old(self).write_armed(),
            !old(self)@.contains_key(name@) ==> r == Err::<V, Error>(Error::NameNotFound)
                && *final(self) == *old(self),
            old(self)@.contains_key(name@) && old(self).delete_armed() ==> r == Err::<V,
            Error>(Error::BackendIO) && final(self)@ == old(self)@
                && !final(self).delete_armed(),
            old(self)@.contains_key(name@) && !old(self).delete_armed() ==> (r matches Ok(v)
                && v == old(self)@[name@]) && final(self)@ == old(self)@.remove(name@)
                && !final(self).delete_armed(),
    {
        if !self.table.contains(name) {
            return Err(Error::NameNotFound);
        }
        if self.fail_next_delete {
            self.fail_next_delete = false;
            return Err(Error::BackendIO);
        }
        match self.table.remove_entry(name) {
            Some(v) => Ok(v),
            None => Err(Error::NameNotFound),
        }
    }

    /// Remove an entry unconditionally. This is the compensation path of the
    /// consistency manager and is not subject to failure injection.
    pub fn compensate_remove(&mut self, name: &String)
        requires
            old(self).wf(),
        ensures
            final(self).wf(),
            final(self).write_armed() == old(self).write_armed(),
            final(self).delete_armed() == old(self).delete_armed(),
            final(self)@ == old(self)@.remove(name@),
            !old(self)@.contains_key(name@) ==> *final(self) == *old(self),
    {
        let removed = self.table.remove_entry(name);
        proof {
            if !old(self)@.contains_key(name@) {
                assert(old(self)@.remove(name@) =~= old(self)@);
            }
        }
    }

    /// Reinsert an entry unconditionally. This is the compensation path of
    /// the consistency manager and is not subject to failure injection.
    pub fn compensate_put(&mut self, name: String, value: V)
        requires
            old(self).wf(),
            !old(self)@.contains_key(name@),
        ensures
            final(self).wf(),
            final(self).write_armed() == old(self).write_armed(),
            final(self).delete_armed() == old(self).delete_armed(),
            final(self)@ == old(self)@.insert(name@, value),
    {
        let inserted = self.table.insert_new(name, value);
    }

    /// All names the backend holds: no duplicates, exactly the keys of the
    /// view.
    pub fn names(&self) -> (r: Vec<String>)
        requires
            self.wf(),
        ensures
            forall|i: int| 0 <= i < r@.len() ==> #[trigger] self@.contains_key(r@[i]@),
            forall|i: int, j: int| #![trigger r@[i], r@[j]] 0 <= i < j < r@.len() ==> r@[i]@
                != r@[j]@,
            forall|k: Seq<char>| #[trigger] self@.contains_key(k) ==> exists|i: int|
                0 <= i < r@.len() && r@[i]@ == k,
    {
        self.table.names()
    }
}

/// The single-store shape: one table holds scheme metadata and secret bytes
/// in one row per name, so insert and delete are naturally atomic.
pub struct SingleStore {
    table: KvList<(Scheme, Vec<u8>)>,
}

impl View for SingleStore {
    type V = Map<Seq<char>, (Scheme, Seq<u8>)>;

    closed spec fn view(&self) -> Map<Seq<char>, (Scheme, Seq<u8>)> {
        Map::new(
            |k: Seq<char>| self.table@.contains_key(k),
            |k: Seq<char>| (self.table@[k].0, self.table@[k].1@),
        )
    }
}

impl SingleStore {
    /// Well-formedness of the underlying table.
    pub closed spec fn wf(self) -> bool {
        self.table.wf()
    }

    /// An empty store.
    pub fn new() -> (r: SingleStore)
        ensures
            r@ == Map::<Seq<char>, (Scheme, Seq<u8>)>::empty(),
            r.wf(),
    {
        let r = SingleStore { table: KvList::empty() };
        proof {
            assert(r@ =~= Map::<Seq<char>, (Scheme, Seq<u8>)>::empty());
        }
        r
    }

    /// Store a fresh record; rejects a present name and never overwrites.
    pub fn set_secret(&mut self, name: String, scheme: Scheme, secret: Vec<u8>) -> (r: Result<
        (),
        Error,
    >)
        requires
            old(self).wf(),
        ensures
            final(self).wf(),
            old(self)@.contains_key(name@) ==> r == Err::<(), Error>(Error::NameAlreadyExists)
                && *final(self) == *old(self),
            !old(self)@.contains_key(name@) ==> r == Ok::<(), Error>(()) && final(self)@ == old(
                self,
            )@.insert(name@, (scheme, secret@)),
    {
        let ghost secret_view = secret@;
        let inserted = self.table.insert_new(name, (scheme, secret));
        if inserted {
            proof {
                assert(self@ =~= old(self)@.insert(name@, (scheme, secret_view)));
            }
            Ok(())
        } else {
            Err(Error::NameAlreadyExists)
        }
    }

    /// Read the record under `name`.
    pub fn get_secret(&self, name: &String) -> (r: Result<(Vec<u8>, Scheme), Error>)
        requires
            self.wf(),
        ensures
            !self@.contains_key(name@) ==> r == Err::<(Vec<u8>, Scheme), Error>(
                Error::NameNotFound,
            ),
            self@.contains_key(name@) ==> (r matches Ok(p) && p.0@ == self@[name@].1 && p.1
                == self@[name@].0),
    {
        match self.table.get(name) {
            None => Err(Error::NameNotFound),
            Some(entry) => Ok((clone_bytes(&entry.1), entry.0)),
        }
    }

    /// Delete the record under `name`; fails with `NameNotFound` for an
    /// absent name and has no other effect then.
    pub fn delete_secret(&mut self, name: &String) -> (r: Result<(), Error>)
        requires
            old(self).wf(),
        ensures
            final(self).wf(),
            !old(self)@.contains_key(name@) ==> r == Err::<(), Error>(Error::NameNotFound)
                && *final(self) == *old(self),
            old(self)@.contains_key(name@) ==> r == Ok::<(), Error>(()) && final(self)@ == old(
                self,
            )@.remove(name@),
    {
        match self.table.remove_entry(name) {
            None => Err(Error::NameNotFound),
            Some(_) => {
                proof {
                    assert(self@ =~= old(self)@.remove(name@));
                }
                Ok(())
            }
        }
    }

    /// All `(name, scheme)` pairs; secrets are never included.
    pub fn list(&self) -> (r: Vec<(String, Scheme)>)
        requires
            self.wf(),
        ensures
            forall|i: int|
                0 <= i < r@.len() ==> #[trigger] self@.contains_key(r@[i].0@) && r@[i].1
                    == self@[r@[i].0@].0,
            forall|i: int, j: int| #![trigger r@[i], r@[j]] 0 <= i < j < r@.len() ==> r@[i].0@
                != r@[j].0@,
            forall|k: Seq<char>| #[trigger] self@.contains_key(k) ==> exists|i: int|
                0 <= i < r@.len() && r@[i].0@ == k,
    {
        let names = self.table.names();
        let n = names.len();
        let mut out: Vec<(String, Scheme)> = Vec::new();
        let mut i: usize = 0;
        while i < n
            invariant
                self.wf(),
                n == names@.len(),
                i <= n,
                out@.len() == i,
                forall|j: int| 0 <= j < n ==> #[trigger] self.table@.contains_key(names@[j]@),
                forall|a: int, b: int| #![trigger names@[a], names@[b]] 0 <= a < b < n ==> names@[a]@
                    != names@[b]@,
                forall|j: int| 0 <= j < i ==> #[trigger] out@[j].0@ == names@[j]@,
                forall|j: int|
                    0 <= j < i ==> #[trigger] self@.contains_key(out@[j].0@) && out@[j].1
                        == self@[out@[j].0@].0,
            decreases n - i,
        {
            let name = &names[i];
            match self.table.get(name) {
                Some(entry) => {
                    out.push((name.clone(), entry.0));
                }
                None => {
                    proof {
                        assert(false);
                    }
                }
            }
            i = i + 1;
        }
        proof {
            assert forall|k: Seq<char>| #[trigger] self@.contains_key(k) implies exists|i2: int|
                0 <= i2 < out@.len() && out@[i2].0@ == k by {
                let j = choose|j: int| 0 <= j < names@.len() && names@[j]@ == k;
                assert(out@[j].0@ == k);
            }
        }
        out
    }
}

/// The dual-store shape: scheme metadata in one backend, secret bytes in
/// another, with no shared transaction. Compensating actions keep the two
/// in step: every operation leaves a record either in both backends or in
/// neither.
pub struct DualStore {
    /// The metadata backend, mapping each name to its scheme tag.
    pub meta: BackendStore<Scheme>,
    /// The secret backend, mapping each name to its secret bytes.
    pub secrets: BackendStore<Vec<u8>>,
}

impl View for DualStore {
    type V = Map<Seq<char>, (Scheme, Seq<u8>)>;

    open spec fn view(&self) -> Map<Seq<char>, (Scheme, Seq<u8>)> {
        Map::new(
            |k: Seq<char>| self.meta@.contains_key(k),
            |k: Seq<char>| (self.meta@[k], self.secrets@[k]@),
        )
    }
}

impl DualStore {
    /// The cross-backend invariant: every name with metadata has secret
    /// bytes, and vice versa.
    pub open spec fn wf(self) -> bool {
        &&& self.meta.wf()
        &&& self.secrets.wf()
        &&& self.meta@.dom() == self.secrets@.dom()
    }

    /// Whether the next write through the store will fail.
    pub open spec fn write_armed(self) -> bool {
        self.meta.write_armed() || self.secrets.write_armed()
    }

    /// Whether the next delete through the store will fail.
    pub open spec fn delete_armed(self) -> bool {
        self.meta.delete_armed() || self.secrets.delete_armed()
    }

    /// An empty dual store with no failure armed.
    pub fn new() -> (r: DualStore)
        ensures
            r@ == Map::<Seq<char>, (Scheme, Seq<u8>)>::empty(),
            r.wf(),
            !r.write_armed(),
            !r.delete_armed(),
    {
        let r = DualStore { meta: BackendStore::empty(), secrets: BackendStore::empty() };
        proof {
            assert(r.meta@.dom() =~= r.secrets@.dom());
            assert(r@ =~= Map::<Seq<char>, (Scheme, Seq<u8>)>::empty());
        }
        r
    }

    /// Store a fresh record: metadata first, then the secret. If the secret
    /// write fails, the just-written metadata is deleted again, so that the
    /// name is in both backends or in neither.
    pub fn set_secret(&mut self, name: String, scheme: Scheme, secret: Vec<u8>) -> (r: Result<
        (),
        Error,
    >)
        requires
            old(self).wf(),
        ensures
            final(self).wf(),
            old(self)@.contains_key(name@) ==> r == Err::<(), Error>(Error::NameAlreadyExists)
                && final(self)@ == old(self)@,
            !old(self)@.contains_key(name@) && old(self).write_armed() ==> r == Err::<(), Error>(
                Error::BackendIO,
            ) && final(self)@ == old(self)@,
            !old(self)@.contains_key(name@) && !old(self).write_armed() ==> r == Ok::<(), Error>(())
                && final(self)@ == old(self)@.insert(name@, (scheme, secret@)),
    {
        let ghost secret_view = secret@;
        let meta_name = name.clone();
        let secret_name = name.clone();
        match self.meta.put(meta_name, scheme) {
            Err(e) => {
                proof {
                    assert(self@ =~= old(self)@);
                }
                Err(e)
            }
            Ok(_) => {
                match self.secrets.put(secret_name, secret) {
                    Ok(_) => {
                        proof {
                            assert(self.meta@.dom() =~= self.secrets@.dom());
                            assert(self@ =~= old(self)@.insert(name@, (scheme, secret_view)));
                        }
                        Ok(())
                    }
                    Err(e) => {
                        self.meta.compensate_remove(&name);
                        proof {
                            assert(self.meta@ =~= old(self).meta@);
                            assert(self.meta@.dom() =~= self.secrets@.dom());
                            assert(self@ =~= old(self)@);
                        }
                        Err(e)
                    }
                }
            }
        }
    }

    /// Read the record under `name`.
    ///
    /// Metadata present but secret missing would mean the backends have
    /// drifted apart; that read surfaces `Inconsistent`, which the invariant
    /// rules out for every store this module can build.
    pub fn get_secret(&self, name: &String) -> (r: Result<(Vec<u8>, Scheme), Error>)
        requires
            self.wf(),
        ensures
            !self@.contains_key(name@) ==> r == Err::<(Vec<u8>, Scheme), Error>(
                Error::NameNotFound,
            ),
            self@.contains_key(name@) ==> (r matches Ok(p) && p.0@ == self@[name@].1 && p.1
                == self@[name@].0),
    {
        let scheme = match self.meta.get(name) {
            None => {
                return Err(Error::NameNotFound);
            }
            Some(s) => *s,
        };
        match self.secrets.get(name) {
            None => Err(Error::Inconsistent),
            Some(bytes) => Ok((clone_bytes(bytes), scheme)),
        }
    }

    /// Delete the record under `name`: metadata first, then the secret. If
    /// the secret delete fails, the just-removed metadata is restored, so a
    /// failed delete leaves the store exactly as it was.
    pub fn delete_secret(&mut self, name: &String) -> (r: Result<(), Error>)
        requires
            old(self).wf(),
        ensures
            final(self).wf(),
            !old(self)@.contains_key(name@) ==> r == Err::<(), Error>(Error::NameNotFound)
                && final(self)@ == old(self)@,
            old(self)@.contains_key(name@) && old(self).delete_armed() ==> r == Err::<(), Error>(
                Error::BackendIO,
            ) && final(self)@ == old(self)@,
            old(self)@.contains_key(name@) && !old(self).delete_armed() ==> r == Ok::<(), Error>(())
                && final(self)@ == old(self)@.remove(name@),
    {
        let scheme = match self.meta.get(name) {
            None => {
                return Err(Error::NameNotFound);
            }
            Some(s) => *s,
        };
        match self.meta.delete(name) {
            Err(e) => {
                proof {
                    assert(self@ =~= old(self)@);
                }
                Err(e)
            }
            Ok(_) => {
                match self.secrets.delete(name) {
                    Ok(_) => {
                        proof {
                            assert(self.meta@.dom() =~= self.secrets@.dom());
                            assert(self@ =~= old(self)@.remove(name@));
                        }
                        Ok(())
                    }
                    Err(e) => {
                        self.meta.compensate_put(name.clone(), scheme);
                        proof {
                            assert(self.meta@ =~= old(self).meta@);
                            assert(self.meta@.dom() =~= self.secrets@.dom());
                            assert(self@ =~= old(self)@);
                        }
                        Err(e)
                    }
                }
            }
        }
    }

    /// All `(name, scheme)` pairs from the metadata backend; secrets are
    /// never included.
    pub fn list(&self) -> (r: Vec<(String, Scheme)>)
        requires
            self.wf(),
        ensures
            forall|i: int|
                0 <= i < r@.len() ==> #[trigger] self@.contains_key(r@[i].0@) && r@[i].1
                    == self@[r@[i].0@].0,
            forall|i: int, j: int| #![trigger r@[i], r@[j]] 0 <= i < j < r@.len() ==> r@[i].0@
                != r@[j].0@,
            forall|k: Seq<char>| #[trigger] self@.contains_key(k) ==> exists|i: int|
                0 <= i < r@.len() && r@[i].0@ == k,
    {
        let names = self.meta.names();
        let n = names.len();
        let mut out: Vec<(String, Scheme)> = Vec::new();
        let mut i: usize = 0;
        while i < n
            invariant
                self.wf(),
                n == names@.len(),
                i <= n,
                out@.len() == i,
                forall|j: int| 0 <= j < n ==> #[trigger] self.meta@.contains_key(names@[j]@),
                forall|a: int, b: int| #![trigger names@[a], names@[b]] 0 <= a < b < n ==> names@[a]@
                    != names@[b]@,
                forall|j: int| 0 <= j < i ==> #[trigger] out@[j].0@ == names@[j]@,
                forall|j: int|
                    0 <= j < i ==> #[trigger] self@.contains_key(out@[j].0@) && out@[j].1
                        == self@[out@[j].0@].0,
            decreases n - i,
        {
            let name = &names[i];
            match self.meta.get(name) {
                Some(scheme) => {
                    out.push((name.clone(), *scheme));
                }
                None => {
                    proof {
                        assert(false);
                    }
                }
            }
            i = i + 1;
        }
        proof {
            assert forall|k: Seq<char>| #[trigger] self@.contains_key(k) implies exists|i2: int|
                0 <= i2 < out@.len() && out@[i2].0@ == k by {
                let j = choose|j: int| 0 <= j < names@.len() && names@[j]@ == k;
                assert(out@[j].0@ == k);
            }
        }
        out
    }
}

/// A key store, in one of the two backend shapes.
pub enum Store {
    /// One table holding metadata and secret together.
    Single(SingleStore),
    /// Separate metadata and secret backends with compensating actions.
    Dual(DualStore),
}

impl View for Store {
    type V = Map<Seq<char>, (Scheme, Seq<u8>)>;

    open spec fn view(&self) -> Map<Seq<char>, (Scheme, Seq<u8>)> {
        match self {
            Store::Single(s) => s@,
            Store::Dual(d) => d@,
        }
    }
}

impl Store {
    /// Well-formedness of the chosen shape.
    pub open spec fn wf(self) -> bool {
        match self {
            Store::Single(s) => s.wf(),
            Store::Dual(d) => d.wf(),
        }
    }

    /// Whether the next write through the store will fail.
    pub open spec fn write_armed(self) -> bool {
        match self {
            Store::Single(_) => false,
            Store::Dual(d) => d.write_armed(),
        }
    }

    /// Whether the next delete through the store will fail.
    pub open spec fn delete_armed(self) -> bool {
        match self {
            Store::Single(_) => false,
            Store::Dual(d) => d.delete_armed(),
        }
    }

    /// An empty single-shape store.
    pub fn single() -> (r: Store)
        ensures
            r@ == Map::<Seq<char>, (Scheme, Seq<u8>)>::empty(),
            r.wf(),
            !r.write_armed(),
            !r.delete_armed(),
    {
        Store::Single(SingleStore::new())
    }

    /// An empty dual-shape store.
    pub fn dual() -> (r: Store)
        ensures
            r@ == Map::<Seq<char>, (Scheme, Seq<u8>)>::empty(),
            r.wf(),
            !r.write_armed(),
            !r.delete_armed(),
    {
        Store::Dual(DualStore::new())
    }

    /// Store a fresh record; never overwrites an existing name.
    pub fn set_secret(&mut self, name: String, scheme: Scheme, secret: Vec<u8>) -> (r: Result<
        (),
        Error,
    >)
        requires
            old(self).wf(),
        ensures
            final(self).wf(),
            old(self)@.contains_key(name@) ==> r == Err::<(), Error>(Error::NameAlreadyExists)
                && final(self)@ == old(self)@,
            !old(self)@.contains_key(name@) && old(self).write_armed() ==> r == Err::<(), Error>(
                Error::BackendIO,
            ) && final(self)@ == old(self)@,
            !old(self)@.contains_key(name@) && !old(self).write_armed() ==> r == Ok::<(), Error>(())
                && final(self)@ == old(self)@.insert(name@, (scheme, secret@)),
    {
        match self {
            Store::Single(s) => s.set_secret(name, scheme, secret),
            Store::Dual(d) => d.set_secret(name, scheme, secret),
        }
    }

    /// Read the record under `name`.
    pub fn get_secret(&self, name: &String) -> (r: Result<(Vec<u8>, Scheme), Error>)
        requires
            self.wf(),
        ensures
            !self@.contains_key(name@) ==> r == Err::<(Vec<u8>, Scheme), Error>(
                Error::NameNotFound,
            ),
            self@.contains_key(name@) ==> (r matches Ok(p) && p.0@ == self@[name@].1 && p.1
                == self@[name@].0),
    {
        match self {
            Store::Single(s) => s.get_secret(name),
            Store::Dual(d) => d.get_secret(name),
        }
    }

    /// Delete the record under `name`.
    pub fn delete_secret(&mut self, name: &String) -> (r: Result<(), Error>)
        requires
            old(self).wf(),
        ensures
            final(self).wf(),
            !old(self)@.contains_key(name@) ==> r == Err::<(), Error>(Error::NameNotFound)
                && final(self)@ == old(self)@,
            old(self)@.contains_key(name@) && old(self).delete_armed() ==> r == Err::<(), Error>(
                Error::BackendIO,
            ) && final(self)@ == old(self)@,
            old(self)@.contains_key(name@) && !old(self).delete_armed() ==> r == Ok::<(), Error>(())
                && final(self)@ == old(self)@.remove(name@),
    {
        match self {
            Store::Single(s) => s.delete_secret(name),
            Store::Dual(d) => d.delete_secret(name),
        }
    }

    /// All `(name, scheme)` pairs; secrets are never included.
    pub fn list(&self) -> (r: Vec<(String, Scheme)>)
        requires
            self.wf(),
        ensures
            forall|i: int|
                0 <= i < r@.len() ==> #[trigger] self@.contains_key(r@[i].0@) && r@[i].1
                    == self@[r@[i].0@].0,
            forall|i: int, j: int| #![trigger r@[i], r@[j]] 0 <= i < j < r@.len() ==> r@[i].0@
                != r@[j].0@,
            forall|k: Seq<char>| #[trigger] self@.contains_key(k) ==> exists|i: int|
                0 <= i < r@.len() && r@[i].0@ == k,
    {
        match self {
            Store::Single(s) => s.list(),
            Store::Dual(d) => d.list(),
        }
    }
}

} // verus!
