//! The lazily-initialized store singleton.
//!
//! The store handle is created on first need: the first access runs the
//! whole initialization — constructing the store and defining its schema —
//! to completion before any caller sees a handle, and runs it at most once
//! for the process lifetime. Every later access observes the very handle
//! the first one produced. The count of initializations performed is kept,
//! so that exactly-once initialization is a stated, provable fact.

use vstd::prelude::*;
use crate::errors::AppError;
use crate::store::DogStore;

verus! {

/// The mathematical value of the singleton: the store contents behind the
/// handle, if one was created, and how many times initialization ran.
pub struct SingletonModel {
    pub store: Option<Seq<Seq<char>>>,
    pub init_count: int,
}

/// The singleton cell guarding the store handle.
pub struct StoreSingleton {
    cell: Option<DogStore>,
    init_count: u64,
}

impl View for StoreSingleton {
    type V = SingletonModel;

    closed spec fn view(&self) -> SingletonModel {
        SingletonModel {
            store: match &self.cell {
                Some(db) => Some(db@),
                None => None,
            },
            init_count: self.init_count as int,
        }
    }
}

/// The singleton before any access: no handle, no initialization run.
pub open spec fn fresh_singleton() -> SingletonModel {
    SingletonModel { store: None, init_count: 0 }
}

/// A well-formed singleton: initialization has run exactly as often as a
/// handle exists to show for it — never twice, never partially.
pub open spec fn singleton_wf(m: SingletonModel) -> bool {
    m.init_count == if m.store is Some {
        1int
    } else {
        0int
    }
}

/// The model of the singleton after one access: an existing handle is
/// left exactly as it is; a missing one is created by running the
/// initialization once, leaving an empty, schema-defined store.
pub open spec fn accessed(m: SingletonModel) -> SingletonModel {
    if m.store is Some {
        m
    } else {
        SingletonModel { store: Some(Seq::<Seq<char>>::empty()), init_count: m.init_count + 1 }
    }
}

/// The model of the singleton after `k` accesses.
pub open spec fn accessed_times(m: SingletonModel, k: nat) -> SingletonModel
    decreases k,
{
    if k == 0 {
        m
    } else {
        accessed(accessed_times(m, (k - 1) as nat))
    }
}

impl StoreSingleton {
    /// The singleton as the process starts: nothing initialized yet.
    pub fn new() -> (s: StoreSingleton)
        ensures
            s@ == fresh_singleton(),
            singleton_wf(s@),
    {
        StoreSingleton { cell: None, init_count: 0 }
    }

    /// The store accessor: returns the handle, initializing it first if —
    /// and only if — no access has done so yet.
    ///
    /// The returned handle is the one cached in the singleton: every
    /// caller, first or later, observes the same handle, and the caller's
    /// writes through it are the singleton's own state.
    pub fn get_db(&mut self) -> (db: &mut DogStore)
        requires
            singleton_wf(old(self)@),
        ensures
            db@ == accessed(old(self)@).store->Some_0,
            final(self)@.store == Some(final(db)@),
            final(self)@.init_count == accessed(old(self)@).init_count,
            singleton_wf(final(self)@),
    {
        if self.cell.is_none() {
            self.init_count = self.init_count + 1;
            self.cell = Some(DogStore::new());
        }
        match &mut self.cell {
            Some(db) => db,
            None => unreached(),
        }
    }

    /// How many times initialization has run.
    pub fn init_count(&self) -> (n: u64)
        ensures
            n == self@.init_count,
    {
        self.init_count
    }

    /// Whether a handle exists yet.
    pub fn is_initialized(&self) -> (b: bool)
        ensures
            b == (self@.store is Some),
    {
        self.cell.is_some()
    }
}

/// The whole save route: obtains the store handle — initializing it on
/// first use — and saves the photo URL into it.
///
/// An empty URL is rejected with a persistence error and the store
/// contents stay as the access left them; any other URL is appended as
/// one new record. Either way the handle exists afterwards and
/// initialization ran only if no access had run it before.
pub fn save_dog(s: &mut StoreSingleton, image: String) -> (r: Result<(), AppError>)
    requires
        singleton_wf(old(s)@),
    ensures
        singleton_wf(final(s)@),
        final(s)@.init_count == accessed(old(s)@).init_count,
        image@.len() == 0 ==> (r matches Err(e)
            && e matches AppError::DatabaseOpError(d)
            && d@ == "cannot save an empty photo URL"@
            && final(s)@.store == accessed(old(s)@).store),
        image@.len() > 0 ==> (r is Ok
            && final(s)@.store == Some(accessed(old(s)@).store->Some_0.push(image@))),
{
    let db = s.get_db();
    db.save_dog(image)
}

/// Singleton-once initialization: however many accesses race to be first,
/// serialized in whatever order, initialization runs exactly once — after
/// any positive number of accesses the singleton is in the state the very
/// first access left it in, every access observing that same handle.
pub proof fn lemma_singleton_once(k: nat)
    requires
        k > 0,
    ensures
        accessed_times(fresh_singleton(), k) == accessed_times(fresh_singleton(), 1),
        accessed_times(fresh_singleton(), k).init_count == 1,
        accessed_times(fresh_singleton(), k).store == Some(Seq::<Seq<char>>::empty()),
    decreases k,
{
    if k == 1 {
        assert(accessed_times(fresh_singleton(), 0) == fresh_singleton());
    } else {
        lemma_singleton_once((k - 1) as nat);
    }
}

} // verus!
