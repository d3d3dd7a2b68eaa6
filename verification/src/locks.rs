//! One lock per remote project, so that two requests to open the same project do not open it
//! twice.

use std::sync::{Arc, Weak};

use futures::lock::Mutex;
use vstd::prelude::*;
use vstd::std_specs::cmp::PartialEqSpec;

verus! {

/// The mutex of the `futures` crate. Its contents stay opaque: a value of it stands for one mutex,
/// so two values are equal exactly when they are the same mutex.
#[verifier::external_type_specification]
#[verifier::external_body]
#[verifier::reject_recursive_types(T)]
pub struct ExMutex<T: ?Sized>(futures::lock::Mutex<T>);

/// A `std::sync::Weak` reference to a lock, which does not keep the lock alive.
#[verifier::external_body]
pub struct LockHandle(Weak<Mutex<()>>);

/// The lock that a handle was made from. A lock stands for the one `Arc` allocation it lives in: a
/// mutex that is moved out of its allocation counts as another mutex. So whoever owns the lock
/// keeps alive what the handle refers to.
pub uninterp spec fn lock_behind(handle: LockHandle) -> Mutex<()>;

/// `std::sync::Arc::downgrade`: the handle made from a lock refers to that lock.
#[verifier::external_body]
fn downgrade(lock: &Arc<Mutex<()>>) -> (handle: LockHandle)
    ensures
        lock_behind(handle) == **lock,
{
    LockHandle(Arc::downgrade(lock))
}

/// One of these owners owns the lock.
pub open spec fn is_owned(owned: Seq<Arc<Mutex<()>>>, lock: Mutex<()>) -> bool {
    exists|j: int| 0 <= j < owned.len() && *(#[trigger] owned[j]) == lock
}

/// `std::sync::Weak::upgrade`: what it returns, if anything, is the lock that the handle was made
/// from, and it does return it while one of the `owned` owners keeps the lock alive. Nothing is
/// said of a lock that none of them owns: somebody else may.
#[verifier::external_body]
fn upgrade(handle: &LockHandle, owned: &Vec<Arc<Mutex<()>>>) -> (lock: Option<Arc<Mutex<()>>>)
    ensures
        lock matches Some(l) ==> *l == lock_behind(*handle),
        is_owned(owned@, lock_behind(*handle)) ==> lock is Some,
{
    handle.0.upgrade()
}

/// `std::sync::Weak::strong_count`: how many owners the lock has at this moment, which is at least
/// one while one of the `owned` owners keeps the lock alive. Nothing more is said of the number,
/// which other owners may change at any time.
#[verifier::external_body]
fn strong_count(handle: &LockHandle, owned: &Vec<Arc<Mutex<()>>>) -> (count: usize)
    ensures
        is_owned(owned@, lock_behind(*handle)) ==> count > 0,
{
    handle.0.strong_count()
}

/// A registered lock: the connection and the paths it was made for, and a handle to it.
pub struct LockEntry<I, P> {
    identity: I,
    paths: P,
    handle: LockHandle,
}

/// `futures::lock::Mutex::new`, on the unit value: a mutex that was just made is none of those that
/// were registered before.
#[verifier::external_body]
fn new_mutex<I, P>(registered: &Vec<LockEntry<I, P>>) -> (mutex: Mutex<()>)
    ensures
        forall|i: int|
            0 <= i < registered@.len() ==> lock_behind(#[trigger] registered@[i].handle) != mutex,
{
    Mutex::new(())
}

/// `==` on values of the type is an equivalence.
pub open spec fn compares_consistently<T: PartialEq>() -> bool {
    &&& T::obeys_eq_spec()
    &&& forall|a: T| #[trigger] a.eq_spec(&a)
    &&& forall|a: T, b: T| #[trigger] a.eq_spec(&b) ==> b.eq_spec(&a)
    &&& forall|a: T, b: T, c: T| #[trigger]
        a.eq_spec(&b) && #[trigger] b.eq_spec(&c) ==> a.eq_spec(&c)
}

/// The project at `paths` on the machine `identity` is the one at `others` on the machine `other`.
pub open spec fn same_project<I: PartialEq, P: PartialEq>(
    identity: I,
    paths: P,
    other: I,
    others: P,
) -> bool {
    identity.eq_spec(&other) && paths.eq_spec(&others)
}

/// What a registry holds of one lock.
pub struct RegisteredLock<I, P> {
    pub identity: I,
    pub paths: P,
    pub lock: Mutex<()>,
}

/// No project has two locks, and no lock serves two projects.
pub open spec fn one_lock_each<I: PartialEq, P: PartialEq>(
    registered: Seq<RegisteredLock<I, P>>,
) -> bool {
    forall|i: int, j: int|
        #![trigger registered[i], registered[j]]
        0 <= i < registered.len() && 0 <= j < registered.len() && i != j ==> {
            &&& !same_project(
                registered[i].identity,
                registered[i].paths,
                registered[j].identity,
                registered[j].paths,
            )
            &&& registered[i].lock != registered[j].lock
        }
}

/// Entry `i` is the one of the project at `paths` on the machine `identity`.
pub open spec fn is_for<I: PartialEq, P: PartialEq>(
    registered: Seq<RegisteredLock<I, P>>,
    i: int,
    identity: I,
    paths: P,
) -> bool {
    &&& 0 <= i < registered.len()
    &&& same_project(registered[i].identity, registered[i].paths, identity, paths)
}

/// The lock of a project, if it has one.
pub open spec fn lock_for<I: PartialEq, P: PartialEq>(
    registered: Seq<RegisteredLock<I, P>>,
    identity: I,
    paths: P,
) -> Option<Mutex<()>> {
    if exists|i: int| is_for(registered, i, identity, paths) {
        Some(registered[choose|i: int| is_for(registered, i, identity, paths)].lock)
    } else {
        None
    }
}

/// The entries whose flag is set, in their order.
pub open spec fn kept<I, P>(
    registered: Seq<RegisteredLock<I, P>>,
    live: Seq<bool>,
) -> Seq<RegisteredLock<I, P>>
    decreases registered.len(),
{
    if registered.len() == 0 {
        Seq::empty()
    } else {
        let before = kept(registered.drop_last(), live.drop_last());
        if live.last() {
            before.push(registered.last())
        } else {
            before
        }
    }
}

/// `lock` was handed out to the project at `paths` on the machine `identity`, where `held` is the
/// lock of that project that somebody still owns. A lock that is still owned is handed out again;
/// otherwise the lock is a new one, which takes the place of the project's old one.
pub open spec fn granted<I: PartialEq, P: PartialEq>(
    before: Seq<RegisteredLock<I, P>>,
    after: Seq<RegisteredLock<I, P>>,
    identity: I,
    paths: P,
    held: Option<Mutex<()>>,
    lock: Mutex<()>,
) -> bool {
    match held {
        Some(held) => lock == held && after == before,
        None => {
            &&& forall|i: int| 0 <= i < before.len() ==> (#[trigger] before[i]).lock != lock
            &&& if exists|i: int| is_for(before, i, identity, paths) {
                let at = choose|i: int| is_for(before, i, identity, paths);
                after == before.update(at, RegisteredLock { lock, ..before[at] })
            } else {
                after == before.push(RegisteredLock { identity, paths, lock })
            }
        },
    }
}

/// Which of the locks have an owner, given how many owners each of them has.
pub open spec fn in_use(owners: Seq<usize>) -> Seq<bool> {
    owners.map_values(|count: usize| count > 0)
}

/// `lock` was handed out to a project after the locks without an owner were forgotten, where
/// `owners` are the numbers of their owners, and `held` is the lock of the project, if an owner of
/// it was still found.
pub open spec fn locked<I: PartialEq, P: PartialEq>(
    before: Seq<RegisteredLock<I, P>>,
    after: Seq<RegisteredLock<I, P>>,
    identity: I,
    paths: P,
    owners: Seq<usize>,
    held: Option<Mutex<()>>,
    lock: Mutex<()>,
) -> bool {
    &&& owners.len() == before.len()
    &&& held is Some ==> held == lock_for(kept(before, in_use(owners)), identity, paths)
    &&& granted(kept(before, in_use(owners)), after, identity, paths, held, lock)
}

/// This number of owners was counted for the lock, by a call of `strong_count` on a handle to it.
pub closed spec fn counted(lock: Mutex<()>, count: usize) -> bool {
    exists|handle: LockHandle, owned: Vec<Arc<Mutex<()>>>|
        lock_behind(handle) == lock && #[trigger] call_ensures(
            strong_count,
            (&handle, &owned),
            count,
        )
}

/// This is what a call of `upgrade` on a handle to the lock returned.
pub closed spec fn upgraded(lock: Mutex<()>, held: Option<Mutex<()>>) -> bool {
    exists|handle: LockHandle, owned: Vec<Arc<Mutex<()>>>, owner: Option<Arc<Mutex<()>>>|
        lock_behind(handle) == lock && mutex_of(owner) == held && #[trigger] call_ensures(
            upgrade,
            (&handle, &owned),
            owner,
        )
}

/// The numbers of owners were counted for the registered locks, and `held` is what came of
/// upgrading the lock of the project, if it has one that an owner was counted for.
pub open spec fn looked_up<I: PartialEq, P: PartialEq>(
    before: Seq<RegisteredLock<I, P>>,
    identity: I,
    paths: P,
    owners: Seq<usize>,
    held: Option<Mutex<()>>,
) -> bool {
    &&& forall|i: int|
        0 <= i < before.len() ==> counted((#[trigger] before[i]).lock, owners[i])
    &&& lock_for(kept(before, in_use(owners)), identity, paths) matches Some(lock) ==> upgraded(
        lock,
        held,
    )
}

/// The `owned` owners were found: each lock of theirs was counted as having an owner, and if one of
/// them owns the lock of the project, that lock was still held.
pub open spec fn owners_found<I: PartialEq, P: PartialEq>(
    before: Seq<RegisteredLock<I, P>>,
    identity: I,
    paths: P,
    owned: Seq<Arc<Mutex<()>>>,
    owners: Seq<usize>,
    held: Option<Mutex<()>>,
) -> bool {
    &&& forall|i: int|
        0 <= i < before.len() && is_owned(owned, (#[trigger] before[i]).lock) ==> owners[i] > 0
    &&& lock_for(before, identity, paths) matches Some(lock) ==> (is_owned(owned, lock) ==> held
        == Some(lock))
}

/// `lock` was handed out to a project while there were the `owned` owners, and perhaps others.
pub open spec fn handed_out<I: PartialEq, P: PartialEq>(
    before: Seq<RegisteredLock<I, P>>,
    after: Seq<RegisteredLock<I, P>>,
    identity: I,
    paths: P,
    owned: Seq<Arc<Mutex<()>>>,
    lock: Mutex<()>,
) -> bool {
    exists|owners: Seq<usize>, held: Option<Mutex<()>>| #[trigger]
        locked(before, after, identity, paths, owners, held, lock) && owners_found(
            before,
            identity,
            paths,
            owned,
            owners,
            held,
        ) && looked_up(before, identity, paths, owners, held)
}

/// The locks that have one of the `owned` owners stay the locks of their projects, and `lock` is
/// such a lock exactly if it is that of the project at `paths` on the machine `identity`.
pub open spec fn owned_locks_stay<I: PartialEq, P: PartialEq>(
    before: Seq<RegisteredLock<I, P>>,
    after: Seq<RegisteredLock<I, P>>,
    identity: I,
    paths: P,
    owned: Seq<Arc<Mutex<()>>>,
    lock: Mutex<()>,
) -> bool {
    forall|other: I, others: P|
        (#[trigger] lock_for(before, other, others) matches Some(theirs) && is_owned(owned, theirs))
            ==> {
            &&& lock_for(after, other, others) == lock_for(before, other, others)
            &&& lock_for(before, other, others) == Some(lock) <==> same_project(
                other,
                others,
                identity,
                paths,
            )
        }
}

/// The mutex that an owner of a lock owns.
pub open spec fn mutex_of(owner: Option<Arc<Mutex<()>>>) -> Option<Mutex<()>> {
    match owner {
        Some(owner) => Some(*owner),
        None => None,
    }
}

spec fn registration<I, P>(identity: I, paths: P, owner: Arc<Mutex<()>>) -> RegisteredLock<I, P> {
    RegisteredLock { identity, paths, lock: *owner }
}

/// The locks under which remote projects are being opened, by the identity `I` of the connection
/// and the list of paths `P`.
pub struct RemoteProjectOpenLocks<I, P> {
    entries: Vec<LockEntry<I, P>>,
}

impl<I: PartialEq, P: PartialEq> RemoteProjectOpenLocks<I, P> {
    /// The registered locks, oldest first.
    pub closed spec fn registered(self) -> Seq<RegisteredLock<I, P>> {
        self.entries@.map_values(
            |entry: LockEntry<I, P>|
                RegisteredLock {
                    identity: entry.identity,
                    paths: entry.paths,
                    lock: lock_behind(entry.handle),
                },
        )
    }

    pub open spec fn wf(self) -> bool {
        one_lock_each(self.registered())
    }

    /// The number of registered locks.
    pub fn len(&self) -> (n: usize)
        ensures
            n == self.registered().len(),
    {
        self.entries.len()
    }

    /// How many owners each registered lock has at this moment, the `owned` ones among them.
    fn owners(&self, owned: &Vec<Arc<Mutex<()>>>) -> (owners: Vec<usize>)
        ensures
            owners@.len() == self.registered().len(),
            forall|i: int|
                0 <= i < owners@.len() && is_owned(owned@, (#[trigger] self.registered()[i]).lock)
                    ==> owners@[i] > 0,
            forall|i: int|
                0 <= i < owners@.len() ==> counted(
                    (#[trigger] self.registered()[i]).lock,
                    owners@[i],
                ),
    {
        let mut owners: Vec<usize> = Vec::new();
        while owners.len() < self.entries.len()
            invariant
                owners@.len() <= self.entries@.len(),
                forall|i: int|
                    0 <= i < owners@.len() && is_owned(
                        owned@,
                        (#[trigger] self.registered()[i]).lock,
                    ) ==> owners@[i] > 0,
                forall|i: int|
                    0 <= i < owners@.len() ==> counted(
                        (#[trigger] self.registered()[i]).lock,
                        owners@[i],
                    ),
            decreases self.entries@.len() - owners@.len(),
        {
            let count: usize = strong_count(&self.entries[owners.len()].handle, owned);
            assert(counted(self.registered()[owners@.len() as int].lock, count));
            owners.push(count);
        }
        owners
    }

    /// Forgets the locks that nobody owns any more, given how many owners each of them has.
    pub fn retain_live(&mut self, owners: &Vec<usize>)
        requires
            owners@.len() == old(self).registered().len(),
        ensures
            final(self).registered() == kept(old(self).registered(), in_use(owners@)),
            old(self).wf() ==> final(self).wf(),
    {
        let ghost all = self.registered();
        let ghost live = in_use(owners@);
        let mut i: usize = 0;
        let mut next: usize = 0;
        proof {
            assert(kept(all.take(0), live.take(0)) =~= Seq::<RegisteredLock<I, P>>::empty());
            assert(self.registered() =~= kept(all.take(0), live.take(0)) + all.skip(0));
        }
        while i < owners.len()
            invariant
                i <= owners@.len(),
                owners@.len() == all.len(),
                live == in_use(owners@),
                next == kept(all.take(i as int), live.take(i as int)).len(),
                next <= i,
                self.registered() == kept(all.take(i as int), live.take(i as int)) + all.skip(
                    i as int,
                ),
            decreases owners@.len() - i,
        {
            let ghost start = kept(all.take(i as int), live.take(i as int));
            let ghost shown = self.registered();
            proof {
                assert(all.take(i + 1).drop_last() =~= all.take(i as int));
                assert(live.take(i + 1).drop_last() =~= live.take(i as int));
                assert(all.take(i + 1).last() == all[i as int]);
                assert(live.take(i + 1).last() == (owners@[i as int] > 0));
                assert(self.entries@.len() == shown.len());
            }
            if owners[i] > 0 {
                next += 1;
                assert(shown =~= start.push(all[i as int]) + all.skip(i + 1));
            } else {
                self.entries.remove(next);
                assert(self.registered() =~= shown.remove(next as int));
                assert(self.registered() =~= start + all.skip(i + 1));
            }
            i += 1;
        }
        proof {
            assert(all.take(i as int) =~= all);
            assert(live.take(i as int) =~= live);
            assert(self.registered() =~= kept(all, live));
            if one_lock_each(all) {
                lemma_kept_keeps_one_lock_each(all, live);
            }
        }
    }
}

impl<I: PartialEq, P: PartialEq> Default for RemoteProjectOpenLocks<I, P> {
    /// A registry without locks.
    fn default() -> (locks: Self)
        ensures
            locks.registered() == Seq::<RegisteredLock<I, P>>::empty(),
            locks.wf(),
    {
        let locks = RemoteProjectOpenLocks { entries: Vec::new() };
        assert(locks.registered() =~= Seq::<RegisteredLock<I, P>>::empty());
        locks
    }
}

impl<I: PartialEq, P: PartialEq> RemoteProjectOpenLocks<I, P> {
    fn position(&self, identity: &I, paths: &P) -> (found: Option<usize>)
        requires
            compares_consistently::<I>(),
            compares_consistently::<P>(),
        ensures
            match found {
                Some(i) => is_for(self.registered(), i as int, *identity, *paths),
                None => forall|i: int| !is_for(self.registered(), i, *identity, *paths),
            },
    {
        let mut i: usize = 0;
        while i < self.entries.len()
            invariant
                i <= self.entries@.len(),
                compares_consistently::<I>(),
                compares_consistently::<P>(),
                forall|j: int| 0 <= j < i ==> !is_for(self.registered(), j, *identity, *paths),
            decreases self.entries@.len() - i,
        {
            if self.entries[i].identity == *identity && self.entries[i].paths == *paths {
                return Some(i);
            }
            i += 1;
        }
        None
    }

    /// The lock of a project, if it has one that somebody owns at this moment. A project without a
    /// registered lock has none, and a lock that one of the `owned` owners owns is found. Whether
    /// somebody else owns a registered lock is up to its owners, so nothing is said of that.
    pub fn held(&self, identity: &I, paths: &P, owned: &Vec<Arc<Mutex<()>>>) -> (held: Option<
        Arc<Mutex<()>>,
    >)
        requires
            self.wf(),
            compares_consistently::<I>(),
            compares_consistently::<P>(),
        ensures
            held matches Some(lock) ==> lock_for(self.registered(), *identity, *paths) == Some(
                *lock,
            ),
            lock_for(self.registered(), *identity, *paths) matches Some(lock) ==> (is_owned(
                owned@,
                lock,
            ) ==> held is Some),
            lock_for(self.registered(), *identity, *paths) matches Some(lock) ==> upgraded(
                lock,
                mutex_of(held),
            ),
    {
        match self.position(identity, paths) {
            Some(i) => {
                proof {
                    lemma_lock_for(self.registered(), i as int, *identity, *paths);
                }
                let held = upgrade(&self.entries[i].handle, owned);
                assert(upgraded(lock_behind(self.entries@[i as int].handle), mutex_of(held)));
                held
            },
            None => None,
        }
    }

    /// Hands out the lock of a project, given the one that is still owned.
    pub fn grant(&mut self, identity: I, paths: P, held: Option<Arc<Mutex<()>>>) -> (lock: Arc<
        Mutex<()>,
    >)
        requires
            old(self).wf(),
            compares_consistently::<I>(),
            compares_consistently::<P>(),
            held matches Some(lock) ==> lock_for(old(self).registered(), identity, paths) == Some(
                *lock,
            ),
        ensures
            final(self).wf(),
            lock_for(final(self).registered(), identity, paths) == Some(*lock),
            granted(
                old(self).registered(),
                final(self).registered(),
                identity,
                paths,
                mutex_of(held),
                *lock,
            ),
    {
        if let Some(lock) = held {
            return lock;
        }
        let ghost before = self.registered();
        let lock = Arc::new(new_mutex(&self.entries));
        let handle = downgrade(&lock);
        let ghost entry = registration(identity, paths, lock);
        assert forall|i: int| 0 <= i < before.len() implies (#[trigger] before[i]).lock
            != *lock by {
            assert(before[i].lock == lock_behind(self.entries@[i].handle));
        }
        match self.position(&identity, &paths) {
            Some(i) => {
                let ghost renewed = RegisteredLock { lock: entry.lock, ..before[i as int] };
                proof {
                    lemma_the_entry(before, i as int, identity, paths);
                }
                self.entries[i].handle = handle;
                proof {
                    assert(self.registered() =~= before.update(i as int, renewed));
                    lemma_renewed(before, i as int, entry.lock);
                    assert(is_for(self.registered(), i as int, identity, paths));
                    lemma_lock_for(self.registered(), i as int, identity, paths);
                }
            },
            None => {
                self.entries.push(LockEntry { identity, paths, handle });
                proof {
                    assert(self.registered() =~= before.push(entry));
                    lemma_added(before, entry);
                    lemma_same_project::<I, P>();
                    assert(is_for(self.registered(), before.len() as int, identity, paths));
                    lemma_lock_for(self.registered(), before.len() as int, identity, paths);
                }
            },
        }
        lock
    }

    /// The lock under which the project at `paths` on the machine `identity` is opened. Locks that
    /// nobody owns are forgotten first. A lock of the project that somebody still owns is handed
    /// out again; otherwise a new one is. Who owns a lock is told by what its handle says of it.
    pub fn lock(&mut self, identity: I, paths: P) -> (lock: Arc<Mutex<()>>)
        requires
            old(self).wf(),
            compares_consistently::<I>(),
            compares_consistently::<P>(),
        ensures
            final(self).wf(),
            lock_for(final(self).registered(), identity, paths) == Some(*lock),
            lock_for(old(self).registered(), identity, paths) matches Some(held) ==> (!counted(
                held,
                0,
            ) && !upgraded(held, None) ==> *lock == held),
            handed_out(
                old(self).registered(),
                final(self).registered(),
                identity,
                paths,
                Seq::empty(),
                *lock,
            ),
    {
        let owned: Vec<Arc<Mutex<()>>> = Vec::new();
        self.lock_beside(identity, paths, &owned)
    }

    /// [`Self::lock`], for a caller that has the `owned` owners of locks in hand: a lock that one
    /// of them owns is kept, and is handed out again to its project.
    pub fn lock_beside(&mut self, identity: I, paths: P, owned: &Vec<Arc<Mutex<()>>>) -> (lock: Arc<
        Mutex<()>,
    >)
        requires
            old(self).wf(),
            compares_consistently::<I>(),
            compares_consistently::<P>(),
        ensures
            final(self).wf(),
            lock_for(final(self).registered(), identity, paths) == Some(*lock),
            lock_for(old(self).registered(), identity, paths) matches Some(held) ==> (!counted(
                held,
                0,
            ) && !upgraded(held, None) ==> *lock == held),
            owned_locks_stay(
                old(self).registered(),
                final(self).registered(),
                identity,
                paths,
                owned@,
                *lock,
            ),
            handed_out(
                old(self).registered(),
                final(self).registered(),
                identity,
                paths,
                owned@,
                *lock,
            ),
    {
        let owners = self.owners(owned);
        self.retain_live(&owners);
        let held = self.held(&identity, &paths, owned);
        let ghost before = old(self).registered();
        let ghost found = mutex_of(held);
        proof {
            lemma_owned_is_kept(before, owners@, identity, paths, owned@);
        }
        let lock = self.grant(identity, paths, held);
        assert(locked(before, self.registered(), identity, paths, owners@, found, *lock));
        assert(owners_found(before, identity, paths, owned@, owners@, found));
        assert(looked_up(before, identity, paths, owners@, found));
        proof {
            lemma_owned_locks_stay(before, self.registered(), identity, paths, owned@, lock);
            lemma_owner_is_found(before, self.registered(), identity, paths, owned@, lock);
        }
        lock
    }
}

proof fn lemma_same_project<I: PartialEq, P: PartialEq>()
    requires
        compares_consistently::<I>(),
        compares_consistently::<P>(),
    ensures
        forall|a: I, p: P| #[trigger] same_project(a, p, a, p),
        forall|a: I, p: P, b: I, q: P| #[trigger]
            same_project(a, p, b, q) ==> same_project(b, q, a, p),
        forall|a: I, p: P, b: I, q: P, c: I, r: P| #[trigger]
            same_project(a, p, b, q) && #[trigger] same_project(b, q, c, r) ==> same_project(
                a,
                p,
                c,
                r,
            ),
{
}

/// A project has only one entry.
proof fn lemma_the_entry<I: PartialEq, P: PartialEq>(
    registered: Seq<RegisteredLock<I, P>>,
    i: int,
    identity: I,
    paths: P,
)
    requires
        compares_consistently::<I>(),
        compares_consistently::<P>(),
        one_lock_each(registered),
        is_for(registered, i, identity, paths),
    ensures
        forall|j: int| #[trigger] is_for(registered, j, identity, paths) ==> j == i,
        i == choose|j: int| is_for(registered, j, identity, paths),
{
    lemma_same_project::<I, P>();
    assert forall|j: int| #[trigger] is_for(registered, j, identity, paths) implies j == i by {
        assert(same_project(
            registered[j].identity,
            registered[j].paths,
            registered[i].identity,
            registered[i].paths,
        ));
    }
}

proof fn lemma_lock_for<I: PartialEq, P: PartialEq>(
    registered: Seq<RegisteredLock<I, P>>,
    i: int,
    identity: I,
    paths: P,
)
    requires
        compares_consistently::<I>(),
        compares_consistently::<P>(),
        one_lock_each(registered),
        is_for(registered, i, identity, paths),
    ensures
        lock_for(registered, identity, paths) == Some(registered[i].lock),
{
    lemma_the_entry(registered, i, identity, paths);
}

proof fn lemma_renewed<I: PartialEq, P: PartialEq>(
    before: Seq<RegisteredLock<I, P>>,
    i: int,
    lock: Mutex<()>,
)
    requires
        one_lock_each(before),
        0 <= i < before.len(),
        forall|j: int| 0 <= j < before.len() ==> (#[trigger] before[j]).lock != lock,
    ensures
        one_lock_each(before.update(i, RegisteredLock { lock, ..before[i] })),
{
    let after = before.update(i, RegisteredLock { lock, ..before[i] });
    assert forall|j: int| 0 <= j < after.len() implies (#[trigger] after[j]).identity
        == before[j].identity && after[j].paths == before[j].paths by {}
}

proof fn lemma_added<I: PartialEq, P: PartialEq>(
    before: Seq<RegisteredLock<I, P>>,
    entry: RegisteredLock<I, P>,
)
    requires
        compares_consistently::<I>(),
        compares_consistently::<P>(),
        one_lock_each(before),
        forall|j: int| 0 <= j < before.len() ==> (#[trigger] before[j]).lock != entry.lock,
        forall|j: int| !is_for(before, j, entry.identity, entry.paths),
    ensures
        one_lock_each(before.push(entry)),
{
    lemma_same_project::<I, P>();
    let after = before.push(entry);
    assert forall|j: int| 0 <= j < before.len() implies !same_project(
        (#[trigger] before[j]).identity,
        before[j].paths,
        entry.identity,
        entry.paths,
    ) by {
        assert(!is_for(before, j, entry.identity, entry.paths));
    }
    assert forall|i: int, j: int|
        #![trigger after[i], after[j]]
        0 <= i < after.len() && 0 <= j < after.len() && i != j implies {
        &&& !same_project(after[i].identity, after[i].paths, after[j].identity, after[j].paths)
        &&& after[i].lock != after[j].lock
    } by {
        if i < before.len() {
            assert(after[i] == before[i]);
        }
        if j < before.len() {
            assert(after[j] == before[j]);
        }
    }
}

proof fn lemma_kept_keeps_one_lock_each<I: PartialEq, P: PartialEq>(
    registered: Seq<RegisteredLock<I, P>>,
    live: Seq<bool>,
)
    requires
        one_lock_each(registered),
        live.len() == registered.len(),
    ensures
        one_lock_each(kept(registered, live)),
        forall|j: int|
            0 <= j < kept(registered, live).len() ==> registered.contains(
                #[trigger] kept(registered, live)[j],
            ),
    decreases registered.len(),
{
    if registered.len() > 0 {
        let fewer = registered.drop_last();
        lemma_kept_keeps_one_lock_each(fewer, live.drop_last());
        let before = kept(fewer, live.drop_last());
        let after = kept(registered, live);
        assert forall|j: int| 0 <= j < before.len() implies exists|i: int|
            0 <= i < registered.len() - 1 && #[trigger] registered[i] == #[trigger] before[j] by {
            assert(fewer.contains(before[j]));
            let i = choose|i: int| 0 <= i < fewer.len() && fewer[i] == before[j];
            assert(registered[i] == before[j]);
        }
        assert forall|j: int| 0 <= j < after.len() implies registered.contains(
            #[trigger] after[j],
        ) by {
            if j < before.len() {
                assert(after[j] == before[j]);
            } else {
                assert(after[j] == registered[registered.len() - 1]);
            }
        }
    }
}

/// Entry `j` of the kept ones is entry `i`, which was flagged.
spec fn is_kept_from<I, P>(
    registered: Seq<RegisteredLock<I, P>>,
    live: Seq<bool>,
    i: int,
    j: int,
) -> bool {
    &&& 0 <= i < registered.len()
    &&& live[i]
    &&& 0 <= j < kept(registered, live).len()
    &&& registered[i] == kept(registered, live)[j]
}

spec fn came_from_one<I, P>(
    registered: Seq<RegisteredLock<I, P>>,
    live: Seq<bool>,
    j: int,
) -> bool {
    exists|i: int| is_kept_from(registered, live, i, j)
}

spec fn went_to_one<I, P>(
    registered: Seq<RegisteredLock<I, P>>,
    live: Seq<bool>,
    i: int,
) -> bool {
    exists|j: int| is_kept_from(registered, live, i, j)
}

proof fn lemma_kept_entries<I, P>(registered: Seq<RegisteredLock<I, P>>, live: Seq<bool>)
    requires
        live.len() == registered.len(),
    ensures
        forall|j: int|
            0 <= j < kept(registered, live).len() ==> #[trigger] came_from_one(registered, live, j),
        forall|i: int|
            0 <= i < registered.len() && live[i] ==> #[trigger] went_to_one(registered, live, i),
    decreases registered.len(),
{
    if registered.len() > 0 {
        let fewer = registered.drop_last();
        let flags = live.drop_last();
        let before = kept(fewer, flags);
        let last = registered.len() - 1;
        lemma_kept_entries(fewer, flags);
        assert forall|j: int| 0 <= j < kept(registered, live).len() implies #[trigger]
            came_from_one(registered, live, j) by {
            if j < before.len() {
                assert(came_from_one(fewer, flags, j));
                let i = choose|i: int| is_kept_from(fewer, flags, i, j);
                assert(is_kept_from(registered, live, i, j));
            } else {
                assert(is_kept_from(registered, live, last, j));
            }
        }
        assert forall|i: int| 0 <= i < registered.len() && live[i] implies #[trigger] went_to_one(
            registered,
            live,
            i,
        ) by {
            if i < last {
                assert(went_to_one(fewer, flags, i));
                let j = choose|j: int| is_kept_from(fewer, flags, i, j);
                assert(is_kept_from(registered, live, i, j));
            } else {
                assert(is_kept_from(registered, live, i, before.len() as int));
            }
        }
    }
}

/// Forgetting locks takes from a project nothing but a lock that was not flagged.
proof fn lemma_kept_lock_for<I: PartialEq, P: PartialEq>(
    registered: Seq<RegisteredLock<I, P>>,
    live: Seq<bool>,
    identity: I,
    paths: P,
)
    requires
        compares_consistently::<I>(),
        compares_consistently::<P>(),
        one_lock_each(registered),
        live.len() == registered.len(),
    ensures
        lock_for(kept(registered, live), identity, paths) is Some ==> lock_for(
            kept(registered, live),
            identity,
            paths,
        ) == lock_for(registered, identity, paths),
        forall|i: int| #[trigger]
            is_for(registered, i, identity, paths) ==> (live[i] <==> lock_for(
                kept(registered, live),
                identity,
                paths,
            ) is Some),
{
    let some = kept(registered, live);
    lemma_kept_entries(registered, live);
    if lock_for(some, identity, paths) is Some {
        let j = choose|j: int| is_for(some, j, identity, paths);
        assert(is_for(some, j, identity, paths));
        assert(came_from_one(registered, live, j));
        let i = choose|i: int| is_kept_from(registered, live, i, j);
        assert(is_for(registered, i, identity, paths));
        lemma_lock_for(registered, i, identity, paths);
        lemma_the_entry(registered, i, identity, paths);
    }
    assert forall|i: int| #[trigger]
        is_for(registered, i, identity, paths) implies (live[i] <==> lock_for(
        some,
        identity,
        paths,
    ) is Some) by {
        if live[i] {
            assert(went_to_one(registered, live, i));
            let j = choose|j: int| is_kept_from(registered, live, i, j);
            assert(is_for(some, j, identity, paths));
        }
    }
}

proof fn lemma_granted<I: PartialEq, P: PartialEq>(
    before: Seq<RegisteredLock<I, P>>,
    after: Seq<RegisteredLock<I, P>>,
    identity: I,
    paths: P,
    held: Option<Mutex<()>>,
    lock: Mutex<()>,
)
    requires
        compares_consistently::<I>(),
        compares_consistently::<P>(),
        one_lock_each(before),
        held is Some ==> held == lock_for(before, identity, paths),
        granted(before, after, identity, paths, held, lock),
    ensures
        one_lock_each(after),
        exists|at: int|
            #[trigger] is_for(after, at, identity, paths) && after[at].lock == lock,
        forall|other: I, others: P|
            !same_project(other, others, identity, paths) ==> #[trigger] lock_for(
                after,
                other,
                others,
            ) == lock_for(before, other, others),
{
    lemma_same_project::<I, P>();
    if held is Some {
        let at = choose|i: int| is_for(before, i, identity, paths);
        assert(is_for(after, at, identity, paths) && after[at].lock == lock);
    } else {
        let at = if exists|i: int| is_for(before, i, identity, paths) {
            let i = choose|i: int| is_for(before, i, identity, paths);
            lemma_renewed(before, i, lock);
            i
        } else {
            lemma_added(before, RegisteredLock { identity, paths, lock });
            before.len() as int
        };
        assert(is_for(after, at, identity, paths) && after[at].lock == lock);
        assert forall|other: I, others: P| !same_project(
            other,
            others,
            identity,
            paths,
        ) implies #[trigger] lock_for(after, other, others) == lock_for(before, other, others) by {
            if exists|i: int| is_for(before, i, other, others) {
                let i = choose|i: int| is_for(before, i, other, others);
                assert(i != at);
                assert(after[i] == before[i]);
                assert(is_for(after, i, other, others));
                lemma_lock_for(before, i, other, others);
                lemma_lock_for(after, i, other, others);
            } else if exists|i: int| is_for(after, i, other, others) {
                let i = choose|i: int| is_for(after, i, other, others);
                assert(i != at);
                assert(after[i] == before[i]);
                assert(is_for(before, i, other, others));
            }
        }
    }
}

/// A lock that is counted as having an owner is kept.
proof fn lemma_owned_is_kept<I: PartialEq, P: PartialEq>(
    before: Seq<RegisteredLock<I, P>>,
    owners: Seq<usize>,
    identity: I,
    paths: P,
    owned: Seq<Arc<Mutex<()>>>,
)
    requires
        compares_consistently::<I>(),
        compares_consistently::<P>(),
        one_lock_each(before),
        owners.len() == before.len(),
        forall|i: int|
            0 <= i < before.len() && is_owned(owned, (#[trigger] before[i]).lock) ==> owners[i] > 0,
    ensures
        lock_for(before, identity, paths) matches Some(lock) ==> (is_owned(owned, lock)
            ==> lock_for(kept(before, in_use(owners)), identity, paths) == Some(lock)),
{
    if lock_for(before, identity, paths) is Some {
        let i = choose|i: int| is_for(before, i, identity, paths);
        assert(is_for(before, i, identity, paths));
        lemma_kept_lock_for(before, in_use(owners), identity, paths);
    }
}

/// A lock that somebody owns stays the lock of its project when a lock is handed out, to whatever
/// project; and it is the lock that is handed out exactly if it is handed out to that very project.
pub proof fn law_an_owned_lock_stays<I: PartialEq, P: PartialEq>(
    before: Seq<RegisteredLock<I, P>>,
    after: Seq<RegisteredLock<I, P>>,
    identity: I,
    paths: P,
    owned: Seq<Arc<Mutex<()>>>,
    lock: Mutex<()>,
    other: I,
    others: P,
    theirs: Mutex<()>,
)
    requires
        compares_consistently::<I>(),
        compares_consistently::<P>(),
        one_lock_each(before),
        handed_out(before, after, identity, paths, owned, lock),
        lock_for(before, other, others) == Some(theirs),
        is_owned(owned, theirs),
    ensures
        one_lock_each(after),
        lock_for(after, other, others) == Some(theirs),
        lock == theirs <==> same_project(other, others, identity, paths),
{
    let (owners, held) = choose|owners: Seq<usize>, held: Option<Mutex<()>>| #[trigger]
        locked(before, after, identity, paths, owners, held, lock) && owners_found(
            before,
            identity,
            paths,
            owned,
            owners,
            held,
        ) && looked_up(before, identity, paths, owners, held);
    let some = kept(before, in_use(owners));
    lemma_same_project::<I, P>();
    lemma_kept_keeps_one_lock_each(before, in_use(owners));
    lemma_owned_is_kept(before, owners, other, others, owned);
    lemma_granted(some, after, identity, paths, held, lock);
    if same_project(other, others, identity, paths) {
        let i = choose|i: int| is_for(before, i, other, others);
        assert(is_for(before, i, other, others));
        assert(is_for(before, i, identity, paths));
        lemma_lock_for(before, i, identity, paths);
        assert(held == Some(theirs));
    } else {
        law_projects_do_not_share_a_lock(
            before,
            after,
            identity,
            paths,
            owners,
            held,
            lock,
            other,
            others,
        );
    }
}

proof fn lemma_owned_locks_stay<I: PartialEq, P: PartialEq>(
    before: Seq<RegisteredLock<I, P>>,
    after: Seq<RegisteredLock<I, P>>,
    identity: I,
    paths: P,
    owned: Seq<Arc<Mutex<()>>>,
    lock: Arc<Mutex<()>>,
)
    requires
        compares_consistently::<I>(),
        compares_consistently::<P>(),
        one_lock_each(before),
        handed_out(before, after, identity, paths, owned, *lock),
    ensures
        owned_locks_stay(before, after, identity, paths, owned, *lock),
{
    assert forall|other: I, others: P|
        (#[trigger] lock_for(before, other, others) matches Some(theirs) && is_owned(
            owned,
            theirs,
        )) implies {
        &&& lock_for(after, other, others) == lock_for(before, other, others)
        &&& lock_for(before, other, others) == Some(*lock) <==> same_project(
            other,
            others,
            identity,
            paths,
        )
    } by {
        let theirs = lock_for(before, other, others)->0;
        law_an_owned_lock_stays(
            before,
            after,
            identity,
            paths,
            owned,
            *lock,
            other,
            others,
            theirs,
        );
    }
}

/// A call that hands out a lock, and the owners that there were at the time.
pub struct LockCall<I, P> {
    pub identity: I,
    pub paths: P,
    pub owned: Seq<Arc<Mutex<()>>>,
    pub lock: Mutex<()>,
}

/// The `k`th call leads from the `k`th registry to the next.
pub open spec fn leads_on<I: PartialEq, P: PartialEq>(
    registries: Seq<Seq<RegisteredLock<I, P>>>,
    calls: Seq<LockCall<I, P>>,
    k: int,
) -> bool {
    handed_out(
        registries[k],
        registries[k + 1],
        calls[k].identity,
        calls[k].paths,
        calls[k].owned,
        calls[k].lock,
    )
}

/// As long as somebody owns the lock that was handed out for a project, whoever asks for that
/// project gets that same lock, and whoever asks for another project gets another one, whatever
/// calls there are in between.
pub proof fn law_an_owned_lock_is_shared<I: PartialEq, P: PartialEq>(
    registries: Seq<Seq<RegisteredLock<I, P>>>,
    calls: Seq<LockCall<I, P>>,
)
    requires
        compares_consistently::<I>(),
        compares_consistently::<P>(),
        calls.len() > 0,
        registries.len() == calls.len() + 1,
        one_lock_each(registries[0]),
        forall|k: int| 0 <= k < calls.len() ==> #[trigger] leads_on(registries, calls, k),
        forall|k: int|
            1 <= k < calls.len() ==> is_owned((#[trigger] calls[k]).owned, calls[0].lock),
    ensures
        calls.last().lock == calls[0].lock <==> same_project(
            calls[0].identity,
            calls[0].paths,
            calls.last().identity,
            calls.last().paths,
        ),
{
    let last = calls.len() - 1;
    lemma_same_project::<I, P>();
    if last > 0 {
        lemma_stays_through(registries, calls, last);
        assert(leads_on(registries, calls, last));
        assert(is_owned(calls[last].owned, calls[0].lock));
        law_an_owned_lock_stays(
            registries[last],
            registries[last + 1],
            calls[last].identity,
            calls[last].paths,
            calls[last].owned,
            calls[last].lock,
            calls[0].identity,
            calls[0].paths,
            calls[0].lock,
        );
    }
}

proof fn lemma_stays_through<I: PartialEq, P: PartialEq>(
    registries: Seq<Seq<RegisteredLock<I, P>>>,
    calls: Seq<LockCall<I, P>>,
    k: int,
)
    requires
        compares_consistently::<I>(),
        compares_consistently::<P>(),
        1 <= k <= calls.len(),
        one_lock_each(registries[0]),
        forall|j: int| 0 <= j < calls.len() ==> #[trigger] leads_on(registries, calls, j),
        forall|j: int|
            1 <= j < calls.len() ==> is_owned((#[trigger] calls[j]).owned, calls[0].lock),
    ensures
        one_lock_each(registries[k]),
        lock_for(registries[k], calls[0].identity, calls[0].paths) == Some(calls[0].lock),
    decreases k,
{
    let before = registries[k - 1];
    let after = registries[k];
    let call = calls[k - 1];
    assert(leads_on(registries, calls, k - 1));
    assert(registries[k - 1 + 1] == after);
    if k == 1 {
        let (owners, held) = choose|owners: Seq<usize>, held: Option<Mutex<()>>| #[trigger]
            locked(before, after, call.identity, call.paths, owners, held, call.lock)
                && owners_found(before, call.identity, call.paths, call.owned, owners, held)
                && looked_up(before, call.identity, call.paths, owners, held);
        let some = kept(before, in_use(owners));
        lemma_kept_keeps_one_lock_each(before, in_use(owners));
        lemma_granted(some, after, call.identity, call.paths, held, call.lock);
        let at = choose|at: int|
            #[trigger] is_for(after, at, call.identity, call.paths) && after[at].lock == call.lock;
        lemma_lock_for(after, at, call.identity, call.paths);
    } else {
        lemma_stays_through(registries, calls, k - 1);
        assert(is_owned(call.owned, calls[0].lock));
        law_an_owned_lock_stays(
            before,
            after,
            call.identity,
            call.paths,
            call.owned,
            call.lock,
            calls[0].identity,
            calls[0].paths,
            calls[0].lock,
        );
    }
}

/// A lock that is handed out leaves the locks of other projects alone: those that have an owner
/// stay their projects' locks, and no other project has a lock afterwards.
pub proof fn law_other_projects_keep_their_locks<I: PartialEq, P: PartialEq>(
    before: Seq<RegisteredLock<I, P>>,
    after: Seq<RegisteredLock<I, P>>,
    identity: I,
    paths: P,
    owners: Seq<usize>,
    held: Option<Mutex<()>>,
    lock: Mutex<()>,
    other: I,
    others: P,
)
    requires
        compares_consistently::<I>(),
        compares_consistently::<P>(),
        one_lock_each(before),
        locked(before, after, identity, paths, owners, held, lock),
        !same_project(other, others, identity, paths),
    ensures
        forall|i: int| #[trigger]
            is_for(before, i, other, others) ==> lock_for(after, other, others) == (if owners[i]
                > 0 {
                Some(before[i].lock)
            } else {
                None
            }),
        (forall|i: int| !is_for(before, i, other, others)) ==> lock_for(after, other, others)
            is None,
{
    let some = kept(before, in_use(owners));
    lemma_kept_keeps_one_lock_each(before, in_use(owners));
    lemma_kept_lock_for(before, in_use(owners), other, others);
    lemma_granted(some, after, identity, paths, held, lock);
    assert forall|i: int| #[trigger] is_for(before, i, other, others) implies lock_for(
        after,
        other,
        others,
    ) == (if owners[i] > 0 {
        Some(before[i].lock)
    } else {
        None
    }) by {
        lemma_lock_for(before, i, other, others);
        assert(in_use(owners)[i] == (owners[i] > 0));
    }
}

/// A lock that is counted as having an owner stays the lock of its project when a lock is handed
/// out, to whatever project, as long as an owner is found too where it is handed out to that very
/// project.
pub proof fn law_a_counted_lock_stays<I: PartialEq, P: PartialEq>(
    before: Seq<RegisteredLock<I, P>>,
    after: Seq<RegisteredLock<I, P>>,
    identity: I,
    paths: P,
    owners: Seq<usize>,
    held: Option<Mutex<()>>,
    lock: Mutex<()>,
    i: int,
)
    requires
        compares_consistently::<I>(),
        compares_consistently::<P>(),
        one_lock_each(before),
        locked(before, after, identity, paths, owners, held, lock),
        0 <= i < before.len(),
        owners[i] > 0,
        is_for(before, i, identity, paths) ==> held is Some,
    ensures
        lock_for(after, before[i].identity, before[i].paths) == Some(before[i].lock),
{
    let other = before[i].identity;
    let others = before[i].paths;
    lemma_same_project::<I, P>();
    assert(is_for(before, i, other, others));
    if is_for(before, i, identity, paths) {
        lemma_kept_keeps_one_lock_each(before, in_use(owners));
        lemma_kept_lock_for(before, in_use(owners), other, others);
        lemma_lock_for(before, i, other, others);
        assert(in_use(owners)[i]);
    } else {
        law_other_projects_keep_their_locks(
            before,
            after,
            identity,
            paths,
            owners,
            held,
            lock,
            other,
            others,
        );
    }
}

/// What was counted or upgraded comes from calls of `std::sync::Weak::strong_count` and
/// `std::sync::Weak::upgrade` on a handle to that very lock.
proof fn law_owners_are_told_by_the_handle(
    lock: Mutex<()>,
    count: usize,
    held: Option<Mutex<()>>,
)
    ensures
        counted(lock, count) ==> exists|handle: LockHandle, owned: Vec<Arc<Mutex<()>>>|
            lock_behind(handle) == lock && #[trigger] call_ensures(
                strong_count,
                (&handle, &owned),
                count,
            ),
        upgraded(lock, held) ==> exists|
            handle: LockHandle,
            owned: Vec<Arc<Mutex<()>>>,
            owner: Option<Arc<Mutex<()>>>,
        |
            lock_behind(handle) == lock && (match owner {
                Some(owner) => held == Some(*owner),
                None => held is None,
            }) && #[trigger] call_ensures(upgrade, (&handle, &owned), owner),
        upgraded(lock, held) && held is Some ==> held == Some(lock),
{
}

/// Wherever the entry of a project stands, its lock is handed out to whoever asks for that project,
/// unless it was counted to have no owner or could not be upgraded; and it stays registered there.
pub proof fn law_a_lock_with_an_owner_is_handed_out_again<I: PartialEq, P: PartialEq>(
    before: Seq<RegisteredLock<I, P>>,
    after: Seq<RegisteredLock<I, P>>,
    identity: I,
    paths: P,
    owned: Seq<Arc<Mutex<()>>>,
    lock: Mutex<()>,
    i: int,
)
    requires
        compares_consistently::<I>(),
        compares_consistently::<P>(),
        one_lock_each(before),
        handed_out(before, after, identity, paths, owned, lock),
        0 <= i < before.len(),
        before[i].identity.eq_spec(&identity),
        before[i].paths.eq_spec(&paths),
        !counted(before[i].lock, 0),
        !upgraded(before[i].lock, None),
    ensures
        lock == before[i].lock,
        after.contains(before[i]),
{
    let (owners, held) = choose|owners: Seq<usize>, held: Option<Mutex<()>>| #[trigger]
        locked(before, after, identity, paths, owners, held, lock) && owners_found(
            before,
            identity,
            paths,
            owned,
            owners,
            held,
        ) && looked_up(before, identity, paths, owners, held);
    let live = in_use(owners);
    assert(is_for(before, i, identity, paths));
    lemma_lock_for(before, i, identity, paths);
    lemma_kept_lock_for(before, live, identity, paths);
    assert(counted(before[i].lock, owners[i]));
    assert(live[i]);
    assert(upgraded(before[i].lock, held));
    law_owners_are_told_by_the_handle(before[i].lock, owners[i], held);
    lemma_kept_entries(before, live);
    assert(went_to_one(before, live, i));
    let j = choose|j: int| is_kept_from(before, live, i, j);
    assert(after[j] == before[i]);
}

proof fn lemma_owner_is_found<I: PartialEq, P: PartialEq>(
    before: Seq<RegisteredLock<I, P>>,
    after: Seq<RegisteredLock<I, P>>,
    identity: I,
    paths: P,
    owned: Seq<Arc<Mutex<()>>>,
    lock: Arc<Mutex<()>>,
)
    requires
        compares_consistently::<I>(),
        compares_consistently::<P>(),
        one_lock_each(before),
        handed_out(before, after, identity, paths, owned, *lock),
    ensures
        lock_for(before, identity, paths) matches Some(held) ==> (!counted(held, 0) && !upgraded(
            held,
            None,
        ) ==> *lock == held),
{
    if lock_for(before, identity, paths) is Some {
        let mutex = mutex_of(Some(lock))->0;
        let i = choose|i: int| is_for(before, i, identity, paths);
        assert(is_for(before, i, identity, paths));
        if !counted(before[i].lock, 0) && !upgraded(before[i].lock, None) {
            law_a_lock_with_an_owner_is_handed_out_again(
                before,
                after,
                identity,
                paths,
                owned,
                mutex,
                i,
            );
        }
    }
}

/// A lock that can only have been counted to have owners, and yet can only have failed to be
/// upgraded, is not handed out: another lock is, and takes its place. Nor is the lock of any other
/// project that was not counted to have no owner.
pub proof fn law_a_lock_without_an_owner_is_replaced<I: PartialEq, P: PartialEq>(
    before: Seq<RegisteredLock<I, P>>,
    after: Seq<RegisteredLock<I, P>>,
    identity: I,
    paths: P,
    owned: Seq<Arc<Mutex<()>>>,
    lock: Mutex<()>,
    i: int,
)
    requires
        compares_consistently::<I>(),
        compares_consistently::<P>(),
        one_lock_each(before),
        handed_out(before, after, identity, paths, owned, lock),
        0 <= i < before.len(),
        !counted(before[i].lock, 0),
    ensures
        !(before[i].identity.eq_spec(&identity) && before[i].paths.eq_spec(&paths)) ==> lock
            != before[i].lock,
        before[i].identity.eq_spec(&identity) && before[i].paths.eq_spec(&paths) && (forall|
            held: Option<Mutex<()>>,
        | #[trigger] upgraded(before[i].lock, held) ==> held is None) ==> lock != before[i].lock,
        exists|j: int|
            0 <= j < after.len() && (#[trigger] after[j]).lock == lock
                && after[j].identity.eq_spec(&identity) && after[j].paths.eq_spec(&paths),
{
    let (owners, held) = choose|owners: Seq<usize>, held: Option<Mutex<()>>| #[trigger]
        locked(before, after, identity, paths, owners, held, lock) && owners_found(
            before,
            identity,
            paths,
            owned,
            owners,
            held,
        ) && looked_up(before, identity, paths, owners, held);
    let live = in_use(owners);
    let some = kept(before, live);
    lemma_same_project::<I, P>();
    lemma_kept_entries(before, live);
    lemma_kept_keeps_one_lock_each(before, live);
    assert(counted(before[i].lock, owners[i]));
    assert(live[i]);
    assert(went_to_one(before, live, i));
    let j = choose|j: int| is_kept_from(before, live, i, j);
    assert(some[j] == before[i]);
    lemma_granted(some, after, identity, paths, held, lock);
    let at = choose|at: int|
        #[trigger] is_for(after, at, identity, paths) && after[at].lock == lock;
    assert(after[at].lock == lock);
    if is_for(before, i, identity, paths) {
        assert(is_for(some, j, identity, paths));
        lemma_lock_for(some, j, identity, paths);
        assert(upgraded(before[i].lock, held));
    } else if held is Some {
        let k = choose|k: int| is_for(some, k, identity, paths);
        assert(is_for(some, k, identity, paths));
        assert(k != j);
    }
}

/// The locks of other projects go by the counts alone, wherever their entries stand: one that was
/// not counted to have no owner stays as it is, and one that can only have been counted to have
/// none is forgotten. No other project gets a lock.
pub proof fn law_the_counts_tell_which_locks_stay<I: PartialEq, P: PartialEq>(
    before: Seq<RegisteredLock<I, P>>,
    after: Seq<RegisteredLock<I, P>>,
    identity: I,
    paths: P,
    owned: Seq<Arc<Mutex<()>>>,
    lock: Mutex<()>,
    i: int,
)
    requires
        compares_consistently::<I>(),
        compares_consistently::<P>(),
        one_lock_each(before),
        handed_out(before, after, identity, paths, owned, lock),
        0 <= i < before.len(),
        !(before[i].identity.eq_spec(&identity) && before[i].paths.eq_spec(&paths)),
    ensures
        !counted(before[i].lock, 0) ==> after.contains(before[i]),
        (forall|count: usize| #[trigger] counted(before[i].lock, count) ==> count == 0)
            ==> forall|j: int|
            0 <= j < after.len() ==> !((#[trigger] after[j]).identity.eq_spec(&before[i].identity)
                && after[j].paths.eq_spec(&before[i].paths)),
        forall|j: int|
            0 <= j < after.len() ==> before.contains(#[trigger] after[j]) || (
            after[j].identity.eq_spec(&identity) && after[j].paths.eq_spec(&paths)
                && after[j].lock == lock),
{
    let (owners, held) = choose|owners: Seq<usize>, held: Option<Mutex<()>>| #[trigger]
        locked(before, after, identity, paths, owners, held, lock) && owners_found(
            before,
            identity,
            paths,
            owned,
            owners,
            held,
        ) && looked_up(before, identity, paths, owners, held);
    let live = in_use(owners);
    let some = kept(before, live);
    let other = before[i].identity;
    let others = before[i].paths;
    lemma_same_project::<I, P>();
    lemma_kept_entries(before, live);
    lemma_kept_keeps_one_lock_each(before, live);
    assert(counted(before[i].lock, owners[i]));
    assert(live[i] == (owners[i] > 0));
    assert(is_for(before, i, other, others));
    assert(!is_for(before, i, identity, paths));
    let at = choose|k: int| is_for(some, k, identity, paths);
    if live[i] {
        assert(went_to_one(before, live, i));
        let j = choose|j: int| is_kept_from(before, live, i, j);
        assert(after[j] == before[i]) by {
            if exists|k: int| is_for(some, k, identity, paths) {
                assert(is_for(some, at, identity, paths));
                assert(at != j);
            }
        }
    } else {
        law_other_projects_keep_their_locks(
            before,
            after,
            identity,
            paths,
            owners,
            held,
            lock,
            other,
            others,
        );
        assert(lock_for(after, other, others) is None);
        assert forall|j: int| 0 <= j < after.len() implies !((
        #[trigger] after[j]).identity.eq_spec(&other) && after[j].paths.eq_spec(&others)) by {
            assert(!is_for(after, j, other, others));
        }
    }
    assert forall|j: int| 0 <= j < after.len() implies before.contains(#[trigger] after[j]) || (
    after[j].identity.eq_spec(&identity) && after[j].paths.eq_spec(&paths) && after[j].lock
        == lock) by {
        if j < some.len() && after[j] == some[j] {
            assert(came_from_one(before, live, j));
            let k = choose|k: int| is_kept_from(before, live, k, j);
            assert(before[k] == after[j]);
        } else {
            assert(same_project(identity, paths, identity, paths));
            if exists|k: int| is_for(some, k, identity, paths) {
                assert(is_for(some, at, identity, paths));
            }
        }
    }
}

/// Which locks are kept goes by each lock for itself, and leaves them in their order.
pub proof fn law_locks_are_kept_one_by_one<I, P>(
    some: Seq<RegisteredLock<I, P>>,
    some_owners: Seq<usize>,
    more: Seq<RegisteredLock<I, P>>,
    more_owners: Seq<usize>,
    entry: RegisteredLock<I, P>,
    count: usize,
)
    requires
        some.len() == some_owners.len(),
        more.len() == more_owners.len(),
    ensures
        kept(some + more, in_use(some_owners + more_owners)) == kept(some, in_use(some_owners))
            + kept(more, in_use(more_owners)),
        kept(seq![entry], in_use(seq![count])) == (if count > 0 {
            seq![entry]
        } else {
            Seq::empty()
        }),
    decreases more.len(),
{
    assert(kept(seq![entry].drop_last(), in_use(seq![count]).drop_last()) =~= Seq::empty());
    assert(seq![entry].last() == entry);
    assert(in_use(seq![count]).last() == (count > 0));
    if count > 0 {
        assert(kept(seq![entry], in_use(seq![count])) =~= seq![entry]);
    }
    if more.len() == 0 {
        assert(some + more =~= some);
        assert(some_owners + more_owners =~= some_owners);
        assert(kept(more, in_use(more_owners)) =~= Seq::empty());
    } else {
        let fewer = more.drop_last();
        let fewer_owners = more_owners.drop_last();
        law_locks_are_kept_one_by_one(some, some_owners, fewer, fewer_owners, entry, count);
        assert((some + more).drop_last() =~= some + fewer);
        assert(in_use(some_owners + more_owners).drop_last() =~= in_use(
            some_owners + fewer_owners,
        ));
        assert(in_use(more_owners).drop_last() =~= in_use(fewer_owners));
        assert(in_use(some_owners + more_owners).last() == in_use(more_owners).last());
        assert(kept(some + more, in_use(some_owners + more_owners)) =~= kept(
            some,
            in_use(some_owners),
        ) + kept(more, in_use(more_owners)));
    }
}

/// A lock that is held is handed out, and nothing changes. Otherwise the lock is none of those that
/// are registered: it takes the place of the old one in the entry of the project, or gets an entry
/// of its own behind the others; and no other entry changes.
pub proof fn law_a_lock_is_granted_to_its_project<I: PartialEq, P: PartialEq>(
    before: Seq<RegisteredLock<I, P>>,
    after: Seq<RegisteredLock<I, P>>,
    identity: I,
    paths: P,
    held: Option<Mutex<()>>,
    lock: Mutex<()>,
)
    requires
        compares_consistently::<I>(),
        compares_consistently::<P>(),
        one_lock_each(before),
        granted(before, after, identity, paths, held, lock),
    ensures
        held matches Some(held) ==> lock == held && after == before,
        held is None ==> {
            &&& forall|i: int| 0 <= i < before.len() ==> (#[trigger] before[i]).lock != lock
            &&& forall|i: int|
                0 <= i < before.len() && (#[trigger] before[i]).identity.eq_spec(&identity)
                    && before[i].paths.eq_spec(&paths) ==> {
                    &&& after.len() == before.len()
                    &&& after[i].identity == before[i].identity
                    &&& after[i].paths == before[i].paths
                    &&& after[i].lock == lock
                    &&& forall|j: int|
                        0 <= j < before.len() && j != i ==> #[trigger] after[j] == before[j]
                }
            &&& (forall|i: int|
                0 <= i < before.len() ==> !((#[trigger] before[i]).identity.eq_spec(&identity)
                    && before[i].paths.eq_spec(&paths))) ==> {
                &&& after.len() == before.len() + 1
                &&& after.last().identity == identity
                &&& after.last().paths == paths
                &&& after.last().lock == lock
                &&& forall|j: int| 0 <= j < before.len() ==> #[trigger] after[j] == before[j]
            }
        },
{
    if held is None {
        assert forall|i: int|
            0 <= i < before.len() && (#[trigger] before[i]).identity.eq_spec(&identity)
                && before[i].paths.eq_spec(&paths) implies {
            &&& after.len() == before.len()
            &&& after[i].identity == before[i].identity
            &&& after[i].paths == before[i].paths
            &&& after[i].lock == lock
            &&& forall|j: int| 0 <= j < before.len() && j != i ==> #[trigger] after[j] == before[j]
        } by {
            assert(is_for(before, i, identity, paths));
            lemma_the_entry(before, i, identity, paths);
        }
        if forall|i: int|
            0 <= i < before.len() ==> !((#[trigger] before[i]).identity.eq_spec(&identity)
                && before[i].paths.eq_spec(&paths)) {
            assert forall|i: int| !is_for(before, i, identity, paths) by {}
        }
    }
}

/// The lock of a project is the one in the entry whose connection and paths equal those of the
/// project; a project without such an entry has none.
pub proof fn law_a_project_has_the_lock_of_its_entry<I: PartialEq, P: PartialEq>(
    registered: Seq<RegisteredLock<I, P>>,
    identity: I,
    paths: P,
)
    requires
        compares_consistently::<I>(),
        compares_consistently::<P>(),
        one_lock_each(registered),
    ensures
        forall|i: int|
            0 <= i < registered.len() && (#[trigger] registered[i]).identity.eq_spec(&identity)
                && registered[i].paths.eq_spec(&paths) ==> lock_for(registered, identity, paths)
                == Some(registered[i].lock),
        (forall|i: int|
            0 <= i < registered.len() ==> !((#[trigger] registered[i]).identity.eq_spec(&identity)
                && registered[i].paths.eq_spec(&paths))) ==> lock_for(registered, identity, paths)
            is None,
{
    assert forall|i: int|
        0 <= i < registered.len() && (#[trigger] registered[i]).identity.eq_spec(&identity)
            && registered[i].paths.eq_spec(&paths) implies lock_for(registered, identity, paths)
        == Some(registered[i].lock) by {
        assert(is_for(registered, i, identity, paths));
        lemma_lock_for(registered, i, identity, paths);
    }
    if lock_for(registered, identity, paths) is Some {
        let i = choose|i: int| is_for(registered, i, identity, paths);
        assert(is_for(registered, i, identity, paths));
        assert(registered[i].identity.eq_spec(&identity));
    }
}

/// The lock handed out for one project is not the lock of any other project.
pub proof fn law_projects_do_not_share_a_lock<I: PartialEq, P: PartialEq>(
    before: Seq<RegisteredLock<I, P>>,
    after: Seq<RegisteredLock<I, P>>,
    identity: I,
    paths: P,
    owners: Seq<usize>,
    held: Option<Mutex<()>>,
    lock: Mutex<()>,
    other: I,
    others: P,
)
    requires
        compares_consistently::<I>(),
        compares_consistently::<P>(),
        one_lock_each(before),
        locked(before, after, identity, paths, owners, held, lock),
        !same_project(other, others, identity, paths),
    ensures
        one_lock_each(after),
        lock_for(after, identity, paths) == Some(lock),
        lock_for(after, other, others) != Some(lock),
{
    lemma_same_project::<I, P>();
    lemma_kept_keeps_one_lock_each(before, in_use(owners));
    lemma_granted(kept(before, in_use(owners)), after, identity, paths, held, lock);
    let at = choose|at: int|
        #[trigger] is_for(after, at, identity, paths) && after[at].lock == lock;
    lemma_lock_for(after, at, identity, paths);
    if lock_for(after, other, others) is Some {
        let j = choose|j: int| is_for(after, j, other, others);
        assert(j != at);
        assert(after[j].lock != after[at].lock);
    }
}

} // verus!
