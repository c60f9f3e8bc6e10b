//! The exclusive execution guard: one flag for the whole process, under a
//! lock, and the middleware that asks it before a diary update is served.
//!
//! What the guard decides is written on `ProcessStatus`, a plain value, where
//! every answer is stated exactly. `ExclusiveLocker` shares one status among
//! all its handles behind a lock and applies the same decisions to it.

use std::sync::Arc;
use std::sync::Mutex;
use std::sync::MutexGuard;
use vstd::prelude::*;
use vstd::string::*;

verus! {

/// The state of the guard: whether a guarded run is in progress.
#[derive(Clone, Copy, Debug, PartialEq, Eq, Structural)]
pub struct ProcessStatus {
    pub running: bool,
}

/// How the guard answers a request.
#[derive(Clone, Copy, Debug, PartialEq, Eq, Structural)]
pub enum Admission {
    /// The request is not guarded: it is served, and the guard is not touched.
    Bypass,
    /// The request holds the guard: it is served, and the guard is released
    /// when it has been.
    Admitted,
    /// A run is in progress: the request is refused at once and not served.
    Refused,
}

/// An admission attempt on a status: whether it is admitted, and the status
/// that it leaves. It is admitted exactly when no run is in progress, and
/// leaves the guard held either way.
pub open spec fn attempted(status: ProcessStatus) -> (bool, ProcessStatus) {
    (!status.running, ProcessStatus { running: true })
}

/// The status that a release leaves: free, whatever it was.
pub open spec fn released(status: ProcessStatus) -> ProcessStatus {
    ProcessStatus { running: false }
}

/// Whether a request is one that the guard admits one at a time: a `POST`
/// to `/diary`. Every other request passes the guard untouched.
pub open spec fn is_exclusive(path: Seq<char>, method: Seq<char>) -> bool {
    path == "/diary"@ && method == "POST"@
}

/// The answer to a request, from whether it is guarded and what an admission
/// attempt gave.
pub open spec fn admission_for(exclusive: bool, acquired: bool) -> Admission {
    if !exclusive {
        Admission::Bypass
    } else if acquired {
        Admission::Admitted
    } else {
        Admission::Refused
    }
}

/// The arrival of a request: the answer it gets, and the status it leaves.
/// Only a guarded request makes an admission attempt.
pub open spec fn entered(status: ProcessStatus, exclusive: bool) -> (Admission, ProcessStatus) {
    if exclusive {
        (admission_for(true, attempted(status).0), attempted(status).1)
    } else {
        (Admission::Bypass, status)
    }
}

/// The status after a request that got the given answer has been served,
/// however that ended. Only an admitted request releases the guard: one that
/// was refused, or that bypassed the guard, leaves it as it is.
pub open spec fn left(status: ProcessStatus, admission: Admission) -> ProcessStatus {
    if admission is Admitted {
        released(status)
    } else {
        status
    }
}

/// The answer to a request, from whether it is guarded and what an admission
/// attempt gave.
pub fn decide(exclusive: bool, acquired: bool) -> (admission: Admission)
    ensures
        admission == admission_for(exclusive, acquired),
{
    if !exclusive {
        Admission::Bypass
    } else if acquired {
        Admission::Admitted
    } else {
        Admission::Refused
    }
}

impl Admission {
    /// Whether the request is handed on to the service.
    pub fn is_served(self) -> (served: bool)
        ensures
            served == !(self is Refused),
    {
        match self {
            Admission::Refused => false,
            _ => true,
        }
    }

    /// Whether the guard is to be released when the request has been served.
    pub fn holds_guard(self) -> (holds: bool)
        ensures
            holds == (self is Admitted),
    {
        match self {
            Admission::Admitted => true,
            _ => false,
        }
    }
}

impl ProcessStatus {
    /// A guard that nothing holds.
    pub fn idle() -> (status: ProcessStatus)
        ensures
            !status.running,
    {
        ProcessStatus { running: false }
    }

    /// Test and set: admits the caller exactly when no run is in progress,
    /// and never waits.
    pub fn try_acquire(&mut self) -> (admitted: bool)
        ensures
            (admitted, *final(self)) == attempted(*old(self)),
    {
        if self.running {
            false
        } else {
            self.running = true;
            true
        }
    }

    /// Marks the guard as free, whatever it was.
    pub fn release(&mut self)
        ensures
            *final(self) == released(*old(self)),
    {
        self.running = false;
    }

    /// Answers a request that arrives.
    pub fn enter(&mut self, exclusive: bool) -> (admission: Admission)
        ensures
            (admission, *final(self)) == entered(*old(self), exclusive),
    {
        if exclusive {
            let acquired = self.try_acquire();
            decide(true, acquired)
        } else {
            decide(false, false)
        }
    }

    /// Takes note that a request with the given answer has been served.
    pub fn leave(&mut self, admission: Admission)
        ensures
            *final(self) == left(*old(self), admission),
    {
        if admission.holds_guard() {
            self.release();
        }
    }
}

/// The answers to `n` admission attempts made one after another, with no
/// release between them. Attempts that are made at the same time on a shared
/// guard come one after another too, in the order in which they get the lock.
pub open spec fn attempts(status: ProcessStatus, n: nat) -> Seq<bool>
    decreases n,
{
    if n == 0 {
        Seq::empty()
    } else {
        seq![attempted(status).0] + attempts(attempted(status).1, (n - 1) as nat)
    }
}

/// Of any number of admission attempts with no release between them, only
/// the first can be admitted, and it is admitted exactly when no run was in
/// progress. So while a run is in progress every attempt is refused, and a
/// free guard admits exactly one.
pub proof fn lemma_one_admission(status: ProcessStatus, n: nat)
    ensures
        attempts(status, n).len() == n,
        forall|i: int|
            0 <= i < n ==> #[trigger] attempts(status, n)[i] == (i == 0 && !status.running),
    decreases n,
{
    if n > 0 {
        lemma_one_admission(attempted(status).1, (n - 1) as nat);
    }
}

/// After a release the next admission attempt is admitted, whatever the
/// status was before. A request that was admitted releases when it has been
/// served, with no regard to how that ended, so the next guarded request is
/// admitted again.
pub proof fn lemma_release_readmits(status: ProcessStatus)
    ensures
        attempted(released(status)).0,
        entered(left(status, Admission::Admitted), true).0 is Admitted,
{
}

/// The guard together with a count of the requests that were admitted and
/// have not been served to the end.
pub struct Occupancy {
    pub status: ProcessStatus,
    pub inside: nat,
}

/// What happens at the guard: a request arrives, or a request that got the
/// given answer has been served.
pub enum Move {
    Arrive { exclusive: bool },
    Depart { admission: Admission },
}

/// The guard tells the truth: it is held exactly when an admitted request is
/// inside, and no second one is.
pub open spec fn exclusive_use(o: Occupancy) -> bool {
    o.inside == if o.status.running {
        1nat
    } else {
        0nat
    }
}

/// Whether a move can happen: a request can only have been served as an
/// admitted one while an admitted one is inside.
pub open spec fn possible(o: Occupancy, m: Move) -> bool {
    m matches Move::Depart { admission } ==> (admission is Admitted ==> o.inside >= 1)
}

/// The guard and the count after a move.
pub open spec fn moved(o: Occupancy, m: Move) -> Occupancy {
    match m {
        Move::Arrive { exclusive } => Occupancy {
            status: entered(o.status, exclusive).1,
            inside: if entered(o.status, exclusive).0 is Admitted {
                o.inside + 1
            } else {
                o.inside
            },
        },
        Move::Depart { admission } => Occupancy {
            status: left(o.status, admission),
            inside: if admission is Admitted {
                (o.inside - 1) as nat
            } else {
                o.inside
            },
        },
    }
}

/// Whether each of a sequence of moves can happen when its turn comes.
pub open spec fn all_possible(o: Occupancy, moves: Seq<Move>) -> bool
    decreases moves.len(),
{
    moves.len() > 0 ==> possible(o, moves.first()) && all_possible(
        moved(o, moves.first()),
        moves.drop_first(),
    )
}

/// The guard and the count after a sequence of moves.
pub open spec fn played(o: Occupancy, moves: Seq<Move>) -> Occupancy
    decreases moves.len(),
{
    if moves.len() == 0 {
        o
    } else {
        played(moved(o, moves.first()), moves.drop_first())
    }
}

/// Mutual exclusion: whatever requests arrive and are served, in whatever
/// order, at most one admitted request is inside at any time, and the guard
/// is held exactly while one is.
pub proof fn lemma_mutual_exclusion(o: Occupancy, moves: Seq<Move>)
    requires
        exclusive_use(o),
        all_possible(o, moves),
    ensures
        exclusive_use(played(o, moves)),
        played(o, moves).inside <= 1,
    decreases moves.len(),
{
    if moves.len() > 0 {
        lemma_mutual_exclusion(moved(o, moves.first()), moves.drop_first());
    }
}

/// `std::sync::Mutex`, as a value that is carried and never looked into.
#[verifier::external_type_specification]
#[verifier::external_body]
#[verifier::reject_recursive_types(T)]
pub struct ExMutex<T: ?Sized>(Mutex<T>);

/// `std::sync::MutexGuard`, the sign that the lock is held. What it protects
/// is named by `protected`.
#[verifier::external_type_specification]
#[verifier::external_body]
#[verifier::reject_recursive_types(T)]
pub struct ExMutexGuard<'a, T: ?Sized + 'a>(MutexGuard<'a, T>);

/// The status that a held lock protects: what `Deref` of the `MutexGuard`
/// reads. While the lock is held nobody but the holder reads or writes it.
pub uninterp spec fn protected(guard: MutexGuard<ProcessStatus>) -> ProcessStatus;

/// The status that a lock was made around: what it protected when it was
/// new. A lock is made once, so this never changes.
pub uninterp spec fn made_around(lock: Mutex<ProcessStatus>) -> ProcessStatus;

/// `Mutex::new`: a new lock, not held, around the given status.
#[verifier::external_body]
fn new_lock(status: ProcessStatus) -> (lock: Mutex<ProcessStatus>)
    ensures
        made_around(lock) == status,
{
    Mutex::new(status)
}

/// `Mutex::lock`: waits for the lock and takes it. A lock that a panicking
/// holder poisoned is taken all the same. What it protects is whatever the
/// last holder left, so nothing is claimed of it. The call does not return
/// where the caller's own thread holds the lock; the lock is kept private to
/// this file, and no function here takes it while it holds it.
#[verifier::external_body]
fn lock(mutex: &Mutex<ProcessStatus>) -> MutexGuard<'_, ProcessStatus> {
    match mutex.lock() {
        Ok(guard) => guard,
        Err(poisoned) => poisoned.into_inner(),
    }
}

/// `Deref` of `MutexGuard`: reads the protected status.
#[verifier::external_body]
fn load(guard: &MutexGuard<ProcessStatus>) -> (status: ProcessStatus)
    ensures
        status == protected(*guard),
{
    **guard
}

/// `DerefMut` of `MutexGuard`: replaces the protected status.
#[verifier::external_body]
fn store(guard: &mut MutexGuard<ProcessStatus>, status: ProcessStatus)
    ensures
        protected(*final(guard)) == status,
{
    **guard = status;
}

/// `Arc::clone` on the shared lock: a second pointer to the same lock.
#[verifier::external_body]
fn share(working: &Arc<Mutex<ProcessStatus>>) -> (shared: Arc<Mutex<ProcessStatus>>)
    ensures
        shared == *working,
{
    Arc::clone(working)
}

/// One admission attempt on the status under a held lock.
fn acquire_under(guard: &mut MutexGuard<ProcessStatus>) -> (admitted: bool)
    ensures
        (admitted, protected(*final(guard))) == attempted(protected(*old(guard))),
{
    let mut status = load(guard);
    let admitted = status.try_acquire();
    store(guard, status);
    admitted
}

/// A release of the status under a held lock.
fn release_under(guard: &mut MutexGuard<ProcessStatus>)
    ensures
        protected(*final(guard)) == released(protected(*old(guard))),
{
    let mut status = load(guard);
    status.release();
    store(guard, status);
}

/// The arrival of a request at the status under a held lock.
fn enter_under(guard: &mut MutexGuard<ProcessStatus>, exclusive: bool) -> (admission: Admission)
    ensures
        (admission, protected(*final(guard))) == entered(protected(*old(guard)), exclusive),
{
    let mut status = load(guard);
    let admission = status.enter(exclusive);
    store(guard, status);
    admission
}

/// The end of a request at the status under a held lock.
fn leave_under(guard: &mut MutexGuard<ProcessStatus>, admission: Admission)
    ensures
        protected(*final(guard)) == left(protected(*old(guard)), admission),
{
    let mut status = load(guard);
    status.leave(admission);
    store(guard, status);
}

/// The guard: one status behind a lock, shared by every handle that was made
/// from one guard. The lock itself is never handed out.
pub struct ExclusiveLocker {
    working: Arc<Mutex<ProcessStatus>>,
}

impl Default for ExclusiveLocker {
    /// A guard of its own, free at first.
    fn default() -> (locker: ExclusiveLocker)
        ensures
            locker.initial() == (ProcessStatus { running: false }),
    {
        ExclusiveLocker { working: Arc::new(new_lock(ProcessStatus::idle())) }
    }
}

impl ExclusiveLocker {
    /// The lock that the handles of one guard share.
    pub closed spec fn shared_lock(&self) -> Arc<Mutex<ProcessStatus>> {
        self.working
    }

    /// The status with which the guard began.
    pub open spec fn initial(&self) -> ProcessStatus {
        made_around(*self.shared_lock())
    }

    /// A second handle on the same guard.
    pub fn handle(&self) -> (handle: ExclusiveLocker)
        ensures
            handle.shared_lock() == self.shared_lock(),
    {
        ExclusiveLocker { working: share(&self.working) }
    }

    /// Attempts admission: takes the lock, makes one attempt on the status
    /// that it protects, and lets the lock go. It waits for the lock, which
    /// is held for the length of an attempt or a release, and never for a
    /// run in progress to end.
    ///
    /// The status is shared with every other handle on the guard, so what
    /// this returns depends on what they have done.
    pub fn try_acquire(&self) -> (admitted: bool) {
        let mut guard = lock(&self.working);
        acquire_under(&mut guard)
    }

    /// Frees the guard: takes the lock, releases the status that it
    /// protects, and lets the lock go.
    pub fn release(&self) {
        let mut guard = lock(&self.working);
        release_under(&mut guard)
    }

    /// Puts the guard in front of a service.
    pub fn new_transform<S>(&self, service: S) -> (middleware: ExclusiveLockerMiddleware<S>)
        ensures
            middleware.inner() == service,
            middleware.shared_lock() == self.shared_lock(),
    {
        ExclusiveLockerMiddleware { service: service, working: share(&self.working) }
    }
}

/// The guard in front of a service: it shares the lock of the
/// `ExclusiveLocker` that made it.
pub struct ExclusiveLockerMiddleware<S> {
    pub service: S,
    working: Arc<Mutex<ProcessStatus>>,
}

fn text_eq(a: &str, b: &str) -> (equal: bool)
    ensures
        equal == (a@ == b@),
{
    let a = String::from_str(a);
    let b = String::from_str(b);
    a == b
}

/// Whether a request is guarded.
pub fn is_exclusive_request(path: &str, method: &str) -> (exclusive: bool)
    ensures
        exclusive == is_exclusive(path@, method@),
{
    text_eq(path, "/diary") && text_eq(method, "POST")
}

impl<S> ExclusiveLockerMiddleware<S> {
    /// The service behind the guard.
    pub closed spec fn inner(&self) -> S {
        self.service
    }

    /// The lock that this middleware shares with its guard.
    pub closed spec fn shared_lock(&self) -> Arc<Mutex<ProcessStatus>> {
        self.working
    }

    /// A handle on the guard that this middleware shares.
    pub fn locker(&self) -> (locker: ExclusiveLocker)
        ensures
            locker.shared_lock() == self.shared_lock(),
    {
        ExclusiveLocker { working: share(&self.working) }
    }

    /// Answers a request before it is served. A request that is not guarded
    /// bypasses the guard and does not touch the lock. A guarded one takes
    /// the lock and arrives at the status that it protects, as
    /// `ProcessStatus::enter` says: it is admitted, or refused without
    /// waiting for the run in progress.
    pub fn call(&self, path: &str, method: &str) -> (admission: Admission)
        ensures
            admission is Bypass <==> !is_exclusive(path@, method@),
    {
        if is_exclusive_request(path, method) {
            let mut guard = lock(&self.working);
            enter_under(&mut guard, true)
        } else {
            decide(false, false)
        }
    }

    /// Takes note that a request has been served, however that ended. A
    /// request that held the guard takes the lock and leaves the status that
    /// it protects, as `ProcessStatus::leave` says, which releases it. Any
    /// other request does not touch the lock.
    pub fn complete(&self, admission: Admission) {
        if admission.holds_guard() {
            let mut guard = lock(&self.working);
            leave_under(&mut guard, admission)
        }
    }
}

} // verus!
