//! The connection pool: a fixed-capacity set of client handles with
//! acquire/release semantics.
//!
//! Handles move by ownership transfer, never by sharing: a handle is
//! owned by the pool's idle set, by one in-flight caller, or by one open
//! transaction, and `acquire`/`release` are the only ways it changes
//! owner. The abstract state [`PoolState`] and its transition functions
//! say exactly what each operation does; the strict bag invariant —
//! idle plus outstanding always equals the capacity — is proved to hold
//! after any sequence of operations.
//!
//! An acquire with no idle handle suspends the caller; the embedding
//! application parks the task and retries through [`ConnectionPool::resume_acquire`]
//! once a release has happened. No ordering among waiting acquirers is
//! promised.

use vstd::prelude::*;

use crate::client::ClientWrapper;

verus! {

/// Pool construction failed; no partial pool is ever handed out.
#[derive(Debug, Clone)]
pub struct ConnectionErr {
    pub msg: String,
}

/// The pool's abstract state: the keys of the idle handles in stack
/// order, how many handles are checked out, how many acquirers are
/// suspended, and the fixed capacity.
#[verifier::ext_equal]
pub struct PoolState {
    pub idle: Seq<nat>,
    pub outstanding: nat,
    pub waiting: nat,
    pub size: nat,
}

/// The pool's invariant: every handle is accounted for — idle plus
/// outstanding equals the capacity — and the idle keys are in-range
/// slots, none of them duplicated.
pub open spec fn pool_wf(s: PoolState) -> bool {
    &&& s.idle.len() + s.outstanding == s.size
    &&& forall|i: int| 0 <= i < s.idle.len() ==> #[trigger] s.idle[i] < s.size
    &&& forall|i: int, j: int|
        0 <= i < j < s.idle.len() ==> #[trigger] s.idle[i] != #[trigger] s.idle[j]
}

/// Acquiring: the most recently released idle handle is granted, or the
/// caller suspends and joins the waiters.
pub open spec fn pool_acquire(s: PoolState) -> (PoolState, Option<nat>) {
    if s.idle.len() > 0 {
        (
            PoolState {
                idle: s.idle.drop_last(),
                outstanding: s.outstanding + 1,
                waiting: s.waiting,
                size: s.size,
            },
            Some(s.idle.last()),
        )
    } else {
        (
            PoolState {
                idle: s.idle,
                outstanding: s.outstanding,
                waiting: s.waiting + 1,
                size: s.size,
            },
            None,
        )
    }
}

/// When a handle may be released: it is an in-range slot, it is not
/// already idle, and some handle is indeed checked out.
pub open spec fn pool_release_enabled(s: PoolState, id: nat) -> bool {
    &&& id < s.size
    &&& s.outstanding > 0
    &&& forall|i: int| 0 <= i < s.idle.len() ==> #[trigger] s.idle[i] != id
}

/// Releasing: the handle rejoins the idle set.
pub open spec fn pool_release(s: PoolState, id: nat) -> PoolState {
    PoolState {
        idle: s.idle.push(id),
        outstanding: (s.outstanding - 1) as nat,
        waiting: s.waiting,
        size: s.size,
    }
}

/// A suspended acquirer retrying: it is granted a handle if one is idle
/// by now, and otherwise keeps waiting.
pub open spec fn pool_resume(s: PoolState) -> (PoolState, Option<nat>) {
    if s.waiting > 0 && s.idle.len() > 0 {
        (
            PoolState {
                idle: s.idle.drop_last(),
                outstanding: s.outstanding + 1,
                waiting: (s.waiting - 1) as nat,
                size: s.size,
            },
            Some(s.idle.last()),
        )
    } else {
        (s, None)
    }
}

/// One pool operation, as seen by the abstract state.
pub enum PoolEvent {
    Acquire,
    Resume,
    Release(nat),
}

/// The state after one operation; an operation whose precondition does
/// not hold leaves the state as it is.
pub open spec fn pool_step(s: PoolState, e: PoolEvent) -> PoolState {
    match e {
        PoolEvent::Acquire => pool_acquire(s).0,
        PoolEvent::Resume => pool_resume(s).0,
        PoolEvent::Release(id) => if pool_release_enabled(s, id) {
            pool_release(s, id)
        } else {
            s
        },
    }
}

/// The state after a sequence of operations.
pub open spec fn pool_run(s: PoolState, es: Seq<PoolEvent>) -> PoolState
    decreases es.len(),
{
    if es.len() == 0 {
        s
    } else {
        pool_run(pool_step(s, es[0]), es.skip(1))
    }
}

/// One operation preserves the invariant and the capacity.
pub proof fn lemma_pool_step_wf(s: PoolState, e: PoolEvent)
    requires
        pool_wf(s),
    ensures
        pool_wf(pool_step(s, e)),
        pool_step(s, e).size == s.size,
{
    match e {
        PoolEvent::Acquire => {
            if s.idle.len() > 0 {
                assert(forall|i: int|
                    0 <= i < s.idle.len() - 1 ==> s.idle.drop_last()[i] == s.idle[i]);
            }
        },
        PoolEvent::Resume => {
            if s.waiting > 0 && s.idle.len() > 0 {
                assert(forall|i: int|
                    0 <= i < s.idle.len() - 1 ==> s.idle.drop_last()[i] == s.idle[i]);
            }
        },
        PoolEvent::Release(id) => {
            if pool_release_enabled(s, id) {
                let t = pool_release(s, id);
                assert(forall|i: int| 0 <= i < s.idle.len() ==> t.idle[i] == s.idle[i]);
                assert(t.idle[s.idle.len() as int] == id);
            }
        },
    }
}

/// The pool invariant holds after any sequence of acquire, resume and
/// release operations: the handles in circulation — idle plus checked
/// out — always account exactly for the pool's fixed capacity, and no
/// handle is ever duplicated.
pub proof fn lemma_pool_invariant(s: PoolState, es: Seq<PoolEvent>)
    requires
        pool_wf(s),
    ensures
        pool_wf(pool_run(s, es)),
        pool_run(s, es).idle.len() + pool_run(s, es).outstanding == s.size,
    decreases es.len(),
{
    if es.len() > 0 {
        lemma_pool_step_wf(s, es[0]);
        lemma_pool_invariant(pool_step(s, es[0]), es.skip(1));
    }
}

/// Under full utilization an acquire suspends rather than being
/// granted; one release then unblocks exactly one pending acquire: the
/// first retry is granted the released handle and leaves the pool
/// exhausted again, so a second retry still waits.
pub proof fn lemma_release_unblocks_one(s: PoolState, id: nat)
    requires
        pool_wf(s),
        s.idle.len() == 0,
        id < s.size,
        s.outstanding > 0,
    ensures
        ({
            let (s1, first) = pool_acquire(s);
            let s2 = pool_release(s1, id);
            let (s3, woken) = pool_resume(s2);
            let (s4, second) = pool_resume(s3);
            &&& first is None
            &&& s1.waiting == s.waiting + 1
            &&& woken == Some(id)
            &&& s3.waiting == s.waiting
            &&& s3.idle.len() == 0
            &&& second is None
        }),
{
    let (s1, first) = pool_acquire(s);
    let s2 = pool_release(s1, id);
    assert(s2.idle =~= seq![id]);
    assert(s2.idle.drop_last() =~= Seq::<nat>::empty());
}

/// The fixed-capacity pool of client handles.
pub struct ConnectionPool {
    size: usize,
    idle: Vec<ClientWrapper>,
    outstanding: usize,
    waiting: usize,
}

impl View for ConnectionPool {
    type V = PoolState;

    closed spec fn view(&self) -> PoolState {
        PoolState {
            idle: self.idle@.map_values(|c: ClientWrapper| c.key()),
            outstanding: self.outstanding as nat,
            waiting: self.waiting as nat,
            size: self.size as nat,
        }
    }
}

impl ConnectionPool {
    /// Builds a pool of exactly `pool_size` handles, one per slot, all
    /// idle; a pool of size zero is refused, and no partial pool is
    /// ever handed out.
    pub fn new(pool_size: usize) -> (r: Result<ConnectionPool, ConnectionErr>)
        ensures
            match r {
                Ok(p) => pool_size > 0 && pool_wf(p@) && p@.size == pool_size && p@.idle.len()
                    == pool_size && p@.outstanding == 0 && p@.waiting == 0 && (forall|i: int|
                    0 <= i < pool_size ==> p@.idle[i] == i),
                Err(_) => pool_size == 0,
            },
    {
        if pool_size == 0 {
            return Err(
                ConnectionErr { msg: String::from_str("pool size must be a positive integer") },
            );
        }
        let mut idle: Vec<ClientWrapper> = Vec::new();
        let mut i: usize = 0;
        while i < pool_size
            invariant
                i <= pool_size,
                idle@.len() == i,
                forall|j: int| 0 <= j < i ==> (#[trigger] idle@[j]).key() == j,
            decreases pool_size - i,
        {
            idle.push(ClientWrapper::new(i));
            i = i + 1;
        }
        let p = ConnectionPool { size: pool_size, idle, outstanding: 0, waiting: 0 };
        proof {
            assert(forall|j: int|
                0 <= j < pool_size ==> p@.idle[j] == (#[trigger] p.idle@[j]).key());
        }
        Ok(p)
    }

    /// The pool's fixed capacity.
    pub fn pool_size(&self) -> (r: usize)
        ensures
            r == self@.size,
    {
        self.size
    }

    /// How many handles sit idle.
    pub fn idle_count(&self) -> (r: usize)
        ensures
            r == self@.idle.len(),
    {
        self.idle.len()
    }

    /// How many handles are checked out.
    pub fn outstanding_count(&self) -> (r: usize)
        ensures
            r == self@.outstanding,
    {
        self.outstanding
    }

    /// How many acquirers are suspended.
    pub fn waiting_count(&self) -> (r: usize)
        ensures
            r == self@.waiting,
    {
        self.waiting
    }

    /// Whether the handle of the given slot sits idle in the pool.
    pub fn holds_idle(&self, id: usize) -> (r: bool)
        ensures
            r == exists|i: int| 0 <= i < self@.idle.len() && self@.idle[i] == id,
    {
        let mut i: usize = 0;
        while i < self.idle.len()
            invariant
                i <= self.idle@.len(),
                self@.idle.len() == self.idle@.len(),
                forall|j: int| 0 <= j < self.idle@.len() ==> self@.idle[j] == (
                #[trigger] self.idle@[j]).key(),
                forall|j: int| 0 <= j < i ==> #[trigger] self@.idle[j] != id,
            decreases self.idle@.len() - i,
        {
            if self.idle[i].id() == id {
                assert(self@.idle[i as int] == id);
                return true;
            }
            i = i + 1;
        }
        false
    }

    /// Takes an idle handle out of the pool if one is there. With none
    /// idle the pool is left as it is and the caller suspends: it parks
    /// through [`Self::park_acquirer`] and retries through
    /// [`Self::resume_acquire`] after a release — the two together are
    /// the blocking acquire [`pool_acquire`]. Returning a granted handle
    /// exactly once, on every exit path, is the caller's obligation; a
    /// lost handle permanently shrinks the pool.
    pub fn get_connection(&mut self) -> (r: Option<ClientWrapper>)
        requires
            pool_wf(old(self)@),
        ensures
            pool_wf(final(self)@),
            match r {
                Some(c) => old(self)@.idle.len() > 0 && Some(c.key()) == pool_acquire(
                    old(self)@,
                ).1 && final(self)@ == pool_acquire(old(self)@).0,
                None => old(self)@.idle.len() == 0 && final(self)@ == old(self)@,
            },
    {
        proof {
            lemma_pool_step_wf(old(self)@, PoolEvent::Acquire);
        }
        match self.idle.pop() {
            Some(c) => {
                self.outstanding = self.outstanding + 1;
                proof {
                    assert(self@.idle =~= old(self)@.idle.drop_last());
                }
                Some(c)
            },
            None => {
                proof {
                    assert(self@ =~= old(self)@);
                }
                None
            },
        }
    }

    /// A caller that found no idle handle suspends: it joins the
    /// waiters until a release lets [`Self::resume_acquire`] through.
    pub fn park_acquirer(&mut self)
        requires
            pool_wf(old(self)@),
            old(self)@.waiting < usize::MAX,
        ensures
            pool_wf(final(self)@),
            final(self)@ == (PoolState {
                waiting: old(self)@.waiting + 1,
                ..old(self)@
            }),
    {
        self.waiting = self.waiting + 1;
        proof {
            assert(self@ =~= (PoolState { waiting: old(self)@.waiting + 1, ..old(self)@ }));
        }
    }

    /// A suspended acquirer retrying after a release: granted a handle
    /// if one is idle by now, and otherwise kept among the waiters.
    pub fn resume_acquire(&mut self) -> (r: Option<ClientWrapper>)
        requires
            pool_wf(old(self)@),
            old(self)@.waiting > 0,
        ensures
            pool_wf(final(self)@),
            final(self)@ == pool_resume(old(self)@).0,
            match r {
                Some(c) => old(self)@.idle.len() > 0 && Some(c.key()) == pool_resume(
                    old(self)@,
                ).1,
                None => old(self)@.idle.len() == 0,
            },
    {
        proof {
            lemma_pool_step_wf(old(self)@, PoolEvent::Resume);
        }
        match self.idle.pop() {
            Some(c) => {
                self.outstanding = self.outstanding + 1;
                self.waiting = self.waiting - 1;
                proof {
                    assert(self@.idle =~= old(self)@.idle.drop_last());
                }
                Some(c)
            },
            None => {
                proof {
                    assert(self@.idle =~= old(self)@.idle);
                }
                None
            },
        }
    }

    /// Returns a checked-out handle to the idle set. Must be called
    /// exactly once per granted handle, on every exit path — success,
    /// error, or early return.
    pub fn release_connection(&mut self, client: ClientWrapper)
        requires
            pool_wf(old(self)@),
            pool_release_enabled(old(self)@, client.key()),
        ensures
            pool_wf(final(self)@),
            final(self)@ == pool_release(old(self)@, client.key()),
    {
        proof {
            lemma_pool_step_wf(old(self)@, PoolEvent::Release(client.key()));
        }
        let ghost k = client.key();
        self.idle.push(client);
        self.outstanding = self.outstanding - 1;
        proof {
            assert(self@.idle =~= old(self)@.idle.push(k));
        }
    }
}

} // verus!
