//! A worker: a fixed worker id and its state behind one lock, so that many
//! threads can mint from it at once.
use crate::clock::wall_clock_millis;
use crate::error::SnowflakeError;
use crate::layout::{id_value, timestamp_field, worker_id_field, MAX_WORKER_ID};
use crate::state::WorkerState;
use vstd::prelude::*;
use vstd::rwlock::{RwLock, RwLockPredicate};

verus! {

/// What the lock keeps true of the state it guards: it is well formed, and
/// for `worker_id` it stands no lower than where it started at `started_at`.
pub struct StateAbove {
    pub worker_id: u16,
    pub started_at: u64,
}

impl RwLockPredicate<WorkerState> for StateAbove {
    open spec fn inv(self, v: WorkerState) -> bool {
        &&& v.wf()
        &&& v.floor(self.worker_id) >= id_value(self.started_at as int, self.worker_id as int, 0)
    }
}

/// Mints identifiers for one worker id. The last timestamp and the sequence
/// number sit behind a single lock and are read and written together.
pub struct SnowFlakeWorker {
    worker_id: u16,
    started_at: u64,
    state: RwLock<WorkerState, StateAbove>,
}

impl SnowFlakeWorker {
    #[verifier::type_invariant]
    spec fn inv(&self) -> bool {
        &&& self.worker_id <= MAX_WORKER_ID
        &&& self.state.pred() == (StateAbove { worker_id: self.worker_id, started_at: self.started_at })
    }

    /// The worker id this worker stamps into its identifiers.
    pub closed spec fn spec_worker_id(&self) -> u16 {
        self.worker_id
    }

    /// The clock reading, in milliseconds since the Unix epoch, that the
    /// worker started at.
    pub closed spec fn spec_started_at(&self) -> u64 {
        self.started_at
    }

    /// A worker for `worker_id`, whose state starts at the clock's current
    /// millisecond with sequence 0. Fails where the id does not fit in
    /// 10 bits.
    pub fn new(worker_id: u16) -> (r: Result<Self, SnowflakeError>)
        ensures
            worker_id <= MAX_WORKER_ID <==> r is Ok,
            r matches Ok(w) ==> w.spec_worker_id() == worker_id,
            r matches Err(e) ==> e == SnowflakeError::Configuration,
    {
        if worker_id > MAX_WORKER_ID {
            return Err(SnowflakeError::Configuration);
        }
        let started_at = wall_clock_millis();
        let state = WorkerState::new(started_at);
        let pred = Ghost(StateAbove { worker_id, started_at });
        Ok(SnowFlakeWorker { worker_id, started_at, state: RwLock::new(state, pred) })
    }

    /// The clock reading, in milliseconds since the Unix epoch, that the
    /// worker started at.
    pub fn started_at(&self) -> (t: u64)
        ensures
            t == self.spec_started_at(),
    {
        self.started_at
    }

    /// The worker id this worker stamps into its identifiers.
    pub fn worker_id(&self) -> (w: u16)
        ensures
            w == self.spec_worker_id(),
            w <= MAX_WORKER_ID,
    {
        proof {
            use_type_invariant(self);
        }
        self.worker_id
    }

    /// Mints the next identifier, holding the lock for the whole step, as
    /// `WorkerState::next_id` does. The identifier carries this worker's id;
    /// minting fails on a clock that went backwards, one past the timestamp
    /// field, or one that stalled.
    pub fn next_id(&self) -> (r: Result<u64, SnowflakeError>)
        ensures
            r matches Ok(id) ==> worker_id_field(id as int) == self.spec_worker_id(),
            r matches Ok(id) ==> id > id_value(
                self.spec_started_at() as int,
                self.spec_worker_id() as int,
                0,
            ),
            r matches Ok(id) ==> timestamp_field(id as int) >= self.spec_started_at(),
            r matches Err(e) ==> e != SnowflakeError::Configuration,
    {
        proof {
            use_type_invariant(self);
        }
        let (mut state, handle) = self.state.acquire_write();
        let r = state.next_id(self.worker_id);
        handle.release_write(state);
        proof {
            if let Ok(id) = r {
                crate::layout::lemma_decode_round_trip(
                    state.last_timestamp as int,
                    self.worker_id as int,
                    state.sequence as int,
                );
            }
        }
        r
    }
}

} // verus!
