//! The mutable half of a worker: the timestamp of the last identifier and
//! the count of identifiers minted at it.
use crate::clock::{block_until, wall_clock_millis};
use crate::error::SnowflakeError;
use crate::layout::{id_value, pack_id, MAX_SEQUENCE, MAX_TIMESTAMP, MAX_WORKER_ID};
use vstd::prelude::*;

verus! {

/// The last timestamp used and the sequence number reached at it. The two
/// change together and only together.
#[derive(Debug, Clone, Copy, PartialEq, Eq, Structural)]
pub struct WorkerState {
    pub last_timestamp: u64,
    pub sequence: u16,
}

impl WorkerState {
    /// The sequence number stays within its 12-bit field.
    pub open spec fn wf(&self) -> bool {
        self.sequence <= MAX_SEQUENCE
    }

    /// The identifier this state stands at for a worker: every identifier it
    /// mints next is larger.
    pub open spec fn floor(&self, worker_id: u16) -> int {
        id_value(self.last_timestamp as int, worker_id as int, self.sequence as int)
    }

    /// A fresh state whose last timestamp is `last_timestamp`.
    pub fn new(last_timestamp: u64) -> (s: Self)
        ensures
            s.wf(),
            s.last_timestamp == last_timestamp,
            s.sequence == 0,
    {
        WorkerState { last_timestamp, sequence: 0 }
    }

    /// Decides what one clock reading `now` yields. A reading earlier than
    /// the last timestamp fails, as does one past the timestamp field; in
    /// the same millisecond the sequence advances, and `Ok(None)` says that
    /// it is exhausted and a later reading is needed; a later millisecond
    /// starts again at sequence 0. On `Ok(None)` and on failure the state
    /// is left as it was.
    pub fn issue_at(&mut self, worker_id: u16, now: u64) -> (r: Result<Option<u64>, SnowflakeError>)
        requires
            old(self).wf(),
            worker_id <= MAX_WORKER_ID,
        ensures
            final(self).wf(),
            r matches Ok(Some(id)) ==> issued(*old(self), *final(self), worker_id, id),
            if now < old(self).last_timestamp {
                &&& r == Err::<Option<u64>, SnowflakeError>(SnowflakeError::ClockRegression)
                &&& *final(self) == *old(self)
            } else if now > MAX_TIMESTAMP {
                &&& r == Err::<Option<u64>, SnowflakeError>(SnowflakeError::TimestampOverflow)
                &&& *final(self) == *old(self)
            } else if now == old(self).last_timestamp && old(self).sequence == MAX_SEQUENCE {
                &&& r == Ok::<Option<u64>, SnowflakeError>(None)
                &&& *final(self) == *old(self)
            } else {
                let sequence = if now == old(self).last_timestamp {
                    old(self).sequence + 1
                } else {
                    0
                };
                &&& final(self).last_timestamp == now
                &&& final(self).sequence == sequence
                &&& r == Ok::<Option<u64>, SnowflakeError>(
                    Some(id_value(now as int, worker_id as int, sequence) as u64),
                )
                &&& id_value(now as int, worker_id as int, sequence) <= u64::MAX
            },
    {
        if now < self.last_timestamp {
            return Err(SnowflakeError::ClockRegression);
        }
        if now > MAX_TIMESTAMP {
            return Err(SnowflakeError::TimestampOverflow);
        }
        if now == self.last_timestamp {
            if self.sequence == MAX_SEQUENCE {
                return Ok(None);
            }
            self.sequence = self.sequence + 1;
        } else {
            self.sequence = 0;
            self.last_timestamp = now;
        }
        Ok(Some(pack_id(now, worker_id, self.sequence)))
    }

    /// Mints the next identifier for `worker_id` from the wall clock. Where
    /// the current millisecond is exhausted it busy-waits for a later one.
    /// On failure the state is left as it was.
    pub fn next_id(&mut self, worker_id: u16) -> (r: Result<u64, SnowflakeError>)
        requires
            old(self).wf(),
            worker_id <= MAX_WORKER_ID,
        ensures
            final(self).wf(),
            match r {
                Ok(id) => issued(*old(self), *final(self), worker_id, id),
                Err(e) => *final(self) == *old(self) && e != SnowflakeError::Configuration,
            },
    {
        let now = wall_clock_millis();
        match self.issue_at(worker_id, now) {
            Ok(Some(id)) => Ok(id),
            Ok(None) => match block_until(self.last_timestamp) {
                Some(later) => match self.issue_at(worker_id, later) {
                    Ok(Some(id)) => Ok(id),
                    Ok(None) => Err(SnowflakeError::ClockStalled),
                    Err(e) => Err(e),
                },
                None => Err(SnowflakeError::ClockStalled),
            },
            Err(e) => Err(e),
        }
    }
}

/// A successful mint of `id` for `worker_id` took the state from `pre` to
/// `post`: the id lies above where `pre` stood, and `post` stands at it.
pub open spec fn issued(pre: WorkerState, post: WorkerState, worker_id: u16, id: u64) -> bool {
    &&& post.wf()
    &&& pre.floor(worker_id) < id
    &&& id == post.floor(worker_id)
    &&& pre.last_timestamp <= post.last_timestamp
}

/// A run of successful mints: `ids[k]` took `states[k]` to `states[k + 1]`.
/// A failed mint leaves the state as it was, so failures in between do not
/// break a run.
pub open spec fn issued_run(states: Seq<WorkerState>, ids: Seq<u64>, worker_id: u16) -> bool {
    &&& states.len() == ids.len() + 1
    &&& forall|k: int|
        0 <= k < ids.len() ==> issued(states[k], states[k + 1], worker_id, #[trigger] ids[k])
}

proof fn lemma_floor_increases(states: Seq<WorkerState>, ids: Seq<u64>, worker_id: u16, i: int, j: int)
    requires
        issued_run(states, ids, worker_id),
        0 <= i < j < states.len(),
    ensures
        states[i].floor(worker_id) < states[j].floor(worker_id),
    decreases j - i,
{
    assert(issued(states[j - 1], states[j], worker_id, ids[j - 1]));
    if i < j - 1 {
        lemma_floor_increases(states, ids, worker_id, i, j - 1);
    }
}

/// Identifiers minted one after another by one worker strictly increase: a
/// later mint never returns a smaller or equal identifier.
pub proof fn lemma_issued_ids_increase(states: Seq<WorkerState>, ids: Seq<u64>, worker_id: u16)
    requires
        issued_run(states, ids, worker_id),
    ensures
        forall|i: int, j: int| 0 <= i < j < ids.len() ==> ids[i] < ids[j],
{
    assert forall|i: int, j: int| 0 <= i < j < ids.len() implies ids[i] < ids[j] by {
        assert(issued(states[i], states[i + 1], worker_id, ids[i]));
        assert(issued(states[j], states[j + 1], worker_id, ids[j]));
        lemma_floor_increases(states, ids, worker_id, i + 1, j + 1);
    }
}

/// Identifiers minted one after another by one worker are pairwise
/// distinct.
pub proof fn lemma_issued_ids_distinct(states: Seq<WorkerState>, ids: Seq<u64>, worker_id: u16)
    requires
        issued_run(states, ids, worker_id),
    ensures
        forall|i: int, j: int| 0 <= i < ids.len() && 0 <= j < ids.len() && i != j ==> ids[i] != ids[j],
{
    lemma_issued_ids_increase(states, ids, worker_id);
    assert forall|i: int, j: int| 0 <= i < ids.len() && 0 <= j < ids.len() && i != j implies ids[i] != ids[j] by {
        if i < j {
            assert(ids[i] < ids[j]);
        } else {
            assert(ids[j] < ids[i]);
        }
    }
}

} // verus!
