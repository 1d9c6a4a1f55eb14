use vstd::prelude::*;
use crate::config::{ConfigError, Direction, StreamConfig, config_error};
use crate::driver::{DriverCall, TX_BURST_FLAGS, TX_TIMEOUT_MS};

verus! {

/// The step of the transmit loop that failed.
#[derive(PartialEq, Eq, Structural, Clone, Copy, Debug)]
pub enum TxError {
    Transfer,
    Timestamp,
}

/// The description of a transmit error.
pub open spec fn tx_error_message(e: TxError) -> Seq<char> {
    match e {
        TxError::Transfer => "Failed to sync tx"@,
        TxError::Timestamp => "Failed to get timestamp"@,
    }
}

impl TxError {
    /// A description of the error that names the step that failed.
    pub fn message(&self) -> (r: &'static str)
        ensures
            r@ == tx_error_message(*self),
    {
        match self {
            TxError::Transfer => "Failed to sync tx",
            TxError::Timestamp => "Failed to get timestamp",
        }
    }
}

/// Where the transmit loop stands.
#[derive(PartialEq, Eq, Structural, Clone, Copy, Debug)]
pub enum TxPhase {
    /// The burst is to be transmitted.
    Transmit,
    /// The burst went out; the hardware timestamp is to be read.
    Timestamp,
    /// Every iteration completed.
    Done,
    /// A call failed; nothing more is done.
    Failed(TxError),
}

/// The transmit loop: each iteration sends the whole burst as one transfer,
/// then reads the transmit timestamp. The first failure ends the loop.
#[derive(PartialEq, Eq, Structural, Clone, Copy, Debug)]
pub struct TxLoop {
    /// Number of iterations to run.
    pub iterations: u32,
    /// Number of iterations whose transfer and timestamp both succeeded.
    pub completed: u32,
    /// Sample pairs per burst.
    pub count: u32,
    /// The timestamp read by the last completed iteration.
    pub last_timestamp: u64,
    pub phase: TxPhase,
}

/// One answer of the driver: the status code, and the timestamp it read
/// (used only for a timestamp query).
pub type TxEvent = (i32, u64);

impl TxLoop {
    pub open spec fn wf(&self) -> bool {
        &&& self.completed <= self.iterations
        &&& match self.phase {
            TxPhase::Done => self.completed == self.iterations,
            _ => self.completed < self.iterations,
        }
    }

    /// A loop that has done nothing yet.
    pub open spec fn is_fresh(&self) -> bool {
        &&& self.wf()
        &&& self.completed == 0
        &&& self.phase == TxPhase::Transmit
    }
}

/// The driver call that the loop in state `s` asks for, if any.
pub open spec fn tx_call(s: TxLoop) -> Option<DriverCall> {
    match s.phase {
        TxPhase::Transmit => Some(DriverCall::SyncTx { count: s.count, flags: TX_BURST_FLAGS, timeout_ms: TX_TIMEOUT_MS }),
        TxPhase::Timestamp => Some(DriverCall::GetTimestamp { direction: Direction::Tx }),
        _ => None,
    }
}

/// The state after the driver answered the call of state `s` with `e`.
pub open spec fn tx_next(s: TxLoop, e: TxEvent) -> TxLoop {
    match s.phase {
        TxPhase::Transmit => if e.0 == 0 {
            TxLoop { phase: TxPhase::Timestamp, ..s }
        } else {
            TxLoop { phase: TxPhase::Failed(TxError::Transfer), ..s }
        },
        TxPhase::Timestamp => if e.0 == 0 {
            let c = (s.completed + 1) as u32;
            TxLoop {
                completed: c,
                last_timestamp: e.1,
                phase: if c == s.iterations { TxPhase::Done } else { TxPhase::Transmit },
                ..s
            }
        } else {
            TxLoop { phase: TxPhase::Failed(TxError::Timestamp), ..s }
        },
        _ => s,
    }
}

/// The driver calls made from state `s` while the driver answers with
/// `events`, one event per call, until the loop ends or the events run out.
pub open spec fn tx_trace(s: TxLoop, events: Seq<TxEvent>) -> Seq<DriverCall>
    decreases events.len(),
{
    if events.len() == 0 || tx_call(s) is None {
        Seq::empty()
    } else {
        seq![tx_call(s).unwrap()] + tx_trace(tx_next(s, events[0]), events.drop_first())
    }
}

/// The state reached from `s` when the driver answers with `events`.
pub open spec fn tx_run(s: TxLoop, events: Seq<TxEvent>) -> TxLoop
    decreases events.len(),
{
    if events.len() == 0 || tx_call(s) is None {
        s
    } else {
        tx_run(tx_next(s, events[0]), events.drop_first())
    }
}

/// Prepares the transmit loop of `config`: `num_iterations` bursts of
/// `num_samples` pairs. A configuration that `validate` refuses is refused
/// with the same error.
pub fn stream_tx(config: &StreamConfig) -> (r: Result<TxLoop, ConfigError>)
    ensures
        r matches Err(e) ==> config_error(*config) == Some(e),
        r is Ok <==> config_error(*config) is None,
        r matches Ok(t) ==> {
            &&& t.is_fresh()
            &&& t.iterations == config.num_iterations
            &&& t.count == config.num_samples
            &&& t.last_timestamp == 0
        },
{
    match config.validate() {
        Err(e) => Err(e),
        Ok(()) => Ok(
            TxLoop {
                iterations: config.num_iterations as u32,
                completed: 0,
                count: config.num_samples as u32,
                last_timestamp: 0,
                phase: TxPhase::Transmit,
            },
        ),
    }
}

impl TxLoop {
    /// The driver call to perform next; `None` once the loop has ended.
    pub fn next_call(&self) -> (r: Option<DriverCall>)
        ensures
            r == tx_call(*self),
    {
        match self.phase {
            TxPhase::Transmit => Some(DriverCall::SyncTx { count: self.count, flags: TX_BURST_FLAGS, timeout_ms: TX_TIMEOUT_MS }),
            TxPhase::Timestamp => Some(DriverCall::GetTimestamp { direction: Direction::Tx }),
            _ => None,
        }
    }

    /// Records the driver's answer `(status, timestamp)` to the pending call.
    pub fn record(&mut self, status: i32, timestamp: u64)
        requires
            old(self).wf(),
        ensures
            *final(self) == tx_next(*old(self), (status, timestamp)),
            final(self).wf(),
    {
        match self.phase {
            TxPhase::Transmit => {
                if status == 0 {
                    self.phase = TxPhase::Timestamp;
                } else {
                    self.phase = TxPhase::Failed(TxError::Transfer);
                }
            },
            TxPhase::Timestamp => {
                if status == 0 {
                    self.completed = self.completed + 1;
                    self.last_timestamp = timestamp;
                    self.phase = if self.completed == self.iterations {
                        TxPhase::Done
                    } else {
                        TxPhase::Transmit
                    };
                } else {
                    self.phase = TxPhase::Failed(TxError::Timestamp);
                }
            },
            _ => {},
        }
    }

    /// The outcome: `None` while the loop runs, then success or the step
    /// that failed.
    pub fn outcome(&self) -> (r: Option<Result<(), TxError>>)
        ensures
            self.phase == TxPhase::Done ==> r == Some(Ok::<(), TxError>(())),
            self.phase matches TxPhase::Failed(e) ==> r == Some(Err::<(), TxError>(e)),
            (self.phase == TxPhase::Transmit || self.phase == TxPhase::Timestamp) ==> r is None,
    {
        match self.phase {
            TxPhase::Done => Some(Ok(())),
            TxPhase::Failed(e) => Some(Err(e)),
            _ => None,
        }
    }
}

proof fn lemma_tx_succeeds(s: TxLoop, events: Seq<TxEvent>)
    requires
        s.wf(),
        s.phase == TxPhase::Transmit,
        events.len() == 2 * (s.iterations - s.completed),
        forall|i: int| 0 <= i < events.len() ==> (#[trigger] events[i]).0 == 0,
    ensures
        tx_trace(s, events).len() == events.len(),
        forall|k: int|
            0 <= k < s.iterations - s.completed ==> #[trigger] tx_trace(s, events)[2 * k] == (DriverCall::SyncTx {
                count: s.count,
                flags: TX_BURST_FLAGS,
                timeout_ms: TX_TIMEOUT_MS,
            }) && tx_trace(s, events)[2 * k + 1] == (DriverCall::GetTimestamp { direction: Direction::Tx }),
        tx_run(s, events).phase == TxPhase::Done,
        tx_run(s, events).completed == s.iterations,
    decreases s.iterations - s.completed,
{
    let s1 = tx_next(s, events[0]);
    let e1 = events.drop_first();
    let s2 = tx_next(s1, e1[0]);
    let e2 = e1.drop_first();
    assert(e1[0] == events[1]);
    if s2.phase == TxPhase::Transmit {
        assert forall|i: int| 0 <= i < e2.len() implies (#[trigger] e2[i]).0 == 0 by {
            assert(e2[i] == events[i + 2]);
        }
        lemma_tx_succeeds(s2, e2);
    } else {
        assert(e2.len() == 0);
    }
    let t = tx_trace(s, events);
    let t2 = tx_trace(s2, e2);
    assert(t == seq![tx_call(s).unwrap()] + tx_trace(s1, e1));
    assert(tx_trace(s1, e1) == seq![tx_call(s1).unwrap()] + t2);
    assert(tx_run(s, events) == tx_run(s1, e1));
    assert(tx_run(s1, e1) == tx_run(s2, e2));
    assert(t =~= seq![tx_call(s).unwrap(), tx_call(s1).unwrap()] + t2);
    assert forall|k: int| 1 <= k < s.iterations - s.completed implies #[trigger] t[2 * k] == t2[2 * (k - 1)] && t[2
        * k + 1] == t2[2 * (k - 1) + 1] by {}
}

proof fn lemma_tx_fails(s: TxLoop, events: Seq<TxEvent>, k: nat)
    requires
        s.wf(),
        s.phase == TxPhase::Transmit,
        k < s.iterations - s.completed,
        2 * k < events.len(),
        forall|i: int| 0 <= i < 2 * k ==> (#[trigger] events[i]).0 == 0,
        events[2 * k as int].0 != 0,
    ensures
        tx_trace(s, events).len() == 2 * k + 1,
        tx_trace(s, events)[2 * k as int] == tx_call(s).unwrap(),
        tx_run(s, events).phase == TxPhase::Failed(TxError::Transfer),
        tx_run(s, events).completed == s.completed + k,
    decreases k,
{
    let s1 = tx_next(s, events[0]);
    let e1 = events.drop_first();
    if k == 0 {
        assert(tx_call(s1) is None);
        assert(tx_trace(s1, e1).len() == 0);
        assert(tx_run(s1, e1) == s1);
        assert(tx_trace(s, events) =~= seq![tx_call(s).unwrap()]);
    } else {
        let s2 = tx_next(s1, e1[0]);
        let e2 = e1.drop_first();
        assert(e1[0] == events[1]);
        assert forall|i: int| 0 <= i < 2 * (k - 1) implies (#[trigger] e2[i]).0 == 0 by {
            assert(e2[i] == events[i + 2]);
        }
        assert(e2[2 * (k - 1)] == events[2 * k as int]);
        lemma_tx_fails(s2, e2, (k - 1) as nat);
        let t2 = tx_trace(s2, e2);
        assert(tx_trace(s, events) == seq![tx_call(s).unwrap()] + tx_trace(s1, e1));
        assert(tx_trace(s1, e1) == seq![tx_call(s1).unwrap()] + t2);
        assert(tx_run(s, events) == tx_run(s2, e2));
        assert(tx_trace(s, events) =~= seq![tx_call(s).unwrap(), tx_call(s1).unwrap()] + t2);
    }
}

/// When every call succeeds, a fresh loop of N iterations makes exactly 2N
/// calls: each burst transfer is followed by one timestamp query, N of each,
/// and the loop ends done with N iterations completed.
pub proof fn lemma_tx_all_succeed(s: TxLoop, events: Seq<TxEvent>)
    requires
        s.is_fresh(),
        events.len() == 2 * s.iterations,
        forall|i: int| 0 <= i < events.len() ==> (#[trigger] events[i]).0 == 0,
    ensures
        tx_trace(s, events).len() == 2 * s.iterations,
        forall|k: int|
            0 <= k < s.iterations ==> ((#[trigger] tx_trace(s, events)[2 * k]) is SyncTx)
                && tx_trace(s, events)[2 * k + 1] == (DriverCall::GetTimestamp { direction: Direction::Tx }),
        tx_run(s, events).phase == TxPhase::Done,
        tx_run(s, events).completed == s.iterations,
{
    lemma_tx_succeeds(s, events);
}

/// When the transfer of iteration k fails after every earlier call
/// succeeded, the loop makes no call after it, whatever the driver would
/// answer next: it ends failed at the transfer with k iterations completed.
pub proof fn lemma_tx_stops_at_failure(s: TxLoop, events: Seq<TxEvent>, k: nat)
    requires
        s.is_fresh(),
        k < s.iterations,
        2 * k < events.len(),
        forall|i: int| 0 <= i < 2 * k ==> (#[trigger] events[i]).0 == 0,
        events[2 * k as int].0 != 0,
    ensures
        tx_trace(s, events).len() == 2 * k + 1,
        (tx_trace(s, events)[2 * k as int] is SyncTx),
        tx_run(s, events).phase == TxPhase::Failed(TxError::Transfer),
        tx_run(s, events).completed == k,
{
    lemma_tx_fails(s, events, k);
}

} // verus!
