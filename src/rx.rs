use vstd::prelude::*;
use crate::config::{ConfigError, StreamConfig, config_error};
use crate::driver::{DriverCall, META_FLAG_RX_NOW, META_STATUS_OVERRUN, RX_TIMEOUT_MS};
use crate::power::{PowerRatio, avg_power_ratio, calculate_avg_power};

verus! {

/// What one receive iteration reports.
#[derive(PartialEq, Eq, Structural, Clone, Copy, Debug)]
pub enum RxReport {
    /// The driver refused the transfer; the loop goes on.
    Failed,
    /// Samples were lost; only `valid` pairs of the buffer hold data, so no
    /// power is computed.
    Overrun { valid: u32 },
    /// The burst arrived whole; its average power.
    Power(PowerRatio),
}

/// One answer of the driver to a receive call: the status code, the status
/// bits of the transfer, the count of pairs actually received, and the
/// buffer's content afterwards.
pub type RxEvent = (i32, u32, u32, Seq<i16>);

/// What an iteration reports for the driver's answer `e`.
pub open spec fn rx_report(e: RxEvent) -> RxReport {
    if e.0 != 0 {
        RxReport::Failed
    } else if e.1 & META_STATUS_OVERRUN != 0 {
        RxReport::Overrun { valid: e.2 }
    } else {
        RxReport::Power(
            PowerRatio { energy: avg_power_ratio(e.3).0 as u128, reference: avg_power_ratio(e.3).1 as u128 },
        )
    }
}

/// The receive loop: each iteration asks for one burst at once. A refused
/// transfer is reported and the loop goes on; an overrun is reported with the
/// count of valid pairs; otherwise the burst's average power is reported.
#[derive(PartialEq, Eq, Structural, Clone, Copy, Debug)]
pub struct RxLoop {
    /// Number of iterations to run.
    pub iterations: u32,
    /// Number of iterations done, whatever they reported.
    pub completed: u32,
    /// Sample pairs per burst.
    pub count: u32,
}

/// The driver call that the loop in state `s` asks for, if any.
pub open spec fn rx_call(s: RxLoop) -> Option<DriverCall> {
    if s.completed < s.iterations {
        Some(DriverCall::SyncRx { count: s.count, flags: META_FLAG_RX_NOW, timeout_ms: RX_TIMEOUT_MS })
    } else {
        None
    }
}

/// The state after one more iteration.
pub open spec fn rx_next(s: RxLoop) -> RxLoop {
    RxLoop { completed: (s.completed + 1) as u32, ..s }
}

/// The reports of the iterations run from `s` while the driver answers with
/// `events`, until the loop ends or the events run out.
pub open spec fn rx_reports(s: RxLoop, events: Seq<RxEvent>) -> Seq<RxReport>
    decreases events.len(),
{
    if events.len() == 0 || rx_call(s) is None {
        Seq::empty()
    } else {
        seq![rx_report(events[0])] + rx_reports(rx_next(s), events.drop_first())
    }
}

/// The state reached from `s` when the driver answers with `events`.
pub open spec fn rx_run(s: RxLoop, events: Seq<RxEvent>) -> RxLoop
    decreases events.len(),
{
    if events.len() == 0 || rx_call(s) is None {
        s
    } else {
        rx_run(rx_next(s), events.drop_first())
    }
}

/// Prepares the receive loop of `config`: `num_iterations` bursts of
/// `num_samples` pairs. A configuration that `validate` refuses is refused
/// with the same error.
pub fn stream_rx(config: &StreamConfig) -> (r: Result<RxLoop, ConfigError>)
    ensures
        r matches Err(e) ==> config_error(*config) == Some(e),
        r is Ok <==> config_error(*config) is None,
        r matches Ok(l) ==> {
            &&& l.iterations == config.num_iterations
            &&& l.completed == 0
            &&& l.count == config.num_samples
        },
{
    match config.validate() {
        Err(e) => Err(e),
        Ok(()) => Ok(RxLoop { iterations: config.num_iterations as u32, completed: 0, count: config.num_samples as u32 }),
    }
}

impl RxLoop {
    /// A zeroed buffer for one burst: two values per pair.
    pub fn new_buffer(&self) -> (r: Vec<i16>)
        requires
            2 * self.count <= usize::MAX,
        ensures
            r@.len() == 2 * self.count,
            forall|i: int| 0 <= i < r@.len() ==> r@[i] == 0,
    {
        let n: usize = 2 * self.count as usize;
        let mut buf: Vec<i16> = Vec::with_capacity(n);
        while buf.len() < n
            invariant
                buf@.len() <= n,
                forall|i: int| 0 <= i < buf@.len() ==> buf@[i] == 0,
            decreases n - buf@.len(),
        {
            buf.push(0);
        }
        buf
    }

    /// The driver call to perform next; `None` once every iteration ran.
    pub fn next_call(&self) -> (r: Option<DriverCall>)
        ensures
            r == rx_call(*self),
    {
        if self.completed < self.iterations {
            Some(DriverCall::SyncRx { count: self.count, flags: META_FLAG_RX_NOW, timeout_ms: RX_TIMEOUT_MS })
        } else {
            None
        }
    }

    /// Records the driver's answer to the pending receive call and says what
    /// the iteration reports: a refused transfer, an overrun with the count of
    /// valid pairs, or the average power of `samples`.
    pub fn record(&mut self, status: i32, meta_status: u32, actual_count: u32, samples: &[i16]) -> (r: RxReport)
        requires
            old(self).completed < old(self).iterations,
        ensures
            r == rx_report((status, meta_status, actual_count, samples@)),
            *final(self) == rx_next(*old(self)),
    {
        self.completed = self.completed + 1;
        if status != 0 {
            RxReport::Failed
        } else if meta_status & META_STATUS_OVERRUN != 0 {
            RxReport::Overrun { valid: actual_count }
        } else {
            RxReport::Power(calculate_avg_power(samples))
        }
    }

    /// Whether every iteration ran.
    pub fn is_finished(&self) -> (r: bool)
        ensures
            r == (rx_call(*self) is None),
    {
        self.completed >= self.iterations
    }
}

/// A receive failure never ends the loop: from a state with `m` iterations
/// left, `m` answers of the driver, whatever they are, give `m` reports, the
/// `i`-th being what answer `i` calls for, and the loop ends with every
/// iteration run.
pub proof fn lemma_rx_runs_every_iteration(s: RxLoop, events: Seq<RxEvent>)
    requires
        s.completed <= s.iterations,
        events.len() == s.iterations - s.completed,
    ensures
        rx_reports(s, events).len() == events.len(),
        forall|i: int| 0 <= i < events.len() ==> #[trigger] rx_reports(s, events)[i] == rx_report(events[i]),
        rx_run(s, events).completed == s.iterations,
    decreases events.len(),
{
    if events.len() > 0 {
        let e1 = events.drop_first();
        lemma_rx_runs_every_iteration(rx_next(s), e1);
        assert forall|i: int| 0 <= i < events.len() implies #[trigger] rx_reports(s, events)[i] == rx_report(
            events[i],
        ) by {
            if i > 0 {
                assert(rx_reports(s, events)[i] == rx_reports(rx_next(s), e1)[i - 1]);
                assert(e1[i - 1] == events[i]);
            }
        }
    }
}

/// With one overrun at iteration `j` and every transfer accepted, a fresh
/// loop of `M` iterations runs all `M`: every iteration but `j` reports the
/// power of its buffer, and iteration `j` reports the count of valid pairs.
pub proof fn lemma_rx_overrun_once(s: RxLoop, events: Seq<RxEvent>, j: int)
    requires
        s.completed == 0,
        events.len() == s.iterations,
        0 <= j < events.len(),
        forall|i: int| 0 <= i < events.len() ==> (#[trigger] events[i]).0 == 0,
        forall|i: int| 0 <= i < events.len() && i != j ==> (#[trigger] events[i]).1 & META_STATUS_OVERRUN == 0,
        events[j].1 & META_STATUS_OVERRUN != 0,
    ensures
        rx_run(s, events).completed == events.len(),
        rx_reports(s, events).len() == events.len(),
        rx_reports(s, events)[j] == (RxReport::Overrun { valid: events[j].2 }),
        forall|i: int|
            0 <= i < events.len() && i != j ==> #[trigger] rx_reports(s, events)[i] == RxReport::Power(
                PowerRatio {
                    energy: avg_power_ratio(events[i].3).0 as u128,
                    reference: avg_power_ratio(events[i].3).1 as u128,
                },
            ),
{
    lemma_rx_runs_every_iteration(s, events);
}

} // verus!
