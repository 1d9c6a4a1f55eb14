use vstd::prelude::*;
use crate::config::{Direction, StreamConfig, decode_direction, direction_of};
use crate::driver::{
    DriverCall,
    Layout,
    layout_of,
    SYNC_BUFFER_SIZE,
    SYNC_NUM_BUFFERS,
    SYNC_TIMEOUT_MS,
    SYNC_TRANSFER_CHUNK,
};

verus! {

/// A step of channel initialization.
#[derive(PartialEq, Eq, Structural, Clone, Copy, Debug)]
pub enum InitStep {
    Frequency,
    SampleRate,
    GainMode,
    Gain,
    SyncConfig,
    EnableModule,
}

/// Why a channel could not be initialized.
#[derive(PartialEq, Eq, Structural, Clone, Copy, Debug)]
pub enum InitError {
    /// The direction code is neither transmit nor receive.
    InvalidDirection,
    /// The driver refused the call of this step.
    Failed(InitStep),
}

/// The description of an initialization error.
pub open spec fn init_error_message(e: InitError) -> Seq<char> {
    match e {
        InitError::InvalidDirection => "Invalid direction"@,
        InitError::Failed(InitStep::Frequency) => "Failed to set frequency"@,
        InitError::Failed(InitStep::SampleRate) => "Failed to set sample rate"@,
        InitError::Failed(InitStep::GainMode) => "Failed to set gain mode"@,
        InitError::Failed(InitStep::Gain) => "Failed to set gain"@,
        InitError::Failed(InitStep::SyncConfig) => "Failed to sync config"@,
        InitError::Failed(InitStep::EnableModule) => "Failed to enable module"@,
    }
}

impl InitError {
    /// A description of the error that names the step that failed.
    pub fn message(&self) -> (r: &'static str)
        ensures
            r@ == init_error_message(*self),
    {
        match self {
            InitError::InvalidDirection => "Invalid direction",
            InitError::Failed(InitStep::Frequency) => "Failed to set frequency",
            InitError::Failed(InitStep::SampleRate) => "Failed to set sample rate",
            InitError::Failed(InitStep::GainMode) => "Failed to set gain mode",
            InitError::Failed(InitStep::Gain) => "Failed to set gain",
            InitError::Failed(InitStep::SyncConfig) => "Failed to sync config",
            InitError::Failed(InitStep::EnableModule) => "Failed to enable module",
        }
    }
}

/// One driver call of channel initialization, with the step it performs.
#[derive(PartialEq, Eq, Structural, Clone, Copy, Debug)]
pub struct InitCall {
    pub step: InitStep,
    pub call: DriverCall,
}

/// The calls that initialize channel `c.ch` in direction `d`, in order: set
/// the frequency, set the sample rate, for reception switch to manual gain,
/// set the gain, configure the synchronous stream, enable the module.
pub open spec fn init_plan(c: StreamConfig, d: Direction) -> Seq<InitCall> {
    let head = seq![
        InitCall { step: InitStep::Frequency, call: DriverCall::SetFrequency { ch: c.ch, frequency: c.frequency } },
        InitCall { step: InitStep::SampleRate, call: DriverCall::SetSampleRate { ch: c.ch, rate: c.samp_rate } },
    ];
    let gain_mode = if d == Direction::Rx {
        seq![InitCall { step: InitStep::GainMode, call: DriverCall::SetManualGainMode { ch: c.ch } }]
    } else {
        Seq::empty()
    };
    let tail = seq![
        InitCall { step: InitStep::Gain, call: DriverCall::SetGain { ch: c.ch, gain: c.gain } },
        InitCall {
            step: InitStep::SyncConfig,
            call: DriverCall::SyncConfig {
                layout: layout_of(d),
                format: c.sync_format,
                num_buffers: SYNC_NUM_BUFFERS,
                buffer_size: SYNC_BUFFER_SIZE,
                transfer_chunk: SYNC_TRANSFER_CHUNK,
                timeout_ms: SYNC_TIMEOUT_MS,
            },
        },
        InitCall { step: InitStep::EnableModule, call: DriverCall::EnableModule { ch: c.ch, enable: true } },
    ];
    head + gain_mode + tail
}

/// Initialization of one channel in progress: the planned calls, how many of
/// them succeeded, and the step that failed, if one did. The first failure
/// ends the sequence; nothing is retried.
pub struct ChannelInit {
    plan: Vec<InitCall>,
    done: usize,
    failed: Option<InitStep>,
}

impl ChannelInit {
    /// The planned calls.
    pub closed spec fn plan(&self) -> Seq<InitCall> {
        self.plan@
    }

    /// How many planned calls have succeeded.
    pub closed spec fn done(&self) -> nat {
        self.done as nat
    }

    /// The step whose call failed, if any.
    pub closed spec fn failed(&self) -> Option<InitStep> {
        self.failed
    }

    pub closed spec fn wf(&self) -> bool {
        &&& self.done <= self.plan@.len()
        &&& self.failed matches Some(s) ==> self.done < self.plan@.len() && s == self.plan@[self.done as int].step
    }

    /// The call to perform next, if the sequence has not ended.
    pub open spec fn pending(&self) -> Option<DriverCall> {
        if self.failed() is None && self.done() < self.plan().len() {
            Some(self.plan()[self.done() as int].call)
        } else {
            None
        }
    }

    /// The call the driver is to perform next; `None` once every call
    /// succeeded or one failed.
    pub fn next_call(&self) -> (r: Option<DriverCall>)
        requires
            self.wf(),
        ensures
            r == self.pending(),
    {
        if self.failed.is_none() && self.done < self.plan.len() {
            Some(self.plan[self.done].call)
        } else {
            None
        }
    }

    /// Records the status code of the pending call: zero moves on to the
    /// next call, anything else ends the sequence at this step.
    pub fn record(&mut self, status: i32)
        requires
            old(self).wf(),
            old(self).pending() is Some,
        ensures
            final(self).wf(),
            final(self).plan() == old(self).plan(),
            status == 0 ==> final(self).done() == old(self).done() + 1 && final(self).failed() is None,
            status != 0 ==> final(self).done() == old(self).done() && final(self).failed() == Some(
                old(self).plan()[old(self).done() as int].step,
            ),
    {
        assert(self.done < self.plan.len());
        if status == 0 {
            self.done = self.done + 1;
        } else {
            self.failed = Some(self.plan[self.done].step);
        }
    }

    /// The outcome: `None` while calls are pending, then success or the step
    /// that failed.
    pub fn outcome(&self) -> (r: Option<Result<(), InitError>>)
        requires
            self.wf(),
        ensures
            self.failed() matches Some(s) ==> r == Some(Err::<(), InitError>(InitError::Failed(s))),
            self.failed() is None && self.done() == self.plan().len() ==> r == Some(Ok::<(), InitError>(())),
            self.failed() is None && self.done() < self.plan().len() ==> r is None,
    {
        match self.failed {
            Some(s) => Some(Err(InitError::Failed(s))),
            None => if self.done == self.plan.len() {
                Some(Ok(()))
            } else {
                None
            },
        }
    }
}

/// Plans the initialization of the channel of `config`. An unknown direction
/// code is refused before any driver call is planned.
pub fn init(config: &StreamConfig) -> (r: Result<ChannelInit, InitError>)
    ensures
        r is Err <==> direction_of(config.direction) is None,
        r matches Err(e) ==> e == InitError::InvalidDirection,
        r matches Ok(ci) ==> {
            &&& ci.wf()
            &&& ci.plan() == init_plan(*config, direction_of(config.direction).unwrap())
            &&& ci.done() == 0
            &&& ci.failed() is None
        },
{
    let d = match decode_direction(config.direction) {
        Some(d) => d,
        None => {
            return Err(InitError::InvalidDirection);
        },
    };
    let layout = match d {
        Direction::Tx => Layout::TxX1,
        Direction::Rx => Layout::RxX1,
    };
    let mut plan: Vec<InitCall> = Vec::new();
    plan.push(InitCall { step: InitStep::Frequency, call: DriverCall::SetFrequency { ch: config.ch, frequency: config.frequency } });
    plan.push(InitCall { step: InitStep::SampleRate, call: DriverCall::SetSampleRate { ch: config.ch, rate: config.samp_rate } });
    if d == Direction::Rx {
        plan.push(InitCall { step: InitStep::GainMode, call: DriverCall::SetManualGainMode { ch: config.ch } });
    }
    plan.push(InitCall { step: InitStep::Gain, call: DriverCall::SetGain { ch: config.ch, gain: config.gain } });
    plan.push(
        InitCall {
            step: InitStep::SyncConfig,
            call: DriverCall::SyncConfig {
                layout,
                format: config.sync_format,
                num_buffers: SYNC_NUM_BUFFERS,
                buffer_size: SYNC_BUFFER_SIZE,
                transfer_chunk: SYNC_TRANSFER_CHUNK,
                timeout_ms: SYNC_TIMEOUT_MS,
            },
        },
    );
    plan.push(InitCall { step: InitStep::EnableModule, call: DriverCall::EnableModule { ch: config.ch, enable: true } });
    assert(plan@ =~= init_plan(*config, d));
    Ok(ChannelInit { plan, done: 0, failed: None })
}

/// For reception the gain mode is set, and set before the gain; for
/// transmission the gain mode is never set.
pub proof fn lemma_gain_mode_order(c: StreamConfig, d: Direction)
    ensures
        d == Direction::Rx ==> exists|i: int, j: int|
            0 <= i < j < init_plan(c, d).len() && #[trigger] init_plan(c, d)[i].step == InitStep::GainMode
                && #[trigger] init_plan(c, d)[j].step == InitStep::Gain,
        d == Direction::Tx ==> forall|i: int|
            0 <= i < init_plan(c, d).len() ==> !(#[trigger] init_plan(c, d)[i].call is SetManualGainMode),
        forall|i: int|
            0 <= i < init_plan(c, d).len() ==> (#[trigger] init_plan(c, d)[i].step == InitStep::GainMode
                <==> init_plan(c, d)[i].call is SetManualGainMode),
{
    let p = init_plan(c, d);
    if d == Direction::Rx {
        assert(p[2].step == InitStep::GainMode && p[3].step == InitStep::Gain);
    }
}

} // verus!
