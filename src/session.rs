use vstd::prelude::*;
use crate::config::StreamConfig;
use crate::driver::DriverCall;

verus! {

/// A stage of a session, in the order the session runs them.
#[derive(PartialEq, Eq, Structural, Clone, Copy, Debug)]
pub enum Stage {
    Open,
    InitTx,
    StreamTx,
    DisableTx,
    InitRx,
    StreamRx,
    DisableRx,
    Close,
    Ended,
}

/// The stage that follows `s`, whatever `s` reported.
pub open spec fn next_stage(s: Stage) -> Stage {
    match s {
        Stage::Open => Stage::InitTx,
        Stage::InitTx => Stage::StreamTx,
        Stage::StreamTx => Stage::DisableTx,
        Stage::DisableTx => Stage::InitRx,
        Stage::InitRx => Stage::StreamRx,
        Stage::StreamRx => Stage::DisableRx,
        Stage::DisableRx => Stage::Close,
        Stage::Close => Stage::Ended,
        Stage::Ended => Stage::Ended,
    }
}

/// How many stages run before stage `s`.
pub open spec fn stage_index(s: Stage) -> nat {
    match s {
        Stage::Open => 0,
        Stage::InitTx => 1,
        Stage::StreamTx => 2,
        Stage::DisableTx => 3,
        Stage::InitRx => 4,
        Stage::StreamRx => 5,
        Stage::DisableRx => 6,
        Stage::Close => 7,
        Stage::Ended => 8,
    }
}

/// The stages of a whole session, in order.
pub open spec fn session_stages() -> Seq<Stage> {
    seq![
        Stage::Open,
        Stage::InitTx,
        Stage::StreamTx,
        Stage::DisableTx,
        Stage::InitRx,
        Stage::StreamRx,
        Stage::DisableRx,
        Stage::Close,
    ]
}

/// A session: open the device, initialize and stream the transmit channel,
/// disable it, initialize and stream the receive channel, disable it, close
/// the device. A failed stage is counted and the session goes on: the device
/// is always closed, once, at the end.
#[derive(PartialEq, Eq, Structural, Clone, Copy, Debug)]
pub struct Session {
    pub tx: StreamConfig,
    pub rx: StreamConfig,
    pub stage: Stage,
    /// Number of stages that reported a failure.
    pub failures: u32,
}

/// The state after the current stage reported `ok`.
pub open spec fn session_next(s: Session, ok: bool) -> Session {
    if s.stage == Stage::Ended {
        s
    } else {
        Session {
            stage: next_stage(s.stage),
            failures: if ok { s.failures } else { (s.failures + 1) as u32 },
            ..s
        }
    }
}

/// How many of `outcomes` report a failure.
pub open spec fn failed_count(outcomes: Seq<bool>) -> nat
    decreases outcomes.len(),
{
    if outcomes.len() == 0 {
        0
    } else {
        (if outcomes[0] { 0nat } else { 1nat }) + failed_count(outcomes.drop_first())
    }
}

/// The stages run from `s` while they report `outcomes`, until the session
/// ends or the outcomes run out.
pub open spec fn session_trace(s: Session, outcomes: Seq<bool>) -> Seq<Stage>
    decreases outcomes.len(),
{
    if outcomes.len() == 0 || s.stage == Stage::Ended {
        Seq::empty()
    } else {
        seq![s.stage] + session_trace(session_next(s, outcomes[0]), outcomes.drop_first())
    }
}

/// The state reached from `s` when the stages report `outcomes`.
pub open spec fn session_run(s: Session, outcomes: Seq<bool>) -> Session
    decreases outcomes.len(),
{
    if outcomes.len() == 0 || s.stage == Stage::Ended {
        s
    } else {
        session_run(session_next(s, outcomes[0]), outcomes.drop_first())
    }
}

impl Session {
    /// No more stages failed than have run.
    pub open spec fn wf(&self) -> bool {
        self.failures <= stage_index(self.stage)
    }

    /// A session over the two channels that has not opened the device yet.
    pub fn new(tx: StreamConfig, rx: StreamConfig) -> (r: Session)
        ensures
            r == (Session { tx, rx, stage: Stage::Open, failures: 0 }),
            r.wf(),
    {
        Session { tx, rx, stage: Stage::Open, failures: 0 }
    }

    /// The driver call of a disable stage: switch the stage's channel off.
    pub fn disable_call(&self) -> (r: Option<DriverCall>)
        ensures
            self.stage == Stage::DisableTx ==> r == Some(DriverCall::EnableModule { ch: self.tx.ch, enable: false }),
            self.stage == Stage::DisableRx ==> r == Some(DriverCall::EnableModule { ch: self.rx.ch, enable: false }),
            self.stage != Stage::DisableTx && self.stage != Stage::DisableRx ==> r is None,
    {
        match self.stage {
            Stage::DisableTx => Some(DriverCall::EnableModule { ch: self.tx.ch, enable: false }),
            Stage::DisableRx => Some(DriverCall::EnableModule { ch: self.rx.ch, enable: false }),
            _ => None,
        }
    }

    /// Records whether the current stage succeeded and moves on to the next
    /// stage either way.
    pub fn advance(&mut self, ok: bool)
        requires
            old(self).wf(),
        ensures
            *final(self) == session_next(*old(self), ok),
            final(self).wf(),
    {
        if self.stage != Stage::Ended {
            if !ok {
                self.failures = self.failures + 1;
            }
            self.stage = match self.stage {
                Stage::Open => Stage::InitTx,
                Stage::InitTx => Stage::StreamTx,
                Stage::StreamTx => Stage::DisableTx,
                Stage::DisableTx => Stage::InitRx,
                Stage::InitRx => Stage::StreamRx,
                Stage::StreamRx => Stage::DisableRx,
                Stage::DisableRx => Stage::Close,
                _ => Stage::Ended,
            };
        }
    }

    /// Whether every stage has run.
    pub fn is_ended(&self) -> (r: bool)
        ensures
            r == (self.stage == Stage::Ended),
    {
        self.stage == Stage::Ended
    }
}

proof fn lemma_session_from(s: Session, outcomes: Seq<bool>, k: nat)
    requires
        s.wf(),
        k < 8,
        s.stage == session_stages()[k as int],
        outcomes.len() == 8 - k,
    ensures
        session_trace(s, outcomes) == session_stages().subrange(k as int, 8),
        session_run(s, outcomes).stage == Stage::Ended,
        session_run(s, outcomes).failures == s.failures + failed_count(outcomes),
    decreases 8 - k,
{
    let s1 = session_next(s, outcomes[0]);
    let o1 = outcomes.drop_first();
    if k < 7 {
        lemma_session_from(s1, o1, k + 1);
    } else {
        assert(session_trace(s1, o1) == Seq::<Stage>::empty());
        assert(failed_count(o1) == 0);
    }
    assert(session_trace(s, outcomes) =~= session_stages().subrange(k as int, 8));
}

/// Whichever stages fail, a session runs every stage once and in order: open,
/// initialize and stream the transmit channel, disable it, initialize and
/// stream the receive channel, disable it, close. The device is closed exactly
/// once, as the last stage, and the session then ends, having counted exactly
/// the stages that failed.
pub proof fn lemma_session_runs_every_stage(s: Session, outcomes: Seq<bool>)
    requires
        s.wf(),
        s.stage == Stage::Open,
        outcomes.len() == 8,
    ensures
        session_trace(s, outcomes) == session_stages(),
        session_run(s, outcomes).stage == Stage::Ended,
        forall|i: int| 0 <= i < 8 ==> (#[trigger] session_trace(s, outcomes)[i] == Stage::Close <==> i == 7),
        session_run(s, outcomes).failures == failed_count(outcomes),
{
    lemma_session_from(s, outcomes, 0);
    assert(session_stages().subrange(0, 8) =~= session_stages());
}

} // verus!
