use vstd::prelude::*;
use crate::config::Direction;

verus! {

/// Transfer flag: the buffer starts a burst.
pub const META_FLAG_TX_BURST_START: u32 = 1;

/// Transfer flag: the buffer ends a burst.
pub const META_FLAG_TX_BURST_END: u32 = 2;

/// Transfer flag: transmit at once, with no scheduled timestamp.
pub const META_FLAG_TX_NOW: u32 = 4;

/// Transfer flag: receive at once, with no scheduled timestamp.
pub const META_FLAG_RX_NOW: u32 = 0x8000_0000;

/// Status bit of a received transfer: samples were lost to an overrun.
pub const META_STATUS_OVERRUN: u32 = 1;

/// Flags of a transmitted burst: one complete burst, sent at once.
pub const TX_BURST_FLAGS: u32 = META_FLAG_TX_BURST_START | META_FLAG_TX_BURST_END | META_FLAG_TX_NOW;

/// Number of buffers of the synchronous stream.
pub const SYNC_NUM_BUFFERS: u32 = 16;

/// Size of each stream buffer, in samples.
pub const SYNC_BUFFER_SIZE: u32 = 32768;

/// Transfer chunk of the synchronous stream, in samples.
pub const SYNC_TRANSFER_CHUNK: u32 = 512;

/// Timeout of the stream configuration, in milliseconds.
pub const SYNC_TIMEOUT_MS: u32 = 1000;

/// Timeout of one transmitted burst, in milliseconds.
pub const TX_TIMEOUT_MS: u32 = 1000;

/// Timeout of one received burst, in milliseconds.
pub const RX_TIMEOUT_MS: u32 = 10000;

/// Stream layout: one channel in one direction.
#[derive(PartialEq, Eq, Structural, Clone, Copy, Debug)]
pub enum Layout {
    TxX1,
    RxX1,
}

/// The layout that streams one channel in direction `d`.
pub open spec fn layout_of(d: Direction) -> Layout {
    match d {
        Direction::Tx => Layout::TxX1,
        Direction::Rx => Layout::RxX1,
    }
}

/// One call into the radio driver, with its arguments. Each returns a status
/// code, zero on success.
#[derive(PartialEq, Eq, Structural, Clone, Copy, Debug)]
pub enum DriverCall {
    SetFrequency { ch: i32, frequency: u64 },
    SetSampleRate { ch: i32, rate: u32 },
    SetManualGainMode { ch: i32 },
    SetGain { ch: i32, gain: i32 },
    SyncConfig {
        layout: Layout,
        format: u32,
        num_buffers: u32,
        buffer_size: u32,
        transfer_chunk: u32,
        timeout_ms: u32,
    },
    EnableModule { ch: i32, enable: bool },
    SyncTx { count: u32, flags: u32, timeout_ms: u32 },
    GetTimestamp { direction: Direction },
    SyncRx { count: u32, flags: u32, timeout_ms: u32 },
}

} // verus!
