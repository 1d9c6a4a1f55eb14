use vstd::prelude::*;

verus! {

/// Driver code of the receive direction.
pub const DIRECTION_RX: u32 = 0;

/// Driver code of the transmit direction.
pub const DIRECTION_TX: u32 = 1;

/// Driver code of the 16-bit I/Q sample format with metadata.
pub const FORMAT_SC16_Q11_META: u32 = 1;

/// A streaming direction.
#[derive(PartialEq, Eq, Structural, Clone, Copy, Debug)]
pub enum Direction {
    Tx,
    Rx,
}

/// The direction that a driver direction code stands for, if any.
pub open spec fn direction_of(code: u32) -> Option<Direction> {
    if code == DIRECTION_TX {
        Some(Direction::Tx)
    } else if code == DIRECTION_RX {
        Some(Direction::Rx)
    } else {
        None
    }
}

/// Decodes a driver direction code.
pub fn decode_direction(code: u32) -> (r: Option<Direction>)
    ensures
        r == direction_of(code),
{
    if code == DIRECTION_TX {
        Some(Direction::Tx)
    } else if code == DIRECTION_RX {
        Some(Direction::Rx)
    } else {
        None
    }
}

/// Per-run parameters of one channel: its direction code, channel index,
/// carrier frequency (Hz), sample rate (Hz), gain (dB), sample format code,
/// iteration count and burst length in sample pairs.
#[derive(PartialEq, Eq, Structural, Clone, Copy, Debug)]
pub struct StreamConfig {
    pub direction: u32,
    pub ch: i32,
    pub frequency: u64,
    pub samp_rate: u32,
    pub gain: i32,
    pub sync_format: u32,
    pub num_iterations: i32,
    pub num_samples: i64,
}

/// Why a configuration is refused.
#[derive(PartialEq, Eq, Structural, Clone, Copy, Debug)]
pub enum ConfigError {
    InvalidDirection,
    ZeroFrequency,
    ZeroSampleRate,
    NonPositiveIterations,
    NonPositiveBurst,
    BurstTooLong,
}

/// The first problem of a configuration, in the order the fields are checked.
/// A burst must fit a transfer count, that is a `u32`.
pub open spec fn config_error(c: StreamConfig) -> Option<ConfigError> {
    if direction_of(c.direction).is_none() {
        Some(ConfigError::InvalidDirection)
    } else if c.frequency == 0 {
        Some(ConfigError::ZeroFrequency)
    } else if c.samp_rate == 0 {
        Some(ConfigError::ZeroSampleRate)
    } else if c.num_iterations <= 0 {
        Some(ConfigError::NonPositiveIterations)
    } else if c.num_samples <= 0 {
        Some(ConfigError::NonPositiveBurst)
    } else if c.num_samples > u32::MAX {
        Some(ConfigError::BurstTooLong)
    } else {
        None
    }
}

impl StreamConfig {
    /// Checks the configuration: a known direction, a non-zero frequency and
    /// sample rate, a positive iteration count and a positive burst length
    /// that fits a transfer count.
    pub fn validate(&self) -> (r: Result<(), ConfigError>)
        ensures
            r is Ok <==> config_error(*self).is_none(),
            r matches Err(e) ==> config_error(*self) == Some(e),
    {
        if decode_direction(self.direction).is_none() {
            Err(ConfigError::InvalidDirection)
        } else if self.frequency == 0 {
            Err(ConfigError::ZeroFrequency)
        } else if self.samp_rate == 0 {
            Err(ConfigError::ZeroSampleRate)
        } else if self.num_iterations <= 0 {
            Err(ConfigError::NonPositiveIterations)
        } else if self.num_samples <= 0 {
            Err(ConfigError::NonPositiveBurst)
        } else if self.num_samples > u32::MAX as i64 {
            Err(ConfigError::BurstTooLong)
        } else {
            Ok(())
        }
    }
}

/// The transmit parameters of a session: channel 1, 900 MHz, 20 MHz sample
/// rate, 50 dB gain, five bursts of 20 million pairs.
pub fn tx_config() -> (r: StreamConfig)
    ensures
        r == (StreamConfig {
            direction: DIRECTION_TX,
            ch: 1,
            frequency: 900_000_000,
            samp_rate: 20_000_000,
            gain: 50,
            sync_format: FORMAT_SC16_Q11_META,
            num_iterations: 5,
            num_samples: 20_000_000,
        }),
{
    StreamConfig {
        direction: DIRECTION_TX,
        ch: 1,
        frequency: 900_000_000,
        samp_rate: 20_000_000,
        gain: 50,
        sync_format: FORMAT_SC16_Q11_META,
        num_iterations: 5,
        num_samples: 20_000_000,
    }
}

/// The receive parameters of a session: channel 0, 900 MHz, 5 MHz sample
/// rate, 50 dB gain, five bursts of 5 million pairs.
pub fn rx_config() -> (r: StreamConfig)
    ensures
        r == (StreamConfig {
            direction: DIRECTION_RX,
            ch: 0,
            frequency: 900_000_000,
            samp_rate: 5_000_000,
            gain: 50,
            sync_format: FORMAT_SC16_Q11_META,
            num_iterations: 5,
            num_samples: 5_000_000,
        }),
{
    StreamConfig {
        direction: DIRECTION_RX,
        ch: 0,
        frequency: 900_000_000,
        samp_rate: 5_000_000,
        gain: 50,
        sync_format: FORMAT_SC16_Q11_META,
        num_iterations: 5,
        num_samples: 5_000_000,
    }
}

} // verus!
