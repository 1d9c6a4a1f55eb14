use sync_meta::channel::{init, InitError, InitStep};
use sync_meta::config::{
    rx_config, tx_config, ConfigError, Direction, StreamConfig, DIRECTION_RX, DIRECTION_TX,
    FORMAT_SC16_Q11_META,
};
use sync_meta::driver::{
    DriverCall, Layout, META_FLAG_TX_BURST_END, META_FLAG_TX_BURST_START, META_FLAG_TX_NOW,
    META_STATUS_OVERRUN, TX_BURST_FLAGS,
};
use sync_meta::power::{calculate_avg_power, PowerRatio};
use sync_meta::rx::{stream_rx, RxReport};
use sync_meta::session::{Session, Stage};
use sync_meta::tx::{stream_tx, TxError, TxPhase};
use sync_meta::waveform::generate_tone;

fn dbfs(p: PowerRatio) -> f64 {
    10.0 * (p.energy as f64 / p.reference as f64).log10()
}

fn small_config(direction: u32, iterations: i32, samples: i64) -> StreamConfig {
    StreamConfig {
        direction,
        ch: 0,
        frequency: 900_000_000,
        samp_rate: 5_000_000,
        gain: 50,
        sync_format: FORMAT_SC16_Q11_META,
        num_iterations: iterations,
        num_samples: samples,
    }
}

#[test]
fn tone_has_two_values_per_pair() {
    for n in [1usize, 2, 5, 17] {
        assert_eq!(generate_tone(n).len(), 2 * n);
    }
}

#[test]
fn tone_cycles_with_period_four() {
    let t = generate_tone(9);
    let expected: [(i16, i16); 4] = [(0, 2047), (2047, 0), (0, -2047), (-2047, 0)];
    for i in 0..9 {
        assert_eq!((t[2 * i], t[2 * i + 1]), expected[i % 4]);
    }
}

#[test]
fn tone_of_one_pair() {
    assert_eq!(generate_tone(1), vec![0, 2047]);
}

#[test]
fn tone_is_full_scale() {
    let p = calculate_avg_power(&generate_tone(12));
    assert!(p.is_full_scale());
    assert_eq!(dbfs(p), 0.0);
}

#[test]
fn power_of_empty_buffer_is_zero_db() {
    let p = calculate_avg_power(&[]);
    assert_eq!(p, PowerRatio { energy: 1, reference: 1 });
    assert_eq!(dbfs(p), 0.0);
}

#[test]
fn power_of_full_scale_single_rail_is_zero_db() {
    let p = calculate_avg_power(&[2047, 0, 0, 2047, 2047, 0]);
    assert_eq!(p.energy, 3 * 2047 * 2047);
    assert_eq!(p.reference, 3 * 2047 * 2047);
    assert!(dbfs(p).abs() < 1e-9);
}

#[test]
fn power_of_half_scale_is_minus_six_db() {
    let mut buf = Vec::new();
    for _ in 0..100 {
        buf.push(1024);
        buf.push(0);
    }
    let p = calculate_avg_power(&buf);
    assert_eq!(p.energy, 100 * 1024 * 1024);
    assert_eq!(p.reference, 100 * 2047 * 2047);
    assert!((dbfs(p) + 6.0).abs() < 0.1);
}

#[test]
fn power_exact_ratio() {
    let p = calculate_avg_power(&[3, 4, -5, 12]);
    assert_eq!(p, PowerRatio { energy: 25 + 169, reference: 2 * 4190209 });
}

#[test]
fn power_ignores_trailing_value() {
    assert_eq!(calculate_avg_power(&[3, 4, 100]), PowerRatio { energy: 25, reference: 4190209 });
    assert_eq!(calculate_avg_power(&[100]), PowerRatio { energy: 1, reference: 1 });
}

#[test]
fn power_of_silent_buffer_is_zero_energy() {
    let p = calculate_avg_power(&[0, 0, 0, 0]);
    assert_eq!(p.energy, 0);
    assert!(dbfs(p).is_infinite() && dbfs(p) < 0.0);
}

#[test]
fn power_of_extreme_values() {
    let p = calculate_avg_power(&[-32768, -32768]);
    assert_eq!(p.energy, 2 * 32768 * 32768);
}

#[test]
fn session_configs_are_valid() {
    let tx = tx_config();
    let rx = rx_config();
    assert_eq!(tx.validate(), Ok(()));
    assert_eq!(rx.validate(), Ok(()));
    assert_eq!((tx.ch, tx.frequency, tx.samp_rate, tx.gain), (1, 900_000_000, 20_000_000, 50));
    assert_eq!((tx.num_iterations, tx.num_samples, tx.direction), (5, 20_000_000, DIRECTION_TX));
    assert_eq!((rx.ch, rx.frequency, rx.samp_rate, rx.gain), (0, 900_000_000, 5_000_000, 50));
    assert_eq!((rx.num_iterations, rx.num_samples, rx.direction), (5, 5_000_000, DIRECTION_RX));
}

#[test]
fn config_errors() {
    let good = small_config(DIRECTION_RX, 1, 1);
    assert_eq!(StreamConfig { direction: 7, ..good }.validate(), Err(ConfigError::InvalidDirection));
    assert_eq!(StreamConfig { frequency: 0, ..good }.validate(), Err(ConfigError::ZeroFrequency));
    assert_eq!(StreamConfig { samp_rate: 0, ..good }.validate(), Err(ConfigError::ZeroSampleRate));
    assert_eq!(
        StreamConfig { num_iterations: 0, ..good }.validate(),
        Err(ConfigError::NonPositiveIterations)
    );
    assert_eq!(StreamConfig { num_samples: -3, ..good }.validate(), Err(ConfigError::NonPositiveBurst));
    assert_eq!(
        StreamConfig { num_samples: 1 << 32, ..good }.validate(),
        Err(ConfigError::BurstTooLong)
    );
    assert_eq!(StreamConfig { num_samples: u32::MAX as i64, ..good }.validate(), Ok(()));
}

fn run_init(config: &StreamConfig, fail_at: Option<usize>) -> (Vec<DriverCall>, Result<(), InitError>) {
    let mut ci = init(config).unwrap();
    let mut calls = Vec::new();
    while let Some(call) = ci.next_call() {
        let status = if fail_at == Some(calls.len()) { -1 } else { 0 };
        calls.push(call);
        ci.record(status);
    }
    (calls, ci.outcome().unwrap())
}

#[test]
fn rx_init_sets_gain_mode_before_gain() {
    let (calls, result) = run_init(&rx_config(), None);
    assert_eq!(result, Ok(()));
    assert_eq!(
        calls,
        vec![
            DriverCall::SetFrequency { ch: 0, frequency: 900_000_000 },
            DriverCall::SetSampleRate { ch: 0, rate: 5_000_000 },
            DriverCall::SetManualGainMode { ch: 0 },
            DriverCall::SetGain { ch: 0, gain: 50 },
            DriverCall::SyncConfig {
                layout: Layout::RxX1,
                format: FORMAT_SC16_Q11_META,
                num_buffers: 16,
                buffer_size: 32768,
                transfer_chunk: 512,
                timeout_ms: 1000,
            },
            DriverCall::EnableModule { ch: 0, enable: true },
        ]
    );
}

#[test]
fn tx_init_never_sets_gain_mode() {
    let (calls, result) = run_init(&tx_config(), None);
    assert_eq!(result, Ok(()));
    assert_eq!(calls.len(), 5);
    assert!(!calls.iter().any(|c| matches!(c, DriverCall::SetManualGainMode { .. })));
    assert_eq!(calls[2], DriverCall::SetGain { ch: 1, gain: 50 });
    assert!(matches!(calls[3], DriverCall::SyncConfig { layout: Layout::TxX1, .. }));
}

#[test]
fn init_refuses_unknown_direction() {
    let r = init(&small_config(2, 1, 1));
    assert!(matches!(r, Err(InitError::InvalidDirection)));
    assert_eq!(InitError::InvalidDirection.message(), "Invalid direction");
}

#[test]
fn init_stops_at_first_failure() {
    let (calls, result) = run_init(&rx_config(), Some(3));
    assert_eq!(calls.len(), 4);
    assert_eq!(result, Err(InitError::Failed(InitStep::Gain)));
    assert_eq!(InitError::Failed(InitStep::Gain).message(), "Failed to set gain");

    let (calls, result) = run_init(&tx_config(), Some(0));
    assert_eq!(calls.len(), 1);
    assert_eq!(result, Err(InitError::Failed(InitStep::Frequency)));
    assert_eq!(InitError::Failed(InitStep::SyncConfig).message(), "Failed to sync config");
}

#[test]
fn tx_loop_queries_timestamp_after_each_transfer() {
    let mut t = stream_tx(&small_config(DIRECTION_TX, 5, 100)).unwrap();
    let mut calls = Vec::new();
    let mut clock: u64 = 1000;
    while let Some(call) = t.next_call() {
        calls.push(call);
        clock += 10;
        t.record(0, clock);
    }
    assert_eq!(calls.len(), 10);
    for k in 0..5 {
        assert_eq!(calls[2 * k], DriverCall::SyncTx { count: 100, flags: TX_BURST_FLAGS, timeout_ms: 1000 });
        assert_eq!(calls[2 * k + 1], DriverCall::GetTimestamp { direction: Direction::Tx });
    }
    assert_eq!(t.phase, TxPhase::Done);
    assert_eq!(t.completed, 5);
    assert_eq!(t.last_timestamp, 1100);
    assert_eq!(t.outcome(), Some(Ok(())));
}

#[test]
fn tx_loop_stops_at_failed_transfer() {
    let mut t = stream_tx(&small_config(DIRECTION_TX, 5, 100)).unwrap();
    let mut calls = 0;
    while t.next_call().is_some() {
        let status = if calls == 4 { -5 } else { 0 };
        calls += 1;
        t.record(status, 0);
    }
    assert_eq!(calls, 5);
    assert_eq!(t.completed, 2);
    assert_eq!(t.outcome(), Some(Err(TxError::Transfer)));
    assert_eq!(TxError::Transfer.message(), "Failed to sync tx");
}

#[test]
fn tx_loop_stops_at_failed_timestamp() {
    let mut t = stream_tx(&small_config(DIRECTION_TX, 3, 10)).unwrap();
    t.record(0, 0);
    t.record(-1, 0);
    assert_eq!(t.next_call(), None);
    assert_eq!(t.outcome(), Some(Err(TxError::Timestamp)));
    assert_eq!(TxError::Timestamp.message(), "Failed to get timestamp");
}

#[test]
fn tx_loop_refuses_bad_config() {
    assert_eq!(stream_tx(&small_config(DIRECTION_TX, 0, 10)), Err(ConfigError::NonPositiveIterations));
}

#[test]
fn rx_loop_reports_overrun_once() {
    let mut r = stream_rx(&small_config(DIRECTION_RX, 4, 3)).unwrap();
    let mut buf = r.new_buffer();
    assert_eq!(buf, vec![0; 6]);
    let mut reports = Vec::new();
    let mut i = 0;
    while let Some(call) = r.next_call() {
        assert!(matches!(call, DriverCall::SyncRx { count: 3, timeout_ms: 10000, .. }));
        buf[0] = 1024;
        let meta = if i == 2 { META_STATUS_OVERRUN } else { 0 };
        reports.push(r.record(0, meta, 2, &buf));
        i += 1;
    }
    assert!(r.is_finished());
    assert_eq!(reports.len(), 4);
    for (k, rep) in reports.iter().enumerate() {
        if k == 2 {
            assert_eq!(*rep, RxReport::Overrun { valid: 2 });
        } else {
            assert_eq!(*rep, RxReport::Power(PowerRatio { energy: 1024 * 1024, reference: 3 * 4190209 }));
        }
    }
}

#[test]
fn rx_loop_continues_after_failed_receive() {
    let mut r = stream_rx(&small_config(DIRECTION_RX, 3, 1)).unwrap();
    let buf = vec![2047i16, 0];
    assert_eq!(r.record(-1, 0, 0, &buf), RxReport::Failed);
    assert!(!r.is_finished());
    assert_eq!(r.record(0, 0, 1, &buf), RxReport::Power(PowerRatio { energy: 4190209, reference: 4190209 }));
    assert_eq!(r.record(-1, 0, 0, &buf), RxReport::Failed);
    assert!(r.is_finished());
    assert_eq!(r.next_call(), None);
}

#[test]
fn session_runs_every_stage_despite_failure() {
    let mut s = Session::new(tx_config(), rx_config());
    let mut stages = Vec::new();
    let mut closes = 0;
    while !s.is_ended() {
        stages.push(s.stage);
        if s.stage == Stage::Close {
            closes += 1;
        }
        let ok = s.stage != Stage::StreamTx;
        s.advance(ok);
    }
    assert_eq!(
        stages,
        vec![
            Stage::Open,
            Stage::InitTx,
            Stage::StreamTx,
            Stage::DisableTx,
            Stage::InitRx,
            Stage::StreamRx,
            Stage::DisableRx,
            Stage::Close,
        ]
    );
    assert_eq!(closes, 1);
    assert_eq!(s.failures, 1);
}

#[test]
fn session_disables_each_channel() {
    let mut s = Session::new(tx_config(), rx_config());
    assert_eq!(s.disable_call(), None);
    for _ in 0..3 {
        s.advance(true);
    }
    assert_eq!(s.disable_call(), Some(DriverCall::EnableModule { ch: 1, enable: false }));
    for _ in 0..3 {
        s.advance(false);
    }
    assert_eq!(s.disable_call(), Some(DriverCall::EnableModule { ch: 0, enable: false }));
    assert_eq!(s.failures, 3);
}

#[test]
fn tx_burst_flags_mark_a_whole_burst_sent_now() {
    assert_eq!(TX_BURST_FLAGS & META_FLAG_TX_BURST_START, META_FLAG_TX_BURST_START);
    assert_eq!(TX_BURST_FLAGS & META_FLAG_TX_BURST_END, META_FLAG_TX_BURST_END);
    assert_eq!(TX_BURST_FLAGS & META_FLAG_TX_NOW, META_FLAG_TX_NOW);
    assert_eq!(TX_BURST_FLAGS, 7);
}
