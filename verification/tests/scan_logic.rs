use daqhats::flags::ScanStatus;
use daqhats::hat::ErrorCode;
use daqhats::options::ScanOptions;
use daqhats::scan::{classify_poll, ScanPhase, ScanSession, StopReason};

fn opts(mask: u8, rate_millihertz: u64) -> ScanOptions {
    ScanOptions {
        channel_mask: mask,
        sample_rate_millihertz: rate_millihertz,
        scale_data: true,
        calibrate_data: true,
        external_clock: false,
        external_trigger: false,
    }
}

fn running_status() -> ScanStatus {
    ScanStatus {
        hardware_overrun: false,
        buffer_overrun: false,
        triggered: false,
        running: true,
    }
}

#[test]
fn channel_count_is_population_count() {
    assert_eq!(opts(0b0011, 1).channel_count(), 2);
    assert_eq!(opts(0b1111, 1).channel_count(), 4);
    assert_eq!(opts(0b1000_0001, 1).channel_count(), 2);
    assert_eq!(opts(0xff, 1).channel_count(), 8);
    assert_eq!(opts(0b0100, 1).channel_count(), 1);
}

#[test]
fn channels_are_ascending_set_bits() {
    assert_eq!(opts(0b0011, 1).channels(), vec![0, 1]);
    assert_eq!(opts(0b1010, 1).channels(), vec![1, 3]);
    assert_eq!(opts(0b1000_0001, 1).channels(), vec![0, 7]);
    assert_eq!(opts(0xff, 1).channels(), vec![0, 1, 2, 3, 4, 5, 6, 7]);
}

#[test]
fn validate_rejects_empty_mask_and_zero_rate() {
    assert_eq!(opts(0, 1000).validate(), Err(ErrorCode::BadParameter));
    assert_eq!(opts(0b0011, 0).validate(), Err(ErrorCode::BadParameter));
    assert_eq!(opts(0, 0).validate(), Err(ErrorCode::BadParameter));
    assert_eq!(opts(0b0011, 1_000_000).validate(), Ok(()));
}

#[test]
fn scan_flags_reflect_options() {
    let mut o = opts(0b0011, 1_000_000);
    o.scale_data = false;
    o.calibrate_data = false;
    o.external_clock = true;
    o.external_trigger = true;
    let f = o.scan_flags();
    assert!(f.no_scale_data);
    assert!(f.no_calibrate_data);
    assert!(f.ext_clock);
    assert!(f.ext_trigger);
    assert!(f.continuous);

    let g = opts(0b0011, 1_000_000).scan_flags();
    assert!(!g.no_scale_data);
    assert!(!g.no_calibrate_data);
    assert!(!g.ext_clock);
    assert!(!g.ext_trigger);
    assert!(g.continuous);
}

#[test]
fn classify_priority_order() {
    let both_overruns = ScanStatus {
        hardware_overrun: true,
        buffer_overrun: true,
        triggered: false,
        running: true,
    };
    assert_eq!(
        classify_poll(both_overruns, 2, 2),
        Some(StopReason::HardwareOverrun)
    );

    let buffer = ScanStatus {
        buffer_overrun: true,
        ..running_status()
    };
    assert_eq!(classify_poll(buffer, 2, 2), Some(StopReason::BufferOverrun));

    let stopped = ScanStatus {
        running: false,
        ..running_status()
    };
    assert_eq!(classify_poll(stopped, 2, 2), Some(StopReason::NotRunning));

    assert_eq!(
        classify_poll(running_status(), 0, 2),
        Some(StopReason::NoSamples)
    );
    assert_eq!(classify_poll(running_status(), 2, 2), None);

    let triggered = ScanStatus {
        triggered: true,
        ..running_status()
    };
    assert_eq!(classify_poll(triggered, 2, 2), None);
}

#[test]
fn failure_reporting_per_reason() {
    assert!(StopReason::HardwareOverrun.reported_as_failure());
    assert!(StopReason::BufferOverrun.reported_as_failure());
    assert!(StopReason::ReadError(ErrorCode::CommsFailure).reported_as_failure());
    assert!(!StopReason::NotRunning.reported_as_failure());
    assert!(!StopReason::NoSamples.reported_as_failure());
    assert!(!StopReason::ConsumersGone.reported_as_failure());
    assert!(!StopReason::StopRequested.reported_as_failure());
}

#[test]
fn session_start_validation() {
    assert_eq!(
        ScanSession::request_start(&opts(0, 1000)),
        Err(ErrorCode::BadParameter)
    );
    let s = ScanSession::request_start(&opts(0b0111, 1_000_000)).unwrap();
    assert_eq!(s.phase, ScanPhase::Starting);
    assert_eq!(s.channel_count, 3);
    assert_eq!(s.reason, None);
}

#[test]
fn session_poll_transitions() {
    let mut s = ScanSession::request_start(&opts(0b0011, 1_000_000)).unwrap();
    s.confirm_start();
    assert_eq!(s.phase, ScanPhase::Running);

    assert_eq!(s.observe_poll(running_status(), 2), None);
    assert_eq!(s.phase, ScanPhase::Running);

    let overrun = ScanStatus {
        buffer_overrun: true,
        ..running_status()
    };
    assert_eq!(
        s.observe_poll(overrun, 2),
        Some(StopReason::BufferOverrun)
    );
    assert_eq!(s.phase, ScanPhase::Stopping);
    assert_eq!(s.reason, Some(StopReason::BufferOverrun));
}

#[test]
fn shutdown_on_idle_session_is_harmless() {
    let mut s = ScanSession::idle();
    assert_eq!(s.phase, ScanPhase::Idle);
    s.record_stop(Err(ErrorCode::CommsFailure));
    s.record_cleanup(Ok(()));
    s.record_stop(Ok(()));
    s.record_cleanup(Err(ErrorCode::Undefined));
    assert_eq!(s.phase, ScanPhase::Idle);
    assert_eq!(s.stop_result, Some(Err(ErrorCode::CommsFailure)));
    assert_eq!(s.cleanup_result, Some(Ok(())));
}

#[test]
fn stop_cleanup_twice_keeps_first_outcome() {
    let mut s = ScanSession::request_start(&opts(0b0001, 1_000_000)).unwrap();
    s.confirm_start();
    s.observe_delivery_failure();
    assert_eq!(s.phase, ScanPhase::Stopping);

    s.record_stop(Ok(()));
    s.record_cleanup(Err(ErrorCode::Timeout));
    assert_eq!(s.phase, ScanPhase::Idle);
    let after_first = s;

    s.record_stop(Err(ErrorCode::Busy));
    s.record_cleanup(Ok(()));
    assert_eq!(s, after_first);
    assert_eq!(s.stop_result, Some(Ok(())));
    assert_eq!(s.cleanup_result, Some(Err(ErrorCode::Timeout)));
    assert_eq!(s.reason, Some(StopReason::ConsumersGone));
}
