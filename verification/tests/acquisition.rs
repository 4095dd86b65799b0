use daqhats::acquire::{
    deliver_frame, run_acquisition, start_scan, DeliverySink, ScriptedPoll, ScriptedScanner,
    VecSink,
};
use daqhats::flags::ScanStatus;
use daqhats::hat::ErrorCode;
use daqhats::options::ScanOptions;
use daqhats::scan::{ScanPhase, StopReason};

fn opts(mask: u8, rate_millihertz: u64) -> ScanOptions {
    ScanOptions {
        channel_mask: mask,
        sample_rate_millihertz: rate_millihertz,
        scale_data: true,
        calibrate_data: true,
        external_clock: false,
        external_trigger: false,
    }
}

fn running_status() -> ScanStatus {
    ScanStatus {
        hardware_overrun: false,
        buffer_overrun: false,
        triggered: false,
        running: true,
    }
}

fn good_frame(values: Vec<u64>) -> ScriptedPoll {
    ScriptedPoll::Read(running_status(), values)
}

#[test]
fn start_scan_rejects_bad_parameters() {
    let mut dev = ScriptedScanner::new(Vec::new());
    assert_eq!(
        start_scan(&mut dev, &opts(0, 1_000_000)),
        Err(ErrorCode::BadParameter)
    );
    assert_eq!(dev.start_calls, 0);
}

#[test]
fn start_scan_reports_device_error() {
    let mut dev = ScriptedScanner::with_errors(
        Vec::new(),
        Some(ErrorCode::Busy),
        None,
        None,
    );
    assert_eq!(start_scan(&mut dev, &opts(0b0011, 1_000_000)), Err(ErrorCode::Busy));
    assert_eq!(dev.start_calls, 1);
}

#[test]
fn start_scan_yields_running_session() {
    let mut dev = ScriptedScanner::new(Vec::new());
    let session = start_scan(&mut dev, &opts(0b1010, 1_000_000)).unwrap();
    assert_eq!(session.phase, ScanPhase::Running);
    assert_eq!(session.channel_count, 2);
    assert_eq!(dev.start_calls, 1);
}

/// Mask 0b0011 (two channels), 1000 Hz, continuous mode; five good
/// single-frame polls followed by one poll reporting buffer overrun with
/// no samples: exactly five values reach each endpoint, the loop stops
/// with the buffer overrun as the failure, and stop and cleanup are each
/// invoked exactly once.
#[test]
fn buffer_overrun_scenario() {
    let script = vec![
        good_frame(vec![10, 20]),
        good_frame(vec![11, 21]),
        good_frame(vec![12, 22]),
        good_frame(vec![13, 23]),
        good_frame(vec![14, 24]),
        ScriptedPoll::Read(
            ScanStatus {
                buffer_overrun: true,
                ..running_status()
            },
            Vec::new(),
        ),
    ];
    let mut dev = ScriptedScanner::new(script);
    let session = start_scan(&mut dev, &opts(0b0011, 1_000_000)).unwrap();
    let mut sink = VecSink::new(2);

    let (dev, outcome) = run_acquisition(dev, session, 0, u64::MAX, &mut sink);

    assert_eq!(sink.queues[0], vec![10, 11, 12, 13, 14]);
    assert_eq!(sink.queues[1], vec![20, 21, 22, 23, 24]);
    assert_eq!(outcome.session.phase, ScanPhase::Idle);
    assert_eq!(outcome.session.reason, Some(StopReason::BufferOverrun));
    assert_eq!(outcome.session.stop_result, Some(Ok(())));
    assert_eq!(outcome.session.cleanup_result, Some(Ok(())));
    assert_eq!(dev.stop_calls, 1);
    assert_eq!(dev.cleanup_calls, 1);
}

#[test]
fn hardware_overrun_stops_immediately() {
    let script = vec![ScriptedPoll::Read(
        ScanStatus {
            hardware_overrun: true,
            ..running_status()
        },
        vec![1],
    )];
    let mut dev = ScriptedScanner::new(script);
    let session = start_scan(&mut dev, &opts(0b0001, 1_000_000)).unwrap();
    let mut sink = VecSink::new(1);

    let (dev, outcome) = run_acquisition(dev, session, 0, u64::MAX, &mut sink);

    assert!(sink.queues[0].is_empty());
    assert_eq!(outcome.session.reason, Some(StopReason::HardwareOverrun));
    assert_eq!(dev.stop_calls, 1);
    assert_eq!(dev.cleanup_calls, 1);
}

#[test]
fn exhausted_script_reads_as_external_stop() {
    let script = vec![good_frame(vec![5]), good_frame(vec![6])];
    let mut dev = ScriptedScanner::new(script);
    let session = start_scan(&mut dev, &opts(0b0001, 1_000_000)).unwrap();
    let mut sink = VecSink::new(1);

    let (_, outcome) = run_acquisition(dev, session, 0, u64::MAX, &mut sink);

    assert_eq!(sink.queues[0], vec![5, 6]);
    assert_eq!(outcome.session.reason, Some(StopReason::NotRunning));
}

#[test]
fn missing_frame_reads_as_stalled_session() {
    let script = vec![
        good_frame(vec![7, 8]),
        ScriptedPoll::Read(running_status(), Vec::new()),
    ];
    let mut dev = ScriptedScanner::new(script);
    let session = start_scan(&mut dev, &opts(0b0011, 1_000_000)).unwrap();
    let mut sink = VecSink::new(2);

    let (_, outcome) = run_acquisition(dev, session, 0, u64::MAX, &mut sink);

    assert_eq!(sink.queues[0], vec![7]);
    assert_eq!(sink.queues[1], vec![8]);
    assert_eq!(outcome.session.reason, Some(StopReason::NoSamples));
}

#[test]
fn read_error_is_fatal() {
    let script = vec![
        good_frame(vec![1]),
        ScriptedPoll::Failed(ErrorCode::CommsFailure),
        good_frame(vec![2]),
    ];
    let mut dev = ScriptedScanner::new(script);
    let session = start_scan(&mut dev, &opts(0b0001, 1_000_000)).unwrap();
    let mut sink = VecSink::new(1);

    let (dev, outcome) = run_acquisition(dev, session, 0, u64::MAX, &mut sink);

    assert_eq!(sink.queues[0], vec![1]);
    assert_eq!(
        outcome.session.reason,
        Some(StopReason::ReadError(ErrorCode::CommsFailure))
    );
    assert_eq!(dev.stop_calls, 1);
    assert_eq!(dev.cleanup_calls, 1);
}

/// Consumers that are gone when a frame is ready end the loop normally:
/// no failure is reported, and the device still receives stop and cleanup.
#[test]
fn consumer_disconnection_stops_the_loop() {
    let script = vec![
        good_frame(vec![1, 2]),
        good_frame(vec![3, 4]),
        good_frame(vec![5, 6]),
    ];
    let mut dev = ScriptedScanner::new(script);
    let session = start_scan(&mut dev, &opts(0b0011, 1_000_000)).unwrap();
    let mut sink = VecSink::new(2);
    sink.close();

    let (dev, outcome) = run_acquisition(dev, session, 0, u64::MAX, &mut sink);

    assert!(sink.queues[0].is_empty());
    assert!(sink.queues[1].is_empty());
    assert_eq!(outcome.session.reason, Some(StopReason::ConsumersGone));
    assert_eq!(dev.stop_calls, 1);
    assert_eq!(dev.cleanup_calls, 1);
}

/// A single dropped endpoint: the remaining channels of the same frame are
/// still attempted and served, and the failed delivery is then the normal
/// caller-initiated stop for the whole loop.
#[test]
fn one_dead_endpoint_still_serves_the_others() {
    let script = vec![
        good_frame(vec![1, 2]),
        good_frame(vec![3, 4]),
        good_frame(vec![5, 6]),
    ];
    let mut dev = ScriptedScanner::new(script);
    let session = start_scan(&mut dev, &opts(0b0011, 1_000_000)).unwrap();
    let mut sink = VecSink::new(2);
    sink.close_channel(0);

    let (dev, outcome) = run_acquisition(dev, session, 0, u64::MAX, &mut sink);

    assert!(sink.queues[0].is_empty());
    assert_eq!(sink.queues[1], vec![2]);
    assert_eq!(outcome.session.reason, Some(StopReason::ConsumersGone));
    assert_eq!(dev.stop_calls, 1);
    assert_eq!(dev.cleanup_calls, 1);
}

#[test]
fn poll_budget_is_a_stop_request() {
    let script = vec![
        good_frame(vec![1]),
        good_frame(vec![2]),
        good_frame(vec![3]),
        good_frame(vec![4]),
        good_frame(vec![5]),
    ];
    let mut dev = ScriptedScanner::new(script);
    let session = start_scan(&mut dev, &opts(0b0001, 1_000_000)).unwrap();
    let mut sink = VecSink::new(1);

    let (dev, outcome) = run_acquisition(dev, session, 0, 3, &mut sink);

    assert_eq!(sink.queues[0], vec![1, 2, 3]);
    assert_eq!(outcome.session.reason, Some(StopReason::StopRequested));
    assert_eq!(dev.stop_calls, 1);
    assert_eq!(dev.cleanup_calls, 1);
}

/// The device comes back with exclusive ownership restored and is fully
/// idle: a second scan can be started and run on it right away.
#[test]
fn returned_device_is_reusable() {
    let script = vec![good_frame(vec![1]), good_frame(vec![2])];
    let mut dev = ScriptedScanner::new(script);
    let session = start_scan(&mut dev, &opts(0b0001, 1_000_000)).unwrap();
    let mut sink = VecSink::new(1);
    let (mut dev, outcome) = run_acquisition(dev, session, 0, u64::MAX, &mut sink);
    assert_eq!(outcome.session.phase, ScanPhase::Idle);

    dev.script = vec![good_frame(vec![9])];
    let session = start_scan(&mut dev, &opts(0b0001, 1_000_000)).unwrap();
    let mut sink = VecSink::new(1);
    let (dev, outcome) = run_acquisition(dev, session, 0, u64::MAX, &mut sink);

    assert_eq!(sink.queues[0], vec![9]);
    assert_eq!(outcome.session.phase, ScanPhase::Idle);
    assert_eq!(dev.start_calls, 2);
    assert_eq!(dev.stop_calls, 2);
    assert_eq!(dev.cleanup_calls, 2);
}

#[test]
fn shutdown_errors_are_recorded_not_raised() {
    let script = vec![ScriptedPoll::Read(
        ScanStatus {
            buffer_overrun: true,
            ..running_status()
        },
        Vec::new(),
    )];
    let mut dev = ScriptedScanner::with_errors(
        script,
        None,
        Some(ErrorCode::Timeout),
        Some(ErrorCode::Undefined),
    );
    let session = start_scan(&mut dev, &opts(0b0001, 1_000_000)).unwrap();
    let mut sink = VecSink::new(1);

    let (dev, outcome) = run_acquisition(dev, session, 0, u64::MAX, &mut sink);

    assert_eq!(outcome.session.reason, Some(StopReason::BufferOverrun));
    assert_eq!(outcome.session.stop_result, Some(Err(ErrorCode::Timeout)));
    assert_eq!(
        outcome.session.cleanup_result,
        Some(Err(ErrorCode::Undefined))
    );
    assert_eq!(dev.stop_calls, 1);
    assert_eq!(dev.cleanup_calls, 1);
}

#[test]
fn deliver_frame_fans_out_in_channel_order() {
    let mut sink = VecSink::new(3);
    assert!(deliver_frame(&mut sink, &vec![100, 200, 300]));
    assert!(deliver_frame(&mut sink, &vec![101, 201, 301]));
    assert_eq!(sink.queues[0], vec![100, 101]);
    assert_eq!(sink.queues[1], vec![200, 201]);
    assert_eq!(sink.queues[2], vec![300, 301]);

    sink.close();
    assert!(!deliver_frame(&mut sink, &vec![1, 2, 3]));
    assert_eq!(sink.queues[0], vec![100, 101]);
}

#[test]
fn closed_sink_rejects_single_delivery() {
    let mut sink = VecSink::new(1);
    assert!(sink.deliver(0, 42));
    sink.close();
    assert!(!sink.deliver(0, 43));
    assert_eq!(sink.queues[0], vec![42]);
}
