use scanpipe::cancel::SignalState;
use scanpipe::device::{Parameters, ProtocolError, SaneError};
use scanpipe::jpeg::{EncodeError, Jpeg, JpegFormat};
use scanpipe::raster::RawImageFormat;
use scanpipe::worker::{ParametersReport, Phase, ScanError, ScanState, ScanWorker};

fn gray_params(bytes_per_line: i32, lines: i32) -> Parameters {
    Parameters::from_device_report(0, 1, bytes_per_line, bytes_per_line, lines, 8).unwrap()
}

fn dummy_jpeg() -> Jpeg {
    Jpeg { bytes: vec![0xFF, 0xD8, 0xFF, 0xD9], format: JpegFormat::Gray, width: 300, height: 400 }
}

/// Drives a worker through the happy path up to the first read checkpoint.
fn reach_first_read_checkpoint(params: Parameters) -> (ScanWorker, Vec<ScanState>) {
    let mut w = ScanWorker::new();
    let mut events = Vec::new();
    events.extend(w.begin());
    events.extend(w.checkpoint_open(SignalState::Quiet));
    events.extend(w.session_opened(Ok(())));
    events.extend(w.negotiated(Ok(())));
    events.extend(w.checkpoint_start(SignalState::Quiet));
    events.extend(w.started(Ok(())));
    events.extend(w.parameters_fetched(ParametersReport::Valid(params)));
    assert_eq!(w.phase(), Phase::ReadCheckpoint);
    (w, events)
}

#[test]
fn cancel_before_any_read_yields_prepare_then_cancelled() {
    // Cancelled at the very first checkpoint.
    let mut w = ScanWorker::new();
    let mut events = Vec::new();
    events.extend(w.begin());
    events.extend(w.checkpoint_open(SignalState::Fired));
    assert_eq!(w.phase(), Phase::Cancelled);
    assert_eq!(events.len(), 2);
    assert!(matches!(events[0], ScanState::Prepare));
    assert!(matches!(events[1], ScanState::Cancelled));

    // Cancelled at the checkpoint right before the first read: still no
    // progress event and no completion event.
    let (mut w, mut events) = reach_first_read_checkpoint(gray_params(300, 400));
    events.extend(w.checkpoint_read(SignalState::Fired));
    assert_eq!(w.phase(), Phase::Cancelled);
    assert_eq!(events.len(), 2);
    assert!(matches!(events[0], ScanState::Prepare));
    assert!(matches!(events[1], ScanState::Cancelled));
}

#[test]
fn dropped_consumer_counts_as_cancellation() {
    let mut w = ScanWorker::new();
    let mut events = Vec::new();
    events.extend(w.begin());
    events.extend(w.checkpoint_open(SignalState::Dropped));
    assert_eq!(w.phase(), Phase::Cancelled);
    assert!(matches!(events.last(), Some(ScanState::Cancelled)));
}

#[test]
fn cancel_mid_page_is_terminal_and_never_done() {
    let (mut w, mut events) = reach_first_read_checkpoint(gray_params(300, 400));
    events.extend(w.checkpoint_read(SignalState::Quiet));
    let chunk = vec![7u8; 60000];
    events.extend(w.read_returned(Ok(&chunk)));
    events.extend(w.checkpoint_read(SignalState::Fired));
    assert_eq!(w.phase(), Phase::Cancelled);
    assert!(matches!(events.last(), Some(ScanState::Cancelled)));
    assert!(!events.iter().any(|e| matches!(e, ScanState::Done(_))));
    // One terminal event only.
    let terminals = events
        .iter()
        .filter(|e| {
            matches!(e, ScanState::Done(_) | ScanState::Error(_) | ScanState::Cancelled)
        })
        .count();
    assert_eq!(terminals, 1);
}

#[test]
fn whole_page_in_one_read_reports_zero_and_hundred_percent() {
    // A gray page, 300 bytes per line, 400 lines: 120,000 bytes, well
    // under one 128 KiB read, so a single read covers the whole page.
    let (mut w, mut events) = reach_first_read_checkpoint(gray_params(300, 400));
    events.extend(w.checkpoint_read(SignalState::Quiet));
    let page = vec![5u8; 120000];
    let mut reads = 0;
    // One read returns the whole page; the next signals end of page.
    events.extend(w.read_returned(Ok(&page)));
    reads += 1;
    events.extend(w.checkpoint_read(SignalState::Quiet));
    events.extend(w.read_returned(Ok(&[])));
    assert_eq!(reads, 1);
    events.extend(w.session_released());
    let (more, image) = w.checkpoint_encode(SignalState::Quiet);
    events.extend(more);
    let image = image.unwrap();
    assert_eq!(image.pixels.len(), 120000);
    assert_eq!(image.pixels, page);
    assert_eq!(image.width, 300);
    assert_eq!(image.height, 400);
    assert!(matches!(image.format, RawImageFormat::Gray));
    events.extend(w.encoded(Ok(dummy_jpeg())));
    assert_eq!(w.phase(), Phase::Done);

    let progress: Vec<u8> = events
        .iter()
        .filter_map(|e| match e {
            ScanState::Progress(p) => Some(*p),
            _ => None,
        })
        .collect();
    assert!(progress.contains(&0));
    assert!(progress.contains(&100));
    assert!(matches!(events[0], ScanState::Prepare));
    assert!(matches!(events.last(), Some(ScanState::Done(_))));
    assert!(events.iter().any(|e| matches!(e, ScanState::Stopping)));
    assert!(events.iter().any(|e| matches!(e, ScanState::Encoding)));
}

#[test]
fn progress_is_coalesced_but_monotonic() {
    let (mut w, mut events) = reach_first_read_checkpoint(gray_params(100, 100));
    let chunk = vec![1u8; 100];
    for _ in 0..100 {
        events.extend(w.checkpoint_read(SignalState::Quiet));
        events.extend(w.read_returned(Ok(&chunk)));
    }
    let progress: Vec<u8> = events
        .iter()
        .filter_map(|e| match e {
            ScanState::Progress(p) => Some(*p),
            _ => None,
        })
        .collect();
    assert_eq!(progress.first(), Some(&0));
    assert_eq!(progress.last(), Some(&100));
    // Fewer events than reads: intermediate percentages are skipped.
    assert!(progress.len() < 100);
    assert!(progress.windows(2).all(|w| w[0] < w[1]));
}

#[test]
fn device_error_while_opening_fails_the_run() {
    let mut w = ScanWorker::new();
    let mut events = Vec::new();
    events.extend(w.begin());
    events.extend(w.checkpoint_open(SignalState::Quiet));
    events.extend(w.session_opened(Err(SaneError::DeviceBusy)));
    assert_eq!(w.phase(), Phase::Failed);
    assert!(matches!(
        events.last(),
        Some(ScanState::Error(ScanError::Device(SaneError::DeviceBusy)))
    ));
}

#[test]
fn malformed_parameter_report_fails_the_run() {
    let mut w = ScanWorker::new();
    w.begin();
    w.checkpoint_open(SignalState::Quiet);
    w.session_opened(Ok(()));
    w.negotiated(Ok(()));
    w.checkpoint_start(SignalState::Quiet);
    w.started(Ok(()));
    let events = w.parameters_fetched(ParametersReport::Malformed(
        ProtocolError::NonPositiveGeometry,
    ));
    assert_eq!(w.phase(), Phase::Failed);
    assert!(matches!(
        events.last(),
        Some(ScanState::Error(ScanError::Protocol(ProtocolError::NonPositiveGeometry)))
    ));
}

#[test]
fn device_overrun_fails_with_raster_overflow() {
    let (mut w, _) = reach_first_read_checkpoint(gray_params(10, 2));
    w.checkpoint_read(SignalState::Quiet);
    let events = w.read_returned(Ok(&[1u8; 21]));
    assert_eq!(w.phase(), Phase::Failed);
    assert!(matches!(
        events.last(),
        Some(ScanState::Error(ScanError::RasterOverflow))
    ));
}

#[test]
fn short_page_fails_as_incomplete() {
    let (mut w, _) = reach_first_read_checkpoint(gray_params(10, 2));
    w.checkpoint_read(SignalState::Quiet);
    w.read_returned(Ok(&[1u8; 15]));
    w.checkpoint_read(SignalState::Quiet);
    w.read_returned(Ok(&[]));
    let events = w.session_released();
    assert_eq!(w.phase(), Phase::Failed);
    assert!(matches!(
        events.last(),
        Some(ScanState::Error(ScanError::IncompletePage))
    ));
}

#[test]
fn single_channel_page_fails_before_encoding() {
    // Frame-format code 3 is the green channel.
    let params = Parameters::from_device_report(3, 1, 10, 10, 2, 8).unwrap();
    let (mut w, _) = reach_first_read_checkpoint(params);
    w.checkpoint_read(SignalState::Quiet);
    w.read_returned(Ok(&[1u8; 20]));
    w.checkpoint_read(SignalState::Quiet);
    w.read_returned(Ok(&[]));
    w.session_released();
    let (events, image) = w.checkpoint_encode(SignalState::Quiet);
    assert!(image.is_none());
    assert_eq!(w.phase(), Phase::Failed);
    assert!(matches!(
        events.last(),
        Some(ScanState::Error(ScanError::UnsupportedFormat))
    ));
}

#[test]
fn compressor_rejection_fails_the_run() {
    let (mut w, _) = reach_first_read_checkpoint(gray_params(10, 2));
    w.checkpoint_read(SignalState::Quiet);
    w.read_returned(Ok(&[1u8; 20]));
    w.checkpoint_read(SignalState::Quiet);
    w.read_returned(Ok(&[]));
    w.session_released();
    let (_, image) = w.checkpoint_encode(SignalState::Quiet);
    assert!(image.is_some());
    let events = w.encoded(Err(EncodeError::BadQuality));
    assert_eq!(w.phase(), Phase::Failed);
    assert!(matches!(
        events.last(),
        Some(ScanState::Error(ScanError::Encode(EncodeError::BadQuality)))
    ));
}

#[test]
fn cancel_before_encoding_is_cancelled_not_done() {
    let (mut w, mut events) = reach_first_read_checkpoint(gray_params(10, 2));
    events.extend(w.checkpoint_read(SignalState::Quiet));
    events.extend(w.read_returned(Ok(&[1u8; 20])));
    events.extend(w.checkpoint_read(SignalState::Quiet));
    events.extend(w.read_returned(Ok(&[])));
    events.extend(w.session_released());
    let (more, image) = w.checkpoint_encode(SignalState::Fired);
    events.extend(more);
    assert!(image.is_none());
    assert_eq!(w.phase(), Phase::Cancelled);
    assert!(matches!(events.last(), Some(ScanState::Cancelled)));
    assert!(!events.iter().any(|e| matches!(e, ScanState::Done(_))));
}
