use audio_relay::endpoint::{Directory, Endpoint, Role, SampleRepr, StreamFormat};
use audio_relay::errors::AudioError;
use audio_relay::relay::{DeliveryOutcome, PlaybackSink};
use audio_relay::session::RelaySession;

fn fmt(channels: u16, rate: u32) -> StreamFormat {
    StreamFormat { channel_count: channels, sample_rate: rate, representation: SampleRepr::F32 }
}

fn endpoint(role: Role, name: &str, channels: u16, rate: u32) -> Endpoint {
    Endpoint { role, name: String::from(name), default_format: fmt(channels, rate) }
}

fn mic_and_speakers(mic_channels: u16, speaker_channels: u16) -> Directory {
    Directory {
        endpoints: vec![
            endpoint(Role::Capture, "Mic", mic_channels, 48000),
            endpoint(Role::Render, "Speakers", speaker_channels, 48000),
        ],
    }
}

fn started(dir: &Directory) -> RelaySession {
    RelaySession::start_session(dir, &String::from("Mic"), &String::from("Speakers"))
        .expect("a valid pair must start")
}

#[test]
fn starting_a_valid_pair_succeeds_at_once() {
    let dir = mic_and_speakers(2, 2);
    let session = started(&dir);
    assert_eq!(session.input_name, "Mic");
    assert_eq!(session.output_name, "Speakers");
    assert_eq!(session.format, fmt(2, 48000));
    assert!(session.running);
    assert!(session.sink.sources.is_empty());
    assert!(!session.sink.paused);
}

#[test]
fn starting_with_unknown_input_fails_before_any_stream() {
    let dir = mic_and_speakers(2, 2);
    let err = RelaySession::start_session(&dir, &String::from("Ghost"), &String::from("Speakers"))
        .expect_err("a nonexistent capture name must not start");
    assert_eq!(err, AudioError::DeviceNotFound(Role::Capture));
}

#[test]
fn starting_with_unknown_output_fails_before_any_stream() {
    let dir = mic_and_speakers(2, 2);
    let err = RelaySession::start_session(&dir, &String::from("Mic"), &String::from("Ghost"))
        .expect_err("a nonexistent render name must not start");
    assert_eq!(err, AudioError::DeviceNotFound(Role::Render));
}

#[test]
fn mono_mic_stereo_speakers_never_start() {
    let dir = mic_and_speakers(1, 2);
    let err = RelaySession::start_session(&dir, &String::from("Mic"), &String::from("Speakers"))
        .expect_err("differing channel counts must not start");
    assert_eq!(err, AudioError::FormatMismatch(1, 2));
}

#[test]
fn empty_batch_changes_nothing() {
    let dir = mic_and_speakers(2, 2);
    let mut session = started(&dir);
    let outcome = session.on_batch(&Vec::new());
    assert_eq!(outcome, DeliveryOutcome::EmptyBatch);
    assert!(session.sink.sources.is_empty());
    assert!(!session.sink.paused);
    assert!(session.running);
}

#[test]
fn one_batch_becomes_one_source() {
    let dir = mic_and_speakers(2, 2);
    let mut session = started(&dir);
    let batch: Vec<u32> = vec![10, 20, 30, 40, 50, 60];
    let outcome = session.on_batch(&batch);
    assert_eq!(outcome, DeliveryOutcome::Queued);
    assert_eq!(session.sink.sources.len(), 1);
    let source = &session.sink.sources[0];
    assert_eq!(source.channel_count, 2);
    assert_eq!(source.sample_rate, 48000);
    assert_eq!(source.samples, batch);
    assert!(!session.sink.paused);
}

#[test]
fn consecutive_batches_queue_in_delivery_order() {
    let dir = mic_and_speakers(2, 2);
    let mut session = started(&dir);
    let batches: Vec<Vec<u32>> = vec![vec![1, 2], vec![3, 4, 5, 6], vec![7, 8]];
    session.on_batches(&batches);
    assert_eq!(session.sink.sources.len(), 3);
    for (i, batch) in batches.iter().enumerate() {
        assert_eq!(session.sink.sources[i].samples, *batch);
        assert_eq!(session.sink.sources[i].channel_count, 2);
        assert_eq!(session.sink.sources[i].sample_rate, 48000);
    }
}

#[test]
fn empty_batches_are_skipped_in_a_run() {
    let dir = mic_and_speakers(2, 2);
    let mut session = started(&dir);
    let batches: Vec<Vec<u32>> = vec![vec![1, 2], Vec::new(), vec![3, 4]];
    session.on_batches(&batches);
    assert_eq!(session.sink.sources.len(), 2);
    assert_eq!(session.sink.sources[0].samples, vec![1, 2]);
    assert_eq!(session.sink.sources[1].samples, vec![3, 4]);
}

#[test]
fn a_paused_sink_resumes_on_delivery() {
    let mut sink = PlaybackSink::new();
    sink.paused = true;
    let outcome = sink.deliver(fmt(2, 48000), &vec![1, 2]);
    assert_eq!(outcome, DeliveryOutcome::Queued);
    assert!(!sink.paused);
}

#[test]
fn a_paused_sink_stays_paused_on_empty_delivery() {
    let mut sink = PlaybackSink::new();
    sink.paused = true;
    let outcome = sink.deliver(fmt(2, 48000), &Vec::new());
    assert_eq!(outcome, DeliveryOutcome::EmptyBatch);
    assert!(sink.paused);
}

#[test]
fn scenario_mic_to_speakers_preserves_order() {
    let dir = Directory {
        endpoints: vec![
            endpoint(Role::Capture, "Mic", 2, 48000),
            endpoint(Role::Render, "Speakers", 2, 48000),
        ],
    };
    let mut session = started(&dir);
    for k in 0..5u32 {
        let batch: Vec<u32> = vec![k * 2, k * 2 + 1];
        let outcome = session.on_batch(&batch);
        assert_eq!(outcome, DeliveryOutcome::Queued);
    }
    assert_eq!(session.sink.sources.len(), 5);
    for k in 0..5usize {
        assert_eq!(session.sink.sources[k].samples, vec![k as u32 * 2, k as u32 * 2 + 1]);
    }
}
