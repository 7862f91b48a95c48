use transcoder::config::Config;
use transcoder::consumer::{disposition, Disposition, Tally};
use transcoder::job::{Action, Completion, Failure, Feedback, Job, Phase, StoreError, UploadEvent};
use transcoder::upload::ContentType;

fn settings() -> transcoder::job::JobSettings {
    Config::with_defaults("amqp://rabbitmq:5672/%2f".to_string(), "http://minio:9000".to_string()).job_settings()
}

fn v1_event() -> UploadEvent {
    UploadEvent { video_id: "v1".to_string(), input_key: "raw/v1.mp4".to_string(), owner_id: "u1".to_string() }
}

fn started() -> (Job<f64>, Action<f64>) {
    let (job, action) = Job::<f64>::start(settings(), "/work/v1/a1".to_string(), Some(v1_event()));
    (job.expect("a decoded event starts a job"), action)
}

fn complete_tree() -> Feedback<f64> {
    let mut files: Vec<String> = vec!["master.m3u8".to_string()];
    for i in 0..3 {
        files.push(format!("out_{}/prog.m3u8", i));
        files.push(format!("out_{}/seg_000.ts", i));
        files.push(format!("out_{}/seg_001.ts", i));
    }
    let master = "#EXTM3U\n#EXT-X-STREAM-INF:BANDWIDTH=6612000\nout_0/prog.m3u8\n#EXT-X-STREAM-INF:BANDWIDTH=3370000\nout_1/prog.m3u8\n#EXT-X-STREAM-INF:BANDWIDTH=1628000\nout_2/prog.m3u8\n".to_string();
    Feedback::Output { files, master }
}

fn advance_to(job: &mut Job<f64>, phase: Phase) {
    let feeds: Vec<Feedback<f64>> = vec![
        Feedback::Marker(false),
        Feedback::Done,
        Feedback::Probed(10.0),
        Feedback::Done,
        complete_tree(),
        Feedback::Done,
        Feedback::Done,
        Feedback::Done,
    ];
    for fb in feeds {
        if job.phase == phase {
            return;
        }
        let _ = job.step(fb);
    }
    assert!(job.phase == phase);
}

#[test]
fn end_to_end_v1_publishes_ready_event() {
    let (mut job, first) = started();
    match first {
        Action::CheckMarker { bucket, key } => {
            assert_eq!(bucket, "vod");
            assert_eq!(key, "hls/v1/master.m3u8");
        }
        _ => panic!("first the marker is checked"),
    }
    match job.step(Feedback::Marker(false)) {
        Action::Download { bucket, key, to } => {
            assert_eq!(bucket, "uploads");
            assert_eq!(key, "raw/v1.mp4");
            assert_eq!(to, "/work/v1/a1/input.mp4");
        }
        _ => panic!("then the source is fetched"),
    }
    match job.step(Feedback::Done) {
        Action::Probe { args } => assert_eq!(args.last().unwrap(), "/work/v1/a1/input.mp4"),
        _ => panic!("then the duration is probed"),
    }
    match job.step(Feedback::Probed(10.0)) {
        Action::Encode { dirs, args } => {
            assert_eq!(dirs, vec!["out_0", "out_1", "out_2"]);
            let gop = args.iter().position(|a| a == "-g").unwrap();
            assert_eq!(args[gop + 1], "180");
            let hls_time = args.iter().position(|a| a == "-hls_time").unwrap();
            assert_eq!(args[hls_time + 1], "6");
            assert_eq!(args.iter().filter(|a| a.as_str() == "-sc_threshold").count(), 3);
            assert_eq!(args.iter().filter(|a| a.as_str() == "180").count(), 6);
        }
        _ => panic!("then the ladder is encoded"),
    }
    assert!(matches!(job.step(Feedback::Done), Action::InspectOutput));
    match job.step(complete_tree()) {
        Action::Thumbnail { args } => {
            assert_eq!(args, vec!["-y", "-ss", "3", "-i", "/work/v1/a1/input.mp4", "-frames:v", "1", "/work/v1/a1/thumb.jpg"]);
        }
        _ => panic!("then the thumbnail is written"),
    }
    match job.step(Feedback::Done) {
        Action::UploadTree { bucket, prefix } => {
            assert_eq!(bucket, "vod");
            assert_eq!(prefix, "hls/v1/");
        }
        _ => panic!("then the tree goes up"),
    }
    match job.step(Feedback::Done) {
        Action::UploadThumb { bucket, key, content_type } => {
            assert_eq!(bucket, "vod");
            assert_eq!(key, "hls/v1/thumb.jpg");
            assert_eq!(content_type, ContentType::Jpeg);
            assert_eq!(content_type.mime(), "image/jpeg");
        }
        _ => panic!("then the thumbnail goes up"),
    }
    match job.step(Feedback::Done) {
        Action::Publish { exchange, routing_key, event } => {
            assert_eq!(exchange, "domain");
            assert_eq!(routing_key, "video.ready");
            assert_eq!(event.video_id, "v1");
            assert_eq!(event.output_prefix, "hls/v1/");
            assert_eq!(event.thumb_key, "hls/v1/thumb.jpg");
            assert_eq!(event.duration_sec, 10.0);
        }
        _ => panic!("then the video is announced"),
    }
    match job.step(Feedback::Done) {
        Action::Finish { outcome, cleanup } => {
            assert!(cleanup);
            assert!(matches!(outcome, Ok(Completion::Published)));
            assert_eq!(disposition(&outcome), Disposition::Ack);
        }
        _ => panic!("and the job is over"),
    }
    assert!(job.is_finished());
}

#[test]
fn duplicate_delivery_is_acked_without_work() {
    let (mut job, _) = started();
    match job.step(Feedback::Marker(true)) {
        Action::Finish { outcome, cleanup } => {
            assert!(!cleanup);
            assert!(matches!(outcome, Ok(Completion::AlreadyDone)));
            assert_eq!(disposition(&outcome), Disposition::Ack);
            let mut t = Tally::new();
            t.record(&outcome);
            assert_eq!((t.succeeded, t.failed), (1, 0));
        }
        _ => panic!("a stored marker ends the job"),
    }
    assert!(job.is_finished());
}

#[test]
fn malformed_payload_is_dropped() {
    let (job, action) = Job::<f64>::start(settings(), "/work/x".to_string(), None);
    assert!(job.is_none());
    match action {
        Action::Finish { outcome, cleanup } => {
            assert!(!cleanup);
            assert!(matches!(outcome, Err(Failure::Malformed)));
            assert_eq!(disposition(&outcome), Disposition::Drop);
        }
        _ => panic!("a malformed payload ends at once"),
    }
}

#[test]
fn missing_source_is_dropped_and_counted() {
    let (mut job, _) = started();
    let _ = job.step(Feedback::Marker(false));
    match job.step(Feedback::StoreFailed(StoreError::NoSuchKey)) {
        Action::Finish { outcome, cleanup } => {
            assert!(cleanup);
            assert!(matches!(outcome, Err(Failure::MissingSource)));
            assert_eq!(disposition(&outcome), Disposition::Drop);
            let mut t = Tally::new();
            t.record_received();
            t.record(&outcome);
            assert_eq!((t.received, t.succeeded, t.failed), (1, 0, 1));
        }
        _ => panic!("a missing source ends the job"),
    }
}

#[test]
fn store_outage_is_requeued_without_announcement() {
    let (mut job, _) = started();
    advance_to(&mut job, Phase::UploadingTree);
    match job.step(Feedback::StoreFailed(StoreError::Other("connection refused".to_string()))) {
        Action::Finish { outcome, cleanup } => {
            assert!(cleanup);
            match &outcome {
                Err(Failure::Store(StoreError::Other(m))) => assert_eq!(m, "connection refused"),
                _ => panic!("a store failure"),
            }
            assert_eq!(disposition(&outcome), Disposition::Requeue);
        }
        _ => panic!("an outage ends the job"),
    }
    assert!(job.is_finished());
}

#[test]
fn missing_key_after_download_is_transient() {
    let (mut job, _) = started();
    advance_to(&mut job, Phase::UploadingThumb);
    match job.step(Feedback::StoreFailed(StoreError::NoSuchKey)) {
        Action::Finish { outcome, .. } => {
            assert!(matches!(outcome, Err(Failure::Store(StoreError::NoSuchKey))));
            assert_eq!(disposition(&outcome), Disposition::Requeue);
        }
        _ => panic!("the job ends"),
    }
}

#[test]
fn engine_failure_is_requeued() {
    let (mut job, _) = started();
    advance_to(&mut job, Phase::Encoding);
    match job.step(Feedback::EngineFailed("exit status 1".to_string())) {
        Action::Finish { outcome, cleanup } => {
            assert!(cleanup);
            assert!(matches!(&outcome, Err(Failure::Engine(m)) if m == "exit status 1"));
            assert_eq!(disposition(&outcome), Disposition::Requeue);
        }
        _ => panic!("the job ends"),
    }
}

#[test]
fn incomplete_output_is_requeued() {
    let (mut job, _) = started();
    advance_to(&mut job, Phase::Inspecting);
    let files = vec!["master.m3u8".to_string(), "out_0/prog.m3u8".to_string(), "out_2/prog.m3u8".to_string()];
    match job.step(Feedback::Output { files, master: "out_0/prog.m3u8 out_1/prog.m3u8 out_2/prog.m3u8".to_string() }) {
        Action::Finish { outcome, .. } => {
            assert!(matches!(outcome, Err(Failure::IncompleteOutput)));
            assert_eq!(disposition(&outcome), Disposition::Requeue);
        }
        _ => panic!("the job ends"),
    }
}

#[test]
fn master_without_variant_is_incomplete() {
    let (mut job, _) = started();
    advance_to(&mut job, Phase::Inspecting);
    let files = vec![
        "master.m3u8".to_string(),
        "out_0/prog.m3u8".to_string(),
        "out_1/prog.m3u8".to_string(),
        "out_2/prog.m3u8".to_string(),
    ];
    match job.step(Feedback::Output { files, master: "out_0/prog.m3u8\nout_1/prog.m3u8\n".to_string() }) {
        Action::Finish { outcome, .. } => assert!(matches!(outcome, Err(Failure::IncompleteOutput))),
        _ => panic!("the job ends"),
    }
}

#[test]
fn staging_and_broker_failures_are_requeued() {
    let (mut job, _) = started();
    advance_to(&mut job, Phase::Downloading);
    match job.step(Feedback::StagingFailed("disk full".to_string())) {
        Action::Finish { outcome, .. } => {
            assert!(matches!(outcome, Err(Failure::Staging(_))));
            assert_eq!(disposition(&outcome), Disposition::Requeue);
        }
        _ => panic!("the job ends"),
    }
    let (mut job, _) = started();
    advance_to(&mut job, Phase::Publishing);
    match job.step(Feedback::BrokerFailed("channel closed".to_string())) {
        Action::Finish { outcome, .. } => {
            assert!(matches!(outcome, Err(Failure::Broker(_))));
            assert_eq!(disposition(&outcome), Disposition::Requeue);
        }
        _ => panic!("the job ends"),
    }
}

#[test]
fn result_out_of_order_is_requeued() {
    let (mut job, _) = started();
    match job.step(Feedback::Done) {
        Action::Finish { outcome, cleanup } => {
            assert!(!cleanup);
            assert!(matches!(outcome, Err(Failure::OutOfOrder)));
            assert_eq!(disposition(&outcome), Disposition::Requeue);
        }
        _ => panic!("the job ends"),
    }
}

#[test]
fn tally_stops_at_largest_count() {
    let mut t = Tally { received: u64::MAX, succeeded: 0, failed: u64::MAX };
    t.record_received();
    t.record(&Err(Failure::OutOfOrder));
    assert_eq!((t.received, t.succeeded, t.failed), (u64::MAX, 0, u64::MAX));
}
