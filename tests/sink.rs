use s3_batch_sink::{
    batch_key, new, Admission, Buffer, Drain, Progress, Record, RegionSetting, S3Sink,
    S3SinkConfig, UploadResult,
};

fn sink_with(buffer_size: usize, gzip: bool) -> S3Sink {
    new(S3SinkConfig {
        buffer_size,
        key_prefix: "logs/".to_string(),
        bucket: "bucket".to_string(),
        gzip,
        region: RegionSetting::Named("us-east-1".to_string()),
    })
}

fn record(s: &str) -> Record {
    Record::new(s.to_string())
}

#[test]
fn third_record_reaches_threshold_and_submits_whole_batch() {
    let mut sink = sink_with(10, false);
    assert!(matches!(sink.start_send(record("ab")), Admission::Accepted));
    assert!(sink.take_submission().is_none());
    assert!(matches!(sink.start_send(record("cd")), Admission::Accepted));
    assert!(sink.take_submission().is_none());
    assert!(!sink.has_in_flight());
    assert!(matches!(sink.start_send(record("efghij")), Admission::Accepted));
    assert!(sink.has_in_flight());
    let upload = sink.take_submission().expect("a batch is submitted");
    assert_eq!(upload.body.len(), 13);
    assert_eq!(upload.body, b"ab\ncd\nefghij\n".to_vec());
    assert_eq!(upload.content_encoding, None);
    assert!(upload.key.starts_with("logs/"));
    assert!(upload.key.ends_with(".log"));
    assert_eq!(upload.bucket, "bucket");
    assert!(sink.take_submission().is_none());
    assert_eq!(sink.poll_complete(), Progress::Idle);
}

#[test]
fn full_sink_rejects_then_accepts_after_write_ends() {
    let mut sink = sink_with(3, false);
    assert!(matches!(sink.start_send(record("abc")), Admission::Accepted));
    assert!(sink.has_in_flight());
    assert!(matches!(sink.start_send(record("xyz")), Admission::Accepted));
    assert_eq!(sink.poll_complete(), Progress::Busy);
    match sink.start_send(record("x")) {
        Admission::Rejected(r) => assert_eq!(r.line, "x"),
        Admission::Accepted => panic!("a full sink must reject"),
    }
    let first = sink.take_submission().expect("first batch");
    assert_eq!(first.body, b"abc\n".to_vec());
    assert!(sink.complete_upload(UploadResult::Succeeded).is_ok());
    assert!(sink.has_in_flight());
    assert!(matches!(sink.start_send(record("x")), Admission::Accepted));
    let second = sink.take_submission().expect("second batch");
    assert_eq!(second.body, b"xyz\n".to_vec());
    assert!(sink.take_submission().is_none());
    assert!(sink.complete_upload(UploadResult::Succeeded).is_ok());
    assert_eq!(sink.close(), Drain::Draining);
    assert_eq!(sink.take_submission().unwrap().body, b"x\n".to_vec());
}

#[test]
fn completion_submits_waiting_batch() {
    let mut sink = sink_with(3, false);
    assert!(matches!(sink.start_send(record("abc")), Admission::Accepted));
    assert!(matches!(sink.start_send(record("def")), Admission::Accepted));
    assert_eq!(sink.poll_complete(), Progress::Busy);
    assert!(sink.take_submission().is_some());
    assert!(sink.complete_upload(UploadResult::Succeeded).is_ok());
    assert!(sink.has_in_flight());
    assert_eq!(sink.take_submission().unwrap().body, b"def\n".to_vec());
    assert_eq!(sink.poll_complete(), Progress::Idle);
    assert!(sink.take_submission().is_none());
}

#[test]
fn close_drains_partial_batch() {
    let mut sink = sink_with(100, true);
    assert!(matches!(sink.start_send(record("one")), Admission::Accepted));
    assert!(matches!(sink.start_send(record("two")), Admission::Accepted));
    assert!(sink.take_submission().is_none());
    assert_eq!(sink.close(), Drain::Draining);
    let upload = sink.take_submission().expect("close submits the partial batch");
    assert_ne!(upload.body, b"one\ntwo\n".to_vec());
    let mut plain = Vec::new();
    std::io::Read::read_to_end(&mut flate2::read::GzDecoder::new(&upload.body[..]), &mut plain)
        .expect("a gzip stream");
    assert_eq!(plain, b"one\ntwo\n".to_vec());
    assert_eq!(upload.content_encoding, Some("gzip".to_string()));
    assert!(upload.key.starts_with("logs/"));
    assert!(upload.key.ends_with(".log.gz"));
    assert_eq!(sink.close(), Drain::Draining);
    assert!(sink.complete_upload(UploadResult::Succeeded).is_ok());
    assert_eq!(sink.close(), Drain::Complete);
    assert!(!sink.has_in_flight());
}

#[test]
fn close_on_empty_sink_completes_at_once() {
    let mut sink = sink_with(10, false);
    assert_eq!(sink.close(), Drain::Complete);
    assert!(sink.take_submission().is_none());
}

#[test]
fn failed_write_reports_lost_batch() {
    let mut sink = sink_with(4, false);
    assert!(matches!(sink.start_send(record("abcd")), Admission::Accepted));
    let upload = sink.take_submission().unwrap();
    match sink.complete_upload(UploadResult::Failed) {
        Err(f) => {
            assert_eq!(f.size, 5);
            assert_eq!(f.key, upload.key);
        }
        Ok(()) => panic!("failure must be reported"),
    }
    assert!(!sink.has_in_flight());
    assert!(sink.has_failed());
}

#[test]
fn completion_without_write_changes_nothing() {
    let mut sink = sink_with(4, false);
    assert!(sink.complete_upload(UploadResult::Failed).is_ok());
    assert!(!sink.has_in_flight());
    assert!(!sink.has_failed());
}

#[test]
fn zero_threshold_keeps_sink_busy() {
    let mut sink = sink_with(0, false);
    assert_eq!(sink.poll_complete(), Progress::Busy);
    assert!(sink.has_in_flight());
    assert_eq!(sink.take_submission().unwrap().body, Vec::<u8>::new());
}

#[test]
fn multibyte_record_is_written_as_utf8() {
    let mut sink = sink_with(1, false);
    assert!(matches!(sink.start_send(record("é")), Admission::Accepted));
    assert_eq!(sink.take_submission().unwrap().body, "é\n".as_bytes().to_vec());
}

#[test]
fn key_is_prefix_stamp_and_suffix() {
    assert_eq!(batch_key("logs/", "2019-01-02", false), "logs/2019-01-02.log");
    assert_eq!(batch_key("", "t", true), "t.log.gz");
}

#[test]
fn timestamped_key_is_longer_than_prefix_and_suffix() {
    let mut sink = sink_with(1, false);
    assert!(matches!(sink.start_send(record("a")), Admission::Accepted));
    let key = sink.take_submission().unwrap().key;
    assert!(key.len() > "logs/".len() + ".log".len());
}

#[test]
fn buffer_appends_and_resets() {
    let mut b = Buffer::new();
    assert!(b.is_empty());
    b.push(b"ab");
    b.push_byte(b'\n');
    assert_eq!(b.size(), 3);
    assert!(!b.is_empty());
    assert_eq!(b.get_and_reset(), b"ab\n".to_vec());
    assert_eq!(b.size(), 0);
}

#[test]
fn config_reports_settings() {
    let sink = sink_with(7, true);
    assert_eq!(sink.config().buffer_size, 7);
    assert_eq!(sink.config().key_prefix, "logs/");
    assert!(sink.config().gzip);
    assert_eq!(sink.config().bucket, "bucket");
    assert!(matches!(&sink.config().region, RegionSetting::Named(n) if n == "us-east-1"));
}

#[test]
fn completion_during_close_waits_for_close_to_submit() {
    let mut sink = sink_with(3, false);
    assert!(matches!(sink.start_send(record("abc")), Admission::Accepted));
    assert!(matches!(sink.start_send(record("def")), Admission::Accepted));
    assert_eq!(sink.close(), Drain::Draining);
    assert!(sink.take_submission().is_some());
    assert!(sink.complete_upload(UploadResult::Succeeded).is_ok());
    assert!(!sink.has_in_flight());
    assert_eq!(sink.close(), Drain::Draining);
    assert_eq!(sink.take_submission().unwrap().body, b"def\n".to_vec());
    assert!(sink.complete_upload(UploadResult::Succeeded).is_ok());
    assert_eq!(sink.close(), Drain::Complete);
}

#[test]
fn repeated_polls_while_writing_submit_nothing_more() {
    let mut sink = sink_with(3, false);
    assert!(matches!(sink.start_send(record("abc")), Admission::Accepted));
    assert!(sink.take_submission().is_some());
    assert!(matches!(sink.start_send(record("def")), Admission::Accepted));
    for _ in 0..5 {
        assert_eq!(sink.poll_complete(), Progress::Busy);
        assert!(sink.take_submission().is_none());
    }
    assert!(sink.complete_upload(UploadResult::Succeeded).is_ok());
    assert_eq!(sink.take_submission().unwrap().body, b"def\n".to_vec());
    for _ in 0..5 {
        assert_eq!(sink.poll_complete(), Progress::Idle);
        assert!(sink.take_submission().is_none());
    }
}
