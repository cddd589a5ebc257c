use sos_loadgen::args::{LoadTesterArgs, LoadTesterJobArgs, Mode};
use sos_loadgen::chunk::PartRange;
use sos_loadgen::config::RunConfig;
use sos_loadgen::failure::Failure;
use sos_loadgen::object_op::{content_type, ObjectOp, OpAction, OpPhase, PartId, Reply};

fn config(size: u64, threshold: u64) -> RunConfig {
    let load = LoadTesterArgs { size, multipart_threshold: threshold, ..LoadTesterArgs::default() };
    RunConfig::from_args(&load, &LoadTesterJobArgs::default()).unwrap()
}

fn done(token: &str) -> Reply {
    Reply::Done { token: String::from(token) }
}

#[test]
fn read_fetches_the_object_and_counts() {
    let (op, action) = ObjectOp::begin(&config(100, 1000), Mode::Read, 7, true);
    assert_eq!(action, OpAction::Get { path: String::from("/sample/000007.bin") });
    assert_eq!(op.phase(), OpPhase::Getting);
    let (op, action) = op.step(done(""));
    assert_eq!(action, OpAction::Finish { outcome: Ok(true) });
    assert!(op.is_over());
}

#[test]
fn write_up_to_threshold_is_one_put() {
    for size in [0u64, 1, 999, 1000] {
        let (op, action) = ObjectOp::begin(&config(size, 1000), Mode::Write, 3, true);
        assert_eq!(
            action,
            OpAction::Put {
                path: String::from("/sample/000003.bin"),
                range: PartRange { start: 0, end: size as usize },
            }
        );
        assert_eq!(op.phase(), OpPhase::Putting);
        let (_, action) = op.step(done(""));
        assert_eq!(action, OpAction::Finish { outcome: Ok(true) });
    }
}

#[test]
fn uncounted_write_does_not_count() {
    let (op, _) = ObjectOp::begin(&config(10, 1000), Mode::Write, 0, false);
    let (_, action) = op.step(done(""));
    assert_eq!(action, OpAction::Finish { outcome: Ok(false) });
}

#[test]
fn write_above_threshold_goes_up_in_numbered_parts() {
    // 20 MB at a threshold of 6 MB: parts of 6, 6 and 8 MB.
    let (op, action) = ObjectOp::begin(&config(20_000_000, 6_000_000), Mode::Write, 5, true);
    let path = String::from("/sample/000005.bin");
    assert_eq!(content_type(), "application/octet-stream");
    assert_eq!(action, OpAction::Initiate { path: path.clone(), content_type: content_type() });
    assert_eq!(op.phase(), OpPhase::Initiating);

    let (op, action) = op.step(done("upload-1"));
    assert_eq!(
        action,
        OpAction::UploadPart {
            path: path.clone(),
            upload_id: String::from("upload-1"),
            part_number: 1,
            range: PartRange { start: 0, end: 6_000_000 },
        }
    );
    let (op, action) = op.step(done("etag-a"));
    assert_eq!(
        action,
        OpAction::UploadPart {
            path: path.clone(),
            upload_id: String::from("upload-1"),
            part_number: 2,
            range: PartRange { start: 6_000_000, end: 12_000_000 },
        }
    );
    let (op, action) = op.step(done("etag-b"));
    assert_eq!(
        action,
        OpAction::UploadPart {
            path: path.clone(),
            upload_id: String::from("upload-1"),
            part_number: 3,
            range: PartRange { start: 12_000_000, end: 20_000_000 },
        }
    );
    assert_eq!(op.phase(), OpPhase::Uploading);
    let (op, action) = op.step(done("etag-c"));
    assert_eq!(
        action,
        OpAction::Complete {
            path: path.clone(),
            upload_id: String::from("upload-1"),
            parts: vec![
                PartId { part_number: 1, etag: String::from("etag-a") },
                PartId { part_number: 2, etag: String::from("etag-b") },
                PartId { part_number: 3, etag: String::from("etag-c") },
            ],
        }
    );
    assert_eq!(op.phase(), OpPhase::Completing);
    assert!(!op.is_over());
    let (op, action) = op.step(done(""));
    assert_eq!(action, OpAction::Finish { outcome: Ok(true) });
    assert_eq!(op.phase(), OpPhase::Finished);
}

#[test]
fn failure_at_any_step_aborts_the_operation() {
    let cfg = config(20_000_000, 6_000_000);
    // How many requests succeed before one fails.
    for successes in 0..5usize {
        let (mut op, _) = ObjectOp::begin(&cfg, Mode::Write, 1, true);
        for _ in 0..successes {
            let (next, action) = op.step(done("t"));
            assert_ne!(action, OpAction::Finish { outcome: Ok(true) });
            op = next;
        }
        let (op, action) = op.step(Reply::Failed);
        assert_eq!(action, OpAction::Finish { outcome: Err(Failure::Operation) });
        assert_eq!(op.phase(), OpPhase::Aborted { failure: Failure::Operation });
        assert!(op.is_over());
        // Nothing is sent after the failure.
        let (op, action) = op.step(done("late"));
        assert_eq!(action, OpAction::Finish { outcome: Err(Failure::Operation) });
        let (_, action) = op.step(Reply::Failed);
        assert_eq!(action, OpAction::Finish { outcome: Err(Failure::Operation) });
    }
}

#[test]
fn failed_read_and_failed_put_abort() {
    let (op, _) = ObjectOp::begin(&config(10, 1000), Mode::Read, 0, true);
    assert_eq!(op.step(Reply::Failed).1, OpAction::Finish { outcome: Err(Failure::Operation) });
    let (op, _) = ObjectOp::begin(&config(10, 1000), Mode::Write, 0, true);
    assert_eq!(op.step(Reply::Failed).1, OpAction::Finish { outcome: Err(Failure::Operation) });
}

#[test]
fn finished_operation_stays_finished() {
    let (op, _) = ObjectOp::begin(&config(10, 1000), Mode::Write, 0, true);
    let (op, _) = op.step(done(""));
    let (op, action) = op.step(done("again"));
    assert_eq!(action, OpAction::Finish { outcome: Ok(true) });
    let (_, action) = op.step(Reply::Failed);
    assert_eq!(action, OpAction::Finish { outcome: Ok(true) });
}

#[test]
fn single_part_upload_closes_after_one_part() {
    // One byte above the threshold: the only part is the whole payload.
    let (op, _) = ObjectOp::begin(&config(8_000_001, 8_000_000), Mode::Write, 0, true);
    let (op, action) = op.step(done("id"));
    assert_eq!(
        action,
        OpAction::UploadPart {
            path: String::from("/sample/000000.bin"),
            upload_id: String::from("id"),
            part_number: 1,
            range: PartRange { start: 0, end: 8_000_001 },
        }
    );
    let (_, action) = op.step(done("tag"));
    assert_eq!(
        action,
        OpAction::Complete {
            path: String::from("/sample/000000.bin"),
            upload_id: String::from("id"),
            parts: vec![PartId { part_number: 1, etag: String::from("tag") }],
        }
    );
}

#[test]
fn failure_messages() {
    assert_eq!(Failure::BucketMissing.message("bench"), "no such bucket: bench");
    assert_eq!(Failure::BucketRefused.message("bench"), "failed to create bucket: bench");
    assert_eq!(
        Failure::BucketCreate.message("timeout"),
        "failed to create object storage bucket: timeout"
    );
    assert_eq!(
        Failure::ClientInit.message("bad region"),
        "failed to initialize object storage bucket client: bad region"
    );
    assert_eq!(Failure::Operation.message("HTTP 500"), "HTTP 500");
    assert_eq!(
        Failure::PartNumber.message(""),
        "out of range integral type conversion attempted"
    );
    assert_eq!(
        Failure::CleanupList.message("denied"),
        "failed to validate bucket files: denied"
    );
    assert_eq!(Failure::CleanupDelete.message("denied"), "failed to cleanup bucket: denied");
    assert_eq!(Failure::OutOfTurn.message("Joined"), "event out of turn: Joined");
    assert_eq!(Failure::BucketMissing.context(), "no such bucket: ");
}

#[test]
fn read_does_not_depend_on_the_chunker() {
    // A threshold of zero on a large object stalls the chunker; a read of
    // the object never chunks.
    let mut cfg = config(6_000_000, 1_000_000);
    cfg.multipart_threshold = 0;
    assert!(!cfg.is_valid());
    let (op, action) = ObjectOp::begin(&cfg, Mode::Read, 2, true);
    assert_eq!(action, OpAction::Get { path: String::from("/sample/000002.bin") });
    assert_eq!(op.step(done("")).1, OpAction::Finish { outcome: Ok(true) });
}
