use sos_loadgen::args::{LoadTesterArgs, LoadTesterJobArgs, Mode};
use sos_loadgen::config::RunConfig;
use sos_loadgen::failure::Failure;
use sos_loadgen::session::{
    position, probe_path, CreateOutcome, Session, SessionAction, SessionEvent, SessionPhase,
    PROGRESS_POLL_MILLIS,
};
use sos_loadgen::worker::BarrierState;

fn config(mode: Mode, count: Option<u64>, threads: usize, progress: bool) -> RunConfig {
    let load = LoadTesterArgs { count, step: 4, size: 100, ..LoadTesterArgs::default() };
    let job = LoadTesterJobArgs {
        mode,
        threads_max: threads,
        no_progress_bar: !progress,
        ..LoadTesterJobArgs::default()
    };
    RunConfig::from_args(&load, &job).unwrap()
}

fn running(cfg: RunConfig) -> (Session, SessionAction) {
    let mut session = Session::new(cfg, false);
    session.step(SessionEvent::Started { client: true });
    session.step(SessionEvent::Probed { exists: true });
    let action = session.step(SessionEvent::Spawned);
    (session, action)
}

const LIST: SessionAction = SessionAction::List { prefix: "/sample/", delimiter: "/" };

fn keys(count: usize) -> Vec<String> {
    (0..count).map(|index| format!("/sample/{index:06}.bin")).collect()
}

fn listed(count: usize) -> SessionEvent {
    SessionEvent::Listed { keys: Some(keys(count)) }
}

#[test]
fn session_probes_the_bucket_first() {
    let mut session = Session::new(config(Mode::Write, None, 2, false), false);
    assert_eq!(session.phase, SessionPhase::Idle);
    assert_eq!(probe_path(), "/_sos_bucket_test");
    assert_eq!(
        session.step(SessionEvent::Started { client: true }),
        SessionAction::Probe { path: "/_sos_bucket_test" }
    );
    assert_eq!(session.step(SessionEvent::Probed { exists: true }), SessionAction::Spawn { workers: 2 });
}

#[test]
fn session_fails_without_a_client() {
    let mut session = Session::new(config(Mode::Write, None, 2, false), true);
    assert_eq!(
        session.step(SessionEvent::Started { client: false }),
        SessionAction::Finish { failure: Some(Failure::ClientInit) }
    );
    assert!(session.is_done());
}

#[test]
fn missing_bucket_fails_fast_unless_it_may_be_created() {
    let mut session = Session::new(config(Mode::Write, None, 2, false), false);
    session.step(SessionEvent::Started { client: true });
    assert_eq!(
        session.step(SessionEvent::Probed { exists: false }),
        SessionAction::Finish { failure: Some(Failure::BucketMissing) }
    );
    let mut creating = Session::new(config(Mode::Write, None, 2, false), true);
    creating.step(SessionEvent::Started { client: true });
    assert_eq!(creating.step(SessionEvent::Probed { exists: false }), SessionAction::Create);
    assert_eq!(
        creating.step(SessionEvent::Created { outcome: CreateOutcome::Created }),
        SessionAction::Spawn { workers: 2 }
    );
}

#[test]
fn bucket_that_cannot_be_created_ends_the_session() {
    for (outcome, failure) in [
        (CreateOutcome::Refused, Failure::BucketRefused),
        (CreateOutcome::Failed, Failure::BucketCreate),
    ] {
        let mut session = Session::new(config(Mode::Write, None, 2, false), true);
        session.step(SessionEvent::Started { client: true });
        session.step(SessionEvent::Probed { exists: false });
        assert_eq!(
            session.step(SessionEvent::Created { outcome }),
            SessionAction::Finish { failure: Some(failure) }
        );
        assert_eq!(session.phase, SessionPhase::Done { failure: Some(failure) });
    }
}

#[test]
fn session_without_progress_joins_then_cleans_up() {
    let (mut session, action) = running(config(Mode::Write, Some(10), 2, false));
    assert_eq!(action, SessionAction::Join { position: None, finished: false });
    assert_eq!(
        session.step(SessionEvent::Joined { ok: true }),
        SessionAction::Join { position: None, finished: false }
    );
    assert_eq!(session.phase, SessionPhase::Joining { left: 1, failed: false });
    assert_eq!(session.step(SessionEvent::Joined { ok: true }), LIST);
    assert_eq!(
        session.step(listed(2)),
        SessionAction::DeleteAll {
            keys: vec![String::from("/sample/000000.bin"), String::from("/sample/000001.bin")],
        }
    );
    assert_eq!(session.phase, SessionPhase::Deleting { left: 2, failed: false });
    assert_eq!(session.step(SessionEvent::Deleted { ok: true }), SessionAction::AwaitDeleted);
    assert_eq!(
        session.step(SessionEvent::Deleted { ok: true }),
        SessionAction::Finish { failure: None }
    );
    assert!(session.is_done());
    assert_eq!(
        session.step(SessionEvent::Deleted { ok: false }),
        SessionAction::Finish { failure: None }
    );
}

#[test]
fn session_with_nothing_to_delete_ends_after_the_listing() {
    let (mut session, _) = running(config(Mode::Write, Some(0), 1, false));
    assert_eq!(session.step(SessionEvent::Joined { ok: true }), LIST);
    assert_eq!(session.step(listed(0)), SessionAction::Finish { failure: None });
}

#[test]
fn session_without_workers_goes_straight_to_cleanup() {
    let (_, action) = running(config(Mode::Write, None, 0, false));
    assert_eq!(action, LIST);
}

#[test]
fn worker_error_is_kept_until_all_are_joined() {
    let (mut session, _) = running(config(Mode::Write, None, 3, false));
    assert_eq!(
        session.step(SessionEvent::Joined { ok: false }),
        SessionAction::Join { position: None, finished: false }
    );
    assert_eq!(session.phase, SessionPhase::Joining { left: 2, failed: true });
    session.step(SessionEvent::Joined { ok: true });
    assert_eq!(session.step(SessionEvent::Joined { ok: true }), LIST);
    assert_eq!(session.phase, SessionPhase::Listing { failed: true });
    assert_eq!(session.step(listed(1)), SessionAction::DeleteAll { keys: keys(1) });
    assert_eq!(
        session.step(SessionEvent::Deleted { ok: true }),
        SessionAction::Finish { failure: Some(Failure::Operation) }
    );
}

#[test]
fn cleanup_errors_end_the_session() {
    let (mut session, _) = running(config(Mode::Write, None, 1, false));
    session.step(SessionEvent::Joined { ok: true });
    assert_eq!(
        session.step(SessionEvent::Listed { keys: None }),
        SessionAction::Finish { failure: Some(Failure::CleanupList) }
    );
    let (mut session, _) = running(config(Mode::Write, None, 1, false));
    session.step(SessionEvent::Joined { ok: true });
    session.step(listed(3));
    session.step(SessionEvent::Deleted { ok: true });
    assert_eq!(
        session.step(SessionEvent::Deleted { ok: false }),
        SessionAction::Finish { failure: Some(Failure::CleanupDelete) }
    );
    let (mut session, _) = running(config(Mode::Write, None, 1, false));
    session.step(SessionEvent::Joined { ok: false });
    assert_eq!(
        session.step(SessionEvent::Listed { keys: None }),
        SessionAction::Finish { failure: Some(Failure::Operation) }
    );
}

#[test]
fn progress_in_write_mode_polls_the_counter() {
    let (mut session, action) = running(config(Mode::Write, Some(10), 2, true));
    assert_eq!(PROGRESS_POLL_MILLIS, 50);
    assert_eq!(action, SessionAction::Poll { position: 0, after_millis: 50 });
    assert_eq!(
        session.step(SessionEvent::Polled { completed: 3, cancelled: false }),
        SessionAction::Poll { position: 300, after_millis: 50 }
    );
    assert_eq!(
        session.step(SessionEvent::Polled { completed: 9, cancelled: false }),
        SessionAction::Poll { position: 900, after_millis: 50 }
    );
    assert_eq!(
        session.step(SessionEvent::Polled { completed: 10, cancelled: false }),
        SessionAction::Join { position: Some(1000), finished: true }
    );
    assert_eq!(session.phase, SessionPhase::Joining { left: 2, failed: false });
}

#[test]
fn progress_ends_on_cancellation() {
    let (mut session, _) = running(config(Mode::Write, None, 2, true));
    assert_eq!(
        session.step(SessionEvent::Polled { completed: 7, cancelled: true }),
        SessionAction::Join { position: Some(700), finished: false }
    );
}

#[test]
fn progress_in_read_mode_waits_for_the_barrier() {
    let (mut session, action) = running(config(Mode::Read, Some(10), 2, true));
    assert_eq!(action, SessionAction::Watch { after_millis: 0 });
    assert_eq!(
        session.step(SessionEvent::Seen { barrier: BarrierState::Initializing, cancelled: false }),
        SessionAction::Watch { after_millis: 10 }
    );
    assert_eq!(
        session.step(SessionEvent::Seen { barrier: BarrierState::Ready, cancelled: false }),
        SessionAction::Poll { position: 0, after_millis: 50 }
    );
    let (mut session, _) = running(config(Mode::Read, Some(10), 2, true));
    assert_eq!(
        session.step(SessionEvent::Seen { barrier: BarrierState::Pending, cancelled: true }),
        SessionAction::Join { position: Some(0), finished: false }
    );
}

#[test]
fn position_is_the_bytes_moved() {
    assert_eq!(position(0, 4_000_000), 0);
    assert_eq!(position(3, 4_000_000), 12_000_000);
    assert_eq!(position(u64::MAX, 1), u64::MAX);
    assert_eq!(position(u64::MAX, 2), u64::MAX);
    assert_eq!(position(1 << 40, 1 << 30), u64::MAX);
}

#[test]
fn event_out_of_turn_ends_the_session() {
    let mut session = Session::new(config(Mode::Write, None, 2, false), false);
    assert_eq!(
        session.step(SessionEvent::Spawned),
        SessionAction::Finish { failure: Some(Failure::OutOfTurn) }
    );
    let (mut session, _) = running(config(Mode::Write, None, 2, false));
    assert_eq!(session.step(listed(1)), SessionAction::Finish { failure: Some(Failure::OutOfTurn) });
}

#[test]
fn cleanup_hands_out_exactly_the_listed_keys() {
    let (mut session, _) = running(config(Mode::Write, None, 1, false));
    assert_eq!(session.step(SessionEvent::Joined { ok: true }), LIST);
    let found = vec![
        String::from("/sample/000003.bin"),
        String::from("/sample/000000.bin"),
        String::from("/sample/stray"),
    ];
    assert_eq!(
        session.step(SessionEvent::Listed { keys: Some(found.clone()) }),
        SessionAction::DeleteAll { keys: found }
    );
    // The keys are handed out once: the later steps only wait.
    assert_eq!(session.step(SessionEvent::Deleted { ok: true }), SessionAction::AwaitDeleted);
    assert_eq!(session.step(SessionEvent::Deleted { ok: true }), SessionAction::AwaitDeleted);
    assert_eq!(
        session.step(SessionEvent::Deleted { ok: true }),
        SessionAction::Finish { failure: None }
    );
}

#[test]
fn failures_that_name_the_bucket() {
    assert!(Failure::BucketMissing.names_bucket());
    assert!(Failure::BucketRefused.names_bucket());
    for failure in [
        Failure::ClientInit,
        Failure::BucketCreate,
        Failure::Operation,
        Failure::PartNumber,
        Failure::CleanupList,
        Failure::CleanupDelete,
        Failure::OutOfTurn,
    ] {
        assert!(!failure.names_bucket());
    }
}
