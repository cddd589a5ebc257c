use sos_loadgen::args::{LoadTesterArgs, LoadTesterJobArgs, Mode};
use sos_loadgen::config::RunConfig;
use sos_loadgen::worker::{spawn_workers, Action, BarrierState, Env, Event, Phase};

fn read_config(count: u64, step: u64, threads: usize) -> RunConfig {
    let load = LoadTesterArgs { count: Some(count), step, size: 8, ..LoadTesterArgs::default() };
    let job = LoadTesterJobArgs {
        mode: Mode::Read,
        threads_max: threads,
        no_progress_bar: true,
        ..LoadTesterJobArgs::default()
    };
    RunConfig::from_args(&load, &job).unwrap()
}

/// Runs a read pool against a barrier in memory. The worker that steps next
/// is drawn by `seed`; every write listed in `failing` fails.
fn interleave(threads: usize, step: u64, seed: u64, failing: &[usize]) -> (usize, usize, usize) {
    let mut workers = spawn_workers(&read_config(40, step, threads));
    let mut asked: Vec<Option<Action>> = vec![None; threads];
    let mut barrier = BarrierState::Pending;
    let mut state = seed | 1;
    let mut wins = 0;
    let mut init_writes = 0;
    let mut reads = 0;
    let mut writes = 0;
    for _ in 0..20_000 {
        state ^= state << 13;
        state ^= state >> 7;
        state ^= state << 17;
        let id = (state % threads as u64) as usize;
        let event = match asked[id] {
            None => Event::Started,
            Some(Action::Claim) => {
                let (after, won) = barrier.claim();
                barrier = after;
                if won {
                    wins += 1;
                }
                Event::Claimed { won }
            },
            Some(Action::Observe { .. }) => Event::Observed { barrier },
            Some(Action::Publish) => {
                assert_eq!(init_writes, step as usize);
                barrier = BarrierState::Ready;
                Event::Published
            },
            Some(Action::Write { counted, .. }) => {
                assert!(!counted);
                assert_eq!(barrier, BarrierState::Initializing);
                writes += 1;
                let ok = !failing.contains(&writes);
                if ok {
                    init_writes += 1;
                }
                Event::Completed { ok }
            },
            Some(Action::Read { counted, .. }) => {
                assert!(counted);
                assert_eq!(barrier, BarrierState::Ready);
                reads += 1;
                Event::Completed { ok: true }
            },
            Some(Action::Stop { .. }) => continue,
        };
        asked[id] = Some(workers[id].step(event, Env { cancelled: false, now_nanos: 0 }));
        let initializers = workers
            .iter()
            .filter(|worker| {
                matches!(worker.phase, Phase::Initializing { .. } | Phase::Publishing)
            })
            .count();
        assert!(initializers <= 1);
        for worker in &workers {
            if matches!(worker.phase, Phase::Running { .. }) {
                assert_eq!(barrier, BarrierState::Ready);
            }
        }
    }
    (wins, init_writes, reads)
}

#[test]
fn one_worker_initializes_whatever_the_interleaving() {
    for seed in 1..200u64 {
        let threads = 1 + (seed % 7) as usize;
        let step = 1 + seed % 5;
        let (wins, init_writes, reads) = interleave(threads, step, seed * 0x9E3779B97F4A7C15, &[]);
        assert_eq!(wins, 1);
        assert_eq!(init_writes, step as usize);
        assert_eq!(reads, 40);
    }
}

#[test]
fn nobody_reads_when_the_initialization_fails() {
    for seed in 1..50u64 {
        let (wins, init_writes, reads) = interleave(4, 3, seed * 0x9E3779B97F4A7C15, &[2]);
        assert_eq!(wins, 1);
        assert_eq!(init_writes, 1);
        assert_eq!(reads, 0);
    }
}
