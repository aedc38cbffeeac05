use noiseplayer::EXIT_ALREADY_RUNNING;
use noiseplayer::EXIT_FATAL;
use noiseplayer::EXIT_NOT_RUNNING;
use noiseplayer::EXIT_OK;
use noiseplayer::controller::DEFAULT_VOLUME_PERMILLE;
use noiseplayer::controller::ForkFollowUp;
use noiseplayer::controller::ForkOutcome;
use noiseplayer::controller::LockAttempt;
use noiseplayer::controller::Settings;
use noiseplayer::controller::SpawnController;
use noiseplayer::controller::SpawnDecision;
use noiseplayer::controller::SpawnState;
use noiseplayer::controller::resolve_settings;
use noiseplayer::pidfile::PidError;
use noiseplayer::protocol::DaemonWorld;
use noiseplayer::protocol::SpawnReport;
use noiseplayer::spawn_exit_code;
use noiseplayer::stop::StopReport;
use noiseplayer::stop_exit_code;

#[test]
fn settings_load_failure_falls_back_to_default() {
    let (settings, warned) = resolve_settings(None);
    assert_eq!(settings.volume_permille, DEFAULT_VOLUME_PERMILLE);
    assert_eq!(settings.volume_permille, 500);
    assert!(warned);
}

#[test]
fn loaded_settings_are_kept() {
    let (settings, warned) = resolve_settings(Some(Settings { volume_permille: 300 }));
    assert_eq!(settings.volume_permille, 300);
    assert!(!warned);
}

#[test]
fn controller_forks_only_when_lock_acquired() {
    let mut won = SpawnController::new();
    assert_eq!(won.lock_attempted(LockAttempt::Acquired), SpawnDecision::DoFork);
    assert_eq!(won.state, SpawnState::LockAttempted);

    let mut lost = SpawnController::new();
    assert_eq!(lost.lock_attempted(LockAttempt::Busy), SpawnDecision::ReportAlreadyRunning);
    assert_eq!(lost.state, SpawnState::Rejected);
    assert_eq!(spawn_exit_code(&lost.state), EXIT_ALREADY_RUNNING);
}

#[test]
fn fork_continuations() {
    let settings = Settings { volume_permille: 500 };

    let mut parent = SpawnController::new();
    parent.lock_attempted(LockAttempt::Acquired);
    let follow = parent.forked(ForkOutcome::Parent { child: 4242 }, settings);
    assert_eq!(follow, ForkFollowUp::ParentDone { child: 4242 });
    assert_eq!(parent.state, SpawnState::Forked);
    assert_eq!(spawn_exit_code(&parent.state), EXIT_OK);

    let mut child = SpawnController::new();
    child.lock_attempted(LockAttempt::Acquired);
    let follow = child.forked(ForkOutcome::Child, settings);
    assert_eq!(follow, ForkFollowUp::ChildRun { volume_permille: 500 });

    let mut failed = SpawnController::new();
    failed.lock_attempted(LockAttempt::Acquired);
    let follow = failed.forked(ForkOutcome::Failed, settings);
    assert_eq!(follow, ForkFollowUp::PropagateError);
    assert_eq!(spawn_exit_code(&failed.state), EXIT_FATAL);
}

#[test]
fn race_has_one_winner() {
    // five launch attempts against a clean system: the first to reach the
    // lock forks, every other one is turned away and the record keeps the
    // winner's pid
    let mut world = DaemonWorld::new();
    assert_eq!(world.spawn_attempt(100), SpawnReport::Spawned { child: 100 });
    for pid in [101, 102, 103, 104] {
        assert_eq!(world.spawn_attempt(pid), SpawnReport::AlreadyRunning);
        assert_eq!(world.file, Some(b"100".to_vec()));
    }
}

#[test]
fn stop_on_clean_system_is_not_running() {
    let mut world = DaemonWorld::new();
    let report = world.stop_attempt(77);
    assert_eq!(report, StopReport::NotRunning);
    assert_eq!(stop_exit_code(&report), EXIT_NOT_RUNNING);
    assert_eq!(world.file, None);
}

#[test]
fn stop_is_idempotent_when_daemon_already_gone() {
    let mut world = DaemonWorld::new();
    world.spawn_attempt(321);
    assert_eq!(world.stop_attempt(77), StopReport::Stopped { pid: 321 });
    // the daemon is gone, but the record remains; a second stop succeeds too
    let again = world.stop_attempt(77);
    assert_eq!(again, StopReport::Stopped { pid: 321 });
    assert_eq!(stop_exit_code(&again), EXIT_OK);
}

#[test]
fn stop_refuses_record_of_own_pid() {
    let mut world = DaemonWorld::new();
    world.spawn_attempt(55);
    let report = world.stop_attempt(55);
    assert_eq!(report, StopReport::Corrupt { err: PidError::OwnPid });
    assert_eq!(stop_exit_code(&report), EXIT_FATAL);
    // the daemon was not signaled
    assert_eq!(world.lock_holder, Some(55));
}

#[test]
fn full_lifecycle_scenario() {
    let own = 9999;
    let mut world = DaemonWorld::new();

    // spawn daemon A: the record holds A's pid
    assert_eq!(world.spawn_attempt(100), SpawnReport::Spawned { child: 100 });
    assert_eq!(world.file, Some(b"100".to_vec()));

    // a second launch is turned away with its own exit code, record unchanged
    assert_eq!(world.spawn_attempt(200), SpawnReport::AlreadyRunning);
    assert_eq!(world.file, Some(b"100".to_vec()));
    let mut rejected = SpawnController::new();
    rejected.lock_attempted(LockAttempt::Busy);
    let code = spawn_exit_code(&rejected.state);
    assert_eq!(code, EXIT_ALREADY_RUNNING);
    assert_ne!(code, EXIT_OK);
    assert_ne!(code, EXIT_FATAL);

    // stop: A gets the signal, exits, and the OS releases the lock; the
    // record outlives it
    let report = world.stop_attempt(own);
    assert_eq!(report, StopReport::Stopped { pid: 100 });
    assert_eq!(world.lock_holder, None);
    assert_eq!(world.file, Some(b"100".to_vec()));

    // a later launch wins again and overwrites the record with its own pid
    assert_eq!(world.spawn_attempt(300), SpawnReport::Spawned { child: 300 });
    assert_eq!(world.file, Some(b"300".to_vec()));
}
