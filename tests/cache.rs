use lal::error::CliError;
use lal::fetch::{fetch_step, pending_action, Component, FetchAction, FetchEvent, FetchRequest, Phase};
use lal::stash::{stash_plan, stashed_outcome};

fn request() -> FetchRequest {
    FetchRequest { root: "/c".to_string(), name: "gtest".to_string(), version: None, env: None }
}

fn component() -> Component {
    Component { name: "gtest".to_string(), version: 6, tarball: "http://x/gtest.tar".to_string() }
}

fn describe(a: &FetchAction) -> String {
    format!("{:?}", a)
}

/// Runs a fetch, answering every question with `answers` in turn, and
/// records each action.
fn run(answers: &[bool]) -> (Vec<String>, FetchAction) {
    let req = request();
    let mut answers = answers.iter();
    let mut phase = Phase::Start;
    let mut action = pending_action(&req, &phase);
    let mut log = Vec::new();
    loop {
        log.push(describe(&action));
        let event = match &action {
            FetchAction::Resolve { .. } => FetchEvent::Resolved(component()),
            FetchAction::CheckCached { .. } | FetchAction::CheckStaged { .. } | FetchAction::ConfirmCached { .. } => {
                FetchEvent::Answer(*answers.next().unwrap())
            }
            FetchAction::Download { .. }
            | FetchAction::CreateDir { .. }
            | FetchAction::Copy { .. }
            | FetchAction::Rename { .. }
            | FetchAction::Remove { .. } => FetchEvent::Completed,
            _ => return (log, action),
        };
        let (next, next_action) = fetch_step(&req, phase, event);
        phase = next;
        action = next_action;
    }
}

#[test]
fn uncached_fetch_downloads_and_stores() {
    let (log, end) = run(&[false, true, true]);
    assert_eq!(log.len(), 10);
    assert!(log[2].contains("Download") && log[2].contains("./gtest.tar"));
    assert!(log[3].contains("CheckStaged"));
    assert!(log[4].contains("CreateDir") && log[4].contains("/c/globals/gtest/6.partial"));
    assert!(log[5].contains("Copy") && log[5].contains("/c/globals/gtest/6.partial/gtest.tar"));
    assert!(log[6].contains("Rename") && log[6].contains("\"/c/globals/gtest/6\""));
    match end {
        FetchAction::Finish { tarball, component } => {
            assert_eq!(tarball, "/c/globals/gtest/6/gtest.tar");
            assert_eq!(component.version, 6);
        }
        other => panic!("unexpected {:?}", other),
    }
}

#[test]
fn cached_fetch_downloads_nothing_and_gives_the_same_path() {
    let (log, end) = run(&[true]);
    assert!(log.iter().all(|a| !a.contains("Download")));
    match end {
        FetchAction::Finish { tarball, .. } => assert_eq!(tarball, "/c/globals/gtest/6/gtest.tar"),
        other => panic!("unexpected {:?}", other),
    }
}

#[test]
fn missing_download_is_missing_tarball() {
    let (_, end) = run(&[false, false]);
    assert!(matches!(end, FetchAction::Fail(CliError::MissingTarball)));
}

#[test]
fn missing_download_creates_no_directory() {
    let (log, _) = run(&[false, false]);
    assert!(log.iter().all(|a| !a.contains("CreateDir") && !a.contains("Rename")));
}

#[test]
fn resolve_carries_the_request() {
    let req = FetchRequest { version: Some(4), env: Some("xenial".to_string()), ..request() };
    match pending_action(&req, &Phase::Start) {
        FetchAction::Resolve { name, version, env } => {
            assert_eq!(name, "gtest");
            assert_eq!(version, Some(4));
            assert_eq!(env, Some("xenial".to_string()));
        }
        other => panic!("unexpected {:?}", other),
    }
}

#[test]
fn failed_copy_leaves_the_cache_dir_absent() {
    let req = request();
    let (phase, action) =
        fetch_step(&req, Phase::Copying(component()), FetchEvent::Failed(CliError::Filesystem("full".to_string())));
    assert!(matches!(phase, Phase::Failed(_)));
    assert!(matches!(action, FetchAction::Fail(CliError::Filesystem(_))));
}

#[test]
fn missing_cache_dir_after_store_aborts() {
    let (_, end) = run(&[false, true, false]);
    assert!(matches!(end, FetchAction::Abort { .. }));
}

#[test]
fn resolution_failure_passes_through() {
    let req = request();
    let (phase, action) = fetch_step(&req, Phase::Start, FetchEvent::Failed(CliError::Transport("down".to_string())));
    assert!(matches!(phase, Phase::Failed(_)));
    assert!(matches!(action, FetchAction::Fail(CliError::Transport(m)) if m == "down"));
}

#[test]
fn unrelated_event_keeps_the_phase() {
    let req = request();
    let (phase, action) = fetch_step(&req, Phase::Checking(component()), FetchEvent::Completed);
    assert!(matches!(phase, Phase::Checking(_)));
    assert!(matches!(action, FetchAction::CheckCached { dir } if dir == "/c/globals/gtest/6"));
}

#[test]
fn environment_scoped_fetch_uses_the_environment_dir() {
    let req = FetchRequest { env: Some("xenial".to_string()), ..request() };
    let (_, action) = fetch_step(&req, Phase::Start, FetchEvent::Resolved(component()));
    assert!(matches!(action, FetchAction::CheckCached { dir } if dir == "/c/environments/xenial/gtest/6"));
}

#[test]
fn stash_then_retrieve_finds_the_archive() {
    let plan = stash_plan("/c", "app", "dev");
    assert_eq!(plan.dir, "/c/stash/app/dev");
    assert_eq!(plan.lockfile_from, "./OUTPUT/lockfile.json");
    assert_eq!(plan.lockfile_to, "/c/stash/app/dev/lockfile.json");
    assert_eq!(stashed_outcome("/c", "app", "dev", true), Ok(plan.tarball));
}

#[test]
fn retrieve_of_unstashed_pair_fails() {
    assert_eq!(
        stashed_outcome("/c", "app", "dev", false),
        Err(CliError::MissingStashArtifact("app/dev".to_string()))
    );
}
