use model_manager::lifecycle::{Lifecycle, LifecycleError, Phase, ProcessStatus};

fn catalog() -> Vec<String> {
    vec!["a.bin".to_string(), "b.bin".to_string()]
}

#[test]
fn starts_empty() {
    let m: Lifecycle<u32> = Lifecycle::new();
    assert_eq!(m.phase(), Phase::Empty);
    assert_eq!(m.status(), ProcessStatus::Ready);
    assert_eq!(m.current(), None);
}

#[test]
fn unknown_identifier_is_refused() {
    let mut m: Lifecycle<u32> = Lifecycle::new();
    let r = m.begin_load("missing.bin".to_string(), &catalog());
    assert!(matches!(r, Err(LifecycleError::UnknownResource)));
    assert_eq!(m.phase(), Phase::Empty);
    assert_eq!(m.current(), None);
}

#[test]
fn unload_when_empty_is_refused() {
    let mut m: Lifecycle<u32> = Lifecycle::new();
    assert!(matches!(m.begin_unload(), Err(LifecycleError::NoActiveResource)));
    assert_eq!(m.phase(), Phase::Empty);
    assert_eq!(m.status(), ProcessStatus::Ready);
}

#[test]
fn load_commits_identifier() {
    let mut m: Lifecycle<u32> = Lifecycle::new();
    let job = m.begin_load("a.bin".to_string(), &catalog()).ok().unwrap();
    assert_eq!(job.identifier, "a.bin");
    assert!(job.release.is_none());
    assert_eq!(m.phase(), Phase::Loading);
    assert_eq!(m.status(), ProcessStatus::Working);
    assert_eq!(m.current(), None);
    assert_eq!(m.finish_load(Some(1)), Ok(()));
    assert_eq!(m.phase(), Phase::Loaded);
    assert_eq!(m.status(), ProcessStatus::Ready);
    assert_eq!(m.current(), Some("a.bin".to_string()));
}

#[test]
fn second_change_waits_for_the_first() {
    let mut m: Lifecycle<u32> = Lifecycle::new();
    assert!(m.begin_load("a.bin".to_string(), &catalog()).is_ok());
    assert!(matches!(m.begin_unload(), Err(LifecycleError::OperationInProgress)));
    assert!(matches!(
        m.begin_load("b.bin".to_string(), &catalog()),
        Err(LifecycleError::OperationInProgress)
    ));
    assert_eq!(m.finish_load(Some(1)), Ok(()));
    assert_eq!(m.begin_unload().ok(), Some(1));
    assert!(matches!(
        m.begin_load("b.bin".to_string(), &catalog()),
        Err(LifecycleError::OperationInProgress)
    ));
    assert!(matches!(m.begin_unload(), Err(LifecycleError::OperationInProgress)));
    assert_eq!(m.phase(), Phase::Unloading);
}

#[test]
fn load_unload_load_round_trip() {
    let mut m: Lifecycle<u32> = Lifecycle::new();
    let mut acquires: usize = 0;
    let mut releases: usize = 0;
    let job = m.begin_load("a.bin".to_string(), &catalog()).ok().unwrap();
    releases += job.release.iter().count();
    acquires += 1;
    assert_eq!(m.finish_load(Some(1)), Ok(()));
    let h = m.begin_unload().ok().unwrap();
    assert_eq!(h, 1);
    releases += 1;
    assert_eq!(m.current(), None);
    assert_eq!(m.finish_unload(true), Ok(()));
    assert_eq!(m.phase(), Phase::Empty);
    let job = m.begin_load("a.bin".to_string(), &catalog()).ok().unwrap();
    releases += job.release.iter().count();
    acquires += 1;
    assert_eq!(m.finish_load(Some(2)), Ok(()));
    assert_eq!(m.phase(), Phase::Loaded);
    assert_eq!(m.current(), Some("a.bin".to_string()));
    assert_eq!(acquires, 2);
    assert_eq!(releases, 1);
}

#[test]
fn swap_releases_old_handle() {
    let mut m: Lifecycle<u32> = Lifecycle::new();
    m.begin_load("a.bin".to_string(), &catalog()).ok().unwrap();
    m.finish_load(Some(7)).unwrap();
    let job = m.begin_load("b.bin".to_string(), &catalog()).ok().unwrap();
    assert_eq!(job.release, Some(7));
    assert_eq!(job.identifier, "b.bin");
    assert_eq!(m.current(), None);
    m.finish_load(Some(8)).unwrap();
    assert_eq!(m.current(), Some("b.bin".to_string()));
}

#[test]
fn reload_of_same_identifier_is_full_swap() {
    let mut m: Lifecycle<u32> = Lifecycle::new();
    m.begin_load("a.bin".to_string(), &catalog()).ok().unwrap();
    m.finish_load(Some(3)).unwrap();
    let job = m.begin_load("a.bin".to_string(), &catalog()).ok().unwrap();
    assert_eq!(job.release, Some(3));
    assert_eq!(m.phase(), Phase::Loading);
}

#[test]
fn failed_acquire_returns_to_empty() {
    let mut m: Lifecycle<u32> = Lifecycle::new();
    m.begin_load("a.bin".to_string(), &catalog()).ok().unwrap();
    m.finish_load(Some(3)).unwrap();
    m.begin_load("b.bin".to_string(), &catalog()).ok().unwrap();
    assert_eq!(m.finish_load(None), Err(LifecycleError::AcquireFailed));
    assert_eq!(m.phase(), Phase::Empty);
    assert_eq!(m.status(), ProcessStatus::Failed);
    assert_eq!(m.current(), None);
    assert!(matches!(m.begin_unload(), Err(LifecycleError::NoActiveResource)));
}

#[test]
fn failed_release_still_empties() {
    let mut m: Lifecycle<u32> = Lifecycle::new();
    m.begin_load("a.bin".to_string(), &catalog()).ok().unwrap();
    m.finish_load(Some(3)).unwrap();
    m.begin_unload().ok().unwrap();
    assert_eq!(m.finish_unload(false), Err(LifecycleError::ReleaseFailed));
    assert_eq!(m.phase(), Phase::Empty);
    assert_eq!(m.status(), ProcessStatus::Failed);
}

#[test]
fn shutdown_hands_back_live_handle() {
    let mut m: Lifecycle<u32> = Lifecycle::new();
    assert_eq!(m.shutdown(), None);
    m.begin_load("a.bin".to_string(), &catalog()).ok().unwrap();
    m.finish_load(Some(9)).unwrap();
    assert_eq!(m.shutdown(), Some(9));
    assert_eq!(m.phase(), Phase::Empty);
    assert_eq!(m.current(), None);
    assert_eq!(m.shutdown(), None);
}
