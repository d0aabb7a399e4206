use job_launcher::launch::{
    select_present_helpers, Action, ApplicationContext, Event, LaunchEntry, Manifest, Phase,
};

fn manifest(wait_for_exit: bool) -> Manifest {
    Manifest {
        primary: LaunchEntry::primary("app/main.exe".to_string(), "app".to_string(), wait_for_exit),
        helpers: vec![
            LaunchEntry::helper("app/aux1.exe".to_string(), ".".to_string()),
            LaunchEntry::helper("app/nested/aux2.exe".to_string(), ".".to_string()),
        ],
    }
}

fn indices(a: &Action) -> Vec<usize> {
    match a {
        Action::StartHelpers { indices } => indices.clone(),
        other => panic!("expected StartHelpers, got {:?}", other),
    }
}

fn message(a: &Action) -> String {
    match a {
        Action::Report { message } => message.clone(),
        other => panic!("expected Report, got {:?}", other),
    }
}

#[test]
fn blocking_run_skips_missing_helper_and_waits() {
    let mut run = ApplicationContext::new(manifest(true));
    assert_eq!(run.phase(), Phase::Init);
    assert!(matches!(run.step(Event::Begin), Action::CheckPaths));
    assert_eq!(run.phase(), Phase::Validating);
    let a = run.step(Event::Checked {
        dir_exists: true,
        primary_exists: true,
        helpers_present: vec![true, false],
    });
    assert_eq!(indices(&a), vec![0]);
    assert_eq!(run.phase(), Phase::LaunchingHelpers);
    assert!(matches!(run.step(Event::HelpersStarted), Action::SpawnPrimary));
    assert_eq!(run.phase(), Phase::LaunchingPrimary);
    assert!(matches!(
        run.step(Event::PrimarySpawned { process: 42 }),
        Action::AttachAndWait { process: 42 }
    ));
    assert_eq!(run.phase(), Phase::Waiting);
    assert!(matches!(run.step(Event::PrimaryExited), Action::Finish));
    assert_eq!(run.phase(), Phase::Exited);
}

#[test]
fn fire_and_forget_run_returns_after_spawn() {
    let mut run = ApplicationContext::new(manifest(false));
    run.step(Event::Begin);
    let a = run.step(Event::Checked {
        dir_exists: true,
        primary_exists: true,
        helpers_present: vec![true, false],
    });
    assert_eq!(indices(&a), vec![0]);
    run.step(Event::HelpersStarted);
    assert!(matches!(
        run.step(Event::PrimarySpawned { process: 42 }),
        Action::AttachAndReturn { process: 42 }
    ));
    assert_eq!(run.phase(), Phase::Returned);
    assert!(matches!(run.step(Event::PrimaryExited), Action::Nothing));
    assert_eq!(run.phase(), Phase::Returned);
}

#[test]
fn missing_primary_fails_with_one_report() {
    let mut run = ApplicationContext::new(manifest(true));
    run.step(Event::Begin);
    let a = run.step(Event::Checked {
        dir_exists: true,
        primary_exists: false,
        helpers_present: vec![true, true],
    });
    assert_eq!(message(&a), "未找到游戏文件: app/main.exe");
    assert_eq!(run.phase(), Phase::Failed);
    let later = [
        Event::Begin,
        Event::Checked { dir_exists: true, primary_exists: true, helpers_present: vec![] },
        Event::HelpersStarted,
        Event::PrimarySpawned { process: 5 },
        Event::PrimarySpawnFailed,
        Event::PrimaryExited,
    ];
    for ev in later {
        assert!(matches!(run.step(ev), Action::Nothing));
        assert_eq!(run.phase(), Phase::Failed);
    }
}

#[test]
fn missing_primary_named_even_without_directory() {
    let mut run = ApplicationContext::new(manifest(false));
    run.step(Event::Begin);
    let a = run.step(Event::Checked {
        dir_exists: false,
        primary_exists: false,
        helpers_present: vec![],
    });
    assert_eq!(message(&a), "未找到游戏文件: app/main.exe");
    assert_eq!(run.phase(), Phase::Failed);
}

#[test]
fn missing_directory_is_reported() {
    let run = ApplicationContext::new(manifest(true));
    assert_eq!(run.validate_game_paths(false, true), Err("未找到游戏目录: app".to_string()));
    assert_eq!(
        run.validate_game_paths(true, false),
        Err("未找到游戏文件: app/main.exe".to_string())
    );
    assert_eq!(run.validate_game_paths(true, true), Ok(()));
}

#[test]
fn primary_spawn_failure_is_reported() {
    let mut run = ApplicationContext::new(manifest(true));
    run.step(Event::Begin);
    run.step(Event::Checked { dir_exists: true, primary_exists: true, helpers_present: vec![] });
    run.step(Event::HelpersStarted);
    let a = run.step(Event::PrimarySpawnFailed);
    assert_eq!(message(&a), "无法启动游戏文件: app/main.exe");
    assert_eq!(run.phase(), Phase::Failed);
}

#[test]
fn all_helpers_missing_still_succeeds() {
    for wait in [true, false] {
        let mut run = ApplicationContext::new(manifest(wait));
        run.step(Event::Begin);
        let a = run.step(Event::Checked {
            dir_exists: true,
            primary_exists: true,
            helpers_present: vec![false, false],
        });
        assert_eq!(indices(&a), Vec::<usize>::new());
        assert!(matches!(run.step(Event::HelpersStarted), Action::SpawnPrimary));
        let a = run.step(Event::PrimarySpawned { process: 9 });
        assert!(!matches!(a, Action::Report { .. }));
        if wait {
            run.step(Event::PrimaryExited);
            assert_eq!(run.phase(), Phase::Exited);
        } else {
            assert_eq!(run.phase(), Phase::Returned);
        }
    }
}

#[test]
fn events_out_of_order_change_nothing() {
    let mut run = ApplicationContext::new(manifest(true));
    assert!(matches!(run.step(Event::HelpersStarted), Action::Nothing));
    assert!(matches!(run.step(Event::PrimarySpawned { process: 1 }), Action::Nothing));
    assert!(matches!(run.step(Event::PrimaryExited), Action::Nothing));
    assert_eq!(run.phase(), Phase::Init);
    run.step(Event::Begin);
    assert!(matches!(run.step(Event::Begin), Action::Nothing));
    assert!(matches!(run.step(Event::HelpersStarted), Action::Nothing));
    assert_eq!(run.phase(), Phase::Validating);
    assert_eq!(run.manifest().helpers.len(), 2);
}

#[test]
fn helper_selection_keeps_order_and_treats_unmarked_as_missing() {
    assert_eq!(select_present_helpers(&vec![true, false, true, true], 4), vec![0, 2, 3]);
    assert_eq!(select_present_helpers(&vec![false, true], 3), vec![1]);
    assert_eq!(select_present_helpers(&vec![true, true, true], 2), vec![0, 1]);
    assert_eq!(select_present_helpers(&vec![], 0), Vec::<usize>::new());
}

#[test]
fn entries_carry_their_launch_flags() {
    let h = LaunchEntry::helper("a.exe".to_string(), "d".to_string());
    assert!(h.detached && !h.wait_for_exit);
    assert_eq!(h.path, "a.exe");
    let p = LaunchEntry::primary("b.exe".to_string(), "e".to_string(), true);
    assert!(!p.detached && p.wait_for_exit);
    assert_eq!(p.work_dir, "e");
}
