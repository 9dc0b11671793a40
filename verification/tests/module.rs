use dockr::{Action, DockrError, Event, Launch, Module, STOP_TIMEOUT};

fn sample() -> Module {
    Module::create("My Module", "modules/my_module", "./my_script.sh", vec!["arg1", "arg2"])
}

fn running(pid: u32) -> Module {
    let mut module = sample();
    assert_eq!(module.start(Event::Spawned { pid }), Action::Done(Ok(())));
    assert!(module.is_running());
    module
}

fn all_events() -> Vec<Event> {
    vec![
        Event::Begin,
        Event::Warned,
        Event::Spawned { pid: 99 },
        Event::SpawnFailed,
        Event::Exited,
        Event::WaitFailed,
        Event::Running { elapsed_ms: 0 },
        Event::Running { elapsed_ms: 5000 },
        Event::Killed,
        Event::KillFailed,
    ]
}

#[test]
fn blank_module_is_idle_and_empty() {
    let mut module = Module::new();
    assert!(!module.is_running());
    assert_eq!(
        module.start(Event::Begin),
        Action::Spawn(Launch { cmd: String::new(), dir: ".".to_string(), args: vec![] })
    );
    assert_eq!(module, Module::create("", "anywhere", "", vec![]));
}

#[test]
fn created_module_is_idle() {
    assert!(!sample().is_running());
}

#[test]
fn equality_looks_at_name_command_and_arguments_only() {
    let module = sample();
    assert_eq!(module, Module::create("My Module", "elsewhere", "./my_script.sh", vec!["arg1", "arg2"]));
    assert_eq!(module, running(5));
    assert_ne!(module, Module::create("Other", "modules/my_module", "./my_script.sh", vec!["arg1", "arg2"]));
    assert_ne!(module, Module::create("My Module", "modules/my_module", "./other.sh", vec!["arg1", "arg2"]));
    assert_ne!(module, Module::create("My Module", "modules/my_module", "./my_script.sh", vec!["arg1"]));
    assert_ne!(module, Module::create("My Module", "modules/my_module", "./my_script.sh", vec!["arg2", "arg1"]));
    assert_ne!(module, Module::create("My Module", "modules/my_module", "./my_script.sh", vec!["arg1", "arg2", "arg3"]));
    assert_ne!(module, Module::create("My Module", "modules/my_module", "./my_script.sh", vec!["arg1", "argX"]));
}

#[test]
fn start_asks_for_the_configured_command_line() {
    let mut module = sample();
    assert_eq!(
        module.start(Event::Begin),
        Action::Spawn(Launch {
            cmd: "./my_script.sh".to_string(),
            dir: "modules/my_module".to_string(),
            args: vec!["arg1".to_string(), "arg2".to_string()],
        })
    );
    assert!(!module.is_running());
}

#[test]
fn arguments_are_passed_verbatim() {
    let mut module = Module::create("m", ".", "echo", vec!["$HOME; rm -rf", "a b", "", "*"]);
    match module.start(Event::Begin) {
        Action::Spawn(launch) => assert_eq!(
            launch.args,
            vec!["$HOME; rm -rf".to_string(), "a b".to_string(), String::new(), "*".to_string()]
        ),
        other => panic!("expected a spawn, got {:?}", other),
    }
}

#[test]
fn start_records_the_process() {
    let mut module = sample();
    assert_eq!(module.start(Event::Spawned { pid: 41 }), Action::Done(Ok(())));
    assert!(module.is_running());
    assert_eq!(module.wait(Event::Begin), Action::Wait { pid: 41 });
}

#[test]
fn failed_spawn_leaves_the_module_idle() {
    let mut module = sample();
    assert_eq!(module.start(Event::SpawnFailed), Action::Done(Err(DockrError::Spawn)));
    assert!(!module.is_running());
    assert!(matches!(module.start(Event::Begin), Action::Spawn(_)));
}

#[test]
fn start_twice_creates_one_process() {
    let mut module = sample();
    assert!(matches!(module.start(Event::Begin), Action::Spawn(_)));
    assert_eq!(module.start(Event::Spawned { pid: 7 }), Action::Done(Ok(())));
    for event in all_events() {
        assert_eq!(module.start(event), Action::Done(Ok(())));
        assert!(module.is_running());
        assert_eq!(module.wait(Event::Begin), Action::Wait { pid: 7 });
    }
}

#[test]
fn wait_on_an_idle_module_does_nothing() {
    for event in all_events() {
        let mut module = sample();
        assert_eq!(module.wait(event), Action::Done(Ok(())));
        assert!(!module.is_running());
    }
}

#[test]
fn wait_blocks_and_then_clears_the_process() {
    let mut module = running(12);
    assert_eq!(module.wait(Event::Begin), Action::Wait { pid: 12 });
    assert!(module.is_running());
    assert_eq!(module.wait(Event::Exited), Action::Done(Ok(())));
    assert!(!module.is_running());
    assert!(matches!(module.start(Event::Begin), Action::Spawn(_)));
}

#[test]
fn failed_wait_is_reported() {
    let mut module = running(12);
    assert_eq!(module.wait(Event::WaitFailed), Action::Done(Err(DockrError::Wait)));
    assert!(module.is_running());
}

#[test]
fn stop_on_an_idle_module_does_nothing() {
    for event in all_events() {
        let mut module = sample();
        assert_eq!(module.stop_in(10, event), Action::Done(Ok(())));
        assert_eq!(module.stop(event), Action::Done(Ok(())));
        assert!(!module.is_running());
    }
}

#[test]
fn stop_polls_until_the_timeout_and_then_kills() {
    let mut module = running(3);
    assert_eq!(module.stop_in(1000, Event::Begin), Action::Poll { pid: 3 });
    assert_eq!(module.stop_in(1000, Event::Running { elapsed_ms: 0 }), Action::Poll { pid: 3 });
    assert_eq!(module.stop_in(1000, Event::Running { elapsed_ms: 999 }), Action::Poll { pid: 3 });
    assert!(module.is_running());
    assert_eq!(module.stop_in(1000, Event::Running { elapsed_ms: 1000 }), Action::Kill { pid: 3 });
    assert!(module.is_running());
    assert_eq!(module.stop_in(1000, Event::Killed), Action::Done(Ok(())));
    assert!(!module.is_running());
}

#[test]
fn stop_with_no_grace_polls_once_before_it_kills() {
    let mut module = running(3);
    assert_eq!(module.stop_in(0, Event::Begin), Action::Poll { pid: 3 });
    assert_eq!(module.stop_in(0, Event::Running { elapsed_ms: 0 }), Action::Kill { pid: 3 });
    assert_eq!(module.stop_in(u128::MAX, Event::Running { elapsed_ms: u128::MAX - 1 }), Action::Poll { pid: 3 });
    assert_eq!(module.stop_in(u128::MAX, Event::Running { elapsed_ms: u128::MAX }), Action::Kill { pid: 3 });
}

#[test]
fn stop_does_not_kill_a_process_that_exits_in_time() {
    let mut module = running(3);
    assert_eq!(module.stop_in(1000, Event::Begin), Action::Poll { pid: 3 });
    assert_eq!(module.stop_in(1000, Event::Running { elapsed_ms: 10 }), Action::Poll { pid: 3 });
    assert_eq!(module.stop_in(1000, Event::Exited), Action::Done(Ok(())));
    assert!(!module.is_running());
}

#[test]
fn stop_reports_failures_of_poll_and_kill() {
    let mut module = running(3);
    assert_eq!(module.stop_in(5, Event::WaitFailed), Action::Done(Err(DockrError::Wait)));
    assert!(module.is_running());
    assert_eq!(module.stop_in(5, Event::KillFailed), Action::Done(Err(DockrError::Kill)));
    assert!(module.is_running());
}

#[test]
fn stop_uses_the_default_grace_period() {
    assert_eq!(STOP_TIMEOUT, 3000);
    let mut module = running(8);
    assert_eq!(module.stop(Event::Begin), Action::Poll { pid: 8 });
    assert_eq!(module.stop(Event::Running { elapsed_ms: 2999 }), Action::Poll { pid: 8 });
    assert_eq!(module.stop(Event::Running { elapsed_ms: 3000 }), Action::Kill { pid: 8 });
    assert_eq!(module.stop(Event::Killed), Action::Done(Ok(())));
    assert!(!module.is_running());
}

#[test]
fn run_starts_and_then_waits() {
    let mut module = sample();
    assert!(matches!(module.run(Event::Begin), Action::Spawn(_)));
    assert_eq!(module.run(Event::Spawned { pid: 77 }), Action::Wait { pid: 77 });
    assert!(module.is_running());
    assert_eq!(module.run(Event::Exited), Action::Done(Ok(())));
    assert!(!module.is_running());
}

#[test]
fn run_does_not_wait_when_the_spawn_fails() {
    let mut module = sample();
    assert!(matches!(module.run(Event::Begin), Action::Spawn(_)));
    assert_eq!(module.run(Event::SpawnFailed), Action::Done(Err(DockrError::Spawn)));
    assert!(!module.is_running());
}

#[test]
fn run_reports_a_failed_wait() {
    let mut module = sample();
    assert_eq!(module.run(Event::Spawned { pid: 77 }), Action::Wait { pid: 77 });
    assert_eq!(module.run(Event::WaitFailed), Action::Done(Err(DockrError::Wait)));
}

#[test]
fn run_on_a_running_module_only_waits() {
    let mut module = running(4);
    assert_eq!(module.run(Event::Begin), Action::Wait { pid: 4 });
}
