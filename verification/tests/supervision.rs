use dockr::{Action, Collection, DockrError, Event, Module, Warning};

/// A stand-in for the operating system: every process takes a fixed time to
/// exit on its own, and a poll takes ten milliseconds.
struct World {
    next_pid: u32,
    spawned: Vec<String>,
    killed: Vec<u32>,
    waited: Vec<u32>,
    warnings: usize,
    polls: usize,
    lifetime_ms: u128,
    clock_ms: u128,
    polling: Option<(u32, u128)>,
    fail_spawn_of: Option<String>,
}

impl World {
    fn new(lifetime_ms: u128) -> World {
        World {
            next_pid: 100,
            spawned: vec![],
            killed: vec![],
            waited: vec![],
            warnings: 0,
            polls: 0,
            lifetime_ms,
            clock_ms: 0,
            polling: None,
            fail_spawn_of: None,
        }
    }

    fn perform(&mut self, action: Action) -> Event {
        match action {
            Action::Spawn(launch) => {
                if self.fail_spawn_of.as_deref() == Some(launch.cmd.as_str()) {
                    return Event::SpawnFailed;
                }
                self.spawned.push(launch.cmd);
                self.next_pid += 1;
                Event::Spawned { pid: self.next_pid }
            }
            Action::Wait { pid } => {
                self.waited.push(pid);
                Event::Exited
            }
            Action::Poll { pid } => {
                self.polls += 1;
                let since = match self.polling {
                    Some((polled, since)) if polled == pid => since,
                    _ => {
                        self.polling = Some((pid, self.clock_ms));
                        self.clock_ms
                    }
                };
                self.clock_ms += 10;
                let elapsed_ms = self.clock_ms - since;
                if elapsed_ms > self.lifetime_ms {
                    self.polling = None;
                    Event::Exited
                } else {
                    Event::Running { elapsed_ms }
                }
            }
            Action::Kill { pid } => {
                self.killed.push(pid);
                self.polling = None;
                Event::Killed
            }
            Action::Warn(Warning::EmptyCollection) => {
                self.warnings += 1;
                Event::Warned
            }
            Action::Done(_) => panic!("nothing to perform"),
        }
    }

    fn drive<F: FnMut(Event) -> Action>(&mut self, mut step: F) -> Result<(), DockrError> {
        let mut event = Event::Begin;
        for _ in 0..10_000 {
            match step(event) {
                Action::Done(outcome) => return outcome,
                action => event = self.perform(action),
            }
        }
        panic!("the operation does not end");
    }
}

fn trio() -> Collection {
    Collection::create(vec![
        Module::create("A", "w", "a.sh", vec![]),
        Module::create("B", "w", "b.sh", vec![]),
        Module::create("C", "w", "c.sh", vec![]),
    ])
}

#[test]
fn stubborn_process_is_killed_when_the_timeout_is_over() {
    let mut world = World::new(1_000_000);
    let mut module = Module::create("m", "w", "m.sh", vec![]);
    assert_eq!(world.drive(|event| module.start(event)), Ok(()));
    assert!(module.is_running());
    assert_eq!(world.drive(|event| module.stop_in(200, event)), Ok(()));
    assert!(!module.is_running());
    assert_eq!(world.killed, vec![101]);
    assert_eq!(world.polls, 20);
    assert_eq!(world.clock_ms, 200);
}

#[test]
fn process_that_exits_in_time_is_not_killed() {
    let mut world = World::new(50);
    let mut module = Module::create("m", "w", "m.sh", vec![]);
    assert_eq!(world.drive(|event| module.start(event)), Ok(()));
    assert_eq!(world.drive(|event| module.stop_in(200, event)), Ok(()));
    assert!(!module.is_running());
    assert!(world.killed.is_empty());
    assert_eq!(world.polls, 6);
}

#[test]
fn second_start_creates_no_second_process() {
    let mut world = World::new(0);
    let mut module = Module::create("m", "w", "m.sh", vec![]);
    assert_eq!(world.drive(|event| module.start(event)), Ok(()));
    assert_eq!(world.drive(|event| module.start(event)), Ok(()));
    assert_eq!(world.spawned, vec!["m.sh".to_string()]);
    assert!(module.is_running());
}

#[test]
fn module_can_be_started_again_after_it_was_stopped() {
    let mut world = World::new(0);
    let mut module = Module::create("m", "w", "m.sh", vec![]);
    assert_eq!(world.drive(|event| module.run(event)), Ok(()));
    assert!(!module.is_running());
    assert_eq!(world.drive(|event| module.start(event)), Ok(()));
    assert_eq!(world.drive(|event| module.stop(event)), Ok(()));
    assert_eq!(world.spawned.len(), 2);
    assert_eq!(world.waited, vec![101]);
}

#[test]
fn batch_starts_in_the_order_of_insertion() {
    let mut world = World::new(0);
    let mut collection = trio();
    assert_eq!(world.drive(|event| collection.start_all(event)), Ok(()));
    assert_eq!(world.spawned, vec!["a.sh".to_string(), "b.sh".to_string(), "c.sh".to_string()]);
    assert!(collection.modules().iter().all(|module| module.is_running()));
    assert_eq!(world.warnings, 0);
}

#[test]
fn batch_does_not_start_what_follows_a_failure() {
    let mut world = World::new(0);
    world.fail_spawn_of = Some("b.sh".to_string());
    let mut collection = trio();
    assert_eq!(world.drive(|event| collection.start_all(event)), Err(DockrError::Spawn));
    assert_eq!(world.spawned, vec!["a.sh".to_string()]);
    let running: Vec<bool> = collection.modules().iter().map(|m| m.is_running()).collect();
    assert_eq!(running, vec![true, false, false]);
}

#[test]
fn empty_batch_succeeds_with_a_warning() {
    let mut world = World::new(0);
    let mut collection = Collection::new();
    assert_eq!(world.drive(|event| collection.start_all(event)), Ok(()));
    assert_eq!(world.warnings, 1);
    assert_eq!(world.drive(|event| collection.run_all(event)), Ok(()));
    assert_eq!(world.warnings, 2);
    assert_eq!(world.drive(|event| collection.wait_all(event)), Ok(()));
    assert_eq!(world.drive(|event| collection.stop_all(event)), Ok(()));
    assert_eq!(world.warnings, 2);
    assert!(world.spawned.is_empty());
}

#[test]
fn batch_stop_takes_at_most_the_timeout_for_each_module() {
    let mut world = World::new(1_000_000);
    let mut collection = trio();
    assert_eq!(world.drive(|event| collection.start_all(event)), Ok(()));
    assert_eq!(world.drive(|event| collection.stop_all_in(300, event)), Ok(()));
    assert_eq!(world.killed, vec![101, 102, 103]);
    assert_eq!(world.clock_ms, 3 * 300);
    assert!(collection.modules().iter().all(|module| !module.is_running()));
}

#[test]
fn batch_stop_with_the_default_timeout() {
    let mut world = World::new(1_000_000);
    let mut collection = trio();
    assert_eq!(world.drive(|event| collection.start_all(event)), Ok(()));
    assert_eq!(world.drive(|event| collection.stop_all(event)), Ok(()));
    assert_eq!(world.killed, vec![101, 102, 103]);
    assert_eq!(world.clock_ms, 3 * 3000);
}

#[test]
fn run_all_starts_all_before_it_waits_for_any() {
    let mut world = World::new(0);
    let mut collection = trio();
    assert_eq!(world.drive(|event| collection.run_all(event)), Ok(()));
    assert_eq!(world.spawned.len(), 3);
    assert_eq!(world.waited, vec![101, 102, 103]);
    assert!(collection.modules().iter().all(|module| !module.is_running()));
}
