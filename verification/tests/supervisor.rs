use corerunner::command::CommandPlan;
use corerunner::descriptor::Game;
use corerunner::environment::EnvVar;
use corerunner::error::{Error, ErrorKind};
use corerunner::launch::{plan_launch, HostProbe, LaunchPlan};
use corerunner::monitor::{Liveness, MonitorAction, MonitorStatus};
use corerunner::supervisor::Supervisor;

fn game_named(name: &str) -> Game {
    Game {
        id: 3,
        name: name.to_string(),
        proton_path: "/opt/proton/proton".to_string(),
        exe_path: "/games/g/g.exe".to_string(),
        prefix_path: "/prefixes/g".to_string(),
        use_ace: false,
        use_ntsync: false,
        use_antilag: false,
        custom_env: String::new(),
        launch_args: String::new(),
    }
}

fn good_host() -> HostProbe {
    HostProbe {
        proton_exists: true,
        exe_exists: true,
        gamemode_available: false,
        steam_path: "/s".to_string(),
    }
}

fn plan_for(name: &str) -> LaunchPlan {
    plan_launch(&game_named(name), false, &good_host()).unwrap()
}

#[test]
fn new_registry_is_empty() {
    let registry: Supervisor<u32> = Supervisor::new();
    assert_eq!(registry.len(), 0);
    assert!(!registry.contains("N1"));
}

#[test]
fn refused_launch_leaves_registry_unchanged() {
    let mut registry: Supervisor<u32> = Supervisor::new();
    registry.register("Other".to_string(), 11);
    let mut host = good_host();
    host.exe_exists = false;
    let refused = plan_launch(&game_named("N1"), false, &host);
    assert_eq!(refused.unwrap_err().kind(), ErrorKind::Validation);
    assert_eq!(registry.len(), 1);
    assert!(registry.contains("Other"));
    assert!(!registry.contains("N1"));
}

#[test]
fn successful_launch_registers_exactly_one_entry() {
    let mut registry: Supervisor<u32> = Supervisor::new();
    let launched = registry.complete_launch(&plan_for("N1"), Ok(41)).ok().unwrap();
    assert_eq!(launched.message, "Launched: N1 (steam: /s)");
    assert_eq!(launched.monitor.name(), "N1");
    assert_eq!(launched.monitor.status(), MonitorStatus::Watching);
    assert_eq!(launched.displaced, None);
    assert_eq!(registry.len(), 1);
    assert!(registry.contains("N1"));
    assert_eq!(registry.handle_mut("N1"), Some(&mut 41));
}

#[test]
fn failed_spawn_is_a_spawn_error_and_registers_nothing() {
    let mut registry: Supervisor<u32> = Supervisor::new();
    let outcome = registry.complete_launch(&plan_for("N1"), Err("permission denied".to_string()));
    let err = outcome.err().unwrap();
    assert_eq!(err, Error::Spawn { reason: "permission denied".to_string() });
    assert_eq!(err.kind(), ErrorKind::Spawn);
    assert_eq!(err.message(), "Gagal start game. Error: permission denied");
    assert_eq!(registry.len(), 0);
    assert!(!registry.contains("N1"));
}

#[test]
fn launch_under_a_live_name_replaces_and_hands_back_the_old_handle() {
    let mut registry: Supervisor<u32> = Supervisor::new();
    registry.complete_launch(&plan_for("N1"), Ok(1)).ok().unwrap();
    let second = registry.complete_launch(&plan_for("N1"), Ok(2)).ok().unwrap();
    assert_eq!(second.displaced, Some(1));
    assert_eq!(registry.len(), 1);
    assert_eq!(registry.handle_mut("N1"), Some(&mut 2));
}

#[test]
fn kill_removes_the_entry_and_hands_out_the_handle() {
    let mut registry: Supervisor<u32> = Supervisor::new();
    registry.register("N1".to_string(), 5);
    let plan = registry.kill("N1", "/prefixes/n1");
    assert_eq!(plan.terminate, Some(5));
    assert_eq!(
        plan.sweep,
        Some(CommandPlan {
            program: "wineserver".to_string(),
            args: vec!["-k".to_string()],
            env: vec![EnvVar { key: "WINEPREFIX".to_string(), value: "/prefixes/n1".to_string() }],
        })
    );
    assert!(!registry.contains("N1"));
    assert_eq!(registry.len(), 0);
}

#[test]
fn kill_is_idempotent() {
    let mut registry: Supervisor<u32> = Supervisor::new();
    registry.register("N1".to_string(), 5);
    registry.register("N2".to_string(), 6);
    let first = registry.kill("N1", "/p");
    assert_eq!(first.terminate, Some(5));
    let second = registry.kill("N1", "/p");
    assert_eq!(second.terminate, None);
    assert_eq!(second.sweep, first.sweep);
    assert_eq!(registry.len(), 1);
    assert!(registry.contains("N2"));
}

#[test]
fn kill_of_an_unknown_name_succeeds_and_still_sweeps() {
    let mut registry: Supervisor<u32> = Supervisor::new();
    let plan = registry.kill("ghost", "/prefixes/ghost");
    assert_eq!(plan.terminate, None);
    assert_eq!(plan.sweep.unwrap().env[0].value, "/prefixes/ghost");
    assert_eq!(registry.len(), 0);
}

#[test]
fn kill_without_prefix_sweeps_nothing() {
    let mut registry: Supervisor<u32> = Supervisor::new();
    registry.register("N1".to_string(), 5);
    let plan = registry.kill("N1", "");
    assert_eq!(plan.terminate, Some(5));
    assert_eq!(plan.sweep, None);
}

#[test]
fn two_launches_are_independent() {
    let mut registry: Supervisor<u32> = Supervisor::new();
    let mut m1 = registry.complete_launch(&plan_for("N1"), Ok(1)).ok().unwrap().monitor;
    let mut m2 = registry.complete_launch(&plan_for("N2"), Ok(2)).ok().unwrap().monitor;
    assert_eq!(registry.len(), 2);

    assert!(matches!(m1.poll(&mut registry, Liveness::Running), MonitorAction::Wait));
    assert!(matches!(m2.poll(&mut registry, Liveness::Running), MonitorAction::Wait));

    let killed = registry.kill("N1", "");
    assert_eq!(killed.terminate, Some(1));
    assert!(registry.contains("N2"));
    assert_eq!(registry.handle_mut("N2"), Some(&mut 2));

    assert!(matches!(m2.poll(&mut registry, Liveness::Running), MonitorAction::Wait));
    match m1.poll(&mut registry, Liveness::Unknown) {
        MonitorAction::Notify { notification, released } => {
            assert_eq!(notification.name, "N1");
            assert_eq!(released, None);
        }
        _ => panic!("the killed launch was not announced"),
    }
    assert!(registry.contains("N2"));

    match m2.poll(&mut registry, Liveness::Exited) {
        MonitorAction::Notify { notification, released } => {
            assert_eq!(notification.name, "N2");
            assert_eq!(released, Some(2));
        }
        _ => panic!("the ended launch was not announced"),
    }
    assert_eq!(registry.len(), 0);
}

#[test]
fn register_and_remove_follow_the_map() {
    let mut registry: Supervisor<String> = Supervisor::new();
    assert_eq!(registry.register("a".to_string(), "x".to_string()), None);
    assert_eq!(registry.register("b".to_string(), "y".to_string()), None);
    assert_eq!(registry.register("c".to_string(), "z".to_string()), None);
    assert_eq!(registry.register("b".to_string(), "w".to_string()), Some("y".to_string()));
    assert_eq!(registry.len(), 3);
    assert_eq!(registry.remove("a"), Some("x".to_string()));
    assert_eq!(registry.remove("a"), None);
    assert_eq!(registry.remove("b"), Some("w".to_string()));
    assert_eq!(registry.remove("c"), Some("z".to_string()));
    assert_eq!(registry.len(), 0);
}

#[test]
fn handle_mut_writes_through() {
    let mut registry: Supervisor<u32> = Supervisor::new();
    registry.register("a".to_string(), 1);
    registry.register("b".to_string(), 2);
    assert_eq!(registry.handle_mut("missing"), None);
    if let Some(handle) = registry.handle_mut("b") {
        *handle = 20;
    }
    assert_eq!(registry.remove("b"), Some(20));
    assert_eq!(registry.remove("a"), Some(1));
}

#[test]
fn names_differ_by_case_and_whitespace() {
    let mut registry: Supervisor<u32> = Supervisor::new();
    registry.register("Game".to_string(), 1);
    assert!(!registry.contains("game"));
    assert!(!registry.contains("Game "));
    assert!(!registry.contains(""));
    registry.register(String::new(), 2);
    assert!(registry.contains(""));
    assert_eq!(registry.len(), 2);
}
