use corerunner::command::CommandPlan;
use corerunner::descriptor::Game;
use corerunner::error::{Error, ErrorKind};
use corerunner::launch::{
    base_env, build_command, launched_message, plan_launch, validate, HostProbe,
};

fn descriptor() -> Game {
    Game {
        id: 1,
        name: "Witcher".to_string(),
        proton_path: "/opt/proton/proton".to_string(),
        exe_path: "/games/w3/witcher3.exe".to_string(),
        prefix_path: "/prefixes/w3".to_string(),
        use_ace: false,
        use_ntsync: false,
        use_antilag: false,
        custom_env: String::new(),
        launch_args: String::new(),
    }
}

fn probe() -> HostProbe {
    HostProbe {
        proton_exists: true,
        exe_exists: true,
        gamemode_available: false,
        steam_path: "/home/u/.local/share/Steam".to_string(),
    }
}

fn strings(items: &[&str]) -> Vec<String> {
    items.iter().map(|s| s.to_string()).collect()
}

#[test]
fn missing_runtime_is_a_validation_error() {
    let mut host = probe();
    host.proton_exists = false;
    let err = plan_launch(&descriptor(), false, &host).unwrap_err();
    assert_eq!(err, Error::RuntimeMissing { path: "/opt/proton/proton".to_string() });
    assert_eq!(err.kind(), ErrorKind::Validation);
    assert_eq!(err.message(), "Proton tidak ditemukan: /opt/proton/proton");
}

#[test]
fn missing_executable_is_a_validation_error() {
    let mut host = probe();
    host.exe_exists = false;
    let err = plan_launch(&descriptor(), true, &host).unwrap_err();
    assert_eq!(err, Error::ExecutableMissing { path: "/games/w3/witcher3.exe".to_string() });
    assert_eq!(err.kind(), ErrorKind::Validation);
    assert_eq!(err.message(), "File EXE tidak ditemukan: /games/w3/witcher3.exe");
}

#[test]
fn missing_runtime_is_reported_before_missing_executable() {
    let mut host = probe();
    host.proton_exists = false;
    host.exe_exists = false;
    let err = plan_launch(&descriptor(), false, &host).unwrap_err();
    assert_eq!(err, Error::RuntimeMissing { path: "/opt/proton/proton".to_string() });
}

#[test]
fn validate_agrees_with_plan_launch() {
    let game = descriptor();
    assert_eq!(validate(&game, true, true), Ok(()));
    assert_eq!(
        validate(&game, false, true),
        Err(Error::RuntimeMissing { path: "/opt/proton/proton".to_string() })
    );
    assert_eq!(
        validate(&game, true, false),
        Err(Error::ExecutableMissing { path: "/games/w3/witcher3.exe".to_string() })
    );
}

#[test]
fn plain_launch_runs_the_runtime_directly() {
    let plan = plan_launch(&descriptor(), false, &probe()).unwrap();
    assert_eq!(plan.name, "Witcher");
    assert_eq!(plan.steam_path, "/home/u/.local/share/Steam");
    assert_eq!(plan.create_dir, Some("/prefixes/w3".to_string()));
    assert_eq!(
        plan.command,
        CommandPlan {
            program: "/opt/proton/proton".to_string(),
            args: strings(&["run", "/games/w3/witcher3.exe"]),
            env: base_env("/prefixes/w3", "/home/u/.local/share/Steam"),
        }
    );
}

#[test]
fn wrapper_is_prepended_when_asked_for_and_installed() {
    let mut host = probe();
    host.gamemode_available = true;
    let command = build_command(&descriptor(), true, &host);
    assert_eq!(command.program, "gamemoderun");
    assert_eq!(
        command.args,
        strings(&["/opt/proton/proton", "run", "/games/w3/witcher3.exe"])
    );
}

#[test]
fn wrapper_is_left_out_when_not_installed_or_not_asked_for() {
    let mut host = probe();
    host.gamemode_available = false;
    assert_eq!(build_command(&descriptor(), true, &host).program, "/opt/proton/proton");
    host.gamemode_available = true;
    assert_eq!(build_command(&descriptor(), false, &host).program, "/opt/proton/proton");
}

#[test]
fn launch_arguments_are_split_on_whitespace_and_appended() {
    let mut game = descriptor();
    game.launch_args = "  -windowed\t-w 1280  \n-h 720 ".to_string();
    let command = build_command(&game, false, &probe());
    assert_eq!(
        command.args,
        strings(&["run", "/games/w3/witcher3.exe", "-windowed", "-w", "1280", "-h", "720"])
    );
}

#[test]
fn launch_arguments_are_not_touched_by_custom_environment() {
    let mut game = descriptor();
    game.launch_args = "A=1 run".to_string();
    game.custom_env = "A=2\nrun=3".to_string();
    let command = build_command(&game, false, &probe());
    assert_eq!(
        command.args,
        strings(&["run", "/games/w3/witcher3.exe", "A=1", "run"])
    );
}

#[test]
fn empty_prefix_needs_no_directory() {
    let mut game = descriptor();
    game.prefix_path = String::new();
    let plan = plan_launch(&game, false, &probe()).unwrap();
    assert_eq!(plan.create_dir, None);
    assert_eq!(plan.command.env[0].key, "STEAM_COMPAT_DATA_PATH");
    assert_eq!(plan.command.env[0].value, "");
    assert_eq!(plan.command.env[3].value, "/gstreamer-cache");
}

#[test]
fn launched_message_names_launch_and_platform() {
    assert_eq!(
        launched_message("Witcher", "/home/u/.steam/steam"),
        "Launched: Witcher (steam: /home/u/.steam/steam)"
    );
}
