use corerunner::descriptor::Game;
use corerunner::environment::{layer, parse_custom_env, parse_env_line, set_var, EnvVar};
use corerunner::launch::{base_env, build_environment, feature_env, HostProbe};

fn var(key: &str, value: &str) -> EnvVar {
    EnvVar { key: key.to_string(), value: value.to_string() }
}

fn game() -> Game {
    Game {
        id: 7,
        name: "Elden".to_string(),
        proton_path: "/opt/proton/proton".to_string(),
        exe_path: "/games/elden/start.exe".to_string(),
        prefix_path: "/prefixes/elden".to_string(),
        use_ace: false,
        use_ntsync: false,
        use_antilag: false,
        custom_env: String::new(),
        launch_args: String::new(),
    }
}

fn host() -> HostProbe {
    HostProbe {
        proton_exists: true,
        exe_exists: true,
        gamemode_available: true,
        steam_path: "/home/u/.steam/steam".to_string(),
    }
}

fn value_of(env: &[EnvVar], key: &str) -> Option<String> {
    let found: Vec<&EnvVar> = env.iter().filter(|v| v.key == key).collect();
    assert!(found.len() <= 1, "key {} set {} times", key, found.len());
    found.first().map(|v| v.value.clone())
}

#[test]
fn custom_value_overrides_computed_default() {
    let base = vec![var("SYNC", "1")];
    let custom = parse_custom_env("SYNC=0");
    assert_eq!(custom, vec![var("SYNC", "0")]);
    let effective = layer(base, &custom);
    assert_eq!(effective, vec![var("SYNC", "0")]);
}

#[test]
fn custom_text_overrides_sync_default_of_a_launch() {
    let mut g = game();
    assert_eq!(
        value_of(&build_environment(&g, &host()), "PROTON_USE_FSYNC"),
        Some("1".to_string())
    );
    g.custom_env = "PROTON_USE_FSYNC=0".to_string();
    assert_eq!(
        value_of(&build_environment(&g, &host()), "PROTON_USE_FSYNC"),
        Some("0".to_string())
    );
}

#[test]
fn line_without_separator_contributes_nothing() {
    assert_eq!(parse_env_line("JUSTAWORD"), None);
    assert_eq!(parse_custom_env("JUSTAWORD"), vec![]);
}

#[test]
fn blank_line_contributes_nothing() {
    assert_eq!(parse_env_line(""), None);
    assert_eq!(parse_env_line("   \t "), None);
    assert_eq!(parse_custom_env("\n\n  \n"), vec![]);
}

#[test]
fn comment_line_contributes_nothing() {
    assert_eq!(parse_env_line("# A=1"), None);
    assert_eq!(parse_env_line("   #A=1"), None);
    assert_eq!(parse_custom_env("#A=1\n  # B=2"), vec![]);
}

#[test]
fn line_with_two_separators_is_skipped() {
    assert_eq!(parse_env_line("A=B=C"), None);
    assert_eq!(parse_env_line("A=="), None);
}

#[test]
fn key_and_value_are_trimmed() {
    assert_eq!(parse_env_line("  MANGOHUD =  1  "), Some(var("MANGOHUD", "1")));
    assert_eq!(parse_env_line("A=hello world"), Some(var("A", "hello world")));
    assert_eq!(parse_env_line("EMPTY="), Some(var("EMPTY", "")));
    assert_eq!(parse_env_line("\u{a0}K\u{3000}=\u{2003}v\r"), Some(var("K", "v")));
}

#[test]
fn custom_text_is_read_line_by_line() {
    let text = "A=1\n\n# note\nbroken line\nB = two\r\nA=3\nC=x=y\n";
    assert_eq!(
        parse_custom_env(text),
        vec![var("A", "1"), var("B", "two"), var("A", "3")]
    );
}

#[test]
fn last_custom_assignment_wins() {
    let mut g = game();
    g.custom_env = "X=1\nX=2\nDXVK_ASYNC=0\nX=3".to_string();
    let env = build_environment(&g, &host());
    assert_eq!(value_of(&env, "X"), Some("3".to_string()));
    assert_eq!(value_of(&env, "DXVK_ASYNC"), Some("0".to_string()));
}

#[test]
fn set_var_replaces_in_place_or_appends() {
    let mut env = vec![var("A", "1"), var("B", "2")];
    set_var(&mut env, var("A", "9"));
    assert_eq!(env, vec![var("A", "9"), var("B", "2")]);
    set_var(&mut env, var("C", "3"));
    assert_eq!(env, vec![var("A", "9"), var("B", "2"), var("C", "3")]);
}

#[test]
fn layer_keeps_base_positions_and_appends_new_keys() {
    let base = vec![var("A", "1"), var("B", "2")];
    let over = vec![var("C", "3"), var("B", "x"), var("C", "4")];
    assert_eq!(
        layer(base, &over),
        vec![var("A", "1"), var("B", "x"), var("C", "4")]
    );
}

#[test]
fn layer_of_nothing_changes_nothing() {
    let base = vec![var("A", "1")];
    assert_eq!(layer(base.clone(), &vec![]), base);
    assert_eq!(layer(vec![], &base), base);
}

#[test]
fn base_layer_is_exact() {
    let env = base_env("/p", "/s");
    let expected = vec![
        var("STEAM_COMPAT_DATA_PATH", "/p"),
        var("STEAM_COMPAT_CLIENT_INSTALL_PATH", "/s"),
        var("GST_PLUGIN_SYSTEM_PATH_1_0", ""),
        var("WINE_GST_REGISTRY_DIRECTORY", "/p/gstreamer-cache"),
        var("WINE_GST_VULKAN_NO_ZERO_COPY", "1"),
        var("DXVK_ASYNC", "1"),
        var("DXVK_STATE_CACHE", "1"),
        var("VKD3D_SHADER_CACHE_PATH", "/p"),
        var("PROTON_USE_WINED3D", "0"),
        var("PROTON_USE_FSYNC", "1"),
        var("WINE_LARGE_ADDRESS_AWARE", "1"),
        var("WINEDEBUG", "-all"),
        var("DXVK_LOG_LEVEL", "none"),
        var("LC_ALL", "C"),
    ];
    assert_eq!(env, expected);
}

#[test]
fn feature_flags_toggle_independently() {
    assert_eq!(feature_env(false, false, false), vec![]);
    assert_eq!(feature_env(true, false, false), vec![var("PROTON_USE_NTSYNC", "1")]);
    assert_eq!(
        feature_env(false, true, false),
        vec![var("ENABLE_LAYER_MESA_ANTI_LAG", "1")]
    );
    assert_eq!(
        feature_env(false, false, true),
        vec![
            var("WINEDLLOVERRIDES", "lsteamclient=d;winedbg="),
            var("PROTON_NO_ESYNC", "1")
        ]
    );
    assert_eq!(feature_env(true, true, true).len(), 4);
}

#[test]
fn kernel_sync_follows_its_flag_alone() {
    let mut g = game();
    let h = host();
    assert_eq!(value_of(&build_environment(&g, &h), "PROTON_USE_NTSYNC"), None);
    g.use_ntsync = true;
    assert_eq!(
        value_of(&build_environment(&g, &h), "PROTON_USE_NTSYNC"),
        Some("1".to_string())
    );
    let mut bare = host();
    bare.gamemode_available = false;
    assert_eq!(
        value_of(&build_environment(&g, &bare), "PROTON_USE_NTSYNC"),
        Some("1".to_string())
    );
}

#[test]
fn each_flag_sets_its_own_variables_and_no_others() {
    let h = host();
    for bits in 0..8u32 {
        let mut g = game();
        g.use_ntsync = bits & 1 != 0;
        g.use_antilag = bits & 2 != 0;
        g.use_ace = bits & 4 != 0;
        let env = build_environment(&g, &h);
        let on = |set: bool| if set { Some("1".to_string()) } else { None };
        assert_eq!(value_of(&env, "PROTON_USE_NTSYNC"), on(g.use_ntsync));
        assert_eq!(value_of(&env, "ENABLE_LAYER_MESA_ANTI_LAG"), on(g.use_antilag));
        assert_eq!(value_of(&env, "PROTON_NO_ESYNC"), on(g.use_ace));
        assert_eq!(
            value_of(&env, "WINEDLLOVERRIDES"),
            if g.use_ace { Some("lsteamclient=d;winedbg=".to_string()) } else { None }
        );
        assert_eq!(value_of(&env, "PROTON_USE_FSYNC"), Some("1".to_string()));
        assert_eq!(value_of(&env, "STEAM_COMPAT_DATA_PATH"), Some("/prefixes/elden".to_string()));
        assert_eq!(
            value_of(&env, "STEAM_COMPAT_CLIENT_INSTALL_PATH"),
            Some("/home/u/.steam/steam".to_string())
        );
    }
}

#[test]
fn custom_text_can_override_a_feature() {
    let mut g = game();
    g.use_ace = true;
    g.custom_env = "PROTON_NO_ESYNC=0".to_string();
    let env = build_environment(&g, &host());
    assert_eq!(value_of(&env, "PROTON_NO_ESYNC"), Some("0".to_string()));
    assert_eq!(
        value_of(&env, "WINEDLLOVERRIDES"),
        Some("lsteamclient=d;winedbg=".to_string())
    );
}

#[test]
fn environment_of_a_plain_launch_is_the_base_layer() {
    let g = game();
    let h = host();
    assert_eq!(
        build_environment(&g, &h),
        base_env("/prefixes/elden", "/home/u/.steam/steam")
    );
}
