//! From a launch descriptor to the command that starts it: validation, the
//! command line, and the environment built up in layers.

use crate::command::{CommandPlan, CommandPlanView};
use crate::descriptor::{Game, GameView};
use crate::environment::{
    assignments, custom_layer, layer, law_upper_layer_overrides, lemma_lookup_distinct,
    lemma_lookup_unset, lemma_overlay_fresh, lookup, overlay, parse_custom_env, Assignment, EnvVar,
};
use crate::error::{joined, Error, ErrorView};
use crate::keyed::distinct_keys;
use crate::text::{split_whitespace, views, words};
use vstd::prelude::*;

verus! {

/// The wrapper that asks the system for performance scheduling.
pub const WRAPPER_PROGRAM: &'static str = "gamemoderun";

/// The runtime's verb for running an executable.
pub const RUN_VERB: &'static str = "run";

/// Where the runtime keeps its state.
pub const KEY_COMPAT_DATA: &'static str = "STEAM_COMPAT_DATA_PATH";

/// Where the runtime finds the platform client.
pub const KEY_CLIENT_INSTALL: &'static str = "STEAM_COMPAT_CLIENT_INSTALL_PATH";

/// Search path of the system media plugins; empty, so that none is loaded.
pub const KEY_MEDIA_PLUGINS: &'static str = "GST_PLUGIN_SYSTEM_PATH_1_0";

/// Where the media registry is kept.
pub const KEY_MEDIA_REGISTRY: &'static str = "WINE_GST_REGISTRY_DIRECTORY";

/// Where the media registry lives, below the prefix.
pub const MEDIA_REGISTRY_DIR: &'static str = "/gstreamer-cache";

/// Switches zero-copy video off.
pub const KEY_MEDIA_ZERO_COPY: &'static str = "WINE_GST_VULKAN_NO_ZERO_COPY";

/// Compiles shaders in the background.
pub const KEY_SHADER_ASYNC: &'static str = "DXVK_ASYNC";

/// Keeps compiled shader state between sessions.
pub const KEY_SHADER_STATE: &'static str = "DXVK_STATE_CACHE";

/// Where compiled shaders are kept.
pub const KEY_SHADER_CACHE: &'static str = "VKD3D_SHADER_CACHE_PATH";

/// The fallback renderer; off.
pub const KEY_SOFTWARE_RENDER: &'static str = "PROTON_USE_WINED3D";

/// The default synchronisation backend.
pub const KEY_SYNC: &'static str = "PROTON_USE_FSYNC";

/// Lets the application use the large address space.
pub const KEY_LARGE_ADDRESS: &'static str = "WINE_LARGE_ADDRESS_AWARE";

/// Debug channels of the runtime.
pub const KEY_DEBUG: &'static str = "WINEDEBUG";

/// Every debug channel off.
pub const DEBUG_OFF: &'static str = "-all";

/// Log level of the shader layer.
pub const KEY_SHADER_LOG: &'static str = "DXVK_LOG_LEVEL";

/// No shader log.
pub const SHADER_LOG_OFF: &'static str = "none";

/// The locale of the process.
pub const KEY_LOCALE: &'static str = "LC_ALL";

/// The plain locale.
pub const LOCALE_PLAIN: &'static str = "C";

/// The kernel synchronisation primitive.
pub const KEY_KERNEL_SYNC: &'static str = "PROTON_USE_NTSYNC";

/// The anti-lag layer.
pub const KEY_ANTI_LAG: &'static str = "ENABLE_LAYER_MESA_ANTI_LAG";

/// The table of library redirections.
pub const KEY_LIBRARY_OVERRIDES: &'static str = "WINEDLLOVERRIDES";

/// The redirections that the anti-cheat compatibility needs.
pub const ANTI_CHEAT_OVERRIDES: &'static str = "lsteamclient=d;winedbg=";

/// Turns the runtime's event synchronisation off.
pub const KEY_NO_SYNC: &'static str = "PROTON_NO_ESYNC";

/// The value that switches something on.
pub const ON: &'static str = "1";

/// The value that switches something off.
pub const OFF: &'static str = "0";

/// The empty value.
pub const NOTHING: &'static str = "";

/// Before the name in the status text of a launch.
pub const LAUNCHED_TEXT: &'static str = "Launched: ";

/// Between the name and the platform path in the status text of a launch.
pub const LAUNCHED_PLATFORM_TEXT: &'static str = " (steam: ";

/// At the end of the status text of a launch.
pub const LAUNCHED_END_TEXT: &'static str = ")";

/// What was found out about the host before a launch.
#[derive(Clone, Debug, PartialEq, Eq)]
pub struct HostProbe {
    /// Whether the descriptor's runtime path exists.
    pub proton_exists: bool,
    /// Whether the descriptor's executable path exists.
    pub exe_exists: bool,
    /// Whether the scheduling wrapper is installed.
    pub gamemode_available: bool,
    /// Base installation path of the gaming platform.
    pub steam_path: String,
}

/// A `HostProbe` as contracts see it.
pub struct HostProbeView {
    pub proton_exists: bool,
    pub exe_exists: bool,
    pub gamemode_available: bool,
    pub steam_path: Seq<char>,
}

impl View for HostProbe {
    type V = HostProbeView;

    open spec fn view(&self) -> HostProbeView {
        HostProbeView {
            proton_exists: self.proton_exists,
            exe_exists: self.exe_exists,
            gamemode_available: self.gamemode_available,
            steam_path: self.steam_path@,
        }
    }
}

/// A launch that passed validation: what to run, and what has to be there first.
#[derive(Clone, Debug, PartialEq, Eq)]
pub struct LaunchPlan {
    /// The name under which the process will be supervised.
    pub name: String,
    /// The command that starts the application.
    pub command: CommandPlan,
    /// The prefix directory to create, with its parents, unless it exists.
    pub create_dir: Option<String>,
    /// The platform path that the command was built with.
    pub steam_path: String,
}

/// A `LaunchPlan` as contracts see it.
pub struct LaunchPlanView {
    pub name: Seq<char>,
    pub command: CommandPlanView,
    pub create_dir: Option<Seq<char>>,
    pub steam_path: Seq<char>,
}

impl View for LaunchPlan {
    type V = LaunchPlanView;

    open spec fn view(&self) -> LaunchPlanView {
        LaunchPlanView {
            name: self.name@,
            command: self.command@,
            create_dir: match self.create_dir {
                Some(dir) => Some(dir@),
                None => None,
            },
            steam_path: self.steam_path@,
        }
    }
}

/// The first layer: what every launch sets. The runtime's state lives in the
/// descriptor's prefix, its client is the platform at `steam_path`, and the
/// default synchronisation is on.
pub open spec fn base_layer(prefix_path: Seq<char>, steam_path: Seq<char>) -> Seq<Assignment> {
    seq![
        (KEY_COMPAT_DATA@, prefix_path),
        (KEY_CLIENT_INSTALL@, steam_path),
        (KEY_MEDIA_PLUGINS@, NOTHING@),
        (KEY_MEDIA_REGISTRY@, prefix_path + MEDIA_REGISTRY_DIR@),
        (KEY_MEDIA_ZERO_COPY@, ON@),
        (KEY_SHADER_ASYNC@, ON@),
        (KEY_SHADER_STATE@, ON@),
        (KEY_SHADER_CACHE@, prefix_path),
        (KEY_SOFTWARE_RENDER@, OFF@),
        (KEY_SYNC@, ON@),
        (KEY_LARGE_ADDRESS@, ON@),
        (KEY_DEBUG@, DEBUG_OFF@),
        (KEY_SHADER_LOG@, SHADER_LOG_OFF@),
        (KEY_LOCALE@, LOCALE_PLAIN@),
    ]
}

/// The second layer: what the feature flags add. Each flag stands for itself.
/// The anti-cheat flag sets two variables that belong together: the library
/// redirections, and the switch that turns the runtime's default
/// synchronisation off.
pub open spec fn feature_layer(kernel_sync: bool, anti_lag: bool, anti_cheat: bool) -> Seq<
    Assignment,
> {
    (if kernel_sync {
        seq![(KEY_KERNEL_SYNC@, ON@)]
    } else {
        Seq::empty()
    }) + (if anti_lag {
        seq![(KEY_ANTI_LAG@, ON@)]
    } else {
        Seq::empty()
    }) + (if anti_cheat {
        seq![(KEY_LIBRARY_OVERRIDES@, ANTI_CHEAT_OVERRIDES@), (KEY_NO_SYNC@, ON@)]
    } else {
        Seq::empty()
    })
}

/// Whether the command goes through the scheduling wrapper: the caller asks for
/// it and the host has it.
pub open spec fn wrapped(use_gamemode: bool, host: HostProbeView) -> bool {
    use_gamemode && host.gamemode_available
}

/// The value of a variable that is set exactly when its switch is on.
pub open spec fn switched(on: bool, value: Seq<char>) -> Option<Seq<char>> {
    if on {
        Some(value)
    } else {
        None
    }
}

/// The value that wins: the one from above where there is one, else the one
/// from below.
pub open spec fn preferred(above: Option<Seq<char>>, below: Option<Seq<char>>) -> Option<
    Seq<char>,
> {
    match above {
        Some(v) => Some(v),
        None => below,
    }
}

/// The environment of a launch: the base layer, the feature layer on top of it,
/// and the descriptor's custom assignments on top of both. No key occurs twice.
pub open spec fn effective_env(game: GameView, host: HostProbeView) -> Seq<Assignment> {
    overlay(
        overlay(
            base_layer(game.prefix_path, host.steam_path),
            feature_layer(game.use_ntsync, game.use_antilag, game.use_ace),
        ),
        custom_layer(game.custom_env),
    )
}

/// The command of a launch: the runtime, told to run the executable, behind the
/// wrapper if that is used; then the descriptor's own arguments.
pub open spec fn launch_command(game: GameView, use_gamemode: bool, host: HostProbeView)
    -> CommandPlanView {
    CommandPlanView {
        program: if wrapped(use_gamemode, host) {
            WRAPPER_PROGRAM@
        } else {
            game.proton_path
        },
        args: (if wrapped(use_gamemode, host) {
            seq![game.proton_path]
        } else {
            Seq::empty()
        }) + seq![RUN_VERB@, game.exe_path] + words(game.launch_args),
        env: effective_env(game, host),
    }
}

/// What stands against a launch, if anything: a missing runtime first, then a
/// missing executable.
pub open spec fn objection(game: GameView, proton_exists: bool, exe_exists: bool) -> Option<
    ErrorView,
> {
    if !proton_exists {
        Some(ErrorView::RuntimeMissing { path: game.proton_path })
    } else if !exe_exists {
        Some(ErrorView::ExecutableMissing { path: game.exe_path })
    } else {
        None
    }
}

/// What a launch request comes to: it is refused for what stands against it,
/// and planned where nothing does.
pub open spec fn launch_decision(game: GameView, use_gamemode: bool, host: HostProbeView)
    -> Result<LaunchPlanView, ErrorView> {
    if let Some(e) = objection(game, host.proton_exists, host.exe_exists) {
        Err(e)
    } else {
        Ok(
            LaunchPlanView {
                name: game.name,
                command: launch_command(game, use_gamemode, host),
                create_dir: if game.prefix_path.len() == 0 {
                    None
                } else {
                    Some(game.prefix_path)
                },
                steam_path: host.steam_path,
            },
        )
    }
}

/// The status text of a launch that succeeded.
pub open spec fn launched_text(name: Seq<char>, steam_path: Seq<char>) -> Seq<char> {
    LAUNCHED_TEXT@ + name + LAUNCHED_PLATFORM_TEXT@ + steam_path + LAUNCHED_END_TEXT@
}

/// The keys of the base layer and of the feature layer are all different.
pub proof fn lemma_computed_keys_differ(
    prefix_path: Seq<char>,
    steam_path: Seq<char>,
    kernel_sync: bool,
    anti_lag: bool,
    anti_cheat: bool,
)
    ensures
        distinct_keys(
            base_layer(prefix_path, steam_path) + feature_layer(kernel_sync, anti_lag, anti_cheat),
        ),
{
    reveal_strlit("STEAM_COMPAT_DATA_PATH");
    reveal_strlit("STEAM_COMPAT_CLIENT_INSTALL_PATH");
    reveal_strlit("GST_PLUGIN_SYSTEM_PATH_1_0");
    reveal_strlit("WINE_GST_REGISTRY_DIRECTORY");
    reveal_strlit("WINE_GST_VULKAN_NO_ZERO_COPY");
    reveal_strlit("DXVK_ASYNC");
    reveal_strlit("DXVK_STATE_CACHE");
    reveal_strlit("VKD3D_SHADER_CACHE_PATH");
    reveal_strlit("PROTON_USE_WINED3D");
    reveal_strlit("PROTON_USE_FSYNC");
    reveal_strlit("WINE_LARGE_ADDRESS_AWARE");
    reveal_strlit("WINEDEBUG");
    reveal_strlit("DXVK_LOG_LEVEL");
    reveal_strlit("LC_ALL");
    reveal_strlit("PROTON_USE_NTSYNC");
    reveal_strlit("ENABLE_LAYER_MESA_ANTI_LAG");
    reveal_strlit("WINEDLLOVERRIDES");
    reveal_strlit("PROTON_NO_ESYNC");
    let keys = seq![
        KEY_COMPAT_DATA@,
        KEY_CLIENT_INSTALL@,
        KEY_MEDIA_PLUGINS@,
        KEY_MEDIA_REGISTRY@,
        KEY_MEDIA_ZERO_COPY@,
        KEY_SHADER_ASYNC@,
        KEY_SHADER_STATE@,
        KEY_SHADER_CACHE@,
        KEY_SOFTWARE_RENDER@,
        KEY_SYNC@,
        KEY_LARGE_ADDRESS@,
        KEY_DEBUG@,
        KEY_SHADER_LOG@,
        KEY_LOCALE@,
        KEY_KERNEL_SYNC@,
        KEY_ANTI_LAG@,
        KEY_LIBRARY_OVERRIDES@,
        KEY_NO_SYNC@,
    ];
    assert forall|i: int, j: int| 0 <= i < j < keys.len() implies keys[i] != keys[j] by {
        assert(keys[i].len() != keys[j].len() || keys[i][0] != keys[j][0] || keys[i][7]
            != keys[j][7] || keys[i][11] != keys[j][11]);
    }
    let all = base_layer(prefix_path, steam_path) + feature_layer(
        kernel_sync,
        anti_lag,
        anti_cheat,
    );
    assert forall|i: int, j: int| 0 <= i < j < all.len() implies (#[trigger] all[i]).0 != (
    #[trigger] all[j]).0 by {
        let a = choose|a: int| 0 <= a < keys.len() && keys[a] == all[i].0;
        let b = choose|b: int| 0 <= b < keys.len() && keys[b] == all[j].0;
        assert(a < b);
    }
}

/// The law of the layers: in the environment of a launch no key occurs twice;
/// a key that the custom text sets has the value of its last custom assignment;
/// any other key has the value from the feature layer if that sets it, and else
/// the value from the base layer, if any.
pub proof fn law_later_layers_override(game: GameView, host: HostProbeView, key: Seq<char>)
    ensures
        distinct_keys(effective_env(game, host)),
        lookup(effective_env(game, host), key) == match lookup(custom_layer(game.custom_env), key) {
            Some(v) => Some(v),
            None => match lookup(
                feature_layer(game.use_ntsync, game.use_antilag, game.use_ace),
                key,
            ) {
                Some(v) => Some(v),
                None => lookup(base_layer(game.prefix_path, host.steam_path), key),
            },
        },
{
    let base = base_layer(game.prefix_path, host.steam_path);
    let feature = feature_layer(game.use_ntsync, game.use_antilag, game.use_ace);
    lemma_computed_keys_differ(
        game.prefix_path,
        host.steam_path,
        game.use_ntsync,
        game.use_antilag,
        game.use_ace,
    );
    assert forall|i: int, j: int| 0 <= i < j < base.len() implies (#[trigger] base[i]).0 != (
    #[trigger] base[j]).0 by {
        assert(base[i] == (base + feature)[i] && base[j] == (base + feature)[j]);
    }
    law_upper_layer_overrides(base, feature, key);
    law_upper_layer_overrides(overlay(base, feature), custom_layer(game.custom_env), key);
}

/// The computed layers do not collide: the feature layer goes behind the base
/// layer as it is, and a launch without custom assignments has exactly the
/// assignments of the two.
pub proof fn law_computed_layers_stand_as_written(game: GameView, host: HostProbeView)
    ensures
        overlay(
            base_layer(game.prefix_path, host.steam_path),
            feature_layer(game.use_ntsync, game.use_antilag, game.use_ace),
        ) == base_layer(game.prefix_path, host.steam_path) + feature_layer(
            game.use_ntsync,
            game.use_antilag,
            game.use_ace,
        ),
        custom_layer(game.custom_env).len() == 0 ==> effective_env(game, host) == base_layer(
            game.prefix_path,
            host.steam_path,
        ) + feature_layer(game.use_ntsync, game.use_antilag, game.use_ace),
{
    lemma_computed_keys_differ(
        game.prefix_path,
        host.steam_path,
        game.use_ntsync,
        game.use_antilag,
        game.use_ace,
    );
    lemma_overlay_fresh(
        base_layer(game.prefix_path, host.steam_path),
        feature_layer(game.use_ntsync, game.use_antilag, game.use_ace),
    );
}

/// What the computed layers give the variables that a launch is known by: the
/// data path, the client path and the default synchronisation always, and the
/// variable of each flag exactly when the flag is set.
pub proof fn lemma_computed_values(
    prefix_path: Seq<char>,
    steam_path: Seq<char>,
    kernel_sync: bool,
    anti_lag: bool,
    anti_cheat: bool,
)
    ensures
        lookup(
            base_layer(prefix_path, steam_path) + feature_layer(kernel_sync, anti_lag, anti_cheat),
            KEY_COMPAT_DATA@,
        ) == Some(prefix_path),
        lookup(
            base_layer(prefix_path, steam_path) + feature_layer(kernel_sync, anti_lag, anti_cheat),
            KEY_CLIENT_INSTALL@,
        ) == Some(steam_path),
        lookup(
            base_layer(prefix_path, steam_path) + feature_layer(kernel_sync, anti_lag, anti_cheat),
            KEY_SYNC@,
        ) == Some(ON@),
        lookup(
            base_layer(prefix_path, steam_path) + feature_layer(kernel_sync, anti_lag, anti_cheat),
            KEY_KERNEL_SYNC@,
        ) == switched(kernel_sync, ON@),
        lookup(
            base_layer(prefix_path, steam_path) + feature_layer(kernel_sync, anti_lag, anti_cheat),
            KEY_ANTI_LAG@,
        ) == switched(anti_lag, ON@),
        lookup(
            base_layer(prefix_path, steam_path) + feature_layer(kernel_sync, anti_lag, anti_cheat),
            KEY_LIBRARY_OVERRIDES@,
        ) == switched(anti_cheat, ANTI_CHEAT_OVERRIDES@),
        lookup(
            base_layer(prefix_path, steam_path) + feature_layer(kernel_sync, anti_lag, anti_cheat),
            KEY_NO_SYNC@,
        ) == switched(anti_cheat, ON@),
{
    let base = base_layer(prefix_path, steam_path);
    let all = base + feature_layer(kernel_sync, anti_lag, anti_cheat);
    lemma_computed_keys_differ(prefix_path, steam_path, kernel_sync, anti_lag, anti_cheat);
    assert(all[0] == (KEY_COMPAT_DATA@, prefix_path));
    lemma_lookup_distinct(all, 0);
    assert(all[1] == (KEY_CLIENT_INSTALL@, steam_path));
    lemma_lookup_distinct(all, 1);
    assert(all[9] == (KEY_SYNC@, ON@));
    lemma_lookup_distinct(all, 9);
    let first: int = 14;
    let second: int = first + if kernel_sync { 1int } else { 0int };
    let third: int = second + if anti_lag { 1int } else { 0int };
    if kernel_sync {
        assert(all[first] == (KEY_KERNEL_SYNC@, ON@));
        lemma_lookup_distinct(all, first);
    } else {
        let full = base + feature_layer(true, anti_lag, anti_cheat);
        lemma_computed_keys_differ(prefix_path, steam_path, true, anti_lag, anti_cheat);
        assert(full[first].0 == KEY_KERNEL_SYNC@);
        assert forall|i: int| 0 <= i < all.len() implies (#[trigger] all[i]).0
            != KEY_KERNEL_SYNC@ by {
            let m = if i < first { i } else { i + 1 };
            assert(all[i] == full[m]);
            assert(full[m].0 != full[first].0);
        }
        lemma_lookup_unset(all, KEY_KERNEL_SYNC@);
    }
    if anti_lag {
        assert(all[second] == (KEY_ANTI_LAG@, ON@));
        lemma_lookup_distinct(all, second);
    } else {
        let full = base + feature_layer(kernel_sync, true, anti_cheat);
        lemma_computed_keys_differ(prefix_path, steam_path, kernel_sync, true, anti_cheat);
        assert(full[second].0 == KEY_ANTI_LAG@);
        assert forall|i: int| 0 <= i < all.len() implies (#[trigger] all[i]).0
            != KEY_ANTI_LAG@ by {
            let m = if i < second { i } else { i + 1 };
            assert(all[i] == full[m]);
            assert(full[m].0 != full[second].0);
        }
        lemma_lookup_unset(all, KEY_ANTI_LAG@);
    }
    if anti_cheat {
        assert(all[third] == (KEY_LIBRARY_OVERRIDES@, ANTI_CHEAT_OVERRIDES@));
        lemma_lookup_distinct(all, third);
        assert(all[third + 1] == (KEY_NO_SYNC@, ON@));
        lemma_lookup_distinct(all, third + 1);
    } else {
        let full = base + feature_layer(kernel_sync, anti_lag, true);
        lemma_computed_keys_differ(prefix_path, steam_path, kernel_sync, anti_lag, true);
        assert(full[third].0 == KEY_LIBRARY_OVERRIDES@);
        assert(full[third + 1].0 == KEY_NO_SYNC@);
        assert forall|i: int| 0 <= i < all.len() implies (#[trigger] all[i]).0
            != KEY_LIBRARY_OVERRIDES@ && all[i].0 != KEY_NO_SYNC@ by {
            assert(all[i] == full[i]);
            assert(full[i].0 != full[third].0);
            assert(full[i].0 != full[third + 1].0);
        }
        lemma_lookup_unset(all, KEY_LIBRARY_OVERRIDES@);
        lemma_lookup_unset(all, KEY_NO_SYNC@);
    }
}

/// Each feature flag toggles its own variable, and no flag touches another: in
/// the environment of a launch, as far as the custom text does not set them,
/// the data path is the descriptor's prefix, the client path is the platform
/// path, the default synchronisation is on, the kernel synchronisation and the
/// anti-lag layer are on exactly when their flags are set, and the library
/// redirections and the switch against the default synchronisation are there
/// exactly when the anti-cheat flag is set.
pub proof fn law_flags_toggle_their_own_variables(game: GameView, host: HostProbeView)
    ensures
        lookup(effective_env(game, host), KEY_COMPAT_DATA@) == preferred(
            lookup(custom_layer(game.custom_env), KEY_COMPAT_DATA@),
            Some(game.prefix_path),
        ),
        lookup(effective_env(game, host), KEY_CLIENT_INSTALL@) == preferred(
            lookup(custom_layer(game.custom_env), KEY_CLIENT_INSTALL@),
            Some(host.steam_path),
        ),
        lookup(effective_env(game, host), KEY_SYNC@) == preferred(
            lookup(custom_layer(game.custom_env), KEY_SYNC@),
            Some(ON@),
        ),
        lookup(effective_env(game, host), KEY_KERNEL_SYNC@) == preferred(
            lookup(custom_layer(game.custom_env), KEY_KERNEL_SYNC@),
            switched(game.use_ntsync, ON@),
        ),
        lookup(effective_env(game, host), KEY_ANTI_LAG@) == preferred(
            lookup(custom_layer(game.custom_env), KEY_ANTI_LAG@),
            switched(game.use_antilag, ON@),
        ),
        lookup(effective_env(game, host), KEY_LIBRARY_OVERRIDES@) == preferred(
            lookup(custom_layer(game.custom_env), KEY_LIBRARY_OVERRIDES@),
            switched(game.use_ace, ANTI_CHEAT_OVERRIDES@),
        ),
        lookup(effective_env(game, host), KEY_NO_SYNC@) == preferred(
            lookup(custom_layer(game.custom_env), KEY_NO_SYNC@),
            switched(game.use_ace, ON@),
        ),
{
    let base = base_layer(game.prefix_path, host.steam_path);
    let feature = feature_layer(game.use_ntsync, game.use_antilag, game.use_ace);
    let custom = custom_layer(game.custom_env);
    lemma_computed_keys_differ(
        game.prefix_path,
        host.steam_path,
        game.use_ntsync,
        game.use_antilag,
        game.use_ace,
    );
    lemma_overlay_fresh(base, feature);
    lemma_computed_values(
        game.prefix_path,
        host.steam_path,
        game.use_ntsync,
        game.use_antilag,
        game.use_ace,
    );
    law_upper_layer_overrides(base + feature, custom, KEY_COMPAT_DATA@);
    law_upper_layer_overrides(base + feature, custom, KEY_CLIENT_INSTALL@);
    law_upper_layer_overrides(base + feature, custom, KEY_SYNC@);
    law_upper_layer_overrides(base + feature, custom, KEY_KERNEL_SYNC@);
    law_upper_layer_overrides(base + feature, custom, KEY_ANTI_LAG@);
    law_upper_layer_overrides(base + feature, custom, KEY_LIBRARY_OVERRIDES@);
    law_upper_layer_overrides(base + feature, custom, KEY_NO_SYNC@);
}

/// The base layer for the prefix at `prefix_path` and the platform at `steam_path`.
pub fn base_env(prefix_path: &str, steam_path: &str) -> (env: Vec<EnvVar>)
    ensures
        assignments(env@) == base_layer(prefix_path@, steam_path@),
{
    let registry = joined(prefix_path, MEDIA_REGISTRY_DIR);
    let mut env: Vec<EnvVar> = Vec::new();
    env.push(EnvVar::new(KEY_COMPAT_DATA, prefix_path));
    env.push(EnvVar::new(KEY_CLIENT_INSTALL, steam_path));
    env.push(EnvVar::new(KEY_MEDIA_PLUGINS, NOTHING));
    env.push(EnvVar::new(KEY_MEDIA_REGISTRY, registry.as_str()));
    env.push(EnvVar::new(KEY_MEDIA_ZERO_COPY, ON));
    env.push(EnvVar::new(KEY_SHADER_ASYNC, ON));
    env.push(EnvVar::new(KEY_SHADER_STATE, ON));
    env.push(EnvVar::new(KEY_SHADER_CACHE, prefix_path));
    env.push(EnvVar::new(KEY_SOFTWARE_RENDER, OFF));
    env.push(EnvVar::new(KEY_SYNC, ON));
    env.push(EnvVar::new(KEY_LARGE_ADDRESS, ON));
    env.push(EnvVar::new(KEY_DEBUG, DEBUG_OFF));
    env.push(EnvVar::new(KEY_SHADER_LOG, SHADER_LOG_OFF));
    env.push(EnvVar::new(KEY_LOCALE, LOCALE_PLAIN));
    proof {
        assert(assignments(env@) =~= base_layer(prefix_path@, steam_path@));
    }
    env
}

/// The feature layer for the three switches.
pub fn feature_env(kernel_sync: bool, anti_lag: bool, anti_cheat: bool) -> (env: Vec<EnvVar>)
    ensures
        assignments(env@) == feature_layer(kernel_sync, anti_lag, anti_cheat),
{
    let mut env: Vec<EnvVar> = Vec::new();
    if kernel_sync {
        env.push(EnvVar::new(KEY_KERNEL_SYNC, ON));
    }
    if anti_lag {
        env.push(EnvVar::new(KEY_ANTI_LAG, ON));
    }
    if anti_cheat {
        env.push(EnvVar::new(KEY_LIBRARY_OVERRIDES, ANTI_CHEAT_OVERRIDES));
        env.push(EnvVar::new(KEY_NO_SYNC, ON));
    }
    proof {
        assert(assignments(env@) =~= feature_layer(kernel_sync, anti_lag, anti_cheat));
    }
    env
}

/// The environment of a launch, layer on layer.
pub fn build_environment(game: &Game, host: &HostProbe) -> (env: Vec<EnvVar>)
    ensures
        assignments(env@) == effective_env(game@, host@),
{
    let base = base_env(game.prefix_path.as_str(), host.steam_path.as_str());
    let feature = feature_env(game.use_ntsync, game.use_antilag, game.use_ace);
    let custom = parse_custom_env(game.custom_env.as_str());
    layer(layer(base, &feature), &custom)
}

/// The command of a launch.
pub fn build_command(game: &Game, use_gamemode: bool, host: &HostProbe) -> (plan: CommandPlan)
    ensures
        plan@ == launch_command(game@, use_gamemode, host@),
{
    let through_wrapper = use_gamemode && host.gamemode_available;
    let extra = split_whitespace(game.launch_args.as_str());
    let mut args: Vec<String> = Vec::new();
    let program = if through_wrapper {
        args.push(game.proton_path.clone());
        WRAPPER_PROGRAM.to_owned()
    } else {
        game.proton_path.clone()
    };
    args.push(RUN_VERB.to_owned());
    args.push(game.exe_path.clone());
    let ghost fixed = views(args@);
    proof {
        assert(fixed =~= (if wrapped(use_gamemode, host@) {
            seq![game@.proton_path]
        } else {
            Seq::empty()
        }) + seq![RUN_VERB@, game@.exe_path]);
    }
    let mut i: usize = 0;
    while i < extra.len()
        invariant
            i <= extra.len(),
            views(args@) == fixed + views(extra@).take(i as int),
        decreases extra.len() - i,
    {
        let word = extra[i].clone();
        proof {
            assert(views(extra@).take(i + 1) =~= views(extra@).take(i as int).push(word@));
            assert(views(args@.push(word)) =~= views(args@).push(word@));
        }
        args.push(word);
        i += 1;
    }
    proof {
        assert(views(extra@).take(i as int) =~= views(extra@));
    }
    let env = build_environment(game, host);
    CommandPlan { program, args, env }
}

/// Checks the paths of a launch before anything else is done for it. The
/// launch is refused exactly when the runtime or the executable is missing.
pub fn validate(game: &Game, proton_exists: bool, exe_exists: bool) -> (r: Result<(), Error>)
    ensures
        match r {
            Ok(_) => objection(game@, proton_exists, exe_exists) is None,
            Err(e) => objection(game@, proton_exists, exe_exists) == Some(e@),
        },
{
    if !proton_exists {
        return Err(Error::RuntimeMissing { path: game.proton_path.clone() });
    }
    if !exe_exists {
        return Err(Error::ExecutableMissing { path: game.exe_path.clone() });
    }
    Ok(())
}

/// Decides on a launch request. The launch is refused, and nothing is to be
/// run, exactly when the runtime or the executable is missing; otherwise the
/// plan says what to create and what to run.
pub fn plan_launch(game: &Game, use_gamemode: bool, host: &HostProbe) -> (r: Result<
    LaunchPlan,
    Error,
>)
    ensures
        match r {
            Ok(plan) => launch_decision(game@, use_gamemode, host@) == Ok::<
                LaunchPlanView,
                ErrorView,
            >(plan@),
            Err(e) => launch_decision(game@, use_gamemode, host@) == Err::<
                LaunchPlanView,
                ErrorView,
            >(e@),
        },
{
    match validate(game, host.proton_exists, host.exe_exists) {
        Ok(_) => {},
        Err(e) => {
            return Err(e);
        },
    }
    let create_dir = if game.prefix_path.as_str().is_empty() {
        None
    } else {
        Some(game.prefix_path.clone())
    };
    Ok(
        LaunchPlan {
            name: game.name.clone(),
            command: build_command(game, use_gamemode, host),
            create_dir,
            steam_path: host.steam_path.clone(),
        },
    )
}

/// The status text of a launch that succeeded.
pub fn launched_message(name: &str, steam_path: &str) -> (text: String)
    ensures
        text@ == launched_text(name@, steam_path@),
{
    let mut text = joined(LAUNCHED_TEXT, name);
    text.append(LAUNCHED_PLATFORM_TEXT);
    text.append(steam_path);
    text.append(LAUNCHED_END_TEXT);
    text
}

} // verus!
