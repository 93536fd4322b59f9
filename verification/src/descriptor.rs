//! The records exchanged with the front end: an installed runtime version, a
//! launch descriptor, and the stored configuration.

use vstd::prelude::*;

verus! {

/// One installed version of the compatibility runtime.
#[derive(Clone, Debug, PartialEq, Eq)]
pub struct ProtonVersion {
    /// Name of the directory that holds the version.
    pub name: String,
    /// Path of the runtime's entry point inside that directory.
    pub path: String,
}

/// A `ProtonVersion` as contracts see it.
pub struct ProtonVersionView {
    pub name: Seq<char>,
    pub path: Seq<char>,
}

impl View for ProtonVersion {
    type V = ProtonVersionView;

    open spec fn view(&self) -> ProtonVersionView {
        ProtonVersionView { name: self.name@, path: self.path@ }
    }
}

/// A launch descriptor: everything that says how one application is started.
#[derive(Clone, Debug, PartialEq, Eq)]
pub struct Game {
    pub id: u64,
    /// Display name; the process is supervised under it.
    pub name: String,
    /// Path of the compatibility runtime that runs the application.
    pub proton_path: String,
    /// Path of the application's executable.
    pub exe_path: String,
    /// Directory in which the runtime keeps its state for this application.
    pub prefix_path: String,
    /// Anti-cheat compatibility.
    pub use_ace: bool,
    /// Kernel synchronisation primitive.
    pub use_ntsync: bool,
    /// Anti-lag layer.
    pub use_antilag: bool,
    /// Extra environment assignments, one `KEY=value` per line.
    pub custom_env: String,
    /// Extra arguments for the application, separated by white space.
    pub launch_args: String,
}

/// A `Game` as contracts see it.
pub struct GameView {
    pub id: u64,
    pub name: Seq<char>,
    pub proton_path: Seq<char>,
    pub exe_path: Seq<char>,
    pub prefix_path: Seq<char>,
    pub use_ace: bool,
    pub use_ntsync: bool,
    pub use_antilag: bool,
    pub custom_env: Seq<char>,
    pub launch_args: Seq<char>,
}

impl View for Game {
    type V = GameView;

    open spec fn view(&self) -> GameView {
        GameView {
            id: self.id,
            name: self.name@,
            proton_path: self.proton_path@,
            exe_path: self.exe_path@,
            prefix_path: self.prefix_path@,
            use_ace: self.use_ace,
            use_ntsync: self.use_ntsync,
            use_antilag: self.use_antilag,
            custom_env: self.custom_env@,
            launch_args: self.launch_args@,
        }
    }
}

/// The stored configuration.
#[derive(Clone, Debug, PartialEq, Eq)]
pub struct AppConfig {
    /// Directory that is searched for installed runtime versions.
    pub proton_root: String,
    /// The launch descriptors, in the order the user keeps them.
    pub games: Vec<Game>,
}

/// An `AppConfig` as contracts see it.
pub struct AppConfigView {
    pub proton_root: Seq<char>,
    pub games: Seq<GameView>,
}

impl View for AppConfig {
    type V = AppConfigView;

    open spec fn view(&self) -> AppConfigView {
        AppConfigView {
            proton_root: self.proton_root@,
            games: self.games@.map_values(|g: Game| g@),
        }
    }
}

impl AppConfig {
    /// The configuration of a fresh installation: no runtime directory, no
    /// launch descriptors.
    pub fn empty() -> (config: AppConfig)
        ensures
            config@.proton_root == Seq::<char>::empty(),
            config@.games == Seq::<GameView>::empty(),
    {
        let config = AppConfig { proton_root: String::new(), games: Vec::new() };
        assert(config@.games =~= Seq::<GameView>::empty());
        config
    }
}

impl Default for AppConfig {
    fn default() -> (config: AppConfig)
        ensures
            config@.proton_root == Seq::<char>::empty(),
            config@.games == Seq::<GameView>::empty(),
    {
        AppConfig::empty()
    }
}

} // verus!
