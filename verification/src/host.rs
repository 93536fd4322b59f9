//! What the launcher needs to know about the host: the user's home and the
//! installation of the gaming platform. Looking at the disk is left to the
//! caller; the choices are made here.

use crate::path::{join, path_join};
use crate::runs::{lemma_run_len, run_len};
use crate::text::views;
use vstd::prelude::*;

verus! {

/// The home directory that is assumed where the environment names none.
pub const DEFAULT_HOME: &'static str = "/root";

/// First place below the home directory where an installation of the platform
/// is looked for: the native one.
pub const PLATFORM_NATIVE: &'static str = ".local/share/Steam";

/// Second place: the link that the platform keeps to its installation.
pub const PLATFORM_LINK: &'static str = ".steam/steam";

/// Third place: the link that the platform keeps to its root.
pub const PLATFORM_ROOT_LINK: &'static str = ".steam/root";

/// Fourth place: the sandboxed installation.
pub const PLATFORM_SANDBOXED: &'static str = ".var/app/com.valvesoftware.Steam/.local/share/Steam";

/// Fifth place: the snap installation.
pub const PLATFORM_SNAP: &'static str = "snap/steam/common/.local/share/Steam";

/// First component of the stand-in installation, below the home directory.
pub const STAND_IN_PARENT: &'static str = ".steam";

/// Second component of the stand-in installation.
pub const STAND_IN_DIR: &'static str = "steam";

/// The directory that a complete installation of the platform holds.
pub const PLATFORM_LIBRARY: &'static str = "steamapps";

/// The device through which the kernel offers its synchronisation primitive.
pub const KERNEL_SYNC_DEVICE: &'static str = "/dev/ntsync";

/// What a look at one candidate directory found.
#[derive(Clone, Copy, Debug, PartialEq, Eq, Structural)]
pub struct DirProbe {
    /// Whether the directory exists.
    pub exists: bool,
    /// Whether it holds the platform's library directory.
    pub has_library: bool,
}

/// The platform installation to use.
#[derive(Clone, Debug, PartialEq, Eq)]
pub struct SteamChoice {
    /// Base path of the installation.
    pub path: String,
    /// The directory to create, with its parents, where no installation was
    /// found and a stand-in has to do.
    pub create: Option<String>,
}

/// A `SteamChoice` as contracts see it.
pub struct SteamChoiceView {
    pub path: Seq<char>,
    pub create: Option<Seq<char>>,
}

impl View for SteamChoice {
    type V = SteamChoiceView;

    open spec fn view(&self) -> SteamChoiceView {
        SteamChoiceView {
            path: self.path@,
            create: match self.create {
                Some(dir) => Some(dir@),
                None => None,
            },
        }
    }
}

/// The candidate directories below `home`, in the order of preference.
pub open spec fn candidate_paths(home: Seq<char>) -> Seq<Seq<char>> {
    seq![
        path_join(home, PLATFORM_NATIVE@),
        path_join(home, PLATFORM_LINK@),
        path_join(home, PLATFORM_ROOT_LINK@),
        path_join(home, PLATFORM_SANDBOXED@),
        path_join(home, PLATFORM_SNAP@),
    ]
}

/// The stand-in installation below `home`.
pub open spec fn stand_in_path(home: Seq<char>) -> Seq<char> {
    path_join(path_join(home, STAND_IN_PARENT@), STAND_IN_DIR@)
}

/// The probes that count: one for each candidate, as far as there are probes.
pub open spec fn considered(probes: Seq<DirProbe>) -> Seq<DirProbe> {
    if probes.len() <= 5 {
        probes
    } else {
        probes.take(5)
    }
}

/// Position of the first probe that found the library, or the number of probes.
pub open spec fn first_complete(probes: Seq<DirProbe>) -> nat {
    run_len(probes, |p: DirProbe| !p.has_library)
}

/// Position of the first probe that found the directory, or the number of probes.
pub open spec fn first_existing(probes: Seq<DirProbe>) -> nat {
    run_len(probes, |p: DirProbe| !p.exists)
}

/// The installation to use under `home`, given what the probes of the
/// candidates found: the first candidate that holds the library; failing that,
/// the first that exists; failing that, the stand-in, whose library directory
/// is then to be created.
pub open spec fn steam_choice(home: Seq<char>, probes: Seq<DirProbe>) -> SteamChoiceView {
    let seen = considered(probes);
    if first_complete(seen) < seen.len() {
        SteamChoiceView { path: candidate_paths(home)[first_complete(seen) as int], create: None }
    } else if first_existing(seen) < seen.len() {
        SteamChoiceView { path: candidate_paths(home)[first_existing(seen) as int], create: None }
    } else {
        SteamChoiceView {
            path: stand_in_path(home),
            create: Some(path_join(stand_in_path(home), PLATFORM_LIBRARY@)),
        }
    }
}

/// The user's home directory: what the environment names, or the default.
pub fn home_dir(named: Option<String>) -> (home: String)
    ensures
        home@ == match named {
            Some(dir) => dir@,
            None => DEFAULT_HOME@,
        },
{
    match named {
        Some(dir) => dir,
        None => DEFAULT_HOME.to_owned(),
    }
}

/// The candidate directories below `home`, in the order of preference.
pub fn steam_candidates(home: &str) -> (candidates: Vec<String>)
    ensures
        views(candidates@) == candidate_paths(home@),
{
    let mut candidates: Vec<String> = Vec::new();
    candidates.push(join(home, PLATFORM_NATIVE));
    candidates.push(join(home, PLATFORM_LINK));
    candidates.push(join(home, PLATFORM_ROOT_LINK));
    candidates.push(join(home, PLATFORM_SANDBOXED));
    candidates.push(join(home, PLATFORM_SNAP));
    proof {
        assert(views(candidates@) =~= candidate_paths(home@));
    }
    candidates
}

/// The platform installation to use under `home`. `probes` holds what a look at
/// each candidate of `steam_candidates` found, in the same order; a candidate
/// without a probe counts as absent, and a probe without a candidate is ignored.
pub fn find_steam_path(home: &str, probes: &Vec<DirProbe>) -> (choice: SteamChoice)
    ensures
        choice@ == steam_choice(home@, probes@),
{
    let mut candidates = steam_candidates(home);
    let n: usize = if probes.len() <= 5 {
        probes.len()
    } else {
        5
    };
    let ghost seen = considered(probes@);
    let mut complete: usize = 0;
    while complete < n && !probes[complete].has_library
        invariant
            complete <= n <= probes.len(),
            forall|i: int| 0 <= i < complete ==> !(#[trigger] probes@[i]).has_library,
        decreases n - complete,
    {
        complete += 1;
    }
    let mut existing: usize = 0;
    while existing < n && !probes[existing].exists
        invariant
            existing <= n <= probes.len(),
            forall|i: int| 0 <= i < existing ==> !(#[trigger] probes@[i]).exists,
        decreases n - existing,
    {
        existing += 1;
    }
    proof {
        assert forall|i: int| 0 <= i < n implies #[trigger] seen[i] == probes@[i] by {}
        lemma_run_len(seen, |p: DirProbe| !p.has_library, complete as int);
        lemma_run_len(seen, |p: DirProbe| !p.exists, existing as int);
        assert(views(candidates@).len() == 5);
        assert forall|i: int| 0 <= i < 5 implies (#[trigger] candidates@[i])@ == candidate_paths(
            home@,
        )[i] by {
            assert(views(candidates@)[i] == candidates@[i]@);
        }
    }
    if complete < n {
        SteamChoice { path: candidates.swap_remove(complete), create: None }
    } else if existing < n {
        SteamChoice { path: candidates.swap_remove(existing), create: None }
    } else {
        let parent = join(home, STAND_IN_PARENT);
        let path = join(parent.as_str(), STAND_IN_DIR);
        let create = join(path.as_str(), PLATFORM_LIBRARY);
        SteamChoice { path, create: Some(create) }
    }
}

} // verus!
