use corerunner::host::{find_steam_path, home_dir, steam_candidates, DirProbe, SteamChoice};

fn absent() -> DirProbe {
    DirProbe { exists: false, has_library: false }
}

fn bare() -> DirProbe {
    DirProbe { exists: true, has_library: false }
}

fn complete() -> DirProbe {
    DirProbe { exists: true, has_library: true }
}

fn found(path: &str) -> SteamChoice {
    SteamChoice { path: path.to_string(), create: None }
}

#[test]
fn home_is_what_the_environment_names_or_the_default() {
    assert_eq!(home_dir(Some("/home/u".to_string())), "/home/u");
    assert_eq!(home_dir(Some(String::new())), "");
    assert_eq!(home_dir(None), "/root");
}

#[test]
fn candidates_are_the_five_known_places() {
    assert_eq!(
        steam_candidates("/home/u"),
        vec![
            "/home/u/.local/share/Steam",
            "/home/u/.steam/steam",
            "/home/u/.steam/root",
            "/home/u/.var/app/com.valvesoftware.Steam/.local/share/Steam",
            "/home/u/snap/steam/common/.local/share/Steam",
        ]
    );
}

#[test]
fn complete_installation_is_preferred_over_an_earlier_bare_one() {
    let probes = vec![bare(), absent(), complete(), complete(), absent()];
    assert_eq!(find_steam_path("/home/u", &probes), found("/home/u/.steam/root"));
}

#[test]
fn first_complete_installation_wins() {
    let probes = vec![complete(), complete(), absent(), absent(), absent()];
    assert_eq!(find_steam_path("/home/u", &probes), found("/home/u/.local/share/Steam"));
}

#[test]
fn first_existing_directory_is_the_fallback() {
    let probes = vec![absent(), absent(), absent(), bare(), bare()];
    assert_eq!(
        find_steam_path("/home/u", &probes),
        found("/home/u/.var/app/com.valvesoftware.Steam/.local/share/Steam")
    );
}

#[test]
fn library_counts_even_where_the_directory_probe_failed() {
    let probes = vec![bare(), DirProbe { exists: false, has_library: true }];
    assert_eq!(find_steam_path("/home/u", &probes), found("/home/u/.steam/steam"));
}

#[test]
fn stand_in_is_created_where_nothing_is_installed() {
    let probes = vec![absent(); 5];
    assert_eq!(
        find_steam_path("/home/u", &probes),
        SteamChoice {
            path: "/home/u/.steam/steam".to_string(),
            create: Some("/home/u/.steam/steam/steamapps".to_string()),
        }
    );
    assert_eq!(find_steam_path("/root", &vec![]).path, "/root/.steam/steam");
}

#[test]
fn probes_beyond_the_candidates_are_ignored() {
    let mut probes = vec![absent(); 5];
    probes.push(complete());
    assert_eq!(
        find_steam_path("/h", &probes).create,
        Some("/h/.steam/steam/steamapps".to_string())
    );
}
