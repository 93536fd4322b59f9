use corerunner::catalog::{scan_manual_proton, ScanEntry};
use corerunner::descriptor::ProtonVersion;

fn entry(name: &str, is_dir: bool, has_runtime: bool) -> ScanEntry {
    ScanEntry { name: name.to_string(), is_dir, has_runtime }
}

fn version(name: &str, path: &str) -> ProtonVersion {
    ProtonVersion { name: name.to_string(), path: path.to_string() }
}

#[test]
fn scan_of_nothing_finds_nothing() {
    assert_eq!(scan_manual_proton("/opt/proton", &vec![]), vec![]);
}

#[test]
fn scan_keeps_directories_with_a_runtime_only() {
    let entries = vec![
        entry("notes.txt", false, false),
        entry("empty-dir", true, false),
        entry("GE-Proton9-1", true, true),
        entry("proton", false, true),
    ];
    assert_eq!(
        scan_manual_proton("/opt/proton", &entries),
        vec![version("GE-Proton9-1", "/opt/proton/GE-Proton9-1/proton")]
    );
}

#[test]
fn scan_orders_newest_name_first() {
    let entries = vec![
        entry("GE-Proton8-3", true, true),
        entry("GE-Proton9-2", true, true),
        entry("cachyos", true, true),
        entry("GE-Proton9-10", true, true),
        entry("Experimental", true, true),
    ];
    let names: Vec<String> =
        scan_manual_proton("/c", &entries).into_iter().map(|v| v.name).collect();
    assert_eq!(
        names,
        vec!["cachyos", "GE-Proton9-2", "GE-Proton9-10", "GE-Proton8-3", "Experimental"]
    );
}

#[test]
fn scan_agrees_with_a_reverse_sort() {
    let raw = ["b", "a", "c", "B", "aa", "", "ab", "é", "a"];
    let entries: Vec<ScanEntry> = raw.iter().map(|n| entry(n, true, true)).collect();
    let mut expected: Vec<String> = raw.iter().map(|n| n.to_string()).collect();
    expected.sort_by(|a, b| b.cmp(a));
    let names: Vec<String> =
        scan_manual_proton("/r", &entries).into_iter().map(|v| v.name).collect();
    assert_eq!(names, expected);
}

#[test]
fn scan_builds_paths_below_the_base() {
    let entries = vec![entry("v1", true, true)];
    assert_eq!(scan_manual_proton("/base/", &entries)[0].path, "/base/v1/proton");
    assert_eq!(scan_manual_proton("", &entries)[0].path, "v1/proton");
    assert_eq!(scan_manual_proton("rel", &entries)[0].path, "rel/v1/proton");
}
