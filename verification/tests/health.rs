use corerunner::health::SystemHealth;

#[test]
fn health_report_lists_each_finding_as_json() {
    let health = SystemHealth {
        ntsync: true,
        gamemode: false,
        vulkan: true,
        steam_path: "/home/u/.steam/steam".to_string(),
        steam_valid: false,
    };
    let report = health.report();
    let keys: Vec<&str> = report.iter().map(|e| e.key.as_str()).collect();
    assert_eq!(keys, vec!["ntsync", "gamemode", "vulkan", "steam_path", "steam_valid"]);
    assert_eq!(report[0].value, serde_json::Value::Bool(true));
    assert_eq!(report[1].value, serde_json::Value::Bool(false));
    assert_eq!(report[2].value, serde_json::Value::Bool(true));
    assert_eq!(report[3].value, serde_json::Value::String("/home/u/.steam/steam".to_string()));
    assert_eq!(report[4].value, serde_json::Value::Bool(false));
}

#[test]
fn health_report_follows_the_snapshot() {
    let health = SystemHealth {
        ntsync: false,
        gamemode: true,
        vulkan: false,
        steam_path: String::new(),
        steam_valid: true,
    };
    let report = health.report();
    assert_eq!(report[0].value, serde_json::Value::Bool(false));
    assert_eq!(report[1].value, serde_json::Value::Bool(true));
    assert_eq!(report[2].value, serde_json::Value::Bool(false));
    assert_eq!(report[3].value, serde_json::Value::String(String::new()));
    assert_eq!(report[4].value, serde_json::Value::Bool(true));
}
