//! The snapshot of what the host offers, and its report for the front end.

use vstd::prelude::*;

verus! {

/// A JSON value of `serde_json`. Nothing is known of what is inside one.
#[verifier::external_type_specification]
#[verifier::external_body]
pub struct ExJsonValue(serde_json::Value);

/// The JSON value that `serde_json` makes of a truth value.
pub uninterp spec fn json_of_bool(b: bool) -> serde_json::Value;

/// The JSON value that `serde_json` makes of a text.
pub uninterp spec fn json_of_text(text: Seq<char>) -> serde_json::Value;

/// `serde_json::Value::from` on a `bool`, which gives `Value::Bool` of it. The
/// contract only names the result: the same truth value gives the same value.
#[verifier::external_body]
fn json_bool(b: bool) -> (value: serde_json::Value)
    ensures
        value == json_of_bool(b),
{
    serde_json::Value::from(b)
}

/// `serde_json::Value::from` on a `String`, which gives `Value::String` of it.
/// The contract only names the result: the same text gives the same value.
#[verifier::external_body]
fn json_text(text: String) -> (value: serde_json::Value)
    ensures
        value == json_of_text(text@),
{
    serde_json::Value::from(text)
}

/// Key of the finding on the kernel synchronisation primitive.
pub const KEY_KERNEL_SYNC_FOUND: &'static str = "ntsync";

/// Key of the finding on the scheduling wrapper.
pub const KEY_WRAPPER_FOUND: &'static str = "gamemode";

/// Key of the finding on the graphics interface.
pub const KEY_GRAPHICS_FOUND: &'static str = "vulkan";

/// Key of the path of the platform installation.
pub const KEY_PLATFORM_PATH: &'static str = "steam_path";

/// Key of the finding on the platform installation.
pub const KEY_PLATFORM_FOUND: &'static str = "steam_valid";

/// What a probe of the host found. It is made anew for each probe and is never
/// stored.
#[derive(Clone, Debug, PartialEq, Eq)]
pub struct SystemHealth {
    /// Whether the kernel offers the synchronisation primitive.
    pub ntsync: bool,
    /// Whether the scheduling wrapper is installed.
    pub gamemode: bool,
    /// Whether the graphics interface is usable.
    pub vulkan: bool,
    /// Base path of the platform installation in use.
    pub steam_path: String,
    /// Whether that installation holds the platform's library directory.
    pub steam_valid: bool,
}

/// One line of the report: a key and its JSON value.
pub struct HealthEntry {
    pub key: String,
    pub value: serde_json::Value,
}

impl View for HealthEntry {
    type V = (Seq<char>, serde_json::Value);

    open spec fn view(&self) -> (Seq<char>, serde_json::Value) {
        (self.key@, self.value)
    }
}

/// The report of a snapshot: one entry for each finding, under the key that
/// the front end knows it by.
pub open spec fn report_of(
    ntsync: bool,
    gamemode: bool,
    vulkan: bool,
    steam_path: Seq<char>,
    steam_valid: bool,
) -> Seq<(Seq<char>, serde_json::Value)> {
    seq![
        (KEY_KERNEL_SYNC_FOUND@, json_of_bool(ntsync)),
        (KEY_WRAPPER_FOUND@, json_of_bool(gamemode)),
        (KEY_GRAPHICS_FOUND@, json_of_bool(vulkan)),
        (KEY_PLATFORM_PATH@, json_of_text(steam_path)),
        (KEY_PLATFORM_FOUND@, json_of_bool(steam_valid)),
    ]
}

impl SystemHealth {
    /// The report of this snapshot for the front end.
    pub fn report(&self) -> (entries: Vec<HealthEntry>)
        ensures
            entries@.map_values(|e: HealthEntry| e@) == report_of(
                self.ntsync,
                self.gamemode,
                self.vulkan,
                self.steam_path@,
                self.steam_valid,
            ),
    {
        let mut entries: Vec<HealthEntry> = Vec::new();
        entries.push(
            HealthEntry { key: KEY_KERNEL_SYNC_FOUND.to_owned(), value: json_bool(self.ntsync) },
        );
        entries.push(
            HealthEntry { key: KEY_WRAPPER_FOUND.to_owned(), value: json_bool(self.gamemode) },
        );
        entries.push(
            HealthEntry { key: KEY_GRAPHICS_FOUND.to_owned(), value: json_bool(self.vulkan) },
        );
        entries.push(
            HealthEntry {
                key: KEY_PLATFORM_PATH.to_owned(),
                value: json_text(self.steam_path.clone()),
            },
        );
        entries.push(
            HealthEntry { key: KEY_PLATFORM_FOUND.to_owned(), value: json_bool(self.steam_valid) },
        );
        proof {
            assert(entries@.map_values(|e: HealthEntry| e@) =~= report_of(
                self.ntsync,
                self.gamemode,
                self.vulkan,
                self.steam_path@,
                self.steam_valid,
            ));
        }
        entries
    }
}

} // verus!
