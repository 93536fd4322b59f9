//! The stored configuration: where it lives, what stands for it when nothing
//! is stored, and what is reported when it cannot be written or read. Reading,
//! writing and the conversion between text and record are left to the caller.

use crate::descriptor::AppConfig;
use crate::error::{Error, ErrorView};
use crate::path::{join, path_join};
use vstd::prelude::*;

verus! {

/// First component of the configuration directory, below the home directory.
pub const CONFIG_PARENT: &'static str = ".config";

/// Second component of the configuration directory.
pub const CONFIG_DIR: &'static str = "corerunner";

/// Name of the configuration file in the configuration directory.
pub const CONFIG_FILE: &'static str = "config.json";

/// Where the configuration was kept formerly, relative to the working directory.
pub const LEGACY_CONFIG_FILE: &'static str = "launcher_config.json";

/// The text that stands for the configuration where no file is stored.
pub const DEFAULT_CONFIG_TEXT: &'static str = "{\"proton_root\":\"\",\"games\":[]}";

/// Where the stored configuration lives.
#[derive(Clone, Debug, PartialEq, Eq)]
pub struct ConfigLocation {
    /// The directory to create, with its parents, unless it exists.
    pub dir: String,
    /// The configuration file.
    pub file: String,
}

/// The directory that holds the stored configuration, below `home`.
pub open spec fn config_dir(home: Seq<char>) -> Seq<char> {
    path_join(path_join(home, CONFIG_PARENT@), CONFIG_DIR@)
}

/// Where the stored configuration lives, below `home`.
pub fn config_path(home: &str) -> (location: ConfigLocation)
    ensures
        location.dir@ == config_dir(home@),
        location.file@ == path_join(config_dir(home@), CONFIG_FILE@),
{
    let parent = join(home, CONFIG_PARENT);
    let dir = join(parent.as_str(), CONFIG_DIR);
    let file = join(dir.as_str(), CONFIG_FILE);
    ConfigLocation { dir, file }
}

/// Whether the configuration at the former place is to be copied to the
/// current one: it is there, and the current one is not.
pub fn needs_migration(legacy_exists: bool, current_exists: bool) -> (due: bool)
    ensures
        due == (legacy_exists && !current_exists),
{
    legacy_exists && !current_exists
}

/// The text to read the configuration from: what is stored, or, where nothing
/// is stored, the text of the empty configuration.
pub fn config_text(stored: Option<String>) -> (text: String)
    ensures
        text@ == match stored {
            Some(found) => found@,
            None => DEFAULT_CONFIG_TEXT@,
        },
{
    match stored {
        Some(found) => found,
        None => DEFAULT_CONFIG_TEXT.to_owned(),
    }
}

/// What a load comes to once the stored text was read as a record, or could
/// not be: the record, or the report that the file at `location` is corrupt,
/// with the reason.
pub fn loaded(parsed: Result<AppConfig, String>, location: &str) -> (r: Result<AppConfig, Error>)
    ensures
        match parsed {
            Ok(config) => r == Ok::<AppConfig, Error>(config),
            Err(reason) => r matches Err(e) && e@ == (ErrorView::Corrupt {
                reason: reason@,
                location: location@,
            }),
        },
{
    match parsed {
        Ok(config) => Ok(config),
        Err(reason) => Err(Error::Corrupt { reason, location: location.to_owned() }),
    }
}

/// What a save comes to once the record was turned into text, or could not
/// be: the text to write, or the report of the failure, with the reason.
pub fn serialized(text: Result<String, String>) -> (r: Result<String, Error>)
    ensures
        match text {
            Ok(json) => r == Ok::<String, Error>(json),
            Err(reason) => r matches Err(e) && e@ == (ErrorView::Serialize { reason: reason@ }),
        },
{
    match text {
        Ok(json) => Ok(json),
        Err(reason) => Err(Error::Serialize { reason }),
    }
}

/// What a save comes to once the text was written, or could not be: success,
/// or the report of the failure, with the reason.
pub fn saved(written: Result<(), String>) -> (r: Result<(), Error>)
    ensures
        match written {
            Ok(_) => r is Ok,
            Err(reason) => r matches Err(e) && e@ == (ErrorView::Save { reason: reason@ }),
        },
{
    match written {
        Ok(_) => Ok(()),
        Err(reason) => Err(Error::Save { reason }),
    }
}

} // verus!
