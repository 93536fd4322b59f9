//! What can go wrong at the boundary, and the text shown for it.

use vstd::prelude::*;

verus! {

/// The three families of failure.
#[derive(Clone, Copy, Debug, PartialEq, Eq, Structural)]
pub enum ErrorKind {
    /// A path that a launch needs is not there; nothing was spawned.
    Validation,
    /// The operating system refused to create the process.
    Spawn,
    /// The stored configuration could not be written or read, or a tool that
    /// an operation needs is not installed.
    Config,
}

/// A failure of one of the operations offered to the front end.
#[derive(Clone, Debug, PartialEq, Eq)]
pub enum Error {
    /// The runtime of the launch descriptor does not exist.
    RuntimeMissing { path: String },
    /// The target executable of the launch descriptor does not exist.
    ExecutableMissing { path: String },
    /// The process could not be created; `reason` is what the system said.
    Spawn { reason: String },
    /// The prefix tool is not on the search path.
    ToolMissing,
    /// The configuration could not be turned into text.
    Serialize { reason: String },
    /// The configuration text could not be written.
    Save { reason: String },
    /// The stored configuration at `location` could not be understood.
    Corrupt { reason: String, location: String },
}

/// An `Error` as contracts see it.
pub enum ErrorView {
    RuntimeMissing { path: Seq<char> },
    ExecutableMissing { path: Seq<char> },
    Spawn { reason: Seq<char> },
    ToolMissing,
    Serialize { reason: Seq<char> },
    Save { reason: Seq<char> },
    Corrupt { reason: Seq<char>, location: Seq<char> },
}

impl View for Error {
    type V = ErrorView;

    open spec fn view(&self) -> ErrorView {
        match self {
            Error::RuntimeMissing { path } => ErrorView::RuntimeMissing { path: path@ },
            Error::ExecutableMissing { path } => ErrorView::ExecutableMissing { path: path@ },
            Error::Spawn { reason } => ErrorView::Spawn { reason: reason@ },
            Error::ToolMissing => ErrorView::ToolMissing,
            Error::Serialize { reason } => ErrorView::Serialize { reason: reason@ },
            Error::Save { reason } => ErrorView::Save { reason: reason@ },
            Error::Corrupt { reason, location } => ErrorView::Corrupt {
                reason: reason@,
                location: location@,
            },
        }
    }
}

/// Before the path of a runtime that is missing.
pub const RUNTIME_MISSING_TEXT: &'static str = "Proton tidak ditemukan: ";

/// Before the path of an executable that is missing.
pub const EXECUTABLE_MISSING_TEXT: &'static str = "File EXE tidak ditemukan: ";

/// Before the reason for which a process could not be created.
pub const SPAWN_TEXT: &'static str = "Gagal start game. Error: ";

/// Shown when the prefix tool is not installed.
pub const TOOL_MISSING_TEXT: &'static str =
    "winetricks tidak terinstall.\nInstall: sudo pacman -S winetricks\natau: sudo apt install winetricks";

/// Before the reason for which the configuration could not be turned into text.
pub const SERIALIZE_TEXT: &'static str = "Gagal serialize config: ";

/// Before the reason for which the configuration could not be written.
pub const SAVE_TEXT: &'static str = "Gagal simpan config: ";

/// Before the reason for which the stored configuration could not be understood.
pub const CORRUPT_TEXT: &'static str = "Config corrupt: ";

/// Between that reason and the place of the file to delete.
pub const CORRUPT_ADVICE_TEXT: &'static str = ". Reset dengan hapus ";

/// The family that `e` belongs to.
pub open spec fn kind_of(e: ErrorView) -> ErrorKind {
    match e {
        ErrorView::RuntimeMissing { .. } | ErrorView::ExecutableMissing { .. } => {
            ErrorKind::Validation
        },
        ErrorView::Spawn { .. } => ErrorKind::Spawn,
        _ => ErrorKind::Config,
    }
}

/// The text shown for `e`.
pub open spec fn text_of(e: ErrorView) -> Seq<char> {
    match e {
        ErrorView::RuntimeMissing { path } => RUNTIME_MISSING_TEXT@ + path,
        ErrorView::ExecutableMissing { path } => EXECUTABLE_MISSING_TEXT@ + path,
        ErrorView::Spawn { reason } => SPAWN_TEXT@ + reason,
        ErrorView::ToolMissing => TOOL_MISSING_TEXT@,
        ErrorView::Serialize { reason } => SERIALIZE_TEXT@ + reason,
        ErrorView::Save { reason } => SAVE_TEXT@ + reason,
        ErrorView::Corrupt { reason, location } => CORRUPT_TEXT@ + reason + CORRUPT_ADVICE_TEXT@
            + location,
    }
}

/// `head` followed by `tail`.
pub fn joined(head: &str, tail: &str) -> (out: String)
    ensures
        out@ == head@ + tail@,
{
    let mut out = head.to_owned();
    out.append(tail);
    out
}

impl Error {
    /// The family this failure belongs to.
    pub fn kind(&self) -> (kind: ErrorKind)
        ensures
            kind == kind_of(self@),
    {
        match self {
            Error::RuntimeMissing { .. } | Error::ExecutableMissing { .. } => ErrorKind::Validation,
            Error::Spawn { .. } => ErrorKind::Spawn,
            _ => ErrorKind::Config,
        }
    }

    /// The text to show for this failure.
    pub fn message(&self) -> (text: String)
        ensures
            text@ == text_of(self@),
    {
        match self {
            Error::RuntimeMissing { path } => joined(RUNTIME_MISSING_TEXT, path.as_str()),
            Error::ExecutableMissing { path } => joined(EXECUTABLE_MISSING_TEXT, path.as_str()),
            Error::Spawn { reason } => joined(SPAWN_TEXT, reason.as_str()),
            Error::ToolMissing => TOOL_MISSING_TEXT.to_owned(),
            Error::Serialize { reason } => joined(SERIALIZE_TEXT, reason.as_str()),
            Error::Save { reason } => joined(SAVE_TEXT, reason.as_str()),
            Error::Corrupt { reason, location } => {
                let mut text = joined(CORRUPT_TEXT, reason.as_str());
                text.append(CORRUPT_ADVICE_TEXT);
                text.append(location.as_str());
                text
            },
        }
    }
}

} // verus!
