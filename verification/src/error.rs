//! The failures that the library reports.

use vstd::prelude::*;

verus! {

/// One of the three entries that every configuration document must hold.
#[derive(Debug, Clone, Copy, PartialEq, Eq, Structural)]
pub enum Field {
    /// `"name"`: the display name of the module.
    Name,
    /// `"cmd"`: the executable to invoke.
    Cmd,
    /// `"args"`: the arguments handed to the executable.
    Args,
}

/// Why a configuration document was turned down.
#[derive(Debug, Clone, Copy, PartialEq, Eq, Structural)]
pub enum ConfigFault {
    /// The text is not a JSON object.
    Malformed,
    /// The object lacks a required entry.
    Missing(Field),
    /// The entry is there but holds a value of the wrong shape.
    Invalid(Field),
}

/// Everything that can go wrong while loading or supervising modules.
#[derive(Debug, Clone, Copy, PartialEq, Eq, Structural)]
pub enum DockrError {
    /// A configuration document could not be understood.
    ConfigParse(ConfigFault),
    /// The operating system could not create the process.
    Spawn,
    /// Waiting for a process, or polling its status, failed.
    Wait,
    /// Killing a process failed.
    Kill,
    /// A directory could not be read during discovery.
    DiscoveryIo,
}

/// The outcome of a lifecycle operation.
pub type DockrResult = Result<(), DockrError>;

} // verus!
