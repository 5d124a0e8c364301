//! Fatal startup errors. Every startup error surfaces at the runner's top
//! level; none is caught and turned into a degraded running state.

use vstd::prelude::*;

verus! {

/// The union of the two ways bootstrap can fail. Always fatal at this
/// layer: the process entry point is expected to terminate with a non-zero
/// status when it sees one.
#[derive(Clone, Debug, PartialEq, Eq)]
pub enum FatalStartupError {
    /// A plugin's initialization routine failed. `plugin` names the failing
    /// plugin; `message` is its error description. Initialization of the
    /// remaining plugins was not attempted.
    PluginInit { plugin: String, message: String },
    /// The setup callback failed before the event loop was reached.
    Setup { message: String },
}

} // verus!
