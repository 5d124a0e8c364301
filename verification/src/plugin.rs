//! Plugin descriptors: named capability units with a fallible,
//! zero-argument initialization routine.

use vstd::prelude::*;

verus! {

/// What a plugin's initialization routine produces when invoked: success,
/// or an error description suitable for a fatal log line.
pub type InitOutcome = Result<(), String>;

/// What the setup callback produces when invoked with the runtime context.
pub type SetupOutcome = Result<(), String>;

/// A named capability unit. `init` is the outcome its initialization
/// routine yields when the runner invokes it; the host that owns the real
/// capability supplies it. Names need not be unique: the builder performs
/// no validation, and the runner identifies plugins by position.
pub struct PluginDescriptor {
    pub name: String,
    pub init: InitOutcome,
}

impl PluginDescriptor {
    pub fn new(name: String, init: InitOutcome) -> (p: PluginDescriptor)
        ensures
            p.name == name,
            p.init == init,
    {
        PluginDescriptor { name, init }
    }
}

} // verus!
