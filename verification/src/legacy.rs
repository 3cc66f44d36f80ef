//! Data shapes of an earlier configuration format, kept so stored records in
//! that format can still be read and carried forward.

use vstd::prelude::*;

verus! {

/// A semantic version of a built artifact.
#[derive(Clone, Debug, PartialEq)]
pub struct Version {
    /// Major component.
    pub major: i32,
    /// Minor component.
    pub minor: i32,
    /// Patch component.
    pub patch: i32,
}

impl Default for Version {
    /// The zero version.
    fn default() -> (r: Self)
        ensures
            r.major == 0 && r.minor == 0 && r.patch == 0,
    {
        Version { major: 0, minor: 0, patch: 0 }
    }
}

/// A command run from a working directory.
#[derive(Clone, Debug, PartialEq, Eq)]
pub struct SystemCommand {
    /// Directory the command runs in.
    pub path: String,
    /// The command line itself.
    pub command: String,
}

impl Default for SystemCommand {
    /// Empty path and command.
    fn default() -> (r: Self)
        ensures
            r.path@ == Seq::<char>::empty() && r.command@ == Seq::<char>::empty(),
    {
        SystemCommand { path: String::new(), command: String::new() }
    }
}

/// One environment variable handed to a build or deployment.
#[derive(Clone, Debug, PartialEq)]
pub struct EnvironmentVar {
    /// Name of the variable.
    pub variable: String,
    /// Its value.
    pub value: String,
}

impl Default for EnvironmentVar {
    /// Empty name and value.
    fn default() -> (r: Self)
        ensures
            r.variable@ == Seq::<char>::empty() && r.value@ == Seq::<char>::empty(),
    {
        EnvironmentVar { variable: String::new(), value: String::new() }
    }
}

} // verus!
