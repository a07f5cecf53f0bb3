//! Startup entries as the startup guard sees them.  Nothing is collected
//! here yet: an entry is a disabled placeholder of unknown source.
use vstd::prelude::*;
use crate::text::owned;

verus! {

#[derive(Debug, Clone, Copy, PartialEq, Eq, Structural)]
pub enum StartupSource {
    Unknown,
    WindowsRegistry,
    StartupFolder,
    SystemdUser,
    DesktopEntry,
}

#[derive(Debug, Clone, PartialEq, Eq)]
pub struct StartupEntry {
    pub name: String,
    pub source: StartupSource,
    pub enabled: bool,
}

impl StartupEntry {
    /// A disabled entry of unknown source with this name.
    pub fn placeholder(name: &str) -> (r: Self)
        ensures
            r.name@ == name@,
            r.source == StartupSource::Unknown,
            !r.enabled,
    {
        StartupEntry { name: owned(name), source: StartupSource::Unknown, enabled: false }
    }
}

} // verus!
