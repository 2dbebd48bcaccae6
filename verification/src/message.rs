//! The protocol message built for each command.

use vstd::prelude::*;

verus! {

/// One message transmitted to the server.  Client-issued commands always
/// carry the identifier `-1` (replies are never read, so no correlation id
/// is needed) and the fixed client tag `"WebRcon"`; only `message` varies.
#[derive(Debug)]
pub struct Package {
    pub identifier: i32,
    pub message: String,
    pub name: String,
}

impl Package {
    /// The invariant of every message this client builds.
    pub open spec fn wf(self) -> bool {
        &&& self.identifier == -1
        &&& self.name@ == "WebRcon"@
    }

    /// Builds the message for one raw command string.  Pure: the command
    /// text is taken verbatim, with no trimming or escaping.
    pub fn new_command(command: String) -> (p: Package)
        ensures
            p.identifier == -1,
            p.message@ == command@,
            p.name@ == "WebRcon"@,
            p.wf(),
    {
        Package { identifier: -1, message: command, name: String::from_str("WebRcon") }
    }
}

} // verus!
