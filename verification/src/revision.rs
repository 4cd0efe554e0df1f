//! The firmware interface revision and its compatibility gate.
//!
//! The run may only proceed on a revision of at least 2.30; anything older is
//! a fatal incompatibility, not a soft skip.

use vstd::prelude::*;

verus! {

/// A firmware interface revision, as a (major, minor) pair.
///
/// The minor number is scaled by ten, so revision 2.3.1 carries `minor == 31`.
#[derive(Clone, Copy, Debug, PartialEq, Eq, Structural)]
pub struct Revision {
    pub major: u16,
    pub minor: u16,
}

/// The run is only supported on revisions with `major >= 2` and `minor >= 30`.
pub open spec fn revision_supported(rev: Revision) -> bool {
    rev.major >= 2 && rev.minor >= 30
}

impl Revision {
    pub fn new(major: u16, minor: u16) -> (r: Revision)
        ensures
            r == (Revision { major, minor }),
    {
        Revision { major, minor }
    }
}

/// Decides whether the run may proceed on the given revision.
///
/// Returns `true` exactly on the supported revisions; on `false` the caller
/// must abort the run before any test stage executes.
pub fn check_revision(rev: Revision) -> (ok: bool)
    ensures
        ok == revision_supported(rev),
{
    rev.major >= 2 && rev.minor >= 30
}

} // verus!
