//! The trust oracle's verdict on a single file, and the mapping from the
//! oracle's raw status code to that closed verdict type.

use vstd::prelude::*;

verus! {

/// Status code with which the trust oracle reports a valid, trusted
/// signature chain.
pub const STATUS_SUCCESS: u32 = 0;

/// Status code with which the trust oracle reports that the file carries
/// no signature at all.
pub const STATUS_NO_SIGNATURE: u32 = 0x800B_0100;

/// What the trust oracle said about one file.
#[derive(Clone, Copy, PartialEq, Eq, Structural, Debug)]
pub enum VerificationOutcome {
    /// The oracle confirmed a valid, trusted signature chain.
    Trusted,
    /// The oracle explicitly reported "no signature present".
    Unsigned,
    /// Any other oracle status (revoked, untrusted root, malformed, an
    /// oracle-internal fault); the code is kept opaquely for diagnostics.
    Failed(u32),
}

/// The verdict that a raw oracle status code stands for.
pub open spec fn outcome_of_status(status: u32) -> VerificationOutcome {
    if status == STATUS_SUCCESS {
        VerificationOutcome::Trusted
    } else if status == STATUS_NO_SIGNATURE {
        VerificationOutcome::Unsigned
    } else {
        VerificationOutcome::Failed(status)
    }
}

/// Maps the oracle's raw status code into the closed verdict type: the
/// success sentinel means `Trusted`, the no-signature sentinel means
/// `Unsigned`, and every other code is kept opaquely as `Failed`.
pub fn classify_status(status: u32) -> (r: VerificationOutcome)
    ensures
        r == outcome_of_status(status),
{
    if status == STATUS_SUCCESS {
        VerificationOutcome::Trusted
    } else if status == STATUS_NO_SIGNATURE {
        VerificationOutcome::Unsigned
    } else {
        VerificationOutcome::Failed(status)
    }
}

} // verus!
