use vstd::prelude::*;

verus! {

/// Every way a governance decree can be rejected. Each variant is returned on
/// exactly the inputs its processor contract states; nothing is swallowed.
#[derive(Clone, Copy, Debug, PartialEq, Eq, Structural)]
pub enum GovernanceError {
    /// The envelope bytes do not parse as a governance envelope at all.
    MalformedEnvelope,
    /// The envelope parses but is not from the recognized governance family
    /// (wrong emitter chain, emitter address, or module header).
    NotAGovernanceMessage,
    /// The payload is a governance action other than a contract upgrade.
    InvalidGovernanceAction,
    /// The decree targets a deployment other than this one.
    GovernanceForAnotherChain,
    /// The decree's code reference differs from the caller-supplied target.
    ImplementationMismatch,
    /// The envelope's fingerprint was already recorded as consumed.
    AlreadyConsumed,
}

} // verus!
