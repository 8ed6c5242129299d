use vstd::prelude::*;

verus! {

/// The four business-rule failures. Each one aborts its operation with no
/// partial effect; none is retried or recovered internally.
#[derive(Clone, Copy, Debug, PartialEq, Eq, Structural)]
pub enum SolquadError {
    /// The project's own flag says it already joined a pool.
    AlreadyAdded,
    /// The pool's project list already holds this owner identity.
    AlreadyAssociatedWithPool,
    /// The project record's address does not match the deterministic
    /// derivation from (owner, pool creator).
    InvalidProjectAddress,
    /// Division or multiplication during distribution is undefined.
    ArithmeticOverflow,
}

impl SolquadError {
    /// The human-readable message surfaced with each failure.
    pub open spec fn message_spec(&self) -> Seq<char> {
        match self {
            SolquadError::AlreadyAdded => "Project is already added to a pool"@,
            SolquadError::AlreadyAssociatedWithPool => "Already associated with a pool"@,
            SolquadError::InvalidProjectAddress => "Project address is invalid"@,
            SolquadError::ArithmeticOverflow => "Arithmetic overflow"@,
        }
    }

    pub fn message(&self) -> (r: &'static str)
        ensures
            r@ == self.message_spec(),
    {
        match self {
            SolquadError::AlreadyAdded => "Project is already added to a pool",
            SolquadError::AlreadyAssociatedWithPool => "Already associated with a pool",
            SolquadError::InvalidProjectAddress => "Project address is invalid",
            SolquadError::ArithmeticOverflow => "Arithmetic overflow",
        }
    }
}

} // verus!
