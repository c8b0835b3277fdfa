use vstd::prelude::*;

verus! {

/// The role whose authorization a caller lacked.
#[derive(Debug, Clone, Copy, PartialEq, Eq, Structural)]
pub enum Role {
    Admin,
    Service,
}

/// Why an operation was refused. A refused operation changes nothing.
#[derive(Debug, Clone, Copy, PartialEq, Eq, Structural)]
pub enum WhitelistError {
    /// The caller does not hold the given role.
    Unauthorized(Role),
    /// The caller already has a pending application.
    DuplicateRegistration,
    /// The caller is already whitelisted.
    AlreadyWhitelisted,
    /// The account has no pending application.
    UnknownApplicant,
}

} // verus!
