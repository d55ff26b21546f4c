use vstd::prelude::*;

verus! {

/// Errors raised while validating credential attributes or by the
/// per-authority mint rate limiter.
#[derive(Clone, Copy, Debug, PartialEq, Eq, Structural)]
pub enum NFTError {
    /// An attribute (name, symbol or URI) was empty.
    EmptyAttribute,
    /// The name attribute exceeds `MAX_NAME_LENGTH` characters.
    InvalidNameLength,
    /// The symbol attribute exceeds `MAX_SYMBOL_LENGTH` characters.
    InvalidSymbolLength,
    /// The URI does not begin with the secure-transport prefix.
    InvalidURI,
    /// The authority exhausted its mints for the current window.
    RateLimitExceeded,
}

/// Errors raised while registering a school.
#[derive(Clone, Copy, Debug, PartialEq, Eq, Structural)]
pub enum SchoolError {
    /// The school-type string matched none of the known kinds.
    InvalidSchoolType,
}

/// Errors raised while registering a course.
#[derive(Clone, Copy, Debug, PartialEq, Eq, Structural)]
pub enum CourseError {
    /// The course name was empty or too long.
    InvalidName,
}

/// Arithmetic and argument errors raised by the entity mutators.
#[derive(Clone, Copy, Debug, PartialEq, Eq, Structural)]
pub enum ProgramError {
    /// A counter or fee computation would have wrapped.
    ArithmeticOverflow,
    /// A mutator was handed a value its invariant rejects.
    InvalidArgument,
}

/// Failure reported by the external token-ledger service.
#[derive(Clone, Copy, Debug, PartialEq, Eq, Structural)]
pub struct LedgerError;

/// Failure reported by the external metadata service.
#[derive(Clone, Copy, Debug, PartialEq, Eq, Structural)]
pub struct MetadataError;

/// Errors surfaced while initializing a school.
#[derive(Clone, Copy, Debug, PartialEq, Eq, Structural)]
pub enum InitSchoolError {
    /// The school-type string matched none of the known kinds.
    InvalidSchoolType,
    /// The fee multiplier was zero.
    InvalidArgument,
}

/// Why a credential-minting request failed.
#[derive(Clone, Copy, Debug, PartialEq, Eq, Structural)]
pub enum MintError {
    /// Rejected before any external call: attribute validation or rate limiting.
    Rejected(NFTError),
    /// The token-ledger service failed to issue the token.
    Ledger(LedgerError),
    /// The metadata service failed, on the metadata record or the master edition.
    Metadata(MetadataError),
}

} // verus!
