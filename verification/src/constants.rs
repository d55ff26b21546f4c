use vstd::prelude::*;

verus! {

/// The kind of institution an authority can register.
#[derive(Clone, Copy, Debug, PartialEq, Eq, Structural)]
pub enum SchoolType {
    HighSchool,
    College,
    University,
}

/// Attributes attached to a freshly minted credential token.
#[derive(Clone, Debug, PartialEq, Eq)]
pub struct CreateNFTParams {
    pub name: String,
    pub symbol: String,
    pub uri: String,
}

/// An account identity: authorities, token mints, token accounts, schools.
/// The registry never looks inside one; it only stores and compares them.
pub type Pubkey = [u8; 32];

/// Longest accepted credential or school name, in characters.
pub const MAX_NAME_LENGTH: usize = 32;

/// Longest accepted credential symbol, in characters.
pub const MAX_SYMBOL_LENGTH: usize = 10;

/// Width of the mint rate-limit window, in seconds.
pub const RATE_LIMIT_PERIOD: i64 = 3600;

/// Most mints one authority may perform inside a single window.
pub const RATE_LIMIT_COUNT: u64 = 5;

} // verus!
