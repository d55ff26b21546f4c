use vstd::prelude::*;

use crate::constants::{CreateNFTParams, MAX_NAME_LENGTH, MAX_SYMBOL_LENGTH};
use crate::error::{LedgerError, MetadataError, MintError, NFTError};
use crate::state::ratelimit::{rate_limit_step, RateLimit};

verus! {

/// The URI begins with the secure-transport prefix.
pub open spec fn has_secure_prefix(s: Seq<char>) -> bool {
    s.len() >= 5 && s[0] == 'h' && s[1] == 't' && s[2] == 't' && s[3] == 'p' && s[4] == 's'
}

/// The verdict of credential-attribute validation. The checks run in
/// order and the first failure wins: no attribute may be empty, the name
/// and symbol must fit their bounds, and the URI must begin with the
/// secure-transport prefix.
pub open spec fn validate_attributes_spec(
    name: Seq<char>,
    symbol: Seq<char>,
    uri: Seq<char>,
) -> Result<(), NFTError> {
    if name.len() == 0 || symbol.len() == 0 || uri.len() == 0 {
        Err(NFTError::EmptyAttribute)
    } else if name.len() > MAX_NAME_LENGTH {
        Err(NFTError::InvalidNameLength)
    } else if symbol.len() > MAX_SYMBOL_LENGTH {
        Err(NFTError::InvalidSymbolLength)
    } else if !has_secure_prefix(uri) {
        Err(NFTError::InvalidURI)
    } else {
        Ok(())
    }
}

/// Whether `uri` begins with the secure-transport prefix.
fn has_https_prefix(uri: &str) -> (r: bool)
    ensures
        r == has_secure_prefix(uri@),
{
    let n = uri.unicode_len();
    if n < 5 {
        return false;
    }
    uri.get_char(0) == 'h' && uri.get_char(1) == 't' && uri.get_char(2) == 't' && uri.get_char(3)
        == 'p' && uri.get_char(4) == 's'
}

/// Validate a candidate credential record, exactly as
/// [`validate_attributes_spec`] says.
pub fn validate_nft_meta_data_attributes(props: &CreateNFTParams) -> (r: Result<(), NFTError>)
    ensures
        r == validate_attributes_spec(props.name@, props.symbol@, props.uri@),
{
    let name_len = props.name.as_str().unicode_len();
    let symbol_len = props.symbol.as_str().unicode_len();
    let uri_len = props.uri.as_str().unicode_len();
    if name_len == 0 || symbol_len == 0 || uri_len == 0 {
        return Err(NFTError::EmptyAttribute);
    }
    if name_len > MAX_NAME_LENGTH {
        return Err(NFTError::InvalidNameLength);
    }
    if symbol_len > MAX_SYMBOL_LENGTH {
        return Err(NFTError::InvalidSymbolLength);
    }
    if !has_https_prefix(props.uri.as_str()) {
        return Err(NFTError::InvalidURI);
    }
    Ok(())
}

/// Where a credential-minting request stands. A request waits on one
/// external call at a time; a failure anywhere aborts the whole request,
/// and the surrounding transaction discards every partial effect.
#[derive(Clone, Copy, Debug, PartialEq, Eq, Structural)]
pub enum MintStatus {
    /// Validation and rate limiting passed: awaiting the token-ledger
    /// issuance of exactly one unit.
    AwaitLedger,
    /// The token was issued: awaiting the immutable metadata record.
    AwaitMetadata,
    /// The metadata record exists: awaiting the master-edition marker.
    AwaitEdition,
    /// Every step succeeded.
    Completed,
    /// The request aborted; no step after the failing one is attempted.
    Failed(MintError),
}

/// Open a credential-minting request: validate the attributes, then run
/// the rate limiter for the caller's authority. Only when both pass does
/// the request advance to its first external call, so a rejected request
/// never reaches the token ledger or the metadata service. A rejection
/// leaves the rate-limit record exactly as it was.
pub fn handler(rate_limit: &mut RateLimit, now: i64, props: &CreateNFTParams) -> (st: MintStatus)
    ensures
        ({
            let verdict = validate_attributes_spec(props.name@, props.symbol@, props.uri@);
            let gate = rate_limit_step(*old(rate_limit), now);
            match verdict {
                Err(e) => st == MintStatus::Failed(MintError::Rejected(e)) && *final(rate_limit)
                    == *old(rate_limit),
                Ok(_) => match gate.0 {
                    Err(e) => st == MintStatus::Failed(MintError::Rejected(e))
                        && *final(rate_limit) == *old(rate_limit),
                    Ok(_) => st == MintStatus::AwaitLedger && *final(rate_limit) == gate.1,
                },
            }
        }),
{
    match validate_nft_meta_data_attributes(props) {
        Err(e) => {
            return MintStatus::Failed(MintError::Rejected(e));
        },
        Ok(_) => {},
    }
    match rate_limit.check_and_record(now) {
        Err(e) => MintStatus::Failed(MintError::Rejected(e)),
        Ok(_) => MintStatus::AwaitLedger,
    }
}

impl MintStatus {
    /// Feed in the outcome of the token-ledger issuance.
    pub fn on_ledger_result(self, outcome: Result<(), LedgerError>) -> (next: MintStatus)
        requires
            self == MintStatus::AwaitLedger,
        ensures
            outcome is Ok ==> next == MintStatus::AwaitMetadata,
            outcome matches Err(e) ==> next == MintStatus::Failed(MintError::Ledger(e)),
    {
        match outcome {
            Ok(_) => MintStatus::AwaitMetadata,
            Err(e) => MintStatus::Failed(MintError::Ledger(e)),
        }
    }

    /// Feed in the outcome of creating the metadata record.
    pub fn on_metadata_result(self, outcome: Result<(), MetadataError>) -> (next: MintStatus)
        requires
            self == MintStatus::AwaitMetadata,
        ensures
            outcome is Ok ==> next == MintStatus::AwaitEdition,
            outcome matches Err(e) ==> next == MintStatus::Failed(MintError::Metadata(e)),
    {
        match outcome {
            Ok(_) => MintStatus::AwaitEdition,
            Err(e) => MintStatus::Failed(MintError::Metadata(e)),
        }
    }

    /// Feed in the outcome of marking the token as a master edition.
    pub fn on_edition_result(self, outcome: Result<(), MetadataError>) -> (next: MintStatus)
        requires
            self == MintStatus::AwaitEdition,
        ensures
            outcome is Ok ==> next == MintStatus::Completed,
            outcome matches Err(e) ==> next == MintStatus::Failed(MintError::Metadata(e)),
    {
        match outcome {
            Ok(_) => MintStatus::Completed,
            Err(e) => MintStatus::Failed(MintError::Metadata(e)),
        }
    }
}

} // verus!
