//! An institution registry: schools and their courses, each enrollment
//! minting one non-fungible credential token, gated by a per-authority
//! rate limiter and priced by a tiered enrollment-fee calculator.

pub mod constants;
pub mod error;
pub mod instructions;
pub mod state;
pub mod utils;

pub use constants::{CreateNFTParams, Pubkey, SchoolType};
pub use constants::{MAX_NAME_LENGTH, MAX_SYMBOL_LENGTH, RATE_LIMIT_COUNT, RATE_LIMIT_PERIOD};
pub use error::{CourseError, InitSchoolError, LedgerError, MetadataError, MintError, NFTError,
    ProgramError, SchoolError};
pub use state::course::{Course, CourseView};
pub use state::ratelimit::RateLimit;
pub use state::school::{School, SchoolView, FEE_UNIT_SCALE};
pub use instructions::course::initialize_course;
pub use instructions::mintnft::{handler, validate_nft_meta_data_attributes, MintStatus};
pub use instructions::school::{initialize_school, parse_school_type};
