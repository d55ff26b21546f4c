use vstd::prelude::*;

use crate::constants::{Pubkey, SchoolType};
use crate::error::{InitSchoolError, SchoolError};
use crate::state::school::{School, SchoolView};
use crate::utils::str_eq;

verus! {

/// The verdict of parsing a school-type string: a case-sensitive exact
/// match against the three kind names, anything else refused.
pub open spec fn parse_school_type_spec(s: Seq<char>) -> Result<SchoolType, SchoolError> {
    if s == "HighSchool"@ {
        Ok(SchoolType::HighSchool)
    } else if s == "College"@ {
        Ok(SchoolType::College)
    } else if s == "University"@ {
        Ok(SchoolType::University)
    } else {
        Err(SchoolError::InvalidSchoolType)
    }
}

/// Parse a school-type string into its kind, exactly as
/// [`parse_school_type_spec`] says.
pub fn parse_school_type(school_type: &str) -> (r: Result<SchoolType, SchoolError>)
    ensures
        r == parse_school_type_spec(school_type@),
{
    if str_eq(school_type, "HighSchool") {
        Ok(SchoolType::HighSchool)
    } else if str_eq(school_type, "College") {
        Ok(SchoolType::College)
    } else if str_eq(school_type, "University") {
        Ok(SchoolType::University)
    } else {
        Err(SchoolError::InvalidSchoolType)
    }
}

/// Register a school for `authority`: parse the school type, validate the
/// pricing tier, and populate a fresh record with counters at zero. The
/// school-type string is judged first, then the multiplier.
pub fn initialize_school(
    authority: Pubkey,
    enrollment_fee: u64,
    name: String,
    school_type: String,
    fee_multiplier: u64,
    bump: u8,
) -> (r: Result<School, InitSchoolError>)
    ensures
        parse_school_type_spec(school_type@) is Err ==> r == Err::<School, InitSchoolError>(
            InitSchoolError::InvalidSchoolType,
        ),
        parse_school_type_spec(school_type@) is Ok && fee_multiplier == 0 ==> r == Err::<
            School,
            InitSchoolError,
        >(InitSchoolError::InvalidArgument),
        parse_school_type_spec(school_type@) is Ok && fee_multiplier != 0 ==> r is Ok && (
        r->Ok_0)@ == (SchoolView {
            name: name@,
            authority,
            base_enrollment_fee: enrollment_fee,
            class_count: 0u64,
            book_count: 0u64,
            student_count: 0u64,
            school_type: parse_school_type_spec(school_type@)->Ok_0,
            fee_multiplier,
            bump,
        }) && (r->Ok_0).wf(),
{
    let school_type = match parse_school_type(school_type.as_str()) {
        Ok(t) => t,
        Err(_) => {
            return Err(InitSchoolError::InvalidSchoolType);
        },
    };
    if fee_multiplier == 0 {
        return Err(InitSchoolError::InvalidArgument);
    }
    let mut school = School::new(authority, enrollment_fee, fee_multiplier, name, school_type);
    school.set_bump(bump);
    Ok(school)
}

} // verus!
