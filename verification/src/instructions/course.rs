use vstd::prelude::*;

use crate::constants::{Pubkey, MAX_NAME_LENGTH};
use crate::error::CourseError;
use crate::state::course::{Course, CourseView};

verus! {

/// A course name is accepted when it is non-empty and fits the bound.
pub open spec fn course_name_ok(name: Seq<char>) -> bool {
    0 < name.len() <= MAX_NAME_LENGTH
}

/// Register a course under a school: validate the name and populate a
/// fresh record with no students enrolled yet.
pub fn initialize_course(
    name: String,
    nft_mint: Pubkey,
    capacity: u32,
    tuition_fee: u64,
    school: Pubkey,
    authority: Pubkey,
    nft_token_account: Pubkey,
    bump: u8,
) -> (r: Result<Course, CourseError>)
    ensures
        course_name_ok(name@) ==> r is Ok && (r->Ok_0)@ == (CourseView {
            name: name@,
            nft_mint,
            nft_token_account,
            capacity,
            enrolled_students_count: 0u32,
            tuition_fee,
            school,
            authority,
            bump,
        }) && (r->Ok_0).wf(),
        !course_name_ok(name@) ==> r == Err::<Course, CourseError>(CourseError::InvalidName),
{
    let len = name.as_str().unicode_len();
    if len == 0 || len > MAX_NAME_LENGTH {
        return Err(CourseError::InvalidName);
    }
    Ok(
        Course::new(
            name,
            nft_mint,
            capacity,
            0,
            tuition_fee,
            school,
            authority,
            nft_token_account,
            bump,
        ),
    )
}

} // verus!
