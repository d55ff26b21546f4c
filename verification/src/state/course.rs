use vstd::prelude::*;

use crate::constants::Pubkey;
use crate::error::ProgramError;

verus! {

/// A course offered by one school. Many courses may point at the same
/// school; the school does not track them back. A course never enrolls
/// more students than its capacity admits.
pub struct Course {
    name: String,
    nft_mint: Pubkey,
    nft_token_account: Pubkey,
    capacity: u32,
    enrolled_students_count: u32,
    tuition_fee: u64,
    school: Pubkey,
    authority: Pubkey,
    bump: u8,
}

/// The mathematical value of a [`Course`].
pub struct CourseView {
    pub name: Seq<char>,
    pub nft_mint: Pubkey,
    pub nft_token_account: Pubkey,
    pub capacity: u32,
    pub enrolled_students_count: u32,
    pub tuition_fee: u64,
    pub school: Pubkey,
    pub authority: Pubkey,
    pub bump: u8,
}

impl View for Course {
    type V = CourseView;

    closed spec fn view(&self) -> CourseView {
        CourseView {
            name: self.name@,
            nft_mint: self.nft_mint,
            nft_token_account: self.nft_token_account,
            capacity: self.capacity,
            enrolled_students_count: self.enrolled_students_count,
            tuition_fee: self.tuition_fee,
            school: self.school,
            authority: self.authority,
            bump: self.bump,
        }
    }
}

impl Course {
    /// The course's invariant: enrollment never passes capacity.
    pub open spec fn wf(self) -> bool {
        self@.enrolled_students_count <= self@.capacity
    }

    /// A freshly registered course with the given attributes.
    pub fn new(
        name: String,
        nft_mint: Pubkey,
        capacity: u32,
        enrolled_students_count: u32,
        tuition_fee: u64,
        school: Pubkey,
        authority: Pubkey,
        nft_token_account: Pubkey,
        bump: u8,
    ) -> (course: Course)
        requires
            enrolled_students_count <= capacity,
        ensures
            course@ == (CourseView {
                name: name@,
                nft_mint,
                nft_token_account,
                capacity,
                enrolled_students_count,
                tuition_fee,
                school,
                authority,
                bump,
            }),
            course.wf(),
    {
        Course {
            name,
            nft_mint,
            nft_token_account,
            capacity,
            enrolled_students_count,
            tuition_fee,
            school,
            authority,
            bump,
        }
    }

    /// The course's name.
    pub fn get_name(&self) -> (name: &str)
        ensures
            name@ == self@.name,
    {
        self.name.as_str()
    }

    /// The mint identity of the course's credential token.
    pub fn get_nft_mint(&self) -> (k: Pubkey)
        ensures
            k == self@.nft_mint,
    {
        self.nft_mint
    }

    /// The authority that controls the course.
    pub fn get_authority(&self) -> (k: Pubkey)
        ensures
            k == self@.authority,
    {
        self.authority
    }

    /// How many students the course can hold.
    pub fn get_capacity(&self) -> (n: u32)
        ensures
            n == self@.capacity,
    {
        self.capacity
    }

    /// How many students are enrolled.
    pub fn get_enrolled_students_count(&self) -> (n: u32)
        ensures
            n == self@.enrolled_students_count,
    {
        self.enrolled_students_count
    }

    /// The account that holds the course's credential tokens.
    pub fn get_nft_token_account(&self) -> (k: Pubkey)
        ensures
            k == self@.nft_token_account,
    {
        self.nft_token_account
    }

    /// The school this course belongs to.
    pub fn get_school(&self) -> (k: Pubkey)
        ensures
            k == self@.school,
    {
        self.school
    }

    /// The tuition fee charged per enrollment.
    pub fn get_tution_fee(&self) -> (fee: u64)
        ensures
            fee == self@.tuition_fee,
    {
        self.tuition_fee
    }

    /// Derivation salt of the course's address.
    pub fn get_bump(&self) -> (b: u8)
        ensures
            b == self@.bump,
    {
        self.bump
    }

    /// Store a new name.
    pub fn set_name(&mut self, name: String)
        ensures
            final(self)@ == (CourseView { name: name@, ..old(self)@ }),
    {
        self.name = name
    }

    /// Hand the course to a new authority.
    pub fn set_authority(&mut self, authority: Pubkey)
        ensures
            final(self)@ == (CourseView { authority, ..old(self)@ }),
    {
        self.authority = authority
    }

    /// Store the derivation salt of the course's address.
    pub fn set_bump(&mut self, bump: u8)
        ensures
            final(self)@ == (CourseView { bump, ..old(self)@ }),
    {
        self.bump = bump
    }

    /// Resize the course. A capacity below the current enrollment would
    /// break the course's invariant and is refused with `InvalidArgument`.
    pub fn set_capacity(&mut self, capacity: u32) -> (r: Result<(), ProgramError>)
        ensures
            capacity >= old(self)@.enrolled_students_count ==> r == Ok::<(), ProgramError>(())
                && final(self)@ == (CourseView { capacity, ..old(self)@ }),
            capacity < old(self)@.enrolled_students_count ==> r == Err::<(), ProgramError>(
                ProgramError::InvalidArgument,
            ) && final(self)@ == old(self)@,
    {
        if capacity < self.enrolled_students_count {
            return Err(ProgramError::InvalidArgument);
        }
        self.capacity = capacity;
        Ok(())
    }

    /// Store a new enrollment count. A count above capacity would break
    /// the course's invariant and is refused with `InvalidArgument`.
    pub fn set_enrolled_students_count(&mut self, enrolled_students_count: u32) -> (r: Result<
        (),
        ProgramError,
    >)
        ensures
            enrolled_students_count <= old(self)@.capacity ==> r == Ok::<(), ProgramError>(())
                && final(self)@ == (CourseView { enrolled_students_count, ..old(self)@ }),
            enrolled_students_count > old(self)@.capacity ==> r == Err::<(), ProgramError>(
                ProgramError::InvalidArgument,
            ) && final(self)@ == old(self)@,
    {
        if enrolled_students_count > self.capacity {
            return Err(ProgramError::InvalidArgument);
        }
        self.enrolled_students_count = enrolled_students_count;
        Ok(())
    }

    /// Point the course at a new credential mint.
    pub fn set_nft_mint(&mut self, nft_mint: Pubkey)
        ensures
            final(self)@ == (CourseView { nft_mint, ..old(self)@ }),
    {
        self.nft_mint = nft_mint
    }

    /// Point the course at a new school.
    pub fn set_school(&mut self, school: Pubkey)
        ensures
            final(self)@ == (CourseView { school, ..old(self)@ }),
    {
        self.school = school
    }

    /// Store a new tuition fee.
    pub fn set_tution_fee(&mut self, tuition_fee: u64)
        ensures
            final(self)@ == (CourseView { tuition_fee, ..old(self)@ }),
    {
        self.tuition_fee = tuition_fee
    }
}

} // verus!
