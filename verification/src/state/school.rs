use vstd::prelude::*;

use crate::constants::{Pubkey, SchoolType};
use crate::error::ProgramError;

verus! {

/// Scale from the human-readable fee unit to the smallest on-ledger unit.
pub const FEE_UNIT_SCALE: u64 = 1_000_000;

/// An institution registered by one authority. Counters only grow, each
/// increment is overflow-checked, and the fee multiplier is never zero
/// once the school is initialized.
pub struct School {
    name: String,
    authority: Pubkey,
    base_enrollment_fee: u64,
    class_count: u64,
    book_count: u64,
    student_count: u64,
    school_type: SchoolType,
    fee_multiplier: u64,
    bump: u8,
}

/// The mathematical value of a [`School`].
pub struct SchoolView {
    pub name: Seq<char>,
    pub authority: Pubkey,
    pub base_enrollment_fee: u64,
    pub class_count: u64,
    pub book_count: u64,
    pub student_count: u64,
    pub school_type: SchoolType,
    pub fee_multiplier: u64,
    pub bump: u8,
}

impl View for School {
    type V = SchoolView;

    closed spec fn view(&self) -> SchoolView {
        SchoolView {
            name: self.name@,
            authority: self.authority,
            base_enrollment_fee: self.base_enrollment_fee,
            class_count: self.class_count,
            book_count: self.book_count,
            student_count: self.student_count,
            school_type: self.school_type,
            fee_multiplier: self.fee_multiplier,
            bump: self.bump,
        }
    }
}

/// The enrollment fee in the smallest unit: the base fee scaled to
/// fixed point, then priced by the tier multiplier.
pub open spec fn fee_total(base: u64, multiplier: u64) -> int {
    base * FEE_UNIT_SCALE * multiplier
}

impl School {
    /// The school's invariant: the pricing tier is never zero.
    pub open spec fn wf(self) -> bool {
        self@.fee_multiplier != 0
    }

    /// A freshly registered school: the given attributes, counters at zero.
    pub fn new(
        authority: Pubkey,
        base_enrollment_fee: u64,
        fee_multiplier: u64,
        name: String,
        school_type: SchoolType,
    ) -> (school: School)
        requires
            fee_multiplier != 0,
        ensures
            school@ == (SchoolView {
                name: name@,
                authority,
                base_enrollment_fee,
                class_count: 0u64,
                book_count: 0u64,
                student_count: 0u64,
                school_type,
                fee_multiplier,
                bump: 0u8,
            }),
            school.wf(),
    {
        School {
            authority,
            base_enrollment_fee,
            fee_multiplier,
            name,
            school_type,
            class_count: 0,
            book_count: 0,
            student_count: 0,
            bump: 0,
        }
    }

    /// Reassign the school's kind.
    pub fn set_school_type(&mut self, school_type: SchoolType)
        ensures
            final(self)@ == (SchoolView { school_type, ..old(self)@ }),
    {
        self.school_type = school_type
    }

    /// The school's kind.
    pub fn get_school_type(&self) -> (t: SchoolType)
        ensures
            t == self@.school_type,
    {
        self.school_type
    }

    /// The authority that controls the school.
    pub fn get_authority(&self) -> (a: Pubkey)
        ensures
            a == self@.authority,
    {
        self.authority
    }

    /// The base enrollment fee, in the human-readable unit.
    pub fn get_enrollment_fee(&self) -> (fee: u64)
        ensures
            fee == self@.base_enrollment_fee,
    {
        self.base_enrollment_fee
    }

    /// The pricing-tier multiplier.
    pub fn get_fee_multiplier(&self) -> (m: u64)
        ensures
            m == self@.fee_multiplier,
    {
        self.fee_multiplier
    }

    /// How many classes the school has opened.
    pub fn class_count(&self) -> (n: u64)
        ensures
            n == self@.class_count,
    {
        self.class_count
    }

    /// How many books the school has registered.
    pub fn book_count(&self) -> (n: u64)
        ensures
            n == self@.book_count,
    {
        self.book_count
    }

    /// How many students the school has enrolled.
    pub fn student_count(&self) -> (n: u64)
        ensures
            n == self@.student_count,
    {
        self.student_count
    }

    /// Count one more class. The only mutation path for the counter: it
    /// grows by exactly one, or the call fails and nothing changes.
    pub fn increment_class_count(&mut self) -> (r: Result<(), ProgramError>)
        ensures
            old(self)@.class_count < u64::MAX ==> r == Ok::<(), ProgramError>(()) && final(self)@
                == (SchoolView { class_count: (old(self)@.class_count + 1) as u64, ..old(self)@ }),
            old(self)@.class_count == u64::MAX ==> r == Err::<(), ProgramError>(
                ProgramError::ArithmeticOverflow,
            ) && final(self)@ == old(self)@,
    {
        match self.class_count.checked_add(1) {
            Some(n) => {
                self.class_count = n;
                Ok(())
            },
            None => Err(ProgramError::ArithmeticOverflow),
        }
    }

    /// Count one more book; grows by one or fails unchanged.
    pub fn increment_book_count(&mut self) -> (r: Result<(), ProgramError>)
        ensures
            old(self)@.book_count < u64::MAX ==> r == Ok::<(), ProgramError>(()) && final(self)@
                == (SchoolView { book_count: (old(self)@.book_count + 1) as u64, ..old(self)@ }),
            old(self)@.book_count == u64::MAX ==> r == Err::<(), ProgramError>(
                ProgramError::ArithmeticOverflow,
            ) && final(self)@ == old(self)@,
    {
        match self.book_count.checked_add(1) {
            Some(n) => {
                self.book_count = n;
                Ok(())
            },
            None => Err(ProgramError::ArithmeticOverflow),
        }
    }

    /// Count one more student; grows by one or fails unchanged.
    pub fn increment_student_count(&mut self) -> (r: Result<(), ProgramError>)
        ensures
            old(self)@.student_count < u64::MAX ==> r == Ok::<(), ProgramError>(())
                && final(self)@ == (SchoolView {
                student_count: (old(self)@.student_count + 1) as u64,
                ..old(self)@
            }),
            old(self)@.student_count == u64::MAX ==> r == Err::<(), ProgramError>(
                ProgramError::ArithmeticOverflow,
            ) && final(self)@ == old(self)@,
    {
        match self.student_count.checked_add(1) {
            Some(n) => {
                self.student_count = n;
                Ok(())
            },
            None => Err(ProgramError::ArithmeticOverflow),
        }
    }

    /// Store a new base enrollment fee.
    pub fn set_enrollment_fee(&mut self, new_fee: u64)
        ensures
            final(self)@ == (SchoolView { base_enrollment_fee: new_fee, ..old(self)@ }),
    {
        self.base_enrollment_fee = new_fee;
    }

    /// Hand the school to a new authority.
    pub fn set_authority(&mut self, new_authority: Pubkey)
        ensures
            final(self)@ == (SchoolView { authority: new_authority, ..old(self)@ }),
    {
        self.authority = new_authority
    }

    /// Store a new pricing tier. A zero multiplier would break the
    /// school's invariant and is refused with `InvalidArgument`.
    pub fn set_fee_multiplier(&mut self, new_multiplier: u64) -> (r: Result<(), ProgramError>)
        ensures
            new_multiplier != 0 ==> r == Ok::<(), ProgramError>(()) && final(self)@ == (SchoolView {
                fee_multiplier: new_multiplier,
                ..old(self)@
            }) && final(self).wf(),
            new_multiplier == 0 ==> r == Err::<(), ProgramError>(ProgramError::InvalidArgument)
                && final(self)@ == old(self)@,
    {
        if new_multiplier == 0 {
            return Err(ProgramError::InvalidArgument);
        }
        self.fee_multiplier = new_multiplier;
        Ok(())
    }

    /// The school's name.
    pub fn get_name(&self) -> (name: &str)
        ensures
            name@ == self@.name,
    {
        self.name.as_str()
    }

    /// Store a new name.
    pub fn set_name(&mut self, name: String)
        ensures
            final(self)@ == (SchoolView { name: name@, ..old(self)@ }),
    {
        self.name = name
    }

    /// The enrollment fee owed for this school, in the smallest unit:
    /// `base_enrollment_fee * FEE_UNIT_SCALE * fee_multiplier`, where each
    /// of the two scaling steps fails with `ArithmeticOverflow` rather
    /// than wrap.
    pub fn calculate_enrollment_fees(&self) -> (r: Result<u64, ProgramError>)
        ensures
            self@.base_enrollment_fee * FEE_UNIT_SCALE <= u64::MAX && fee_total(
                self@.base_enrollment_fee,
                self@.fee_multiplier,
            ) <= u64::MAX ==> r == Ok::<u64, ProgramError>(
                fee_total(self@.base_enrollment_fee, self@.fee_multiplier) as u64,
            ),
            self@.base_enrollment_fee * FEE_UNIT_SCALE > u64::MAX || fee_total(
                self@.base_enrollment_fee,
                self@.fee_multiplier,
            ) > u64::MAX ==> r == Err::<u64, ProgramError>(ProgramError::ArithmeticOverflow),
    {
        let fee_in_smallest_unit = match self.base_enrollment_fee.checked_mul(FEE_UNIT_SCALE) {
            Some(v) => v,
            None => {
                return Err(ProgramError::ArithmeticOverflow);
            },
        };
        match fee_in_smallest_unit.checked_mul(self.fee_multiplier) {
            Some(v) => Ok(v),
            None => Err(ProgramError::ArithmeticOverflow),
        }
    }

    /// Derivation salt of the school's address.
    pub fn get_bump(&self) -> (b: u8)
        ensures
            b == self@.bump,
    {
        self.bump
    }

    /// Store the derivation salt of the school's address.
    pub fn set_bump(&mut self, bump: u8)
        ensures
            final(self)@ == (SchoolView { bump, ..old(self)@ }),
    {
        self.bump = bump
    }
}

} // verus!
