use school::{
    initialize_course, initialize_school, Course, CourseError, InitSchoolError, ProgramError,
    Pubkey, School, SchoolType,
};

fn key(b: u8) -> Pubkey {
    [b; 32]
}

#[test]
fn new_school_starts_with_zero_counters() {
    let s = School::new(key(1), 50, 2, "Riverdale".to_string(), SchoolType::College);
    assert_eq!(s.get_name(), "Riverdale");
    assert_eq!(s.get_authority(), key(1));
    assert_eq!(s.get_enrollment_fee(), 50);
    assert_eq!(s.get_fee_multiplier(), 2);
    assert_eq!(s.get_school_type(), SchoolType::College);
    assert_eq!(s.class_count(), 0);
    assert_eq!(s.book_count(), 0);
    assert_eq!(s.student_count(), 0);
    assert_eq!(s.get_bump(), 0);
}

#[test]
fn increments_grow_by_exactly_one() {
    let mut s = School::new(key(1), 50, 2, "Riverdale".to_string(), SchoolType::College);
    assert_eq!(s.increment_class_count(), Ok(()));
    assert_eq!(s.increment_class_count(), Ok(()));
    assert_eq!(s.increment_book_count(), Ok(()));
    assert_eq!(s.increment_student_count(), Ok(()));
    assert_eq!(s.class_count(), 2);
    assert_eq!(s.book_count(), 1);
    assert_eq!(s.student_count(), 1);
}

#[test]
fn school_setters_round_trip() {
    let mut s = School::new(key(1), 50, 2, "Riverdale".to_string(), SchoolType::College);
    s.set_enrollment_fee(75);
    assert_eq!(s.get_enrollment_fee(), 75);
    s.set_authority(key(9));
    assert_eq!(s.get_authority(), key(9));
    s.set_school_type(SchoolType::University);
    assert_eq!(s.get_school_type(), SchoolType::University);
    s.set_name("Shelbyville".to_string());
    assert_eq!(s.get_name(), "Shelbyville");
    s.set_bump(11);
    assert_eq!(s.get_bump(), 11);
}

#[test]
fn zero_fee_multiplier_is_refused() {
    let mut s = School::new(key(1), 50, 2, "Riverdale".to_string(), SchoolType::College);
    assert_eq!(s.set_fee_multiplier(0), Err(ProgramError::InvalidArgument));
    assert_eq!(s.get_fee_multiplier(), 2);
    assert_eq!(s.set_fee_multiplier(4), Ok(()));
    assert_eq!(s.get_fee_multiplier(), 4);
}

#[test]
fn fee_is_the_exact_scaled_product() {
    let s = School::new(key(1), 1, 1, "Riverdale".to_string(), SchoolType::HighSchool);
    assert_eq!(s.calculate_enrollment_fees(), Ok(1_000_000));
}

#[test]
fn fee_overflow_fails_on_the_first_scaling_step() {
    let s = School::new(key(1), u64::MAX, 2, "Riverdale".to_string(), SchoolType::HighSchool);
    assert_eq!(
        s.calculate_enrollment_fees(),
        Err(ProgramError::ArithmeticOverflow)
    );
}

#[test]
fn fee_overflow_fails_on_the_multiplier_step() {
    let s = School::new(key(1), 1000, u64::MAX, "Riverdale".to_string(), SchoolType::HighSchool);
    assert_eq!(
        s.calculate_enrollment_fees(),
        Err(ProgramError::ArithmeticOverflow)
    );
}

#[test]
fn initialize_school_populates_the_record() {
    let s = initialize_school(
        key(2),
        10,
        "Springfield High".to_string(),
        "HighSchool".to_string(),
        3,
        254,
    )
    .unwrap();
    assert_eq!(s.get_authority(), key(2));
    assert_eq!(s.get_enrollment_fee(), 10);
    assert_eq!(s.get_school_type(), SchoolType::HighSchool);
    assert_eq!(s.get_fee_multiplier(), 3);
    assert_eq!(s.get_name(), "Springfield High");
    assert_eq!(s.get_bump(), 254);
    assert_eq!(s.calculate_enrollment_fees(), Ok(30_000_000));
}

#[test]
fn initialize_school_refuses_unknown_type() {
    let r = initialize_school(
        key(2),
        10,
        "Springfield High".to_string(),
        "Academy".to_string(),
        3,
        254,
    );
    assert!(matches!(r, Err(InitSchoolError::InvalidSchoolType)));
}

#[test]
fn initialize_school_refuses_zero_multiplier() {
    let r = initialize_school(
        key(2),
        10,
        "Springfield High".to_string(),
        "College".to_string(),
        0,
        254,
    );
    assert!(matches!(r, Err(InitSchoolError::InvalidArgument)));
}

#[test]
fn new_course_keeps_its_attributes() {
    let c = Course::new(
        "Algebra".to_string(),
        key(3),
        30,
        5,
        1200,
        key(4),
        key(5),
        key(6),
        9,
    );
    assert_eq!(c.get_name(), "Algebra");
    assert_eq!(c.get_nft_mint(), key(3));
    assert_eq!(c.get_capacity(), 30);
    assert_eq!(c.get_enrolled_students_count(), 5);
    assert_eq!(c.get_tution_fee(), 1200);
    assert_eq!(c.get_school(), key(4));
    assert_eq!(c.get_authority(), key(5));
    assert_eq!(c.get_nft_token_account(), key(6));
    assert_eq!(c.get_bump(), 9);
}

#[test]
fn course_setters_round_trip() {
    let mut c = Course::new(
        "Algebra".to_string(),
        key(3),
        30,
        5,
        1200,
        key(4),
        key(5),
        key(6),
        9,
    );
    c.set_name("Geometry".to_string());
    assert_eq!(c.get_name(), "Geometry");
    c.set_authority(key(7));
    assert_eq!(c.get_authority(), key(7));
    c.set_nft_mint(key(8));
    assert_eq!(c.get_nft_mint(), key(8));
    c.set_school(key(9));
    assert_eq!(c.get_school(), key(9));
    c.set_tution_fee(1500);
    assert_eq!(c.get_tution_fee(), 1500);
    c.set_bump(1);
    assert_eq!(c.get_bump(), 1);
}

#[test]
fn enrollment_never_passes_capacity() {
    let mut c = Course::new(
        "Algebra".to_string(),
        key(3),
        30,
        5,
        1200,
        key(4),
        key(5),
        key(6),
        9,
    );
    assert_eq!(c.set_enrolled_students_count(30), Ok(()));
    assert_eq!(
        c.set_enrolled_students_count(31),
        Err(ProgramError::InvalidArgument)
    );
    assert_eq!(c.get_enrolled_students_count(), 30);
    assert_eq!(c.set_capacity(29), Err(ProgramError::InvalidArgument));
    assert_eq!(c.get_capacity(), 30);
    assert_eq!(c.set_capacity(40), Ok(()));
    assert_eq!(c.get_capacity(), 40);
}

#[test]
fn initialize_course_populates_the_record() {
    let c = initialize_course(
        "Algebra".to_string(),
        key(3),
        30,
        1200,
        key(4),
        key(5),
        key(6),
        9,
    )
    .unwrap();
    assert_eq!(c.get_name(), "Algebra");
    assert_eq!(c.get_enrolled_students_count(), 0);
    assert_eq!(c.get_capacity(), 30);
}

#[test]
fn initialize_course_refuses_bad_names() {
    let empty = initialize_course(
        "".to_string(),
        key(3),
        30,
        1200,
        key(4),
        key(5),
        key(6),
        9,
    );
    assert!(matches!(empty, Err(CourseError::InvalidName)));
    let long = initialize_course(
        "a".repeat(33),
        key(3),
        30,
        1200,
        key(4),
        key(5),
        key(6),
        9,
    );
    assert!(matches!(long, Err(CourseError::InvalidName)));
}
