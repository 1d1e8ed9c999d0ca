use academy::admin::{
    complete_academy_enrollment, create_course, enroll_student_in_academy, initialize_academy,
};
use academy::error::AcademyError;
use academy::ledger::EnrollmentLedger;
use academy::state::{
    Academy, Course, CourseData, CreateCourse, EnrollInAcademy, EnrollInCourse, InitializeAcademy,
    Key,
};
use academy::student::{complete_course_enrollment, enroll_in_course};

fn key(n: u128) -> Key {
    Key { hi: 0, lo: n }
}

const ADMIN: u128 = 1;
const STUDENT: u128 = 2;
const MINT: u128 = 3;
const HOLDING: u128 = 4;
const COURSE: u128 = 5;

fn academy_with_fee(fee: u64) -> Academy {
    initialize_academy(&InitializeAcademy { admin: key(ADMIN) }, String::from("Academy"), fee)
}

fn academy_accounts(balance: u64) -> EnrollInAcademy {
    EnrollInAcademy {
        student: key(STUDENT),
        admin: key(ADMIN),
        student_nft_mint: key(MINT),
        mint_authority: Some(key(ADMIN)),
        student_token_account: key(HOLDING),
        student_balance: balance,
    }
}

fn course_data(tuition: u64) -> CourseData {
    CourseData {
        name: String::from("Algebra"),
        description: String::from("Groups and rings"),
        start_date: 1_700_000_000,
        end_date: 1_710_000_000,
        tuition_fee: tuition,
    }
}

fn new_course(academy: &mut Academy, tuition: u64) -> Course {
    create_course(academy, &CreateCourse { admin: key(ADMIN), mint: key(MINT) }, course_data(tuition))
        .unwrap()
}

fn course_accounts(holding: u64) -> EnrollInCourse {
    EnrollInCourse {
        course: key(COURSE),
        student: key(STUDENT),
        admin: key(ADMIN),
        student_token_amount: holding,
    }
}

#[test]
fn initialize_academy_starts_empty() {
    let a = academy_with_fee(100);
    assert_eq!(a.name, "Academy");
    assert_eq!(a.admin, key(ADMIN));
    assert_eq!(a.course_count, 0);
    assert_eq!(a.student_counter, 0);
    assert_eq!(a.enrollment_fee, 100);
}

#[test]
fn institution_enrollment_scenario() {
    let mut a = academy_with_fee(100);
    let balance: u64 = 150;
    let plan = enroll_student_in_academy(&a, &academy_accounts(balance), 120).unwrap();
    assert_eq!(plan.payment.amount, 100);
    assert_eq!(plan.payment.from, key(STUDENT));
    assert_eq!(plan.payment.to, key(ADMIN));
    assert_eq!(balance - plan.payment.amount, 50);
    assert_eq!(plan.credential.amount, 1);
    assert_eq!(plan.credential.mint, key(MINT));
    assert_eq!(plan.credential.authority, key(ADMIN));
    assert_eq!(plan.credential.holder, key(HOLDING));
    complete_academy_enrollment(&mut a);
    assert_eq!(a.student_counter, 1);
    assert_eq!(a.enrollment_fee, 100);
}

#[test]
fn institution_fee_charged_not_the_offer() {
    let a = academy_with_fee(100);
    let plan = enroll_student_in_academy(&a, &academy_accounts(10_000), 5_000).unwrap();
    assert_eq!(plan.payment.amount, 100);
}

#[test]
fn institution_payment_below_fee_refused() {
    let a = academy_with_fee(100);
    let r = enroll_student_in_academy(&a, &academy_accounts(1_000), 99);
    assert_eq!(r, Err(AcademyError::InsufficientSchoolFee));
}

#[test]
fn institution_balance_below_fee_refused() {
    let a = academy_with_fee(100);
    let r = enroll_student_in_academy(&a, &academy_accounts(90), 120);
    assert_eq!(r, Err(AcademyError::InsufficientBalance));
}

#[test]
fn institution_balance_below_offer_refused() {
    let a = academy_with_fee(100);
    let r = enroll_student_in_academy(&a, &academy_accounts(110), 120);
    assert_eq!(r, Err(AcademyError::InsufficientBalance));
}

#[test]
fn institution_exact_fee_and_balance_accepted() {
    let a = academy_with_fee(100);
    let plan = enroll_student_in_academy(&a, &academy_accounts(100), 100).unwrap();
    assert_eq!(plan.payment.amount, 100);
}

#[test]
fn institution_wrong_mint_authority_refused() {
    let a = academy_with_fee(100);
    let mut acc = academy_accounts(150);
    acc.mint_authority = Some(key(STUDENT));
    assert_eq!(enroll_student_in_academy(&a, &acc, 120), Err(AcademyError::InvalidNFTAuthority));
    acc.mint_authority = None;
    assert_eq!(enroll_student_in_academy(&a, &acc, 120), Err(AcademyError::InvalidNFTAuthority));
}

#[test]
fn institution_foreign_admin_refused() {
    let a = academy_with_fee(100);
    let mut acc = academy_accounts(150);
    acc.admin = key(99);
    acc.mint_authority = Some(key(99));
    assert_eq!(enroll_student_in_academy(&a, &acc, 120), Err(AcademyError::Unauthorized));
}

#[test]
fn course_ids_increase_from_zero() {
    let mut a = academy_with_fee(100);
    let c0 = new_course(&mut a, 500);
    let c1 = new_course(&mut a, 600);
    let c2 = new_course(&mut a, 700);
    assert_eq!(c0.id, 0);
    assert_eq!(c1.id, 1);
    assert_eq!(c2.id, 2);
    assert_eq!(a.course_count, 3);
}

#[test]
fn create_course_copies_data() {
    let mut a = academy_with_fee(100);
    let c = new_course(&mut a, 500);
    assert_eq!(c.name, "Algebra");
    assert_eq!(c.description, "Groups and rings");
    assert_eq!(c.start_date, 1_700_000_000);
    assert_eq!(c.end_date, 1_710_000_000);
    assert_eq!(c.tuition_fee, 500);
    assert_eq!(c.enrollment_count, 0);
    assert_eq!(c.mint, key(MINT));
}

#[test]
fn create_course_by_non_admin_refused() {
    let mut a = academy_with_fee(100);
    let r = create_course(&mut a, &CreateCourse { admin: key(STUDENT), mint: key(MINT) }, course_data(500));
    assert!(matches!(r, Err(AcademyError::Unauthorized)));
    assert_eq!(a.course_count, 0);
}

#[test]
fn course_enrollment_scenario() {
    let mut a = academy_with_fee(100);
    let mut course = new_course(&mut a, 500);
    let mut ledger = EnrollmentLedger::new();
    let acc = course_accounts(1);

    let transfer = enroll_in_course(&course, &ledger, &acc, course.id).unwrap();
    assert_eq!(transfer.amount, 500);
    assert_eq!(transfer.from, key(STUDENT));
    assert_eq!(transfer.to, key(ADMIN));
    assert_eq!(complete_course_enrollment(&mut course, &mut ledger, &acc, 1_700_000_123), Ok(()));
    assert_eq!(course.enrollment_count, 1);
    assert_eq!(ledger.len(), 1);
    let record = ledger.get(0);
    assert_eq!(record.student, key(STUDENT));
    assert_eq!(record.course, key(COURSE));
    assert_eq!(record.enrolled_at, 1_700_000_123);
    assert!(!record.completed);
    assert!(ledger.is_enrolled(key(COURSE), key(STUDENT)));

    assert_eq!(
        enroll_in_course(&course, &ledger, &acc, course.id),
        Err(AcademyError::AlreadyEnrolled)
    );
    assert_eq!(
        complete_course_enrollment(&mut course, &mut ledger, &acc, 1_700_000_456),
        Err(AcademyError::AlreadyEnrolled)
    );
    assert_eq!(course.enrollment_count, 1);
    assert_eq!(ledger.len(), 1);
}

#[test]
fn course_enrollment_without_credential_refused() {
    let mut a = academy_with_fee(100);
    let course = new_course(&mut a, 500);
    let ledger = EnrollmentLedger::new();
    let r = enroll_in_course(&course, &ledger, &course_accounts(0), course.id);
    assert_eq!(r, Err(AcademyError::InvalidStudentNFT));
    let r = enroll_in_course(&course, &ledger, &course_accounts(2), course.id);
    assert_eq!(r, Err(AcademyError::InvalidStudentNFT));
}

#[test]
fn course_enrollment_with_wrong_id_refused() {
    let mut a = academy_with_fee(100);
    let course = new_course(&mut a, 500);
    let ledger = EnrollmentLedger::new();
    let r = enroll_in_course(&course, &ledger, &course_accounts(1), course.id + 1);
    assert_eq!(r, Err(AcademyError::InvalidCourseId));
    let r = enroll_in_course(&course, &ledger, &course_accounts(0), course.id + 1);
    assert_eq!(r, Err(AcademyError::InvalidCourseId));
}

#[test]
fn other_students_and_courses_stay_open() {
    let mut a = academy_with_fee(100);
    let mut course = new_course(&mut a, 500);
    let mut ledger = EnrollmentLedger::new();
    let acc = course_accounts(1);
    assert_eq!(complete_course_enrollment(&mut course, &mut ledger, &acc, 10), Ok(()));

    let mut other_student = acc;
    other_student.student = key(77);
    assert!(enroll_in_course(&course, &ledger, &other_student, course.id).is_ok());
    assert_eq!(complete_course_enrollment(&mut course, &mut ledger, &other_student, 11), Ok(()));

    let mut other_course = acc;
    other_course.course = key(78);
    assert!(enroll_in_course(&course, &ledger, &other_course, course.id).is_ok());
    assert_eq!(course.enrollment_count, 2);
    assert_eq!(ledger.len(), 2);
}

#[test]
fn empty_ledger_has_no_records() {
    let ledger = EnrollmentLedger::new();
    assert_eq!(ledger.len(), 0);
    assert!(!ledger.is_enrolled(key(COURSE), key(STUDENT)));
}
