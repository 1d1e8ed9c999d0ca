use vstd::prelude::*;

use crate::error::AcademyError;
use crate::ledger::{record_of, EnrollmentLedger};
use crate::state::{Key, Course, EnrollInCourse, Enrollment, Transfer};

verus! {

/// The decision on a course-level enrollment: the first failed check in
/// order, or the tuition payment to perform.
pub open spec fn course_enrollment_decision(
    course: Course,
    ledger: EnrollmentLedger,
    accounts: EnrollInCourse,
    course_id: u64,
) -> Result<Transfer, AcademyError> {
    if course.id != course_id {
        Err(AcademyError::InvalidCourseId)
    } else if accounts.student_token_amount != 1 {
        Err(AcademyError::InvalidStudentNFT)
    } else if ledger.has(accounts.course, accounts.student) {
        Err(AcademyError::AlreadyEnrolled)
    } else {
        Ok(Transfer { from: accounts.student, to: accounts.admin, amount: course.tuition_fee })
    }
}

/// Checks a course-level enrollment and, when it is admissible, says which
/// tuition payment to perform. Nothing changes here: once the payment has
/// succeeded, `complete_course_enrollment` writes the record.
pub fn enroll_in_course(
    course: &Course,
    ledger: &EnrollmentLedger,
    accounts: &EnrollInCourse,
    course_id: u64,
) -> (r: Result<Transfer, AcademyError>)
    ensures
        r == course_enrollment_decision(*course, *ledger, *accounts, course_id),
{
    if course.id != course_id {
        return Err(AcademyError::InvalidCourseId);
    }
    if accounts.student_token_amount != 1 {
        return Err(AcademyError::InvalidStudentNFT);
    }
    if ledger.is_enrolled(accounts.course, accounts.student) {
        return Err(AcademyError::AlreadyEnrolled);
    }
    Ok(Transfer { from: accounts.student, to: accounts.admin, amount: course.tuition_fee })
}

/// The record that a course-level enrollment writes.
pub open spec fn enrollment_record(accounts: EnrollInCourse, enrolled_at: i64) -> Enrollment {
    Enrollment {
        student: accounts.student,
        course: accounts.course,
        enrolled_at,
        completed: false,
    }
}

/// How a course-level enrollment's commit relates the course and the ledger
/// before and after, and its result.
pub open spec fn course_enrollment_committed(
    course_before: Course,
    course_after: Course,
    ledger_before: EnrollmentLedger,
    ledger_after: EnrollmentLedger,
    accounts: EnrollInCourse,
    enrolled_at: i64,
    r: Result<(), AcademyError>,
) -> bool {
    &&& course_after.id == course_before.id
    &&& course_after.name == course_before.name
    &&& course_after.description == course_before.description
    &&& course_after.start_date == course_before.start_date
    &&& course_after.end_date == course_before.end_date
    &&& course_after.tuition_fee == course_before.tuition_fee
    &&& course_after.mint == course_before.mint
    &&& ledger_after.wf()
    &&& if ledger_before.has(accounts.course, accounts.student) {
        &&& r == Err::<(), AcademyError>(AcademyError::AlreadyEnrolled)
        &&& ledger_after@ == ledger_before@
        &&& course_after.enrollment_count == course_before.enrollment_count
    } else {
        &&& r is Ok
        &&& ledger_after@ == ledger_before@.push(enrollment_record(accounts, enrolled_at))
        &&& course_after.enrollment_count == course_before.enrollment_count + 1
    }
}

/// Writes the enrollment record once the tuition has been paid, and counts
/// the student in the course. A record that already exists is never
/// overwritten: the attempt fails with `AlreadyEnrolled` and nothing changes.
pub fn complete_course_enrollment(
    course: &mut Course,
    ledger: &mut EnrollmentLedger,
    accounts: &EnrollInCourse,
    enrolled_at: i64,
) -> (r: Result<(), AcademyError>)
    requires
        old(ledger).wf(),
        old(course).enrollment_count < u64::MAX,
    ensures
        course_enrollment_committed(
            *old(course),
            *final(course),
            *old(ledger),
            *final(ledger),
            *accounts,
            enrolled_at,
            r,
        ),
{
    let record = Enrollment {
        student: accounts.student,
        course: accounts.course,
        enrolled_at,
        completed: false,
    };
    match ledger.create(record) {
        Ok(()) => {
            course.enrollment_count = course.enrollment_count + 1;
            Ok(())
        },
        Err(e) => Err(e),
    }
}

/// A course reference whose id differs from the course id given is refused
/// with `InvalidCourseId`, and no payment is asked for.
pub proof fn lemma_mismatched_course_refused(
    course: Course,
    ledger: EnrollmentLedger,
    accounts: EnrollInCourse,
    course_id: u64,
)
    requires
        course.id != course_id,
    ensures
        course_enrollment_decision(course, ledger, accounts, course_id) == Err::<
            Transfer,
            AcademyError,
        >(AcademyError::InvalidCourseId),
{
}

/// A student who does not hold exactly one credential unit is refused with
/// `InvalidStudentNFT`, and no payment is asked for, whether or not a record
/// already exists.
pub proof fn lemma_credential_required(
    course: Course,
    ledger: EnrollmentLedger,
    accounts: EnrollInCourse,
    course_id: u64,
)
    requires
        course.id == course_id,
        accounts.student_token_amount != 1,
    ensures
        course_enrollment_decision(course, ledger, accounts, course_id) == Err::<
            Transfer,
            AcademyError,
        >(AcademyError::InvalidStudentNFT),
{
}

/// A well-formed ledger holds at most one record for a (course, student)
/// pair.
pub proof fn lemma_at_most_one_record(ledger: EnrollmentLedger, course: Key, student: Key)
    requires
        ledger.wf(),
    ensures
        forall|i: int, j: int|
            0 <= i < ledger@.len() && 0 <= j < ledger@.len() && record_of(
                #[trigger] ledger@[i],
                course,
                student,
            ) && record_of(#[trigger] ledger@[j], course, student) ==> i == j,
{
    assert forall|i: int, j: int|
        0 <= i < ledger@.len() && 0 <= j < ledger@.len() && record_of(
            #[trigger] ledger@[i],
            course,
            student,
        ) && record_of(#[trigger] ledger@[j], course, student) implies i == j by {
        if i < j {
            assert(!record_of(ledger@[i], ledger@[j].course, ledger@[j].student));
        } else if j < i {
            assert(!record_of(ledger@[j], ledger@[i].course, ledger@[i].student));
        }
    }
}

/// Once an enrollment has been committed for a (course, student) pair, a
/// second attempt for the same pair is refused: its check fails with
/// `AlreadyEnrolled` (when the course id matches and the credential is
/// held), asks for no payment in any case, and its commit fails with
/// `AlreadyEnrolled`, leaving the ledger and the enrollment count unchanged.
pub proof fn lemma_second_enrollment_refused(
    course0: Course,
    course1: Course,
    course2: Course,
    ledger0: EnrollmentLedger,
    ledger1: EnrollmentLedger,
    ledger2: EnrollmentLedger,
    accounts: EnrollInCourse,
    first_at: i64,
    second_at: i64,
    first: Result<(), AcademyError>,
    second: Result<(), AcademyError>,
    course_id: u64,
)
    requires
        ledger0.wf(),
        course_enrollment_committed(course0, course1, ledger0, ledger1, accounts, first_at, first),
        course_enrollment_committed(course1, course2, ledger1, ledger2, accounts, second_at, second),
    ensures
        ledger1.has(accounts.course, accounts.student),
        course_enrollment_decision(course1, ledger1, accounts, course_id) is Err,
        course1.id == course_id && accounts.student_token_amount == 1 ==> course_enrollment_decision(
            course1,
            ledger1,
            accounts,
            course_id,
        ) == Err::<Transfer, AcademyError>(AcademyError::AlreadyEnrolled),
        second == Err::<(), AcademyError>(AcademyError::AlreadyEnrolled),
        ledger2@ == ledger1@,
        course2.enrollment_count == course1.enrollment_count,
{
    if !ledger0.has(accounts.course, accounts.student) {
        let k = ledger0@.len() as int;
        assert(ledger1@[k] == enrollment_record(accounts, first_at));
        assert(record_of(ledger1@[k], accounts.course, accounts.student));
    }
    else {
        let i = choose|i: int| 0 <= i < ledger0@.len() && record_of(#[trigger] ledger0@[i], accounts.course, accounts.student);
        assert(ledger1@[i] == ledger0@[i]);
    }
}

} // verus!
