use vstd::prelude::*;

use crate::error::AcademyError;
use crate::state::{
    Academy, AcademyEnrollment, Course, CourseData, CreateCourse, EnrollInAcademy,
    InitializeAcademy, Key, MintOrder, Transfer,
};

verus! {

/// Creates the institution, with no courses and no students yet.
pub fn initialize_academy(accounts: &InitializeAcademy, name: String, enrollment_fee: u64) -> (r:
    Academy)
    ensures
        r.name@ == name@,
        r.admin == accounts.admin,
        r.course_count == 0,
        r.student_counter == 0,
        r.enrollment_fee == enrollment_fee,
{
    Academy { name, admin: accounts.admin, course_count: 0, student_counter: 0, enrollment_fee }
}

/// The decision on an institution-level enrollment: the first failed check
/// in order, or the payment and the issuance to perform. The payment is the
/// enrollment fee, whatever was offered.
pub open spec fn academy_enrollment_decision(
    academy: Academy,
    accounts: EnrollInAcademy,
    payment: u64,
) -> Result<AcademyEnrollment, AcademyError> {
    if accounts.admin != academy.admin {
        Err(AcademyError::Unauthorized)
    } else if accounts.mint_authority != Some(accounts.admin) {
        Err(AcademyError::InvalidNFTAuthority)
    } else if payment < academy.enrollment_fee {
        Err(AcademyError::InsufficientSchoolFee)
    } else if accounts.student_balance < payment {
        Err(AcademyError::InsufficientBalance)
    } else {
        Ok(
            AcademyEnrollment {
                payment: Transfer {
                    from: accounts.student,
                    to: accounts.admin,
                    amount: academy.enrollment_fee,
                },
                credential: MintOrder {
                    mint: accounts.student_nft_mint,
                    authority: accounts.admin,
                    holder: accounts.student_token_account,
                    amount: 1,
                },
            },
        )
    }
}

/// Checks an institution-level enrollment and, when it is admissible, says
/// which payment and which issuance to perform. Nothing changes here: once
/// both have succeeded, `complete_academy_enrollment` records the student.
pub fn enroll_student_in_academy(academy: &Academy, accounts: &EnrollInAcademy, payment: u64) -> (r:
    Result<AcademyEnrollment, AcademyError>)
    ensures
        r == academy_enrollment_decision(*academy, *accounts, payment),
{
    if accounts.admin != academy.admin {
        return Err(AcademyError::Unauthorized);
    }
    match accounts.mint_authority {
        Some(authority) => {
            if authority != accounts.admin {
                return Err(AcademyError::InvalidNFTAuthority);
            }
        },
        None => {
            return Err(AcademyError::InvalidNFTAuthority);
        },
    }
    if payment < academy.enrollment_fee {
        return Err(AcademyError::InsufficientSchoolFee);
    }
    if accounts.student_balance < payment {
        return Err(AcademyError::InsufficientBalance);
    }
    Ok(
        AcademyEnrollment {
            payment: Transfer {
                from: accounts.student,
                to: accounts.admin,
                amount: academy.enrollment_fee,
            },
            credential: MintOrder {
                mint: accounts.student_nft_mint,
                authority: accounts.admin,
                holder: accounts.student_token_account,
                amount: 1,
            },
        },
    )
}

/// Counts a student whose payment and credential issuance have succeeded.
pub fn complete_academy_enrollment(academy: &mut Academy)
    requires
        old(academy).student_counter < u64::MAX,
    ensures
        final(academy).student_counter == old(academy).student_counter + 1,
        final(academy).name == old(academy).name,
        final(academy).admin == old(academy).admin,
        final(academy).course_count == old(academy).course_count,
        final(academy).enrollment_fee == old(academy).enrollment_fee,
{
    academy.student_counter = academy.student_counter + 1;
}

/// How a successful course creation relates the institution before and
/// after, the data given and the course made.
pub open spec fn course_created(
    before: Academy,
    after: Academy,
    data: CourseData,
    mint: Key,
    course: Course,
) -> bool {
    &&& course.id == before.course_count
    &&& course.name == data.name
    &&& course.description == data.description
    &&& course.start_date == data.start_date
    &&& course.end_date == data.end_date
    &&& course.tuition_fee == data.tuition_fee
    &&& course.enrollment_count == 0
    &&& course.mint == mint
    &&& after.course_count == before.course_count + 1
    &&& after.name == before.name
    &&& after.admin == before.admin
    &&& after.student_counter == before.student_counter
    &&& after.enrollment_fee == before.enrollment_fee
}

/// Creates a course with the next id of the institution. Only the
/// institution's administrator may do so.
pub fn create_course(academy: &mut Academy, accounts: &CreateCourse, course_data: CourseData) -> (r:
    Result<Course, AcademyError>)
    requires
        old(academy).course_count < u64::MAX,
    ensures
        accounts.admin != old(academy).admin ==> r == Err::<Course, AcademyError>(
            AcademyError::Unauthorized,
        ) && *final(academy) == *old(academy),
        accounts.admin == old(academy).admin ==> (r matches Ok(c) && course_created(
            *old(academy),
            *final(academy),
            course_data,
            accounts.mint,
            c,
        )),
{
    if accounts.admin != academy.admin {
        return Err(AcademyError::Unauthorized);
    }
    let course = Course {
        id: academy.course_count,
        name: course_data.name,
        description: course_data.description,
        start_date: course_data.start_date,
        end_date: course_data.end_date,
        tuition_fee: course_data.tuition_fee,
        enrollment_count: 0,
        mint: accounts.mint,
    };
    academy.course_count = academy.course_count + 1;
    Ok(course)
}

/// Each course created in a run of successful creations under one
/// institution holds the institution's course counter as it stood before,
/// and that counter rises by one with every creation.
proof fn lemma_counter_after_creations(
    academies: Seq<Academy>,
    courses: Seq<Course>,
    data: Seq<CourseData>,
    mints: Seq<Key>,
    i: int,
)
    requires
        academies.len() == courses.len() + 1,
        data.len() == courses.len(),
        mints.len() == courses.len(),
        forall|k: int|
            0 <= k < courses.len() ==> course_created(
                #[trigger] academies[k],
                academies[k + 1],
                data[k],
                mints[k],
                courses[k],
            ),
        0 <= i <= courses.len(),
    ensures
        academies[i].course_count == academies[0].course_count + i,
    decreases i,
{
    if i > 0 {
        lemma_counter_after_creations(academies, courses, data, mints, i - 1);
        assert(course_created(academies[i - 1], academies[i], data[i - 1], mints[i - 1], courses[i - 1]));
    }
}

/// Course ids handed out by successive creations under one institution are
/// strictly increasing, so no two courses share an id.
pub proof fn lemma_course_ids_increase(
    academies: Seq<Academy>,
    courses: Seq<Course>,
    data: Seq<CourseData>,
    mints: Seq<Key>,
)
    requires
        academies.len() == courses.len() + 1,
        data.len() == courses.len(),
        mints.len() == courses.len(),
        forall|k: int|
            0 <= k < courses.len() ==> course_created(
                #[trigger] academies[k],
                academies[k + 1],
                data[k],
                mints[k],
                courses[k],
            ),
    ensures
        forall|i: int, j: int| 0 <= i < j < courses.len() ==> #[trigger] courses[i].id < #[trigger] courses[j].id,
{
    assert forall|i: int, j: int| 0 <= i < j < courses.len() implies #[trigger] courses[i].id < #[trigger] courses[j].id by {
        lemma_counter_after_creations(academies, courses, data, mints, i);
        lemma_counter_after_creations(academies, courses, data, mints, j);
        assert(course_created(academies[i], academies[i + 1], data[i], mints[i], courses[i]));
        assert(course_created(academies[j], academies[j + 1], data[j], mints[j], courses[j]));
    }
}

/// An admissible institution-level enrollment charges exactly the
/// institution's enrollment fee, whatever payment was offered, and issues
/// exactly one credential unit.
pub proof fn lemma_exact_fee_charged(academy: Academy, accounts: EnrollInAcademy, payment: u64)
    requires
        academy_enrollment_decision(academy, accounts, payment) is Ok,
    ensures
        ({
            let e = academy_enrollment_decision(academy, accounts, payment)->Ok_0;
            &&& e.payment.amount == academy.enrollment_fee
            &&& e.payment.from == accounts.student
            &&& e.payment.to == academy.admin
            &&& e.credential.amount == 1
            &&& e.credential.holder == accounts.student_token_account
        }),
{
}

/// A student whose balance is below the institution's fee is refused with
/// `InsufficientBalance`, even when the payment offered covers the fee.
pub proof fn lemma_balance_below_fee_refused(
    academy: Academy,
    accounts: EnrollInAcademy,
    payment: u64,
)
    requires
        accounts.admin == academy.admin,
        accounts.mint_authority == Some(accounts.admin),
        payment >= academy.enrollment_fee,
        accounts.student_balance < academy.enrollment_fee,
    ensures
        academy_enrollment_decision(academy, accounts, payment) == Err::<
            AcademyEnrollment,
            AcademyError,
        >(AcademyError::InsufficientBalance),
{
}

} // verus!
