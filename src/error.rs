use vstd::prelude::*;

verus! {

/// Why an operation of the enrollment engine was refused.
#[derive(Clone, Copy, Debug, PartialEq, Eq, Structural)]
pub enum AcademyError {
    /// The course reference and the course id given with it do not match.
    InvalidCourseId,
    /// The course has reached its capacity.
    CourseIsFull,
    /// The student already has an enrollment record for this course.
    AlreadyEnrolled,
    /// The payment offered is below the institution's enrollment fee.
    InsufficientSchoolFee,
    /// The payment offered is below the course's tuition fee.
    InsufficientCourseFee,
    /// The student's balance does not cover the payment offered.
    InsufficientBalance,
    /// The credential mint is not controlled by the administrator.
    InvalidNFTAuthority,
    /// The student does not hold exactly one unit of the credential.
    InvalidStudentNFT,
    /// The signer is not the institution's administrator.
    Unauthorized,
}

} // verus!
