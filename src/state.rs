use vstd::prelude::*;

verus! {

/// A 256-bit account identity, held as two 128-bit halves.
#[derive(Clone, Copy, Debug, PartialEq, Eq, Structural)]
pub struct Key {
    pub hi: u128,
    pub lo: u128,
}

/// The institution: its administrator, fee policy and counters.
#[derive(Clone, Debug)]
pub struct Academy {
    pub name: String,
    /// The identity that controls the institution.
    pub admin: Key,
    /// The id the next course will receive.
    pub course_count: u64,
    /// How many students have enrolled in the institution.
    pub student_counter: u64,
    /// What enrolling in the institution costs, in the smallest value unit.
    pub enrollment_fee: u64,
}

/// One course of the catalog.
#[derive(Clone, Debug)]
pub struct Course {
    /// Assigned from the institution's course counter when the course is made.
    pub id: u64,
    pub name: String,
    pub description: String,
    pub start_date: i64,
    pub end_date: i64,
    /// What enrolling in the course costs, in the smallest value unit.
    pub tuition_fee: u64,
    /// How many students have enrolled; only ever incremented.
    pub enrollment_count: u64,
    /// The credential mint associated with the course.
    pub mint: Key,
}

/// What an administrator supplies to create a course.
#[derive(Clone, Debug)]
pub struct CourseData {
    pub name: String,
    pub description: String,
    pub start_date: i64,
    pub end_date: i64,
    pub tuition_fee: u64,
}

/// The fact that a student enrolled in a course.
#[derive(Clone, Copy, Debug, PartialEq, Eq, Structural)]
pub struct Enrollment {
    pub student: Key,
    /// The identity of the course's record.
    pub course: Key,
    pub enrolled_at: i64,
    pub completed: bool,
}

/// A movement of value that the engine asks of the value transfer service.
#[derive(Clone, Copy, Debug, PartialEq, Eq, Structural)]
pub struct Transfer {
    pub from: Key,
    pub to: Key,
    pub amount: u64,
}

/// A credential issuance that the engine asks of the token service.
#[derive(Clone, Copy, Debug, PartialEq, Eq, Structural)]
pub struct MintOrder {
    pub mint: Key,
    pub authority: Key,
    /// The account that receives the credential.
    pub holder: Key,
    pub amount: u64,
}

/// What an admissible institution-level enrollment asks of the outside
/// services, in order: first the payment, then the credential.
#[derive(Clone, Copy, Debug, PartialEq, Eq, Structural)]
pub struct AcademyEnrollment {
    pub payment: Transfer,
    pub credential: MintOrder,
}

/// The authenticated parties of an institution's creation.
#[derive(Clone, Copy, Debug)]
pub struct InitializeAcademy {
    pub admin: Key,
}

/// The authenticated parties of a course's creation.
#[derive(Clone, Copy, Debug)]
pub struct CreateCourse {
    /// The signer, who must be the institution's administrator.
    pub admin: Key,
    /// The credential mint associated with the new course.
    pub mint: Key,
}

/// The parties and observations of an institution-level enrollment.
#[derive(Clone, Copy, Debug)]
pub struct EnrollInAcademy {
    pub student: Key,
    /// The signer on the administrator's side.
    pub admin: Key,
    /// The institution's credential mint.
    pub student_nft_mint: Key,
    /// The issuing authority of that mint, if it has one.
    pub mint_authority: Option<Key>,
    /// The student's account that receives the credential.
    pub student_token_account: Key,
    /// The student's available balance, as the value transfer service reports it.
    pub student_balance: u64,
}

/// The parties and observations of a course-level enrollment.
#[derive(Clone, Copy, Debug)]
pub struct EnrollInCourse {
    /// The identity of the course's record.
    pub course: Key,
    pub student: Key,
    /// The signer who receives the tuition fee.
    pub admin: Key,
    /// How many units of the institution credential the student holds.
    pub student_token_amount: u64,
}

} // verus!
