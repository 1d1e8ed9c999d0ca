use vstd::prelude::*;

use crate::error::AcademyError;
use crate::state::{Enrollment, Key};

verus! {

/// The enrollment records, at most one for each (course, student) pair.
pub struct EnrollmentLedger {
    records: Vec<Enrollment>,
}

/// Whether a record belongs to the (course, student) pair.
pub open spec fn record_of(e: Enrollment, course: Key, student: Key) -> bool {
    e.course == course && e.student == student
}

impl View for EnrollmentLedger {
    type V = Seq<Enrollment>;

    closed spec fn view(&self) -> Seq<Enrollment> {
        self.records@
    }
}

impl EnrollmentLedger {
    /// No two records share a (course, student) pair.
    pub open spec fn wf(&self) -> bool {
        forall|i: int, j: int|
            0 <= i < j < self@.len() ==> !record_of(
                #[trigger] self@[i],
                (#[trigger] self@[j]).course,
                self@[j].student,
            )
    }

    /// Whether a record exists for the pair.
    pub open spec fn has(&self, course: Key, student: Key) -> bool {
        exists|i: int| 0 <= i < self@.len() && record_of(#[trigger] self@[i], course, student)
    }

    /// An empty ledger.
    pub fn new() -> (r: EnrollmentLedger)
        ensures
            r.wf(),
            r@ == Seq::<Enrollment>::empty(),
    {
        EnrollmentLedger { records: Vec::new() }
    }

    /// The number of records.
    pub fn len(&self) -> (r: usize)
        ensures
            r == self@.len(),
    {
        self.records.len()
    }

    /// The record at position `i`, in order of creation.
    pub fn get(&self, i: usize) -> (r: Enrollment)
        requires
            i < self@.len(),
        ensures
            r == self@[i as int],
    {
        self.records[i]
    }

    /// Whether the student has a record for the course.
    pub fn is_enrolled(&self, course: Key, student: Key) -> (r: bool)
        ensures
            r == self.has(course, student),
    {
        let mut i: usize = 0;
        while i < self.records.len()
            invariant
                0 <= i <= self@.len(),
                forall|k: int| 0 <= k < i ==> !record_of(#[trigger] self@[k], course, student),
            decreases self@.len() - i,
        {
            let e = self.records[i];
            if e.course == course && e.student == student {
                return true;
            }
            i = i + 1;
        }
        false
    }

    /// Adds a record, unless one already exists for its pair: a record is
    /// never overwritten.
    pub fn create(&mut self, record: Enrollment) -> (r: Result<(), AcademyError>)
        requires
            old(self).wf(),
        ensures
            final(self).wf(),
            old(self).has(record.course, record.student) ==> r == Err::<(), AcademyError>(
                AcademyError::AlreadyEnrolled,
            ) && final(self)@ == old(self)@,
            !old(self).has(record.course, record.student) ==> r is Ok && final(self)@ == old(
                self,
            )@.push(record),
    {
        if self.is_enrolled(record.course, record.student) {
            return Err(AcademyError::AlreadyEnrolled);
        }
        self.records.push(record);
        proof {
            let s = self@;
            assert forall|i: int, j: int| 0 <= i < j < s.len() implies !record_of(
                #[trigger] s[i],
                (#[trigger] s[j]).course,
                s[j].student,
            ) by {
                if j == s.len() - 1 {
                    assert(s[i] == old(self)@[i]);
                }
            }
        }
        Ok(())
    }
}

} // verus!
