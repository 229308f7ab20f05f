use vstd::prelude::*;

verus! {

/// What a cursor visitor tells `clang_visitChildren` to do next.
#[derive(Debug, Clone, Copy, PartialEq, Eq, Structural)]
pub enum CXChildVisitResult {
    CXChildVisit_Break,
    CXChildVisit_Continue,
    CXChildVisit_Recurse,
}

impl CXChildVisitResult {
    /// The C `int` by which libclang knows this answer.
    pub open spec fn code(self) -> libc::c_int {
        match self {
            CXChildVisitResult::CXChildVisit_Break => 0,
            CXChildVisitResult::CXChildVisit_Continue => 1,
            CXChildVisitResult::CXChildVisit_Recurse => 2,
        }
    }

    /// The code of this answer, as libclang reads it.
    pub fn to_raw(&self) -> (r: libc::c_int)
        ensures
            r == self.code(),
    {
        match self {
            CXChildVisitResult::CXChildVisit_Break => 0,
            CXChildVisitResult::CXChildVisit_Continue => 1,
            CXChildVisitResult::CXChildVisit_Recurse => 2,
        }
    }

    /// The answer whose code is `v`, or `None` where no answer has it.
    pub fn from_raw(v: libc::c_int) -> (res: Option<CXChildVisitResult>)
        ensures
            res matches Some(k) ==> k.code() == v,
            res is None ==> forall|k: CXChildVisitResult| #[trigger] k.code() != v,
    {
        match v {
            0 => Some(CXChildVisitResult::CXChildVisit_Break),
            1 => Some(CXChildVisitResult::CXChildVisit_Continue),
            2 => Some(CXChildVisitResult::CXChildVisit_Recurse),
            _ => None,
        }
    }
}

/// Distinct answers have distinct codes: a code names at most one answer, so
/// `from_raw` gives back the answer whose code `to_raw` gave.
pub proof fn lemma_child_visit_codes_distinct(a: CXChildVisitResult, b: CXChildVisitResult)
    requires
        a.code() == b.code(),
    ensures
        a == b,
{
}

} // verus!
