use vstd::prelude::*;

verus! {

/// The outcome that libclang reports for an operation on a translation unit.

#[derive(Debug, Clone, Copy, PartialEq, Eq, Structural)]
pub enum CXErrorCode {
    CXError_Success,
    CXError_Failure,
    CXError_Crashed,
    CXError_InvalidArguments,
    CXError_ASTReadError,
}

impl CXErrorCode {
    /// The C `int` by which libclang knows this outcome.
    pub open spec fn code(self) -> libc::c_int {
        match self {
            CXErrorCode::CXError_Success => 0,
            CXErrorCode::CXError_Failure => 1,
            CXErrorCode::CXError_Crashed => 2,
            CXErrorCode::CXError_InvalidArguments => 3,
            CXErrorCode::CXError_ASTReadError => 4,
        }
    }

    /// The code of this outcome, as libclang reads it.
    pub fn to_raw(&self) -> (r: libc::c_int)
        ensures
            r == self.code(),
    {
        match self {
            CXErrorCode::CXError_Success => 0,
            CXErrorCode::CXError_Failure => 1,
            CXErrorCode::CXError_Crashed => 2,
            CXErrorCode::CXError_InvalidArguments => 3,
            CXErrorCode::CXError_ASTReadError => 4,
        }
    }

    /// The outcome whose code is `v`, or `None` where no outcome has it.
    pub fn from_raw(v: libc::c_int) -> (res: Option<CXErrorCode>)
        ensures
            res matches Some(k) ==> k.code() == v,
            res is None ==> forall|k: CXErrorCode| #[trigger] k.code() != v,
    {
        match v {
            0 => Some(CXErrorCode::CXError_Success),
            1 => Some(CXErrorCode::CXError_Failure),
            2 => Some(CXErrorCode::CXError_Crashed),
            3 => Some(CXErrorCode::CXError_InvalidArguments),
            4 => Some(CXErrorCode::CXError_ASTReadError),
            _ => None,
        }
    }
}

/// Distinct outcomes have distinct codes: a code names at most one outcome, so
/// `from_raw` gives back the outcome whose code `to_raw` gave.
pub proof fn lemma_error_codes_distinct(a: CXErrorCode, b: CXErrorCode)
    requires
        a.code() == b.code(),
    ensures
        a == b,
{
}

} // verus!
