use vstd::prelude::*;

verus! {

/// A token tree handed to the header-inclusion macro, as the generator reads
/// it: a string literal with its contents, or anything else.
pub enum MacroArg {
    StrLiteral(String),
    Other,
}

/// Why the header-inclusion macro refused its arguments.
#[derive(Debug, Clone, Copy, PartialEq, Eq, Structural)]
pub enum IncludeError {
    ExpectedSingleStringLiteral,
}

impl IncludeError {
    /// The message that the macro reports for this error.
    pub fn message(&self) -> (m: &'static str)
        ensures
            m@ == "expected a single string literal"@,
    {
        match self {
            IncludeError::ExpectedSingleStringLiteral => "expected a single string literal",
        }
    }
}

/// The arguments name a header exactly when they are one string literal.
pub open spec fn names_header(args: Seq<MacroArg>) -> bool {
    args.len() == 1 && args[0] is StrLiteral
}

/// The header that the macro arguments name: the contents of their single
/// string literal. Any other arguments are refused.
pub fn header_to_include(args: &[MacroArg]) -> (res: Result<String, IncludeError>)
    ensures
        names_header(args@) ==> (res matches Ok(f) && args@[0] matches MacroArg::StrLiteral(s)
            && f@ == s@),
        !names_header(args@) ==> res == Err::<String, IncludeError>(
            IncludeError::ExpectedSingleStringLiteral,
        ),
{
    if args.len() == 1 {
        match &args[0] {
            MacroArg::StrLiteral(s) => {
                return Ok(s.clone());
            },
            MacroArg::Other => {},
        }
    }
    Err(IncludeError::ExpectedSingleStringLiteral)
}

/// The command-line arguments with which the header is parsed: the current
/// directory is searched for included files.
pub fn clang_arguments() -> (args: Vec<&'static str>)
    ensures
        args@.len() == 2,
        args@[0]@ == "-I"@,
        args@[1]@ == "."@,
{
    let mut args: Vec<&'static str> = Vec::new();
    args.push("-I");
    args.push(".");
    args
}

} // verus!
