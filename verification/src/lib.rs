//! Bindings to the libclang C interface: the enumerations of its ABI with
//! their integer codes, and the decisions of a generator that turns the
//! declarations of a C header into Rust struct items.
#![allow(non_camel_case_types)]
#![allow(non_snake_case)]

pub mod cursor_kind;
pub mod error_code;
pub mod generator;
pub mod inclusion;
pub mod type_kind;
pub mod visit;

pub use cursor_kind::CXCursorKind;
pub use error_code::CXErrorCode;
pub use generator::{CursorInfo, Generator, Step, StructItem, TypedefScan};
pub use inclusion::{IncludeError, MacroArg};
pub use type_kind::CXTypeKind;
pub use visit::CXChildVisitResult;

use vstd::prelude::*;

verus! {

/// The translation unit that libclang hands out by pointer; nothing of it is
/// visible from Rust.
pub struct CXTranslationUnitImpl;

} // verus!
