use vstd::prelude::*;

verus! {

/// The kind of a type that libclang describes.

#[derive(Debug, Clone, Copy, PartialEq, Eq, Structural)]
pub enum CXTypeKind {
    CXType_Invalid,
    CXType_Unexposed,
    CXType_Void,
    CXType_Bool,
    CXType_Char_U,
    CXType_UChar,
    CXType_Char16,
    CXType_Char32,
    CXType_UShort,
    CXType_UInt,
    CXType_ULong,
    CXType_ULongLong,
    CXType_UInt128,
    CXType_Char_S,
    CXType_SChar,
    CXType_WChar,
    CXType_Short,
    CXType_Int,
    CXType_Long,
    CXType_LongLong,
    CXType_Int128,
    CXType_Float,
    CXType_Double,
    CXType_LongDouble,
    CXType_NullPtr,
    CXType_Overload,
    CXType_Dependent,
    CXType_ObjCId,
    CXType_ObjCClass,
    CXType_ObjCSel,
    CXType_Complex,
    CXType_Pointer,
    CXType_BlockPointer,
    CXType_LValueReference,
    CXType_RValueReference,
    CXType_Record,
    CXType_Enum,
    CXType_Typedef,
    CXType_ObjCInterface,
    CXType_ObjCObjectPointer,
    CXType_FunctionNoProto,
    CXType_FunctionProto,
    CXType_ConstantArray,
    CXType_Vector,
    CXType_IncompleteArray,
    CXType_VariableArray,
    CXType_DependentSizedArray,
    CXType_MemberPointer,
}

impl CXTypeKind {
    /// The C `int` by which libclang knows this type kind.
    pub open spec fn code(self) -> libc::c_int {
        match self {
            CXTypeKind::CXType_Invalid => 0,
            CXTypeKind::CXType_Unexposed => 1,
            CXTypeKind::CXType_Void => 2,
            CXTypeKind::CXType_Bool => 3,
            CXTypeKind::CXType_Char_U => 4,
            CXTypeKind::CXType_UChar => 5,
            CXTypeKind::CXType_Char16 => 6,
            CXTypeKind::CXType_Char32 => 7,
            CXTypeKind::CXType_UShort => 8,
            CXTypeKind::CXType_UInt => 9,
            CXTypeKind::CXType_ULong => 10,
            CXTypeKind::CXType_ULongLong => 11,
            CXTypeKind::CXType_UInt128 => 12,
            CXTypeKind::CXType_Char_S => 13,
            CXTypeKind::CXType_SChar => 14,
            CXTypeKind::CXType_WChar => 15,
            CXTypeKind::CXType_Short => 16,
            CXTypeKind::CXType_Int => 17,
            CXTypeKind::CXType_Long => 18,
            CXTypeKind::CXType_LongLong => 19,
            CXTypeKind::CXType_Int128 => 20,
            CXTypeKind::CXType_Float => 21,
            CXTypeKind::CXType_Double => 22,
            CXTypeKind::CXType_LongDouble => 23,
            CXTypeKind::CXType_NullPtr => 24,
            CXTypeKind::CXType_Overload => 25,
            CXTypeKind::CXType_Dependent => 26,
            CXTypeKind::CXType_ObjCId => 27,
            CXTypeKind::CXType_ObjCClass => 28,
            CXTypeKind::CXType_ObjCSel => 29,
            CXTypeKind::CXType_Complex => 100,
            CXTypeKind::CXType_Pointer => 101,
            CXTypeKind::CXType_BlockPointer => 102,
            CXTypeKind::CXType_LValueReference => 103,
            CXTypeKind::CXType_RValueReference => 104,
            CXTypeKind::CXType_Record => 105,
            CXTypeKind::CXType_Enum => 106,
            CXTypeKind::CXType_Typedef => 107,
            CXTypeKind::CXType_ObjCInterface => 108,
            CXTypeKind::CXType_ObjCObjectPointer => 109,
            CXTypeKind::CXType_FunctionNoProto => 110,
            CXTypeKind::CXType_FunctionProto => 111,
            CXTypeKind::CXType_ConstantArray => 112,
            CXTypeKind::CXType_Vector => 113,
            CXTypeKind::CXType_IncompleteArray => 114,
            CXTypeKind::CXType_VariableArray => 115,
            CXTypeKind::CXType_DependentSizedArray => 116,
            CXTypeKind::CXType_MemberPointer => 117,
        }
    }

    /// The code of this type kind, as libclang reads it.
    pub fn to_raw(&self) -> (r: libc::c_int)
        ensures
            r == self.code(),
    {
        match self {
            CXTypeKind::CXType_Invalid => 0,
            CXTypeKind::CXType_Unexposed => 1,
            CXTypeKind::CXType_Void => 2,
            CXTypeKind::CXType_Bool => 3,
            CXTypeKind::CXType_Char_U => 4,
            CXTypeKind::CXType_UChar => 5,
            CXTypeKind::CXType_Char16 => 6,
            CXTypeKind::CXType_Char32 => 7,
            CXTypeKind::CXType_UShort => 8,
            CXTypeKind::CXType_UInt => 9,
            CXTypeKind::CXType_ULong => 10,
            CXTypeKind::CXType_ULongLong => 11,
            CXTypeKind::CXType_UInt128 => 12,
            CXTypeKind::CXType_Char_S => 13,
            CXTypeKind::CXType_SChar => 14,
            CXTypeKind::CXType_WChar => 15,
            CXTypeKind::CXType_Short => 16,
            CXTypeKind::CXType_Int => 17,
            CXTypeKind::CXType_Long => 18,
            CXTypeKind::CXType_LongLong => 19,
            CXTypeKind::CXType_Int128 => 20,
            CXTypeKind::CXType_Float => 21,
            CXTypeKind::CXType_Double => 22,
            CXTypeKind::CXType_LongDouble => 23,
            CXTypeKind::CXType_NullPtr => 24,
            CXTypeKind::CXType_Overload => 25,
            CXTypeKind::CXType_Dependent => 26,
            CXTypeKind::CXType_ObjCId => 27,
            CXTypeKind::CXType_ObjCClass => 28,
            CXTypeKind::CXType_ObjCSel => 29,
            CXTypeKind::CXType_Complex => 100,
            CXTypeKind::CXType_Pointer => 101,
            CXTypeKind::CXType_BlockPointer => 102,
            CXTypeKind::CXType_LValueReference => 103,
            CXTypeKind::CXType_RValueReference => 104,
            CXTypeKind::CXType_Record => 105,
            CXTypeKind::CXType_Enum => 106,
            CXTypeKind::CXType_Typedef => 107,
            CXTypeKind::CXType_ObjCInterface => 108,
            CXTypeKind::CXType_ObjCObjectPointer => 109,
            CXTypeKind::CXType_FunctionNoProto => 110,
            CXTypeKind::CXType_FunctionProto => 111,
            CXTypeKind::CXType_ConstantArray => 112,
            CXTypeKind::CXType_Vector => 113,
            CXTypeKind::CXType_IncompleteArray => 114,
            CXTypeKind::CXType_VariableArray => 115,
            CXTypeKind::CXType_DependentSizedArray => 116,
            CXTypeKind::CXType_MemberPointer => 117,
        }
    }

    /// The type kind whose code is `v`, or `None` where no type kind has it.
    pub fn from_raw(v: libc::c_int) -> (res: Option<CXTypeKind>)
        ensures
            res matches Some(k) ==> k.code() == v,
            res is None ==> forall|k: CXTypeKind| #[trigger] k.code() != v,
    {
        match v {
            0 => Some(CXTypeKind::CXType_Invalid),
            1 => Some(CXTypeKind::CXType_Unexposed),
            2 => Some(CXTypeKind::CXType_Void),
            3 => Some(CXTypeKind::CXType_Bool),
            4 => Some(CXTypeKind::CXType_Char_U),
            5 => Some(CXTypeKind::CXType_UChar),
            6 => Some(CXTypeKind::CXType_Char16),
            7 => Some(CXTypeKind::CXType_Char32),
            8 => Some(CXTypeKind::CXType_UShort),
            9 => Some(CXTypeKind::CXType_UInt),
            10 => Some(CXTypeKind::CXType_ULong),
            11 => Some(CXTypeKind::CXType_ULongLong),
            12 => Some(CXTypeKind::CXType_UInt128),
            13 => Some(CXTypeKind::CXType_Char_S),
            14 => Some(CXTypeKind::CXType_SChar),
            15 => Some(CXTypeKind::CXType_WChar),
            16 => Some(CXTypeKind::CXType_Short),
            17 => Some(CXTypeKind::CXType_Int),
            18 => Some(CXTypeKind::CXType_Long),
            19 => Some(CXTypeKind::CXType_LongLong),
            20 => Some(CXTypeKind::CXType_Int128),
            21 => Some(CXTypeKind::CXType_Float),
            22 => Some(CXTypeKind::CXType_Double),
            23 => Some(CXTypeKind::CXType_LongDouble),
            24 => Some(CXTypeKind::CXType_NullPtr),
            25 => Some(CXTypeKind::CXType_Overload),
            26 => Some(CXTypeKind::CXType_Dependent),
            27 => Some(CXTypeKind::CXType_ObjCId),
            28 => Some(CXTypeKind::CXType_ObjCClass),
            29 => Some(CXTypeKind::CXType_ObjCSel),
            100 => Some(CXTypeKind::CXType_Complex),
            101 => Some(CXTypeKind::CXType_Pointer),
            102 => Some(CXTypeKind::CXType_BlockPointer),
            103 => Some(CXTypeKind::CXType_LValueReference),
            104 => Some(CXTypeKind::CXType_RValueReference),
            105 => Some(CXTypeKind::CXType_Record),
            106 => Some(CXTypeKind::CXType_Enum),
            107 => Some(CXTypeKind::CXType_Typedef),
            108 => Some(CXTypeKind::CXType_ObjCInterface),
            109 => Some(CXTypeKind::CXType_ObjCObjectPointer),
            110 => Some(CXTypeKind::CXType_FunctionNoProto),
            111 => Some(CXTypeKind::CXType_FunctionProto),
            112 => Some(CXTypeKind::CXType_ConstantArray),
            113 => Some(CXTypeKind::CXType_Vector),
            114 => Some(CXTypeKind::CXType_IncompleteArray),
            115 => Some(CXTypeKind::CXType_VariableArray),
            116 => Some(CXTypeKind::CXType_DependentSizedArray),
            117 => Some(CXTypeKind::CXType_MemberPointer),
            _ => None,
        }
    }
}

/// Distinct type kinds have distinct codes: a code names at most one type kind, so
/// `from_raw` gives back the type kind whose code `to_raw` gave.
pub proof fn lemma_type_kind_codes_distinct(a: CXTypeKind, b: CXTypeKind)
    requires
        a.code() == b.code(),
    ensures
        a == b,
{
}

} // verus!
