use clang::{CXChildVisitResult, CXCursorKind, CXErrorCode, CXTypeKind};

#[test]
fn type_kind_codes() {
    let table: Vec<(CXTypeKind, i32)> = vec![
        (CXTypeKind::CXType_Invalid, 0),
        (CXTypeKind::CXType_Unexposed, 1),
        (CXTypeKind::CXType_Void, 2),
        (CXTypeKind::CXType_Bool, 3),
        (CXTypeKind::CXType_Char_U, 4),
        (CXTypeKind::CXType_UChar, 5),
        (CXTypeKind::CXType_Char16, 6),
        (CXTypeKind::CXType_Char32, 7),
        (CXTypeKind::CXType_UShort, 8),
        (CXTypeKind::CXType_UInt, 9),
        (CXTypeKind::CXType_ULong, 10),
        (CXTypeKind::CXType_ULongLong, 11),
        (CXTypeKind::CXType_UInt128, 12),
        (CXTypeKind::CXType_Char_S, 13),
        (CXTypeKind::CXType_SChar, 14),
        (CXTypeKind::CXType_WChar, 15),
        (CXTypeKind::CXType_Short, 16),
        (CXTypeKind::CXType_Int, 17),
        (CXTypeKind::CXType_Long, 18),
        (CXTypeKind::CXType_LongLong, 19),
        (CXTypeKind::CXType_Int128, 20),
        (CXTypeKind::CXType_Float, 21),
        (CXTypeKind::CXType_Double, 22),
        (CXTypeKind::CXType_LongDouble, 23),
        (CXTypeKind::CXType_NullPtr, 24),
        (CXTypeKind::CXType_Overload, 25),
        (CXTypeKind::CXType_Dependent, 26),
        (CXTypeKind::CXType_ObjCId, 27),
        (CXTypeKind::CXType_ObjCClass, 28),
        (CXTypeKind::CXType_ObjCSel, 29),
        (CXTypeKind::CXType_Complex, 100),
        (CXTypeKind::CXType_Pointer, 101),
        (CXTypeKind::CXType_BlockPointer, 102),
        (CXTypeKind::CXType_LValueReference, 103),
        (CXTypeKind::CXType_RValueReference, 104),
        (CXTypeKind::CXType_Record, 105),
        (CXTypeKind::CXType_Enum, 106),
        (CXTypeKind::CXType_Typedef, 107),
        (CXTypeKind::CXType_ObjCInterface, 108),
        (CXTypeKind::CXType_ObjCObjectPointer, 109),
        (CXTypeKind::CXType_FunctionNoProto, 110),
        (CXTypeKind::CXType_FunctionProto, 111),
        (CXTypeKind::CXType_ConstantArray, 112),
        (CXTypeKind::CXType_Vector, 113),
        (CXTypeKind::CXType_IncompleteArray, 114),
        (CXTypeKind::CXType_VariableArray, 115),
        (CXTypeKind::CXType_DependentSizedArray, 116),
        (CXTypeKind::CXType_MemberPointer, 117),
    ];
    for (kind, code) in table.iter() {
        assert_eq!(kind.to_raw(), *code);
        assert_eq!(CXTypeKind::from_raw(*code), Some(*kind));
    }
    for i in 0..table.len() {
        for j in 0..table.len() {
            if i != j {
                assert_ne!(table[i].1, table[j].1);
                assert_ne!(table[i].0, table[j].0);
            }
        }
    }
    assert_eq!(CXTypeKind::from_raw(-1), None);
    assert_eq!(CXTypeKind::from_raw(30), None);
    assert_eq!(CXTypeKind::from_raw(99), None);
    assert_eq!(CXTypeKind::from_raw(118), None);
    assert_eq!(CXTypeKind::from_raw(1000), None);
}

#[test]
fn cursor_kind_codes() {
    let table: Vec<(CXCursorKind, i32)> = vec![
        (CXCursorKind::CXCursor_UnexposedDecl, 1),
        (CXCursorKind::CXCursor_StructDecl, 2),
        (CXCursorKind::CXCursor_UnionDecl, 3),
        (CXCursorKind::CXCursor_ClassDecl, 4),
        (CXCursorKind::CXCursor_EnumDecl, 5),
        (CXCursorKind::CXCursor_FieldDecl, 6),
        (CXCursorKind::CXCursor_EnumConstantDecl, 7),
        (CXCursorKind::CXCursor_FunctionDecl, 8),
        (CXCursorKind::CXCursor_VarDecl, 9),
        (CXCursorKind::CXCursor_ParmDecl, 10),
        (CXCursorKind::CXCursor_ObjCInterfaceDecl, 11),
        (CXCursorKind::CXCursor_ObjCCategoryDecl, 12),
        (CXCursorKind::CXCursor_ObjCProtocolDecl, 13),
        (CXCursorKind::CXCursor_ObjCPropertyDecl, 14),
        (CXCursorKind::CXCursor_ObjCIvarDecl, 15),
        (CXCursorKind::CXCursor_ObjCInstanceMethodDecl, 16),
        (CXCursorKind::CXCursor_ObjCClassMethodDecl, 17),
        (CXCursorKind::CXCursor_ObjCImplementationDecl, 18),
        (CXCursorKind::CXCursor_ObjCCategoryImplDecl, 19),
        (CXCursorKind::CXCursor_TypedefDecl, 20),
        (CXCursorKind::CXCursor_CXXMethod, 21),
        (CXCursorKind::CXCursor_Namespace, 22),
        (CXCursorKind::CXCursor_LinkageSpec, 23),
        (CXCursorKind::CXCursor_Constructor, 24),
        (CXCursorKind::CXCursor_Destructor, 25),
        (CXCursorKind::CXCursor_ConversionFunction, 26),
        (CXCursorKind::CXCursor_TemplateTypeParameter, 27),
        (CXCursorKind::CXCursor_NonTypeTemplateParameter, 28),
        (CXCursorKind::CXCursor_TemplateTemplateParameter, 29),
        (CXCursorKind::CXCursor_FunctionTemplate, 30),
        (CXCursorKind::CXCursor_ClassTemplate, 31),
        (CXCursorKind::CXCursor_ClassTemplatePartialSpecialization, 32),
        (CXCursorKind::CXCursor_NamespaceAlias, 33),
        (CXCursorKind::CXCursor_UsingDirective, 34),
        (CXCursorKind::CXCursor_UsingDeclaration, 35),
        (CXCursorKind::CXCursor_TypeAliasDecl, 36),
        (CXCursorKind::CXCursor_ObjCSynthesizeDecl, 37),
        (CXCursorKind::CXCursor_ObjCDynamicDecl, 38),
        (CXCursorKind::CXCursor_CXXAccessSpecifier, 39),
        (CXCursorKind::CXCursor_ObjCSuperClassRef, 40),
        (CXCursorKind::CXCursor_ObjCProtocolRef, 41),
        (CXCursorKind::CXCursor_ObjCClassRef, 42),
        (CXCursorKind::CXCursor_TypeRef, 43),
        (CXCursorKind::CXCursor_CXXBaseSpecifier, 44),
        (CXCursorKind::CXCursor_TemplateRef, 45),
        (CXCursorKind::CXCursor_NamespaceRef, 46),
        (CXCursorKind::CXCursor_MemberRef, 47),
        (CXCursorKind::CXCursor_LabelRef, 48),
        (CXCursorKind::CXCursor_OverloadedDeclRef, 49),
        (CXCursorKind::CXCursor_VariableRef, 50),
        (CXCursorKind::CXCursor_InvalidFile, 70),
        (CXCursorKind::CXCursor_NoDeclFound, 71),
        (CXCursorKind::CXCursor_NotImplemented, 72),
        (CXCursorKind::CXCursor_InvalidCode, 73),
        (CXCursorKind::CXCursor_UnexposedExpr, 100),
        (CXCursorKind::CXCursor_DeclRefExpr, 101),
        (CXCursorKind::CXCursor_MemberRefExpr, 102),
        (CXCursorKind::CXCursor_CallExpr, 103),
        (CXCursorKind::CXCursor_ObjCMessageExpr, 104),
        (CXCursorKind::CXCursor_BlockExpr, 105),
        (CXCursorKind::CXCursor_IntegerLiteral, 106),
        (CXCursorKind::CXCursor_FloatingLiteral, 107),
        (CXCursorKind::CXCursor_ImaginaryLiteral, 108),
        (CXCursorKind::CXCursor_StringLiteral, 109),
        (CXCursorKind::CXCursor_CharacterLiteral, 110),
        (CXCursorKind::CXCursor_ParenExpr, 111),
        (CXCursorKind::CXCursor_UnaryOperator, 112),
        (CXCursorKind::CXCursor_ArraySubscriptExpr, 113),
        (CXCursorKind::CXCursor_BinaryOperator, 114),
        (CXCursorKind::CXCursor_CompoundAssignOperator, 115),
        (CXCursorKind::CXCursor_ConditionalOperator, 116),
        (CXCursorKind::CXCursor_CStyleCastExpr, 117),
        (CXCursorKind::CXCursor_CompoundLiteralExpr, 118),
        (CXCursorKind::CXCursor_InitListExpr, 119),
        (CXCursorKind::CXCursor_AddrLabelExpr, 120),
        (CXCursorKind::CXCursor_StmtExpr, 121),
        (CXCursorKind::CXCursor_GenericSelectionExpr, 122),
        (CXCursorKind::CXCursor_GNUNullExpr, 123),
        (CXCursorKind::CXCursor_CXXStaticCastExpr, 124),
        (CXCursorKind::CXCursor_CXXDynamicCastExpr, 125),
        (CXCursorKind::CXCursor_CXXReinterpretCastExpr, 126),
        (CXCursorKind::CXCursor_CXXConstCastExpr, 127),
        (CXCursorKind::CXCursor_CXXFunctionalCastExpr, 128),
        (CXCursorKind::CXCursor_CXXTypeidExpr, 129),
        (CXCursorKind::CXCursor_CXXBoolLiteralExpr, 130),
        (CXCursorKind::CXCursor_CXXNullPtrLiteralExpr, 131),
        (CXCursorKind::CXCursor_CXXThisExpr, 132),
        (CXCursorKind::CXCursor_CXXThrowExpr, 133),
        (CXCursorKind::CXCursor_CXXNewExpr, 134),
        (CXCursorKind::CXCursor_CXXDeleteExpr, 135),
        (CXCursorKind::CXCursor_UnaryExpr, 136),
        (CXCursorKind::CXCursor_ObjCStringLiteral, 137),
        (CXCursorKind::CXCursor_ObjCEncodeExpr, 138),
        (CXCursorKind::CXCursor_ObjCSelectorExpr, 139),
        (CXCursorKind::CXCursor_ObjCProtocolExpr, 140),
        (CXCursorKind::CXCursor_ObjCBridgedCastExpr, 141),
        (CXCursorKind::CXCursor_PackExpansionExpr, 142),
        (CXCursorKind::CXCursor_SizeOfPackExpr, 143),
        (CXCursorKind::CXCursor_LambdaExpr, 144),
        (CXCursorKind::CXCursor_ObjCBoolLiteralExpr, 145),
        (CXCursorKind::CXCursor_ObjCSelfExpr, 146),
        (CXCursorKind::CXCursor_UnexposedStmt, 200),
        (CXCursorKind::CXCursor_LabelStmt, 201),
        (CXCursorKind::CXCursor_CompoundStmt, 202),
        (CXCursorKind::CXCursor_CaseStmt, 203),
        (CXCursorKind::CXCursor_DefaultStmt, 204),
        (CXCursorKind::CXCursor_IfStmt, 205),
        (CXCursorKind::CXCursor_SwitchStmt, 206),
        (CXCursorKind::CXCursor_WhileStmt, 207),
        (CXCursorKind::CXCursor_DoStmt, 208),
        (CXCursorKind::CXCursor_ForStmt, 209),
        (CXCursorKind::CXCursor_GotoStmt, 210),
        (CXCursorKind::CXCursor_IndirectGotoStmt, 211),
        (CXCursorKind::CXCursor_ContinueStmt, 212),
        (CXCursorKind::CXCursor_BreakStmt, 213),
        (CXCursorKind::CXCursor_ReturnStmt, 214),
        (CXCursorKind::CXCursor_GCCAsmStmt, 215),
        (CXCursorKind::CXCursor_ObjCAtTryStmt, 216),
        (CXCursorKind::CXCursor_ObjCAtCatchStmt, 217),
        (CXCursorKind::CXCursor_ObjCAtFinallyStmt, 218),
        (CXCursorKind::CXCursor_ObjCAtThrowStmt, 219),
        (CXCursorKind::CXCursor_ObjCAtSynchronizedStmt, 220),
        (CXCursorKind::CXCursor_ObjCAutoreleasePoolStmt, 221),
        (CXCursorKind::CXCursor_ObjCForCollectionStmt, 222),
        (CXCursorKind::CXCursor_CXXCatchStmt, 223),
        (CXCursorKind::CXCursor_CXXTryStmt, 224),
        (CXCursorKind::CXCursor_CXXForRangeStmt, 225),
        (CXCursorKind::CXCursor_SEHTryStmt, 226),
        (CXCursorKind::CXCursor_SEHExceptStmt, 227),
        (CXCursorKind::CXCursor_SEHFinallyStmt, 228),
        (CXCursorKind::CXCursor_MSAsmStmt, 229),
        (CXCursorKind::CXCursor_NullStmt, 230),
        (CXCursorKind::CXCursor_DeclStmt, 231),
        (CXCursorKind::CXCursor_OMPParallelDirective, 232),
        (CXCursorKind::CXCursor_OMPSimdDirective, 233),
        (CXCursorKind::CXCursor_OMPForDirective, 234),
        (CXCursorKind::CXCursor_OMPSectionsDirective, 235),
        (CXCursorKind::CXCursor_OMPSectionDirective, 236),
        (CXCursorKind::CXCursor_OMPSingleDirective, 237),
        (CXCursorKind::CXCursor_OMPParallelForDirective, 238),
        (CXCursorKind::CXCursor_OMPParallelSectionsDirective, 239),
        (CXCursorKind::CXCursor_OMPTaskDirective, 240),
        (CXCursorKind::CXCursor_OMPMasterDirective, 241),
        (CXCursorKind::CXCursor_OMPCriticalDirective, 242),
        (CXCursorKind::CXCursor_OMPTaskyieldDirective, 243),
        (CXCursorKind::CXCursor_OMPBarrierDirective, 244),
        (CXCursorKind::CXCursor_OMPTaskwaitDirective, 245),
        (CXCursorKind::CXCursor_OMPFlushDirective, 246),
        (CXCursorKind::CXCursor_SEHLeaveStmt, 247),
        (CXCursorKind::CXCursor_OMPOrderedDirective, 248),
        (CXCursorKind::CXCursor_OMPAtomicDirective, 249),
        (CXCursorKind::CXCursor_OMPForSimdDirective, 250),
        (CXCursorKind::CXCursor_OMPParallelForSimdDirective, 251),
        (CXCursorKind::CXCursor_OMPTargetDirective, 252),
        (CXCursorKind::CXCursor_OMPTeamsDirective, 253),
        (CXCursorKind::CXCursor_TranslationUnit, 300),
        (CXCursorKind::CXCursor_UnexposedAttr, 400),
        (CXCursorKind::CXCursor_IBActionAttr, 401),
        (CXCursorKind::CXCursor_IBOutletAttr, 402),
        (CXCursorKind::CXCursor_IBOutletCollectionAttr, 403),
        (CXCursorKind::CXCursor_CXXFinalAttr, 404),
        (CXCursorKind::CXCursor_CXXOverrideAttr, 405),
        (CXCursorKind::CXCursor_AnnotateAttr, 406),
        (CXCursorKind::CXCursor_AsmLabelAttr, 407),
        (CXCursorKind::CXCursor_PackedAttr, 408),
        (CXCursorKind::CXCursor_PureAttr, 409),
        (CXCursorKind::CXCursor_ConstAttr, 410),
        (CXCursorKind::CXCursor_NoDuplicateAttr, 411),
        (CXCursorKind::CXCursor_CUDAConstantAttr, 412),
        (CXCursorKind::CXCursor_CUDADeviceAttr, 413),
        (CXCursorKind::CXCursor_CUDAGlobalAttr, 414),
        (CXCursorKind::CXCursor_CUDAHostAttr, 415),
        (CXCursorKind::CXCursor_CUDASharedAttr, 416),
        (CXCursorKind::CXCursor_PreprocessingDirective, 500),
        (CXCursorKind::CXCursor_MacroDefinition, 501),
        (CXCursorKind::CXCursor_MacroExpansion, 502),
        (CXCursorKind::CXCursor_InclusionDirective, 503),
        (CXCursorKind::CXCursor_ModuleImportDecl, 600),
        (CXCursorKind::CXCursor_OverloadCandidate, 700),
    ];
    for (kind, code) in table.iter() {
        assert_eq!(kind.to_raw(), *code);
        assert_eq!(CXCursorKind::from_raw(*code), Some(*kind));
    }
    for i in 0..table.len() {
        for j in 0..table.len() {
            if i != j {
                assert_ne!(table[i].1, table[j].1);
                assert_ne!(table[i].0, table[j].0);
            }
        }
    }
    assert_eq!(CXCursorKind::from_raw(0), None);
    assert_eq!(CXCursorKind::from_raw(-1), None);
    assert_eq!(CXCursorKind::from_raw(51), None);
    assert_eq!(CXCursorKind::from_raw(69), None);
    assert_eq!(CXCursorKind::from_raw(74), None);
    assert_eq!(CXCursorKind::from_raw(99), None);
    assert_eq!(CXCursorKind::from_raw(147), None);
    assert_eq!(CXCursorKind::from_raw(199), None);
    assert_eq!(CXCursorKind::from_raw(254), None);
    assert_eq!(CXCursorKind::from_raw(299), None);
    assert_eq!(CXCursorKind::from_raw(301), None);
    assert_eq!(CXCursorKind::from_raw(399), None);
    assert_eq!(CXCursorKind::from_raw(417), None);
    assert_eq!(CXCursorKind::from_raw(499), None);
    assert_eq!(CXCursorKind::from_raw(504), None);
    assert_eq!(CXCursorKind::from_raw(599), None);
    assert_eq!(CXCursorKind::from_raw(601), None);
    assert_eq!(CXCursorKind::from_raw(699), None);
    assert_eq!(CXCursorKind::from_raw(701), None);
}

#[test]
fn error_codes() {
    let table: Vec<(CXErrorCode, i32)> = vec![
        (CXErrorCode::CXError_Success, 0),
        (CXErrorCode::CXError_Failure, 1),
        (CXErrorCode::CXError_Crashed, 2),
        (CXErrorCode::CXError_InvalidArguments, 3),
        (CXErrorCode::CXError_ASTReadError, 4),
    ];
    for (kind, code) in table.iter() {
        assert_eq!(kind.to_raw(), *code);
        assert_eq!(CXErrorCode::from_raw(*code), Some(*kind));
    }
    for i in 0..table.len() {
        for j in 0..table.len() {
            if i != j {
                assert_ne!(table[i].1, table[j].1);
                assert_ne!(table[i].0, table[j].0);
            }
        }
    }
    assert_eq!(CXErrorCode::from_raw(-1), None);
    assert_eq!(CXErrorCode::from_raw(5), None);
    assert_eq!(CXErrorCode::from_raw(100), None);
}

#[test]
fn child_visit_codes() {
    let table: Vec<(CXChildVisitResult, i32)> = vec![
        (CXChildVisitResult::CXChildVisit_Break, 0),
        (CXChildVisitResult::CXChildVisit_Continue, 1),
        (CXChildVisitResult::CXChildVisit_Recurse, 2),
    ];
    for (kind, code) in table.iter() {
        assert_eq!(kind.to_raw(), *code);
        assert_eq!(CXChildVisitResult::from_raw(*code), Some(*kind));
    }
    for i in 0..table.len() {
        for j in 0..table.len() {
            if i != j {
                assert_ne!(table[i].1, table[j].1);
                assert_ne!(table[i].0, table[j].0);
            }
        }
    }
    assert_eq!(CXChildVisitResult::from_raw(-1), None);
    assert_eq!(CXChildVisitResult::from_raw(3), None);
}
