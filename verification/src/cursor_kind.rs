use vstd::prelude::*;

verus! {

/// The kind of entity that a libclang cursor points at.

#[derive(Debug, Clone, Copy, PartialEq, Eq, Structural)]
pub enum CXCursorKind {
    CXCursor_UnexposedDecl,
    CXCursor_StructDecl,
    CXCursor_UnionDecl,
    CXCursor_ClassDecl,
    CXCursor_EnumDecl,
    CXCursor_FieldDecl,
    CXCursor_EnumConstantDecl,
    CXCursor_FunctionDecl,
    CXCursor_VarDecl,
    CXCursor_ParmDecl,
    CXCursor_ObjCInterfaceDecl,
    CXCursor_ObjCCategoryDecl,
    CXCursor_ObjCProtocolDecl,
    CXCursor_ObjCPropertyDecl,
    CXCursor_ObjCIvarDecl,
    CXCursor_ObjCInstanceMethodDecl,
    CXCursor_ObjCClassMethodDecl,
    CXCursor_ObjCImplementationDecl,
    CXCursor_ObjCCategoryImplDecl,
    CXCursor_TypedefDecl,
    CXCursor_CXXMethod,
    CXCursor_Namespace,
    CXCursor_LinkageSpec,
    CXCursor_Constructor,
    CXCursor_Destructor,
    CXCursor_ConversionFunction,
    CXCursor_TemplateTypeParameter,
    CXCursor_NonTypeTemplateParameter,
    CXCursor_TemplateTemplateParameter,
    CXCursor_FunctionTemplate,
    CXCursor_ClassTemplate,
    CXCursor_ClassTemplatePartialSpecialization,
    CXCursor_NamespaceAlias,
    CXCursor_UsingDirective,
    CXCursor_UsingDeclaration,
    CXCursor_TypeAliasDecl,
    CXCursor_ObjCSynthesizeDecl,
    CXCursor_ObjCDynamicDecl,
    CXCursor_CXXAccessSpecifier,
    CXCursor_ObjCSuperClassRef,
    CXCursor_ObjCProtocolRef,
    CXCursor_ObjCClassRef,
    CXCursor_TypeRef,
    CXCursor_CXXBaseSpecifier,
    CXCursor_TemplateRef,
    CXCursor_NamespaceRef,
    CXCursor_MemberRef,
    CXCursor_LabelRef,
    CXCursor_OverloadedDeclRef,
    CXCursor_VariableRef,
    CXCursor_InvalidFile,
    CXCursor_NoDeclFound,
    CXCursor_NotImplemented,
    CXCursor_InvalidCode,
    CXCursor_UnexposedExpr,
    CXCursor_DeclRefExpr,
    CXCursor_MemberRefExpr,
    CXCursor_CallExpr,
    CXCursor_ObjCMessageExpr,
    CXCursor_BlockExpr,
    CXCursor_IntegerLiteral,
    CXCursor_FloatingLiteral,
    CXCursor_ImaginaryLiteral,
    CXCursor_StringLiteral,
    CXCursor_CharacterLiteral,
    CXCursor_ParenExpr,
    CXCursor_UnaryOperator,
    CXCursor_ArraySubscriptExpr,
    CXCursor_BinaryOperator,
    CXCursor_CompoundAssignOperator,
    CXCursor_ConditionalOperator,
    CXCursor_CStyleCastExpr,
    CXCursor_CompoundLiteralExpr,
    CXCursor_InitListExpr,
    CXCursor_AddrLabelExpr,
    CXCursor_StmtExpr,
    CXCursor_GenericSelectionExpr,
    CXCursor_GNUNullExpr,
    CXCursor_CXXStaticCastExpr,
    CXCursor_CXXDynamicCastExpr,
    CXCursor_CXXReinterpretCastExpr,
    CXCursor_CXXConstCastExpr,
    CXCursor_CXXFunctionalCastExpr,
    CXCursor_CXXTypeidExpr,
    CXCursor_CXXBoolLiteralExpr,
    CXCursor_CXXNullPtrLiteralExpr,
    CXCursor_CXXThisExpr,
    CXCursor_CXXThrowExpr,
    CXCursor_CXXNewExpr,
    CXCursor_CXXDeleteExpr,
    CXCursor_UnaryExpr,
    CXCursor_ObjCStringLiteral,
    CXCursor_ObjCEncodeExpr,
    CXCursor_ObjCSelectorExpr,
    CXCursor_ObjCProtocolExpr,
    CXCursor_ObjCBridgedCastExpr,
    CXCursor_PackExpansionExpr,
    CXCursor_SizeOfPackExpr,
    CXCursor_LambdaExpr,
    CXCursor_ObjCBoolLiteralExpr,
    CXCursor_ObjCSelfExpr,
    CXCursor_UnexposedStmt,
    CXCursor_LabelStmt,
    CXCursor_CompoundStmt,
    CXCursor_CaseStmt,
    CXCursor_DefaultStmt,
    CXCursor_IfStmt,
    CXCursor_SwitchStmt,
    CXCursor_WhileStmt,
    CXCursor_DoStmt,
    CXCursor_ForStmt,
    CXCursor_GotoStmt,
    CXCursor_IndirectGotoStmt,
    CXCursor_ContinueStmt,
    CXCursor_BreakStmt,
    CXCursor_ReturnStmt,
    CXCursor_GCCAsmStmt,
    CXCursor_ObjCAtTryStmt,
    CXCursor_ObjCAtCatchStmt,
    CXCursor_ObjCAtFinallyStmt,
    CXCursor_ObjCAtThrowStmt,
    CXCursor_ObjCAtSynchronizedStmt,
    CXCursor_ObjCAutoreleasePoolStmt,
    CXCursor_ObjCForCollectionStmt,
    CXCursor_CXXCatchStmt,
    CXCursor_CXXTryStmt,
    CXCursor_CXXForRangeStmt,
    CXCursor_SEHTryStmt,
    CXCursor_SEHExceptStmt,
    CXCursor_SEHFinallyStmt,
    CXCursor_MSAsmStmt,
    CXCursor_NullStmt,
    CXCursor_DeclStmt,
    CXCursor_OMPParallelDirective,
    CXCursor_OMPSimdDirective,
    CXCursor_OMPForDirective,
    CXCursor_OMPSectionsDirective,
    CXCursor_OMPSectionDirective,
    CXCursor_OMPSingleDirective,
    CXCursor_OMPParallelForDirective,
    CXCursor_OMPParallelSectionsDirective,
    CXCursor_OMPTaskDirective,
    CXCursor_OMPMasterDirective,
    CXCursor_OMPCriticalDirective,
    CXCursor_OMPTaskyieldDirective,
    CXCursor_OMPBarrierDirective,
    CXCursor_OMPTaskwaitDirective,
    CXCursor_OMPFlushDirective,
    CXCursor_SEHLeaveStmt,
    CXCursor_OMPOrderedDirective,
    CXCursor_OMPAtomicDirective,
    CXCursor_OMPForSimdDirective,
    CXCursor_OMPParallelForSimdDirective,
    CXCursor_OMPTargetDirective,
    CXCursor_OMPTeamsDirective,
    CXCursor_TranslationUnit,
    CXCursor_UnexposedAttr,
    CXCursor_IBActionAttr,
    CXCursor_IBOutletAttr,
    CXCursor_IBOutletCollectionAttr,
    CXCursor_CXXFinalAttr,
    CXCursor_CXXOverrideAttr,
    CXCursor_AnnotateAttr,
    CXCursor_AsmLabelAttr,
    CXCursor_PackedAttr,
    CXCursor_PureAttr,
    CXCursor_ConstAttr,
    CXCursor_NoDuplicateAttr,
    CXCursor_CUDAConstantAttr,
    CXCursor_CUDADeviceAttr,
    CXCursor_CUDAGlobalAttr,
    CXCursor_CUDAHostAttr,
    CXCursor_CUDASharedAttr,
    CXCursor_PreprocessingDirective,
    CXCursor_MacroDefinition,
    CXCursor_MacroExpansion,
    CXCursor_InclusionDirective,
    CXCursor_ModuleImportDecl,
    CXCursor_OverloadCandidate,
}

impl CXCursorKind {
    /// The C `int` by which libclang knows this cursor kind.
    pub open spec fn code(self) -> libc::c_int {
        match self {
            CXCursorKind::CXCursor_UnexposedDecl => 1,
            CXCursorKind::CXCursor_StructDecl => 2,
            CXCursorKind::CXCursor_UnionDecl => 3,
            CXCursorKind::CXCursor_ClassDecl => 4,
            CXCursorKind::CXCursor_EnumDecl => 5,
            CXCursorKind::CXCursor_FieldDecl => 6,
            CXCursorKind::CXCursor_EnumConstantDecl => 7,
            CXCursorKind::CXCursor_FunctionDecl => 8,
            CXCursorKind::CXCursor_VarDecl => 9,
            CXCursorKind::CXCursor_ParmDecl => 10,
            CXCursorKind::CXCursor_ObjCInterfaceDecl => 11,
            CXCursorKind::CXCursor_ObjCCategoryDecl => 12,
            CXCursorKind::CXCursor_ObjCProtocolDecl => 13,
            CXCursorKind::CXCursor_ObjCPropertyDecl => 14,
            CXCursorKind::CXCursor_ObjCIvarDecl => 15,
            CXCursorKind::CXCursor_ObjCInstanceMethodDecl => 16,
            CXCursorKind::CXCursor_ObjCClassMethodDecl => 17,
            CXCursorKind::CXCursor_ObjCImplementationDecl => 18,
            CXCursorKind::CXCursor_ObjCCategoryImplDecl => 19,
            CXCursorKind::CXCursor_TypedefDecl => 20,
            CXCursorKind::CXCursor_CXXMethod => 21,
            CXCursorKind::CXCursor_Namespace => 22,
            CXCursorKind::CXCursor_LinkageSpec => 23,
            CXCursorKind::CXCursor_Constructor => 24,
            CXCursorKind::CXCursor_Destructor => 25,
            CXCursorKind::CXCursor_ConversionFunction => 26,
            CXCursorKind::CXCursor_TemplateTypeParameter => 27,
            CXCursorKind::CXCursor_NonTypeTemplateParameter => 28,
            CXCursorKind::CXCursor_TemplateTemplateParameter => 29,
            CXCursorKind::CXCursor_FunctionTemplate => 30,
            CXCursorKind::CXCursor_ClassTemplate => 31,
            CXCursorKind::CXCursor_ClassTemplatePartialSpecialization => 32,
            CXCursorKind::CXCursor_NamespaceAlias => 33,
            CXCursorKind::CXCursor_UsingDirective => 34,
            CXCursorKind::CXCursor_UsingDeclaration => 35,
            CXCursorKind::CXCursor_TypeAliasDecl => 36,
            CXCursorKind::CXCursor_ObjCSynthesizeDecl => 37,
            CXCursorKind::CXCursor_ObjCDynamicDecl => 38,
            CXCursorKind::CXCursor_CXXAccessSpecifier => 39,
            CXCursorKind::CXCursor_ObjCSuperClassRef => 40,
            CXCursorKind::CXCursor_ObjCProtocolRef => 41,
            CXCursorKind::CXCursor_ObjCClassRef => 42,
            CXCursorKind::CXCursor_TypeRef => 43,
            CXCursorKind::CXCursor_CXXBaseSpecifier => 44,
            CXCursorKind::CXCursor_TemplateRef => 45,
            CXCursorKind::CXCursor_NamespaceRef => 46,
            CXCursorKind::CXCursor_MemberRef => 47,
            CXCursorKind::CXCursor_LabelRef => 48,
            CXCursorKind::CXCursor_OverloadedDeclRef => 49,
            CXCursorKind::CXCursor_VariableRef => 50,
            CXCursorKind::CXCursor_InvalidFile => 70,
            CXCursorKind::CXCursor_NoDeclFound => 71,
            CXCursorKind::CXCursor_NotImplemented => 72,
            CXCursorKind::CXCursor_InvalidCode => 73,
            CXCursorKind::CXCursor_UnexposedExpr => 100,
            CXCursorKind::CXCursor_DeclRefExpr => 101,
            CXCursorKind::CXCursor_MemberRefExpr => 102,
            CXCursorKind::CXCursor_CallExpr => 103,
            CXCursorKind::CXCursor_ObjCMessageExpr => 104,
            CXCursorKind::CXCursor_BlockExpr => 105,
            CXCursorKind::CXCursor_IntegerLiteral => 106,
            CXCursorKind::CXCursor_FloatingLiteral => 107,
            CXCursorKind::CXCursor_ImaginaryLiteral => 108,
            CXCursorKind::CXCursor_StringLiteral => 109,
            CXCursorKind::CXCursor_CharacterLiteral => 110,
            CXCursorKind::CXCursor_ParenExpr => 111,
            CXCursorKind::CXCursor_UnaryOperator => 112,
            CXCursorKind::CXCursor_ArraySubscriptExpr => 113,
            CXCursorKind::CXCursor_BinaryOperator => 114,
            CXCursorKind::CXCursor_CompoundAssignOperator => 115,
            CXCursorKind::CXCursor_ConditionalOperator => 116,
            CXCursorKind::CXCursor_CStyleCastExpr => 117,
            CXCursorKind::CXCursor_CompoundLiteralExpr => 118,
            CXCursorKind::CXCursor_InitListExpr => 119,
            CXCursorKind::CXCursor_AddrLabelExpr => 120,
            CXCursorKind::CXCursor_StmtExpr => 121,
            CXCursorKind::CXCursor_GenericSelectionExpr => 122,
            CXCursorKind::CXCursor_GNUNullExpr => 123,
            CXCursorKind::CXCursor_CXXStaticCastExpr => 124,
            CXCursorKind::CXCursor_CXXDynamicCastExpr => 125,
            CXCursorKind::CXCursor_CXXReinterpretCastExpr => 126,
            CXCursorKind::CXCursor_CXXConstCastExpr => 127,
            CXCursorKind::CXCursor_CXXFunctionalCastExpr => 128,
            CXCursorKind::CXCursor_CXXTypeidExpr => 129,
            CXCursorKind::CXCursor_CXXBoolLiteralExpr => 130,
            CXCursorKind::CXCursor_CXXNullPtrLiteralExpr => 131,
            CXCursorKind::CXCursor_CXXThisExpr => 132,
            CXCursorKind::CXCursor_CXXThrowExpr => 133,
            CXCursorKind::CXCursor_CXXNewExpr => 134,
            CXCursorKind::CXCursor_CXXDeleteExpr => 135,
            CXCursorKind::CXCursor_UnaryExpr => 136,
            CXCursorKind::CXCursor_ObjCStringLiteral => 137,
            CXCursorKind::CXCursor_ObjCEncodeExpr => 138,
            CXCursorKind::CXCursor_ObjCSelectorExpr => 139,
            CXCursorKind::CXCursor_ObjCProtocolExpr => 140,
            CXCursorKind::CXCursor_ObjCBridgedCastExpr => 141,
            CXCursorKind::CXCursor_PackExpansionExpr => 142,
            CXCursorKind::CXCursor_SizeOfPackExpr => 143,
            CXCursorKind::CXCursor_LambdaExpr => 144,
            CXCursorKind::CXCursor_ObjCBoolLiteralExpr => 145,
            CXCursorKind::CXCursor_ObjCSelfExpr => 146,
            CXCursorKind::CXCursor_UnexposedStmt => 200,
            CXCursorKind::CXCursor_LabelStmt => 201,
            CXCursorKind::CXCursor_CompoundStmt => 202,
            CXCursorKind::CXCursor_CaseStmt => 203,
            CXCursorKind::CXCursor_DefaultStmt => 204,
            CXCursorKind::CXCursor_IfStmt => 205,
            CXCursorKind::CXCursor_SwitchStmt => 206,
            CXCursorKind::CXCursor_WhileStmt => 207,
            CXCursorKind::CXCursor_DoStmt => 208,
            CXCursorKind::CXCursor_ForStmt => 209,
            CXCursorKind::CXCursor_GotoStmt => 210,
            CXCursorKind::CXCursor_IndirectGotoStmt => 211,
            CXCursorKind::CXCursor_ContinueStmt => 212,
            CXCursorKind::CXCursor_BreakStmt => 213,
            CXCursorKind::CXCursor_ReturnStmt => 214,
            CXCursorKind::CXCursor_GCCAsmStmt => 215,
            CXCursorKind::CXCursor_ObjCAtTryStmt => 216,
            CXCursorKind::CXCursor_ObjCAtCatchStmt => 217,
            CXCursorKind::CXCursor_ObjCAtFinallyStmt => 218,
            CXCursorKind::CXCursor_ObjCAtThrowStmt => 219,
            CXCursorKind::CXCursor_ObjCAtSynchronizedStmt => 220,
            CXCursorKind::CXCursor_ObjCAutoreleasePoolStmt => 221,
            CXCursorKind::CXCursor_ObjCForCollectionStmt => 222,
            CXCursorKind::CXCursor_CXXCatchStmt => 223,
            CXCursorKind::CXCursor_CXXTryStmt => 224,
            CXCursorKind::CXCursor_CXXForRangeStmt => 225,
            CXCursorKind::CXCursor_SEHTryStmt => 226,
            CXCursorKind::CXCursor_SEHExceptStmt => 227,
            CXCursorKind::CXCursor_SEHFinallyStmt => 228,
            CXCursorKind::CXCursor_MSAsmStmt => 229,
            CXCursorKind::CXCursor_NullStmt => 230,
            CXCursorKind::CXCursor_DeclStmt => 231,
            CXCursorKind::CXCursor_OMPParallelDirective => 232,
            CXCursorKind::CXCursor_OMPSimdDirective => 233,
            CXCursorKind::CXCursor_OMPForDirective => 234,
            CXCursorKind::CXCursor_OMPSectionsDirective => 235,
            CXCursorKind::CXCursor_OMPSectionDirective => 236,
            CXCursorKind::CXCursor_OMPSingleDirective => 237,
            CXCursorKind::CXCursor_OMPParallelForDirective => 238,
            CXCursorKind::CXCursor_OMPParallelSectionsDirective => 239,
            CXCursorKind::CXCursor_OMPTaskDirective => 240,
            CXCursorKind::CXCursor_OMPMasterDirective => 241,
            CXCursorKind::CXCursor_OMPCriticalDirective => 242,
            CXCursorKind::CXCursor_OMPTaskyieldDirective => 243,
            CXCursorKind::CXCursor_OMPBarrierDirective => 244,
            CXCursorKind::CXCursor_OMPTaskwaitDirective => 245,
            CXCursorKind::CXCursor_OMPFlushDirective => 246,
            CXCursorKind::CXCursor_SEHLeaveStmt => 247,
            CXCursorKind::CXCursor_OMPOrderedDirective => 248,
            CXCursorKind::CXCursor_OMPAtomicDirective => 249,
            CXCursorKind::CXCursor_OMPForSimdDirective => 250,
            CXCursorKind::CXCursor_OMPParallelForSimdDirective => 251,
            CXCursorKind::CXCursor_OMPTargetDirective => 252,
            CXCursorKind::CXCursor_OMPTeamsDirective => 253,
            CXCursorKind::CXCursor_TranslationUnit => 300,
            CXCursorKind::CXCursor_UnexposedAttr => 400,
            CXCursorKind::CXCursor_IBActionAttr => 401,
            CXCursorKind::CXCursor_IBOutletAttr => 402,
            CXCursorKind::CXCursor_IBOutletCollectionAttr => 403,
            CXCursorKind::CXCursor_CXXFinalAttr => 404,
            CXCursorKind::CXCursor_CXXOverrideAttr => 405,
            CXCursorKind::CXCursor_AnnotateAttr => 406,
            CXCursorKind::CXCursor_AsmLabelAttr => 407,
            CXCursorKind::CXCursor_PackedAttr => 408,
            CXCursorKind::CXCursor_PureAttr => 409,
            CXCursorKind::CXCursor_ConstAttr => 410,
            CXCursorKind::CXCursor_NoDuplicateAttr => 411,
            CXCursorKind::CXCursor_CUDAConstantAttr => 412,
            CXCursorKind::CXCursor_CUDADeviceAttr => 413,
            CXCursorKind::CXCursor_CUDAGlobalAttr => 414,
            CXCursorKind::CXCursor_CUDAHostAttr => 415,
            CXCursorKind::CXCursor_CUDASharedAttr => 416,
            CXCursorKind::CXCursor_PreprocessingDirective => 500,
            CXCursorKind::CXCursor_MacroDefinition => 501,
            CXCursorKind::CXCursor_MacroExpansion => 502,
            CXCursorKind::CXCursor_InclusionDirective => 503,
            CXCursorKind::CXCursor_ModuleImportDecl => 600,
            CXCursorKind::CXCursor_OverloadCandidate => 700,
        }
    }

    /// The code of this cursor kind, as libclang reads it.
    pub fn to_raw(&self) -> (r: libc::c_int)
        ensures
            r == self.code(),
    {
        match self {
            CXCursorKind::CXCursor_UnexposedDecl => 1,
            CXCursorKind::CXCursor_StructDecl => 2,
            CXCursorKind::CXCursor_UnionDecl => 3,
            CXCursorKind::CXCursor_ClassDecl => 4,
            CXCursorKind::CXCursor_EnumDecl => 5,
            CXCursorKind::CXCursor_FieldDecl => 6,
            CXCursorKind::CXCursor_EnumConstantDecl => 7,
            CXCursorKind::CXCursor_FunctionDecl => 8,
            CXCursorKind::CXCursor_VarDecl => 9,
            CXCursorKind::CXCursor_ParmDecl => 10,
            CXCursorKind::CXCursor_ObjCInterfaceDecl => 11,
            CXCursorKind::CXCursor_ObjCCategoryDecl => 12,
            CXCursorKind::CXCursor_ObjCProtocolDecl => 13,
            CXCursorKind::CXCursor_ObjCPropertyDecl => 14,
            CXCursorKind::CXCursor_ObjCIvarDecl => 15,
            CXCursorKind::CXCursor_ObjCInstanceMethodDecl => 16,
            CXCursorKind::CXCursor_ObjCClassMethodDecl => 17,
            CXCursorKind::CXCursor_ObjCImplementationDecl => 18,
            CXCursorKind::CXCursor_ObjCCategoryImplDecl => 19,
            CXCursorKind::CXCursor_TypedefDecl => 20,
            CXCursorKind::CXCursor_CXXMethod => 21,
            CXCursorKind::CXCursor_Namespace => 22,
            CXCursorKind::CXCursor_LinkageSpec => 23,
            CXCursorKind::CXCursor_Constructor => 24,
            CXCursorKind::CXCursor_Destructor => 25,
            CXCursorKind::CXCursor_ConversionFunction => 26,
            CXCursorKind::CXCursor_TemplateTypeParameter => 27,
            CXCursorKind::CXCursor_NonTypeTemplateParameter => 28,
            CXCursorKind::CXCursor_TemplateTemplateParameter => 29,
            CXCursorKind::CXCursor_FunctionTemplate => 30,
            CXCursorKind::CXCursor_ClassTemplate => 31,
            CXCursorKind::CXCursor_ClassTemplatePartialSpecialization => 32,
            CXCursorKind::CXCursor_NamespaceAlias => 33,
            CXCursorKind::CXCursor_UsingDirective => 34,
            CXCursorKind::CXCursor_UsingDeclaration => 35,
            CXCursorKind::CXCursor_TypeAliasDecl => 36,
            CXCursorKind::CXCursor_ObjCSynthesizeDecl => 37,
            CXCursorKind::CXCursor_ObjCDynamicDecl => 38,
            CXCursorKind::CXCursor_CXXAccessSpecifier => 39,
            CXCursorKind::CXCursor_ObjCSuperClassRef => 40,
            CXCursorKind::CXCursor_ObjCProtocolRef => 41,
            CXCursorKind::CXCursor_ObjCClassRef => 42,
            CXCursorKind::CXCursor_TypeRef => 43,
            CXCursorKind::CXCursor_CXXBaseSpecifier => 44,
            CXCursorKind::CXCursor_TemplateRef => 45,
            CXCursorKind::CXCursor_NamespaceRef => 46,
            CXCursorKind::CXCursor_MemberRef => 47,
            CXCursorKind::CXCursor_LabelRef => 48,
            CXCursorKind::CXCursor_OverloadedDeclRef => 49,
            CXCursorKind::CXCursor_VariableRef => 50,
            CXCursorKind::CXCursor_InvalidFile => 70,
            CXCursorKind::CXCursor_NoDeclFound => 71,
            CXCursorKind::CXCursor_NotImplemented => 72,
            CXCursorKind::CXCursor_InvalidCode => 73,
            CXCursorKind::CXCursor_UnexposedExpr => 100,
            CXCursorKind::CXCursor_DeclRefExpr => 101,
            CXCursorKind::CXCursor_MemberRefExpr => 102,
            CXCursorKind::CXCursor_CallExpr => 103,
            CXCursorKind::CXCursor_ObjCMessageExpr => 104,
            CXCursorKind::CXCursor_BlockExpr => 105,
            CXCursorKind::CXCursor_IntegerLiteral => 106,
            CXCursorKind::CXCursor_FloatingLiteral => 107,
            CXCursorKind::CXCursor_ImaginaryLiteral => 108,
            CXCursorKind::CXCursor_StringLiteral => 109,
            CXCursorKind::CXCursor_CharacterLiteral => 110,
            CXCursorKind::CXCursor_ParenExpr => 111,
            CXCursorKind::CXCursor_UnaryOperator => 112,
            CXCursorKind::CXCursor_ArraySubscriptExpr => 113,
            CXCursorKind::CXCursor_BinaryOperator => 114,
            CXCursorKind::CXCursor_CompoundAssignOperator => 115,
            CXCursorKind::CXCursor_ConditionalOperator => 116,
            CXCursorKind::CXCursor_CStyleCastExpr => 117,
            CXCursorKind::CXCursor_CompoundLiteralExpr => 118,
            CXCursorKind::CXCursor_InitListExpr => 119,
            CXCursorKind::CXCursor_AddrLabelExpr => 120,
            CXCursorKind::CXCursor_StmtExpr => 121,
            CXCursorKind::CXCursor_GenericSelectionExpr => 122,
            CXCursorKind::CXCursor_GNUNullExpr => 123,
            CXCursorKind::CXCursor_CXXStaticCastExpr => 124,
            CXCursorKind::CXCursor_CXXDynamicCastExpr => 125,
            CXCursorKind::CXCursor_CXXReinterpretCastExpr => 126,
            CXCursorKind::CXCursor_CXXConstCastExpr => 127,
            CXCursorKind::CXCursor_CXXFunctionalCastExpr => 128,
            CXCursorKind::CXCursor_CXXTypeidExpr => 129,
            CXCursorKind::CXCursor_CXXBoolLiteralExpr => 130,
            CXCursorKind::CXCursor_CXXNullPtrLiteralExpr => 131,
            CXCursorKind::CXCursor_CXXThisExpr => 132,
            CXCursorKind::CXCursor_CXXThrowExpr => 133,
            CXCursorKind::CXCursor_CXXNewExpr => 134,
            CXCursorKind::CXCursor_CXXDeleteExpr => 135,
            CXCursorKind::CXCursor_UnaryExpr => 136,
            CXCursorKind::CXCursor_ObjCStringLiteral => 137,
            CXCursorKind::CXCursor_ObjCEncodeExpr => 138,
            CXCursorKind::CXCursor_ObjCSelectorExpr => 139,
            CXCursorKind::CXCursor_ObjCProtocolExpr => 140,
            CXCursorKind::CXCursor_ObjCBridgedCastExpr => 141,
            CXCursorKind::CXCursor_PackExpansionExpr => 142,
            CXCursorKind::CXCursor_SizeOfPackExpr => 143,
            CXCursorKind::CXCursor_LambdaExpr => 144,
            CXCursorKind::CXCursor_ObjCBoolLiteralExpr => 145,
            CXCursorKind::CXCursor_ObjCSelfExpr => 146,
            CXCursorKind::CXCursor_UnexposedStmt => 200,
            CXCursorKind::CXCursor_LabelStmt => 201,
            CXCursorKind::CXCursor_CompoundStmt => 202,
            CXCursorKind::CXCursor_CaseStmt => 203,
            CXCursorKind::CXCursor_DefaultStmt => 204,
            CXCursorKind::CXCursor_IfStmt => 205,
            CXCursorKind::CXCursor_SwitchStmt => 206,
            CXCursorKind::CXCursor_WhileStmt => 207,
            CXCursorKind::CXCursor_DoStmt => 208,
            CXCursorKind::CXCursor_ForStmt => 209,
            CXCursorKind::CXCursor_GotoStmt => 210,
            CXCursorKind::CXCursor_IndirectGotoStmt => 211,
            CXCursorKind::CXCursor_ContinueStmt => 212,
            CXCursorKind::CXCursor_BreakStmt => 213,
            CXCursorKind::CXCursor_ReturnStmt => 214,
            CXCursorKind::CXCursor_GCCAsmStmt => 215,
            CXCursorKind::CXCursor_ObjCAtTryStmt => 216,
            CXCursorKind::CXCursor_ObjCAtCatchStmt => 217,
            CXCursorKind::CXCursor_ObjCAtFinallyStmt => 218,
            CXCursorKind::CXCursor_ObjCAtThrowStmt => 219,
            CXCursorKind::CXCursor_ObjCAtSynchronizedStmt => 220,
            CXCursorKind::CXCursor_ObjCAutoreleasePoolStmt => 221,
            CXCursorKind::CXCursor_ObjCForCollectionStmt => 222,
            CXCursorKind::CXCursor_CXXCatchStmt => 223,
            CXCursorKind::CXCursor_CXXTryStmt => 224,
            CXCursorKind::CXCursor_CXXForRangeStmt => 225,
            CXCursorKind::CXCursor_SEHTryStmt => 226,
            CXCursorKind::CXCursor_SEHExceptStmt => 227,
            CXCursorKind::CXCursor_SEHFinallyStmt => 228,
            CXCursorKind::CXCursor_MSAsmStmt => 229,
            CXCursorKind::CXCursor_NullStmt => 230,
            CXCursorKind::CXCursor_DeclStmt => 231,
            CXCursorKind::CXCursor_OMPParallelDirective => 232,
            CXCursorKind::CXCursor_OMPSimdDirective => 233,
            CXCursorKind::CXCursor_OMPForDirective => 234,
            CXCursorKind::CXCursor_OMPSectionsDirective => 235,
            CXCursorKind::CXCursor_OMPSectionDirective => 236,
            CXCursorKind::CXCursor_OMPSingleDirective => 237,
            CXCursorKind::CXCursor_OMPParallelForDirective => 238,
            CXCursorKind::CXCursor_OMPParallelSectionsDirective => 239,
            CXCursorKind::CXCursor_OMPTaskDirective => 240,
            CXCursorKind::CXCursor_OMPMasterDirective => 241,
            CXCursorKind::CXCursor_OMPCriticalDirective => 242,
            CXCursorKind::CXCursor_OMPTaskyieldDirective => 243,
            CXCursorKind::CXCursor_OMPBarrierDirective => 244,
            CXCursorKind::CXCursor_OMPTaskwaitDirective => 245,
            CXCursorKind::CXCursor_OMPFlushDirective => 246,
            CXCursorKind::CXCursor_SEHLeaveStmt => 247,
            CXCursorKind::CXCursor_OMPOrderedDirective => 248,
            CXCursorKind::CXCursor_OMPAtomicDirective => 249,
            CXCursorKind::CXCursor_OMPForSimdDirective => 250,
            CXCursorKind::CXCursor_OMPParallelForSimdDirective => 251,
            CXCursorKind::CXCursor_OMPTargetDirective => 252,
            CXCursorKind::CXCursor_OMPTeamsDirective => 253,
            CXCursorKind::CXCursor_TranslationUnit => 300,
            CXCursorKind::CXCursor_UnexposedAttr => 400,
            CXCursorKind::CXCursor_IBActionAttr => 401,
            CXCursorKind::CXCursor_IBOutletAttr => 402,
            CXCursorKind::CXCursor_IBOutletCollectionAttr => 403,
            CXCursorKind::CXCursor_CXXFinalAttr => 404,
            CXCursorKind::CXCursor_CXXOverrideAttr => 405,
            CXCursorKind::CXCursor_AnnotateAttr => 406,
            CXCursorKind::CXCursor_AsmLabelAttr => 407,
            CXCursorKind::CXCursor_PackedAttr => 408,
            CXCursorKind::CXCursor_PureAttr => 409,
            CXCursorKind::CXCursor_ConstAttr => 410,
            CXCursorKind::CXCursor_NoDuplicateAttr => 411,
            CXCursorKind::CXCursor_CUDAConstantAttr => 412,
            CXCursorKind::CXCursor_CUDADeviceAttr => 413,
            CXCursorKind::CXCursor_CUDAGlobalAttr => 414,
            CXCursorKind::CXCursor_CUDAHostAttr => 415,
            CXCursorKind::CXCursor_CUDASharedAttr => 416,
            CXCursorKind::CXCursor_PreprocessingDirective => 500,
            CXCursorKind::CXCursor_MacroDefinition => 501,
            CXCursorKind::CXCursor_MacroExpansion => 502,
            CXCursorKind::CXCursor_InclusionDirective => 503,
            CXCursorKind::CXCursor_ModuleImportDecl => 600,
            CXCursorKind::CXCursor_OverloadCandidate => 700,
        }
    }

    /// The cursor kind whose code is `v`, or `None` where no cursor kind has it.
    pub fn from_raw(v: libc::c_int) -> (res: Option<CXCursorKind>)
        ensures
            res matches Some(k) ==> k.code() == v,
            res is None ==> forall|k: CXCursorKind| #[trigger] k.code() != v,
    {
        match v {
            1 => Some(CXCursorKind::CXCursor_UnexposedDecl),
            2 => Some(CXCursorKind::CXCursor_StructDecl),
            3 => Some(CXCursorKind::CXCursor_UnionDecl),
            4 => Some(CXCursorKind::CXCursor_ClassDecl),
            5 => Some(CXCursorKind::CXCursor_EnumDecl),
            6 => Some(CXCursorKind::CXCursor_FieldDecl),
            7 => Some(CXCursorKind::CXCursor_EnumConstantDecl),
            8 => Some(CXCursorKind::CXCursor_FunctionDecl),
            9 => Some(CXCursorKind::CXCursor_VarDecl),
            10 => Some(CXCursorKind::CXCursor_ParmDecl),
            11 => Some(CXCursorKind::CXCursor_ObjCInterfaceDecl),
            12 => Some(CXCursorKind::CXCursor_ObjCCategoryDecl),
            13 => Some(CXCursorKind::CXCursor_ObjCProtocolDecl),
            14 => Some(CXCursorKind::CXCursor_ObjCPropertyDecl),
            15 => Some(CXCursorKind::CXCursor_ObjCIvarDecl),
            16 => Some(CXCursorKind::CXCursor_ObjCInstanceMethodDecl),
            17 => Some(CXCursorKind::CXCursor_ObjCClassMethodDecl),
            18 => Some(CXCursorKind::CXCursor_ObjCImplementationDecl),
            19 => Some(CXCursorKind::CXCursor_ObjCCategoryImplDecl),
            20 => Some(CXCursorKind::CXCursor_TypedefDecl),
            21 => Some(CXCursorKind::CXCursor_CXXMethod),
            22 => Some(CXCursorKind::CXCursor_Namespace),
            23 => Some(CXCursorKind::CXCursor_LinkageSpec),
            24 => Some(CXCursorKind::CXCursor_Constructor),
            25 => Some(CXCursorKind::CXCursor_Destructor),
            26 => Some(CXCursorKind::CXCursor_ConversionFunction),
            27 => Some(CXCursorKind::CXCursor_TemplateTypeParameter),
            28 => Some(CXCursorKind::CXCursor_NonTypeTemplateParameter),
            29 => Some(CXCursorKind::CXCursor_TemplateTemplateParameter),
            30 => Some(CXCursorKind::CXCursor_FunctionTemplate),
            31 => Some(CXCursorKind::CXCursor_ClassTemplate),
            32 => Some(CXCursorKind::CXCursor_ClassTemplatePartialSpecialization),
            33 => Some(CXCursorKind::CXCursor_NamespaceAlias),
            34 => Some(CXCursorKind::CXCursor_UsingDirective),
            35 => Some(CXCursorKind::CXCursor_UsingDeclaration),
            36 => Some(CXCursorKind::CXCursor_TypeAliasDecl),
            37 => Some(CXCursorKind::CXCursor_ObjCSynthesizeDecl),
            38 => Some(CXCursorKind::CXCursor_ObjCDynamicDecl),
            39 => Some(CXCursorKind::CXCursor_CXXAccessSpecifier),
            40 => Some(CXCursorKind::CXCursor_ObjCSuperClassRef),
            41 => Some(CXCursorKind::CXCursor_ObjCProtocolRef),
            42 => Some(CXCursorKind::CXCursor_ObjCClassRef),
            43 => Some(CXCursorKind::CXCursor_TypeRef),
            44 => Some(CXCursorKind::CXCursor_CXXBaseSpecifier),
            45 => Some(CXCursorKind::CXCursor_TemplateRef),
            46 => Some(CXCursorKind::CXCursor_NamespaceRef),
            47 => Some(CXCursorKind::CXCursor_MemberRef),
            48 => Some(CXCursorKind::CXCursor_LabelRef),
            49 => Some(CXCursorKind::CXCursor_OverloadedDeclRef),
            50 => Some(CXCursorKind::CXCursor_VariableRef),
            70 => Some(CXCursorKind::CXCursor_InvalidFile),
            71 => Some(CXCursorKind::CXCursor_NoDeclFound),
            72 => Some(CXCursorKind::CXCursor_NotImplemented),
            73 => Some(CXCursorKind::CXCursor_InvalidCode),
            100 => Some(CXCursorKind::CXCursor_UnexposedExpr),
            101 => Some(CXCursorKind::CXCursor_DeclRefExpr),
            102 => Some(CXCursorKind::CXCursor_MemberRefExpr),
            103 => Some(CXCursorKind::CXCursor_CallExpr),
            104 => Some(CXCursorKind::CXCursor_ObjCMessageExpr),
            105 => Some(CXCursorKind::CXCursor_BlockExpr),
            106 => Some(CXCursorKind::CXCursor_IntegerLiteral),
            107 => Some(CXCursorKind::CXCursor_FloatingLiteral),
            108 => Some(CXCursorKind::CXCursor_ImaginaryLiteral),
            109 => Some(CXCursorKind::CXCursor_StringLiteral),
            110 => Some(CXCursorKind::CXCursor_CharacterLiteral),
            111 => Some(CXCursorKind::CXCursor_ParenExpr),
            112 => Some(CXCursorKind::CXCursor_UnaryOperator),
            113 => Some(CXCursorKind::CXCursor_ArraySubscriptExpr),
            114 => Some(CXCursorKind::CXCursor_BinaryOperator),
            115 => Some(CXCursorKind::CXCursor_CompoundAssignOperator),
            116 => Some(CXCursorKind::CXCursor_ConditionalOperator),
            117 => Some(CXCursorKind::CXCursor_CStyleCastExpr),
            118 => Some(CXCursorKind::CXCursor_CompoundLiteralExpr),
            119 => Some(CXCursorKind::CXCursor_InitListExpr),
            120 => Some(CXCursorKind::CXCursor_AddrLabelExpr),
            121 => Some(CXCursorKind::CXCursor_StmtExpr),
            122 => Some(CXCursorKind::CXCursor_GenericSelectionExpr),
            123 => Some(CXCursorKind::CXCursor_GNUNullExpr),
            124 => Some(CXCursorKind::CXCursor_CXXStaticCastExpr),
            125 => Some(CXCursorKind::CXCursor_CXXDynamicCastExpr),
            126 => Some(CXCursorKind::CXCursor_CXXReinterpretCastExpr),
            127 => Some(CXCursorKind::CXCursor_CXXConstCastExpr),
            128 => Some(CXCursorKind::CXCursor_CXXFunctionalCastExpr),
            129 => Some(CXCursorKind::CXCursor_CXXTypeidExpr),
            130 => Some(CXCursorKind::CXCursor_CXXBoolLiteralExpr),
            131 => Some(CXCursorKind::CXCursor_CXXNullPtrLiteralExpr),
            132 => Some(CXCursorKind::CXCursor_CXXThisExpr),
            133 => Some(CXCursorKind::CXCursor_CXXThrowExpr),
            134 => Some(CXCursorKind::CXCursor_CXXNewExpr),
            135 => Some(CXCursorKind::CXCursor_CXXDeleteExpr),
            136 => Some(CXCursorKind::CXCursor_UnaryExpr),
            137 => Some(CXCursorKind::CXCursor_ObjCStringLiteral),
            138 => Some(CXCursorKind::CXCursor_ObjCEncodeExpr),
            139 => Some(CXCursorKind::CXCursor_ObjCSelectorExpr),
            140 => Some(CXCursorKind::CXCursor_ObjCProtocolExpr),
            141 => Some(CXCursorKind::CXCursor_ObjCBridgedCastExpr),
            142 => Some(CXCursorKind::CXCursor_PackExpansionExpr),
            143 => Some(CXCursorKind::CXCursor_SizeOfPackExpr),
            144 => Some(CXCursorKind::CXCursor_LambdaExpr),
            145 => Some(CXCursorKind::CXCursor_ObjCBoolLiteralExpr),
            146 => Some(CXCursorKind::CXCursor_ObjCSelfExpr),
            200 => Some(CXCursorKind::CXCursor_UnexposedStmt),
            201 => Some(CXCursorKind::CXCursor_LabelStmt),
            202 => Some(CXCursorKind::CXCursor_CompoundStmt),
            203 => Some(CXCursorKind::CXCursor_CaseStmt),
            204 => Some(CXCursorKind::CXCursor_DefaultStmt),
            205 => Some(CXCursorKind::CXCursor_IfStmt),
            206 => Some(CXCursorKind::CXCursor_SwitchStmt),
            207 => Some(CXCursorKind::CXCursor_WhileStmt),
            208 => Some(CXCursorKind::CXCursor_DoStmt),
            209 => Some(CXCursorKind::CXCursor_ForStmt),
            210 => Some(CXCursorKind::CXCursor_GotoStmt),
            211 => Some(CXCursorKind::CXCursor_IndirectGotoStmt),
            212 => Some(CXCursorKind::CXCursor_ContinueStmt),
            213 => Some(CXCursorKind::CXCursor_BreakStmt),
            214 => Some(CXCursorKind::CXCursor_ReturnStmt),
            215 => Some(CXCursorKind::CXCursor_GCCAsmStmt),
            216 => Some(CXCursorKind::CXCursor_ObjCAtTryStmt),
            217 => Some(CXCursorKind::CXCursor_ObjCAtCatchStmt),
            218 => Some(CXCursorKind::CXCursor_ObjCAtFinallyStmt),
            219 => Some(CXCursorKind::CXCursor_ObjCAtThrowStmt),
            220 => Some(CXCursorKind::CXCursor_ObjCAtSynchronizedStmt),
            221 => Some(CXCursorKind::CXCursor_ObjCAutoreleasePoolStmt),
            222 => Some(CXCursorKind::CXCursor_ObjCForCollectionStmt),
            223 => Some(CXCursorKind::CXCursor_CXXCatchStmt),
            224 => Some(CXCursorKind::CXCursor_CXXTryStmt),
            225 => Some(CXCursorKind::CXCursor_CXXForRangeStmt),
            226 => Some(CXCursorKind::CXCursor_SEHTryStmt),
            227 => Some(CXCursorKind::CXCursor_SEHExceptStmt),
            228 => Some(CXCursorKind::CXCursor_SEHFinallyStmt),
            229 => Some(CXCursorKind::CXCursor_MSAsmStmt),
            230 => Some(CXCursorKind::CXCursor_NullStmt),
            231 => Some(CXCursorKind::CXCursor_DeclStmt),
            232 => Some(CXCursorKind::CXCursor_OMPParallelDirective),
            233 => Some(CXCursorKind::CXCursor_OMPSimdDirective),
            234 => Some(CXCursorKind::CXCursor_OMPForDirective),
            235 => Some(CXCursorKind::CXCursor_OMPSectionsDirective),
            236 => Some(CXCursorKind::CXCursor_OMPSectionDirective),
            237 => Some(CXCursorKind::CXCursor_OMPSingleDirective),
            238 => Some(CXCursorKind::CXCursor_OMPParallelForDirective),
            239 => Some(CXCursorKind::CXCursor_OMPParallelSectionsDirective),
            240 => Some(CXCursorKind::CXCursor_OMPTaskDirective),
            241 => Some(CXCursorKind::CXCursor_OMPMasterDirective),
            242 => Some(CXCursorKind::CXCursor_OMPCriticalDirective),
            243 => Some(CXCursorKind::CXCursor_OMPTaskyieldDirective),
            244 => Some(CXCursorKind::CXCursor_OMPBarrierDirective),
            245 => Some(CXCursorKind::CXCursor_OMPTaskwaitDirective),
            246 => Some(CXCursorKind::CXCursor_OMPFlushDirective),
            247 => Some(CXCursorKind::CXCursor_SEHLeaveStmt),
            248 => Some(CXCursorKind::CXCursor_OMPOrderedDirective),
            249 => Some(CXCursorKind::CXCursor_OMPAtomicDirective),
            250 => Some(CXCursorKind::CXCursor_OMPForSimdDirective),
            251 => Some(CXCursorKind::CXCursor_OMPParallelForSimdDirective),
            252 => Some(CXCursorKind::CXCursor_OMPTargetDirective),
            253 => Some(CXCursorKind::CXCursor_OMPTeamsDirective),
            300 => Some(CXCursorKind::CXCursor_TranslationUnit),
            400 => Some(CXCursorKind::CXCursor_UnexposedAttr),
            401 => Some(CXCursorKind::CXCursor_IBActionAttr),
            402 => Some(CXCursorKind::CXCursor_IBOutletAttr),
            403 => Some(CXCursorKind::CXCursor_IBOutletCollectionAttr),
            404 => Some(CXCursorKind::CXCursor_CXXFinalAttr),
            405 => Some(CXCursorKind::CXCursor_CXXOverrideAttr),
            406 => Some(CXCursorKind::CXCursor_AnnotateAttr),
            407 => Some(CXCursorKind::CXCursor_AsmLabelAttr),
            408 => Some(CXCursorKind::CXCursor_PackedAttr),
            409 => Some(CXCursorKind::CXCursor_PureAttr),
            410 => Some(CXCursorKind::CXCursor_ConstAttr),
            411 => Some(CXCursorKind::CXCursor_NoDuplicateAttr),
            412 => Some(CXCursorKind::CXCursor_CUDAConstantAttr),
            413 => Some(CXCursorKind::CXCursor_CUDADeviceAttr),
            414 => Some(CXCursorKind::CXCursor_CUDAGlobalAttr),
            415 => Some(CXCursorKind::CXCursor_CUDAHostAttr),
            416 => Some(CXCursorKind::CXCursor_CUDASharedAttr),
            500 => Some(CXCursorKind::CXCursor_PreprocessingDirective),
            501 => Some(CXCursorKind::CXCursor_MacroDefinition),
            502 => Some(CXCursorKind::CXCursor_MacroExpansion),
            503 => Some(CXCursorKind::CXCursor_InclusionDirective),
            600 => Some(CXCursorKind::CXCursor_ModuleImportDecl),
            700 => Some(CXCursorKind::CXCursor_OverloadCandidate),
            _ => None,
        }
    }
}

/// Distinct cursor kinds have distinct codes: a code names at most one cursor kind, so
/// `from_raw` gives back the cursor kind whose code `to_raw` gave.
pub proof fn lemma_cursor_kind_codes_distinct(a: CXCursorKind, b: CXCursorKind)
    requires
        a.code() == b.code(),
    ensures
        a == b,
{
}

} // verus!
