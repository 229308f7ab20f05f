use vstd::prelude::*;
use vstd::utf8::encode_utf8;

use crate::cursor_kind::CXCursorKind;
use crate::visit::CXChildVisitResult;

verus! {

/// A cursor as the generator reads it: its kind, its spelling and its
/// mangled name.
pub struct CursorInfo {
    pub kind: CXCursorKind,
    pub spelling: String,
    pub mangling: String,
}

/// A Rust struct item without fields, named after a declaration of the header.
pub struct StructItem {
    pub name: String,
}

/// `suffix` ends `s`, byte for byte, which is how `str::ends_with` decides.
pub open spec fn ends_with(s: Seq<char>, suffix: Seq<char>) -> bool {
    encode_utf8(suffix).is_suffix_of(encode_utf8(s))
}

/// A function declaration has C linkage when its mangled name ends with its
/// plain name: no mangling was added around it.
pub open spec fn spec_is_c_function(cursor: CursorInfo) -> bool {
    ends_with(cursor.mangling@, cursor.spelling@)
}

/// The cursors that the generator handles at the top level of a header: any
/// struct declaration, a typedef with a name, and a function with C linkage.
pub open spec fn handled_at_top_level(cursor: CursorInfo) -> bool {
    match cursor.kind {
        CXCursorKind::CXCursor_StructDecl => true,
        CXCursorKind::CXCursor_TypedefDecl => cursor.spelling@.len() > 0,
        CXCursorKind::CXCursor_FunctionDecl => spec_is_c_function(cursor),
        _ => false,
    }
}

/// The cursors that the generator handles among the children of a typedef:
/// the struct declaration that the typedef names.
pub open spec fn handled_in_typedef(cursor: CursorInfo) -> bool {
    cursor.kind == CXCursorKind::CXCursor_StructDecl
}

fn str_ends_with(s: &str, suffix: &str) -> (r: bool)
    ensures
        r == ends_with(s@, suffix@),
{
    let sb = s.as_bytes();
    let xb = suffix.as_bytes();
    if xb.len() > sb.len() {
        return false;
    }
    let off: usize = sb.len() - xb.len();
    let mut i: usize = 0;
    while i < xb.len()
        invariant
            sb@ == encode_utf8(s@),
            xb@ == encode_utf8(suffix@),
            xb@.len() <= sb@.len(),
            off == sb@.len() - xb@.len(),
            off + xb.len() == sb.len(),
            i <= xb@.len(),
            forall|j: int| 0 <= j < i ==> xb@[j] == sb@[off + j],
        decreases xb.len() - i,
    {
        if xb[i] != sb[off + i] {
            assert(sb@.subrange(off as int, sb@.len() as int)[i as int] == sb@[off + i]);
            return false;
        }
        i = i + 1;
    }
    assert(xb@ =~= sb@.subrange(off as int, sb@.len() as int));
    true
}

/// Whether a cursor names a function with C linkage: its mangled name ends
/// with its plain name.
pub fn is_c_function(cursor: &CursorInfo) -> (r: bool)
    ensures
        r == spec_is_c_function(*cursor),
{
    str_ends_with(cursor.mangling.as_str(), cursor.spelling.as_str())
}

/// The scan of a typedef's children for the struct that the typedef names.
pub struct TypedefScan {
    name: String,
    item: Option<StructItem>,
}

impl TypedefScan {
    #[verifier::type_invariant]
    spec fn wf(self) -> bool {
        &&& self.name@.len() > 0
        &&& self.item matches Some(it) ==> it.name@ == self.name@
    }

    /// The name of the typedef being scanned.
    pub closed spec fn name(self) -> Seq<char> {
        self.name@
    }

    /// Whether the scan has met the struct that the typedef names.
    pub closed spec fn found(self) -> bool {
        self.item is Some
    }

    /// Whether the scan has met the struct that the typedef names; a typedef
    /// whose scan meets none cannot be finished.
    pub fn found_struct(&self) -> (r: bool)
        ensures
            r == self.found(),
    {
        self.item.is_some()
    }

    /// Visits one child of the typedef: the struct it names becomes a field-less
    /// struct item carrying the typedef's name, and the visit goes on.
    pub fn on_child(&mut self, child: &CursorInfo) -> (r: CXChildVisitResult)
        requires
            handled_in_typedef(*child),
        ensures
            final(self).name() == old(self).name(),
            final(self).found(),
            r == CXChildVisitResult::CXChildVisit_Continue,
    {
        proof {
            use_type_invariant(&*self);
        }
        let item = StructItem { name: self.name.clone() };
        self.item = Some(item);
        CXChildVisitResult::CXChildVisit_Continue
    }
}

/// What the generator asks of the visitor after a top-level cursor.
pub enum Step {
    /// Answer libclang with this result.
    Reply(CXChildVisitResult),
    /// Visit the cursor's children with this scan, then hand it to
    /// `Generator::finish_typedef`, whose result is the answer to libclang.
    ScanTypedef(TypedefScan),
}

/// The struct items generated so far from the top-level declarations of a
/// header, in the order in which libclang visited them.
pub struct Generator {
    items: Vec<StructItem>,
}

/// The names of a sequence of items.
pub open spec fn item_names(items: Seq<StructItem>) -> Seq<Seq<char>> {
    items.map_values(|it: StructItem| it.name@)
}

impl Generator {
    #[verifier::type_invariant]
    spec fn wf(self) -> bool {
        forall|i: int| 0 <= i < self.items@.len() ==> (#[trigger] self.items@[i]).name@.len() > 0
    }

    /// The names of the items generated so far, in order.
    pub closed spec fn names(self) -> Seq<Seq<char>> {
        item_names(self.items@)
    }

    /// A generator that has seen no declaration yet.
    pub fn new() -> (g: Generator)
        ensures
            g.names() == Seq::<Seq<char>>::empty(),
    {
        let g = Generator { items: Vec::new() };
        assert(g.names() =~= Seq::<Seq<char>>::empty());
        g
    }

    fn push_item(&mut self, item: StructItem)
        requires
            item.name@.len() > 0,
        ensures
            final(self).names() == old(self).names().push(item.name@),
    {
        proof {
            use_type_invariant(&*self);
        }
        let ghost before = self.items@;
        let mut items: Vec<StructItem> = Vec::new();
        std::mem::swap(&mut items, &mut self.items);
        items.push(item);
        assert(item_names(items@) =~= item_names(before).push(item.name@));
        self.items = items;
    }

    /// Visits a top-level cursor of the header. A named struct declaration
    /// becomes a field-less struct item of that name; an anonymous one adds
    /// nothing; a typedef asks for a scan of its children; a function with C
    /// linkage adds nothing. Every answer to libclang is to continue.
    pub fn on_cursor(&mut self, cursor: &CursorInfo) -> (step: Step)
        requires
            handled_at_top_level(*cursor),
        ensures
            cursor.kind == CXCursorKind::CXCursor_StructDecl && cursor.spelling@.len() > 0
                ==> final(self).names() == old(self).names().push(cursor.spelling@),
            cursor.kind == CXCursorKind::CXCursor_TypedefDecl ==> {
                &&& final(self).names() == old(self).names()
                &&& step matches Step::ScanTypedef(scan) && scan.name() == cursor.spelling@
                    && !scan.found()
            },
            cursor.kind != CXCursorKind::CXCursor_TypedefDecl ==> step == Step::Reply(
                CXChildVisitResult::CXChildVisit_Continue,
            ),
            cursor.kind == CXCursorKind::CXCursor_StructDecl && cursor.spelling@.len() == 0
                ==> final(self).names() == old(self).names(),
            cursor.kind == CXCursorKind::CXCursor_FunctionDecl ==> final(self).names()
                == old(self).names(),
    {
        match cursor.kind {
            CXCursorKind::CXCursor_StructDecl => {
                if !cursor.spelling.as_str().is_empty() {
                    let item = StructItem { name: cursor.spelling.clone() };
                    self.push_item(item);
                }
                Step::Reply(CXChildVisitResult::CXChildVisit_Continue)
            },
            CXCursorKind::CXCursor_TypedefDecl => {
                let scan = TypedefScan { name: cursor.spelling.clone(), item: None };
                Step::ScanTypedef(scan)
            },
            _ => Step::Reply(CXChildVisitResult::CXChildVisit_Continue),
        }
    }

    /// Ends the scan of a typedef: the struct that it named becomes an item
    /// carrying the typedef's name, and the visit goes on.
    pub fn finish_typedef(&mut self, scan: TypedefScan) -> (r: CXChildVisitResult)
        requires
            scan.found(),
        ensures
            final(self).names() == old(self).names().push(scan.name()),
            r == CXChildVisitResult::CXChildVisit_Continue,
    {
        proof {
            use_type_invariant(&scan);
        }
        match scan.item {
            Some(item) => {
                self.push_item(item);
            },
            None => {},
        }
        CXChildVisitResult::CXChildVisit_Continue
    }

    /// The items generated, in the order of their declarations; each of them
    /// has a nonempty name.
    pub fn into_items(self) -> (items: Vec<StructItem>)
        ensures
            item_names(items@) == self.names(),
            forall|i: int| 0 <= i < items@.len() ==> (#[trigger] items@[i]).name@.len() > 0,
    {
        proof {
            use_type_invariant(&self);
        }
        self.items
    }
}

} // verus!
