//! Value types: scalar kinds, an append-only registry of composites built
//! from them, handles that answer layout queries, and byte buffers laid out
//! as a handle says.
use crate::layout::{
    align_up, cursor_after, field_offset, is_abi_align, is_natural_layout, lemma_cursor_monotonic,
    lemma_layout_is_natural, lemma_round_up, lemma_widest_align, shapes_aligned,
    struct_align, struct_offsets, struct_size, widest_align, FieldShape,
};
use crate::abi::{FfiShape, FfiType};
use std::sync::Arc;
use vstd::prelude::*;

verus! {

/// Scalar kinds that a field of a value type can have.
#[derive(Debug, Clone, Copy, PartialEq, Eq, Hash)]
pub enum PrimitiveType {
    Bool,
    U8,
    I16,
    U16,
    I32,
    U32,
    I64,
    U64,
    F32,
    F64,
}

impl PrimitiveType {
    /// Size in bytes of a scalar of this kind.
    pub open spec fn spec_size(self) -> nat {
        match self {
            PrimitiveType::Bool | PrimitiveType::U8 => 1,
            PrimitiveType::I16 | PrimitiveType::U16 => 2,
            PrimitiveType::I32 | PrimitiveType::U32 | PrimitiveType::F32 => 4,
            PrimitiveType::I64 | PrimitiveType::U64 | PrimitiveType::F64 => 8,
        }
    }

    /// A scalar is aligned to its own size.
    pub open spec fn spec_align(self) -> nat {
        self.spec_size()
    }

    /// Size in bytes of a scalar of this kind.
    pub fn size_of(self) -> (n: usize)
        ensures
            n == self.spec_size(),
    {
        match self {
            PrimitiveType::Bool | PrimitiveType::U8 => 1,
            PrimitiveType::I16 | PrimitiveType::U16 => 2,
            PrimitiveType::I32 | PrimitiveType::U32 | PrimitiveType::F32 => 4,
            PrimitiveType::I64 | PrimitiveType::U64 | PrimitiveType::F64 => 8,
        }
    }

    /// Alignment in bytes of a scalar of this kind.
    pub fn align_of(self) -> (n: usize)
        ensures
            n == self.spec_align(),
            is_abi_align(n as nat),
    {
        self.size_of()
    }

    /// How the foreign-call layer describes a scalar of this kind. A boolean
    /// travels as an unsigned byte.
    pub open spec fn spec_ffi_shape(self) -> FfiShape {
        match self {
            PrimitiveType::Bool | PrimitiveType::U8 => FfiShape::U8,
            PrimitiveType::I16 => FfiShape::I16,
            PrimitiveType::U16 => FfiShape::U16,
            PrimitiveType::I32 => FfiShape::I32,
            PrimitiveType::U32 => FfiShape::U32,
            PrimitiveType::I64 => FfiShape::I64,
            PrimitiveType::U64 => FfiShape::U64,
            PrimitiveType::F32 => FfiShape::F32,
            PrimitiveType::F64 => FfiShape::F64,
        }
    }

    fn libffi_type(self) -> (t: FfiType)
        ensures
            t@ == self.spec_ffi_shape(),
    {
        match self {
            PrimitiveType::Bool | PrimitiveType::U8 => FfiType::U8,
            PrimitiveType::I16 => FfiType::I16,
            PrimitiveType::U16 => FfiType::U16,
            PrimitiveType::I32 => FfiType::I32,
            PrimitiveType::U32 => FfiType::U32,
            PrimitiveType::I64 => FfiType::I64,
            PrimitiveType::U64 => FfiType::U64,
            PrimitiveType::F32 => FfiType::F32,
            PrimitiveType::F64 => FfiType::F64,
        }
    }
}

/// What a handle names: a scalar kind, or the composite with a given id.
#[derive(Debug, Clone, Copy, PartialEq, Eq, Hash)]
pub enum TypeKind {
    Primitive(PrimitiveType),
    Struct(u32),
}

/// Size and alignment of a type, in bytes.
#[derive(Debug, Clone, Copy, PartialEq, Eq)]
pub struct Layout {
    size: usize,
    align: usize,
}

impl Layout {
    /// The size in bytes.
    pub closed spec fn spec_size(&self) -> nat {
        self.size as nat
    }

    /// The alignment in bytes.
    pub closed spec fn spec_align(&self) -> nat {
        self.align as nat
    }

    /// The size in bytes.
    pub fn size(&self) -> (n: usize)
        ensures
            n == self.spec_size(),
    {
        self.size
    }

    /// The alignment in bytes.
    pub fn align(&self) -> (n: usize)
        ensures
            n == self.spec_align(),
    {
        self.align
    }
}

/// The mathematical content of one registered composite.
pub struct StructDef {
    pub field_kinds: Seq<TypeKind>,
    pub field_offsets: Seq<nat>,
    pub size: nat,
    pub align: nat,
}

/// Whether `kind` means something in a registry holding `defs`.
pub open spec fn kind_known(defs: Seq<StructDef>, kind: TypeKind) -> bool {
    match kind {
        TypeKind::Primitive(_) => true,
        TypeKind::Struct(id) => id < defs.len(),
    }
}

/// Whether `kind` can be a field of the composite with id `id`: a scalar, or
/// a composite registered before it.
pub open spec fn kind_precedes(kind: TypeKind, id: int) -> bool {
    match kind {
        TypeKind::Primitive(_) => true,
        TypeKind::Struct(j) => j < id,
    }
}

/// The size of a kind in bytes: a scalar's own, a composite's as registered.
pub open spec fn kind_size(defs: Seq<StructDef>, kind: TypeKind) -> nat {
    match kind {
        TypeKind::Primitive(p) => p.spec_size(),
        TypeKind::Struct(id) => defs[id as int].size,
    }
}

/// The alignment of a kind in bytes.
pub open spec fn kind_align(defs: Seq<StructDef>, kind: TypeKind) -> nat {
    match kind {
        TypeKind::Primitive(p) => p.spec_align(),
        TypeKind::Struct(id) => defs[id as int].align,
    }
}

/// What a field of this kind contributes to a layout.
pub open spec fn kind_shape(defs: Seq<StructDef>, kind: TypeKind) -> FieldShape {
    FieldShape { size: kind_size(defs, kind), align: kind_align(defs, kind) }
}

/// A measure that is smaller for every field of a composite than for the
/// composite itself.
pub open spec fn kind_rank(kind: TypeKind) -> nat {
    match kind {
        TypeKind::Primitive(_) => 0,
        TypeKind::Struct(id) => id as nat + 1,
    }
}

/// How the foreign-call layer describes a kind: a scalar by its own
/// descriptor, a composite as the structure of its fields' descriptors.
pub open spec fn kind_ffi_shape(defs: Seq<StructDef>, kind: TypeKind) -> FfiShape
    decreases kind_rank(kind),
{
    match kind {
        TypeKind::Primitive(p) => p.spec_ffi_shape(),
        TypeKind::Struct(id) => {
            let kinds = defs[id as int].field_kinds;
            FfiShape::Structure(
                Seq::new(
                    kinds.len(),
                    |i: int|
                        if 0 <= i < kinds.len() && kind_precedes(kinds[i], id as int) {
                            kind_ffi_shape(defs, kinds[i])
                        } else {
                            FfiShape::U8
                        },
                ),
            )
        },
    }
}

/// The shapes of a list of field kinds.
pub open spec fn shapes_of(defs: Seq<StructDef>, kinds: Seq<TypeKind>) -> Seq<FieldShape> {
    Seq::new(kinds.len(), |i: int| kind_shape(defs, kinds[i]))
}

/// Entry `id` is made of earlier entries and scalars, and records exactly the
/// natural layout of its fields.
pub open spec fn def_consistent(defs: Seq<StructDef>, id: int) -> bool {
    let d = defs[id];
    let shapes = shapes_of(defs, d.field_kinds);
    &&& forall|i: int| 0 <= i < d.field_kinds.len() ==> kind_precedes(#[trigger] d.field_kinds[i], id)
    &&& d.field_offsets == struct_offsets(shapes)
    &&& d.size == struct_size(shapes)
    &&& d.align == struct_align(shapes)
    &&& is_abi_align(d.align)
    &&& d.size <= isize::MAX
}

/// Every entry is consistent.
pub open spec fn defs_consistent(defs: Seq<StructDef>) -> bool {
    forall|id: int| 0 <= id < defs.len() ==> #[trigger] def_consistent(defs, id)
}

/// Every known kind of a consistent registry has one of the ABI's alignments.
pub proof fn lemma_known_kind_aligned(defs: Seq<StructDef>, kind: TypeKind)
    requires
        defs_consistent(defs),
        kind_known(defs, kind),
    ensures
        is_abi_align(kind_align(defs, kind)),
        kind_size(defs, kind) <= isize::MAX,
{
    match kind {
        TypeKind::Primitive(p) => {},
        TypeKind::Struct(id) => {
            assert(def_consistent(defs, id as int));
        },
    }
}

/// The shapes of known kinds all have one of the ABI's alignments.
pub proof fn lemma_shapes_aligned(defs: Seq<StructDef>, kinds: Seq<TypeKind>)
    requires
        defs_consistent(defs),
        forall|i: int| 0 <= i < kinds.len() ==> kind_known(defs, #[trigger] kinds[i]),
    ensures
        shapes_aligned(shapes_of(defs, kinds)),
{
    let shapes = shapes_of(defs, kinds);
    assert forall|i: int| 0 <= i < shapes.len() implies is_abi_align(#[trigger] shapes[i].align) by {
        lemma_known_kind_aligned(defs, kinds[i]);
    }
}

/// A registry that has grown agrees with its earlier self on every kind the
/// earlier one knew, and stays consistent where it was.
pub proof fn lemma_prefix_agrees(before: Seq<StructDef>, after: Seq<StructDef>, kind: TypeKind)
    requires
        before.is_prefix_of(after),
        kind_known(before, kind),
    ensures
        kind_known(after, kind),
        kind_shape(after, kind) == kind_shape(before, kind),
{
    match kind {
        TypeKind::Primitive(p) => {},
        TypeKind::Struct(id) => {
            assert(before[id as int] == after.subrange(0, before.len() as int)[id as int]);
        },
    }
}

proof fn lemma_prefix_def_consistent(before: Seq<StructDef>, after: Seq<StructDef>, id: int)
    requires
        before.is_prefix_of(after),
        0 <= id < before.len(),
        def_consistent(before, id),
    ensures
        def_consistent(after, id),
{
    assert(before[id] == after.subrange(0, before.len() as int)[id]);
    let d = before[id];
    assert(after[id] == d);
    let s1 = shapes_of(before, d.field_kinds);
    let s2 = shapes_of(after, d.field_kinds);
    assert forall|i: int| 0 <= i < d.field_kinds.len() implies s1[i] == s2[i] by {
        assert(kind_precedes(d.field_kinds[i], id));
        lemma_prefix_agrees(before, after, d.field_kinds[i]);
    }
    assert(s1 =~= s2);
}

/// One registered composite.
pub struct StructEntry {
    field_kinds: Vec<TypeKind>,
    field_offsets: Vec<usize>,
    layout: Layout,
}

impl StructEntry {
    /// The mathematical content of the entry.
    pub closed spec fn def(&self) -> StructDef {
        StructDef {
            field_kinds: self.field_kinds@,
            field_offsets: Seq::new(self.field_offsets@.len(), |i: int| self.field_offsets@[i] as nat),
            size: self.layout.size as nat,
            align: self.layout.align as nat,
        }
    }
}

/// An append-only list of composite definitions. Ids are positions in the
/// list, handed out in order and never reused.
pub struct TypeRegistry {
    structs: Vec<Arc<StructEntry>>,
}

impl View for TypeRegistry {
    type V = Seq<StructDef>;

    closed spec fn view(&self) -> Seq<StructDef> {
        Seq::new(self.structs@.len(), |i: int| self.structs@[i].def())
    }
}

impl TypeRegistry {
    /// Every entry records the natural layout of its fields.
    pub open spec fn wf(&self) -> bool {
        defs_consistent(self@)
    }

    /// An empty registry.
    pub fn new() -> (reg: Self)
        ensures
            reg.wf(),
            reg@.len() == 0,
    {
        TypeRegistry { structs: Vec::new() }
    }

    /// A handle for a scalar kind.
    pub fn primitive(&self, ty: PrimitiveType) -> (h: TypeHandle)
        ensures
            h.wf(),
            h.belongs_to(self),
            h.kind() == TypeKind::Primitive(ty),
            h.spec_size() == ty.spec_size(),
            h.spec_align() == ty.spec_align(),
    {
        let empty = TypeRegistry { structs: Vec::new() };
        proof {
            assert(empty@ =~= Seq::<StructDef>::empty());
            assert(empty@.is_prefix_of(self@));
        }
        TypeHandle { registry: Arc::new(empty), kind: TypeKind::Primitive(ty) }
    }

    /// Registers the composite whose fields are `fields`, in that order, and
    /// returns its handle. The new composite gets the next id; nothing
    /// registered before changes.
    pub fn define_struct(&mut self, fields: &[TypeHandle]) -> (h: TypeHandle)
        requires
            old(self).wf(),
            old(self)@.len() < u32::MAX,
            forall|i: int|
                0 <= i < fields@.len() ==> (#[trigger] fields@[i]).wf() && fields@[i].belongs_to(
                    old(self),
                ),
            struct_size(handle_shapes(fields@)) <= isize::MAX,
        ensures
            final(self).wf(),
            old(self)@.is_prefix_of(final(self)@),
            final(self)@.len() == old(self)@.len() + 1,
            h.wf(),
            h.belongs_to(final(self)),
            h.kind() == TypeKind::Struct(old(self)@.len() as u32),
            h.spec_field_kinds() == Seq::new(fields@.len(), |i: int| fields@[i].kind()),
            h.spec_field_offsets() == struct_offsets(handle_shapes(fields@)),
            h.spec_size() == struct_size(handle_shapes(fields@)),
            h.spec_align() == struct_align(handle_shapes(fields@)),
            h.is_struct(),
            h.spec_field_kinds().len() == fields@.len(),
            is_natural_layout(
                handle_shapes(fields@),
                h.spec_field_offsets(),
                h.spec_size(),
                h.spec_align(),
            ),
    {
        let ghost before = self@;
        let field_kinds = self.kinds_of_fields(fields);
        let (field_offsets, layout) = self.compute_layout(field_kinds.as_slice());
        let id: u32 = self.structs.len() as u32;
        let entry = StructEntry { field_kinds, field_offsets, layout };
        let ghost d = entry.def();
        self.structs.push(Arc::new(entry));
        proof {
            let after = self@;
            assert(after =~= before.push(d));
            assert(before.is_prefix_of(after));
            let shapes = shapes_of(before, d.field_kinds);
            assert(d.field_offsets =~= struct_offsets(shapes));
            lemma_shapes_aligned(before, d.field_kinds);
            lemma_layout_is_natural(shapes);
            assert forall|j: int| 0 <= j < d.field_kinds.len() implies kind_precedes(
                #[trigger] d.field_kinds[j],
                id as int,
            ) && kind_shape(after, d.field_kinds[j]) == shapes[j] by {
                lemma_prefix_agrees(before, after, d.field_kinds[j]);
            }
            assert(shapes_of(after, d.field_kinds) =~= shapes);
            assert(def_consistent(after, id as int));
            assert forall|k: int| 0 <= k < after.len() implies #[trigger] def_consistent(after, k) by {
                if k < before.len() {
                    lemma_prefix_def_consistent(before, after, k);
                }
            }
        }
        let snapshot = self.snapshot();
        let h = TypeHandle { registry: Arc::new(snapshot), kind: TypeKind::Struct(id) };
        proof {
            assert(h.registry@.is_prefix_of(self@));
            assert(h.spec_field_kinds() =~= Seq::new(fields@.len(), |i: int| fields@[i].kind()));
            lemma_layout_is_natural(handle_shapes(fields@));
        }
        h
    }

    /// Registers the composite whose fields are `fields`, as `define_struct`
    /// does, where the machine has room for it: the registry can number one
    /// more composite, and the composite's size can be a size of memory.
    /// Otherwise nothing is registered.
    pub fn try_define_struct(&mut self, fields: &[TypeHandle]) -> (r: Option<TypeHandle>)
        requires
            old(self).wf(),
            forall|i: int|
                0 <= i < fields@.len() ==> (#[trigger] fields@[i]).wf() && fields@[i].belongs_to(
                    old(self),
                ),
        ensures
            final(self).wf(),
            r is Some <==> old(self)@.len() < u32::MAX && struct_size(handle_shapes(fields@))
                <= isize::MAX,
            r is None ==> final(self)@ == old(self)@,
            r matches Some(h) ==> {
                &&& old(self)@.is_prefix_of(final(self)@)
                &&& final(self)@.len() == old(self)@.len() + 1
                &&& h.wf()
                &&& h.belongs_to(final(self))
                &&& h.kind() == TypeKind::Struct(old(self)@.len() as u32)
                &&& h.spec_field_kinds() == Seq::new(fields@.len(), |i: int| fields@[i].kind())
                &&& h.spec_field_offsets() == struct_offsets(handle_shapes(fields@))
                &&& h.spec_size() == struct_size(handle_shapes(fields@))
                &&& h.spec_align() == struct_align(handle_shapes(fields@))
                &&& is_natural_layout(
                    handle_shapes(fields@),
                    h.spec_field_offsets(),
                    h.spec_size(),
                    h.spec_align(),
                )
            },
    {
        if self.structs.len() >= u32::MAX as usize {
            return None;
        }
        let field_kinds = self.kinds_of_fields(fields);
        if !self.layout_fits(field_kinds.as_slice()) {
            return None;
        }
        Some(self.define_struct(fields))
    }

    /// The number of composites registered.
    pub fn struct_count(&self) -> (n: usize)
        ensures
            n == self@.len(),
    {
        self.structs.len()
    }

    /// The kinds that `fields` name, which this registry knows with the
    /// shapes that the handles report.
    fn kinds_of_fields(&self, fields: &[TypeHandle]) -> (kinds: Vec<TypeKind>)
        requires
            self.wf(),
            forall|i: int|
                0 <= i < fields@.len() ==> (#[trigger] fields@[i]).wf() && fields@[i].belongs_to(self),
        ensures
            kinds@.len() == fields@.len(),
            forall|j: int| 0 <= j < fields@.len() ==> kinds@[j] == (#[trigger] fields@[j]).kind(),
            forall|j: int| 0 <= j < kinds@.len() ==> kind_known(self@, #[trigger] kinds@[j]),
            shapes_of(self@, kinds@) == handle_shapes(fields@),
    {
        let mut kinds: Vec<TypeKind> = Vec::new();
        let mut i: usize = 0;
        while i < fields.len()
            invariant
                i <= fields@.len(),
                kinds@.len() == i,
                forall|j: int| 0 <= j < i ==> kinds@[j] == (#[trigger] fields@[j]).kind(),
            decreases fields@.len() - i,
        {
            kinds.push(fields[i].kind);
            i += 1;
        }
        proof {
            assert forall|j: int| 0 <= j < kinds@.len() implies kind_known(self@, #[trigger] kinds@[j])
                && kind_shape(self@, kinds@[j]) == handle_shapes(fields@)[j] by {
                assert(fields@[j].wf());
                lemma_prefix_agrees(fields@[j].registry@, self@, fields@[j].kind());
            }
            assert(shapes_of(self@, kinds@) =~= handle_shapes(fields@));
        }
        kinds
    }

    /// Whether a composite of fields of the given kinds has a size that can
    /// be a size of memory.
    fn layout_fits(&self, kinds: &[TypeKind]) -> (fits: bool)
        requires
            self.wf(),
            forall|i: int| 0 <= i < kinds@.len() ==> kind_known(self@, #[trigger] kinds@[i]),
        ensures
            fits == (struct_size(shapes_of(self@, kinds@)) <= isize::MAX),
    {
        let limit: usize = isize::MAX as usize;
        let ghost shapes = shapes_of(self@, kinds@);
        let mut offset: usize = 0;
        let mut max_align: usize = 1;
        let mut i: usize = 0;
        proof {
            lemma_shapes_aligned(self@, kinds@);
            lemma_layout_is_natural(shapes);
        }
        while i < kinds.len()
            invariant
                i <= kinds@.len(),
                limit == isize::MAX,
                shapes == shapes_of(self@, kinds@),
                shapes_aligned(shapes),
                self.wf(),
                forall|k: int| 0 <= k < kinds@.len() ==> kind_known(self@, #[trigger] kinds@[k]),
                cursor_after(shapes, shapes.len()) <= struct_size(shapes),
                offset == cursor_after(shapes, i as nat),
                offset <= limit,
                max_align == widest_align(shapes, i as nat),
                is_abi_align(max_align as nat),
            decreases kinds@.len() - i,
        {
            let field_align = self.align_of_kind(kinds[i]);
            let field_size = self.size_of_kind(kinds[i]);
            proof {
                assert(shapes[i as int] == kind_shape(self@, kinds@[i as int]));
                assert(is_abi_align(shapes[i as int].align));
                lemma_round_up(offset as nat, field_align as nat);
                lemma_cursor_monotonic(shapes, (i + 1) as nat, shapes.len());
            }
            let aligned = align_up(offset, field_align);
            if aligned > limit || field_size > limit - aligned {
                return false;
            }
            if field_align > max_align {
                max_align = field_align;
            }
            offset = aligned + field_size;
            i += 1;
        }
        proof {
            lemma_round_up(offset as nat, max_align as nat);
        }
        let size = align_up(offset, max_align);
        size <= limit
    }

    /// A registry with the same entries, sharing them.
    fn snapshot(&self) -> (copy: TypeRegistry)
        ensures
            copy@ == self@,
    {
        let mut structs: Vec<Arc<StructEntry>> = Vec::new();
        let mut i: usize = 0;
        while i < self.structs.len()
            invariant
                i <= self.structs@.len(),
                structs@.len() == i,
                forall|j: int| 0 <= j < i ==> structs@[j] == self.structs@[j],
            decreases self.structs@.len() - i,
        {
            structs.push(self.structs[i].clone());
            i += 1;
        }
        let copy = TypeRegistry { structs };
        proof {
            assert(copy@ =~= self@);
        }
        copy
    }

    fn size_of_kind(&self, kind: TypeKind) -> (n: usize)
        requires
            kind_known(self@, kind),
        ensures
            n == kind_size(self@, kind),
    {
        match kind {
            TypeKind::Primitive(p) => p.size_of(),
            TypeKind::Struct(id) => self.structs[id as usize].layout.size,
        }
    }

    fn align_of_kind(&self, kind: TypeKind) -> (n: usize)
        requires
            kind_known(self@, kind),
        ensures
            n == kind_align(self@, kind),
    {
        match kind {
            TypeKind::Primitive(p) => p.align_of(),
            TypeKind::Struct(id) => self.structs[id as usize].layout.align,
        }
    }

    fn layout_of_kind(&self, kind: TypeKind) -> (l: Layout)
        requires
            kind_known(self@, kind),
        ensures
            l.spec_size() == kind_size(self@, kind),
            l.spec_align() == kind_align(self@, kind),
    {
        match kind {
            TypeKind::Primitive(p) => Layout { size: p.size_of(), align: p.align_of() },
            TypeKind::Struct(id) => self.structs[id as usize].layout,
        }
    }

    fn field_count_kind(&self, kind: TypeKind) -> (n: usize)
        requires
            kind_known(self@, kind),
            kind is Struct,
        ensures
            n == self@[kind->Struct_0 as int].field_kinds.len(),
    {
        match kind {
            TypeKind::Primitive(_) => 0,
            TypeKind::Struct(id) => self.structs[id as usize].field_kinds.len(),
        }
    }

    fn field_offset_kind(&self, kind: TypeKind, index: usize) -> (n: usize)
        requires
            self.wf(),
            kind_known(self@, kind),
            kind is Struct,
            index < self@[kind->Struct_0 as int].field_kinds.len(),
        ensures
            n == self@[kind->Struct_0 as int].field_offsets[index as int],
    {
        match kind {
            TypeKind::Primitive(_) => 0,
            TypeKind::Struct(id) => {
                proof {
                    let d = self@[id as int];
                    assert(def_consistent(self@, id as int));
                    assert(d.field_offsets.len() == d.field_kinds.len());
                    assert(d.field_offsets[index as int] == self.structs@[id as int].field_offsets@[index as int]);
                }
                self.structs[id as usize].field_offsets[index]
            },
        }
    }

    fn field_kind(&self, kind: TypeKind, index: usize) -> (k: TypeKind)
        requires
            kind_known(self@, kind),
            kind is Struct,
            index < self@[kind->Struct_0 as int].field_kinds.len(),
        ensures
            k == self@[kind->Struct_0 as int].field_kinds[index as int],
    {
        match kind {
            TypeKind::Primitive(p) => TypeKind::Primitive(p),
            TypeKind::Struct(id) => self.structs[id as usize].field_kinds[index],
        }
    }

    fn libffi_type_kind(&self, kind: TypeKind) -> (t: FfiType)
        requires
            self.wf(),
            kind_known(self@, kind),
        ensures
            t@ == kind_ffi_shape(self@, kind),
        decreases kind_rank(kind),
    {
        match kind {
            TypeKind::Primitive(p) => p.libffi_type(),
            TypeKind::Struct(id) => {
                proof {
                    assert(def_consistent(self@, id as int));
                }
                let entry = &self.structs[id as usize];
                let ghost kinds = self@[id as int].field_kinds;
                let mut fields: Vec<FfiType> = Vec::new();
                let mut i: usize = 0;
                while i < entry.field_kinds.len()
                    invariant
                        i <= kinds.len(),
                        self.wf(),
                        id < self@.len(),
                        kind == TypeKind::Struct(id),
                        kinds == self@[id as int].field_kinds,
                        kinds == entry.field_kinds@,
                        forall|k: int| 0 <= k < kinds.len() ==> kind_precedes(#[trigger] kinds[k], id as int),
                        fields@.len() == i,
                        forall|k: int|
                            0 <= k < i ==> (#[trigger] fields@[k])@ == kind_ffi_shape(self@, kinds[k]),
                    decreases kinds.len() - i,
                {
                    let field_kind = entry.field_kinds[i];
                    proof {
                        assert(field_kind == kinds[i as int]);
                        assert(kind_precedes(kinds[i as int], id as int));
                        assert(kind_rank(field_kind) < kind_rank(kind));
                    }
                    fields.push(self.libffi_type_kind(field_kind));
                    i += 1;
                }
                let t = FfiType::Structure(fields);
                proof {
                    assert(t@->Structure_0 =~= kind_ffi_shape(self@, kind)->Structure_0);
                }
                t
            },
        }
    }

    /// Lays out fields of the given kinds one after another.
    fn compute_layout(&self, fields: &[TypeKind]) -> (res: (Vec<usize>, Layout))
        requires
            self.wf(),
            forall|i: int| 0 <= i < fields@.len() ==> kind_known(self@, #[trigger] fields@[i]),
            struct_size(shapes_of(self@, fields@)) <= isize::MAX,
        ensures
            res.0@.len() == fields@.len(),
            forall|i: int|
                0 <= i < fields@.len() ==> (#[trigger] res.0@[i]) == field_offset(
                    shapes_of(self@, fields@),
                    i,
                ),
            res.1.spec_size() == struct_size(shapes_of(self@, fields@)),
            res.1.spec_align() == struct_align(shapes_of(self@, fields@)),
    {
        let ghost shapes = shapes_of(self@, fields@);
        let mut offsets: Vec<usize> = Vec::new();
        let mut offset: usize = 0;
        let mut max_align: usize = 1;
        let mut i: usize = 0;
        proof {
            lemma_shapes_aligned(self@, fields@);
            lemma_layout_is_natural(shapes);
        }
        while i < fields.len()
            invariant
                i <= fields@.len(),
                shapes == shapes_of(self@, fields@),
                shapes_aligned(shapes),
                forall|k: int| 0 <= k < fields@.len() ==> kind_known(self@, #[trigger] fields@[k]),
                struct_size(shapes) <= isize::MAX,
                cursor_after(shapes, shapes.len()) <= struct_size(shapes),
                offsets@.len() == i,
                forall|k: int| 0 <= k < i ==> (#[trigger] offsets@[k]) == field_offset(shapes, k),
                offset == cursor_after(shapes, i as nat),
                max_align == widest_align(shapes, i as nat),
            decreases fields@.len() - i,
        {
            let field_align = self.align_of_kind(fields[i]);
            let field_size = self.size_of_kind(fields[i]);
            proof {
                assert(shapes[i as int] == kind_shape(self@, fields@[i as int]));
                assert(is_abi_align(shapes[i as int].align));
                lemma_round_up(offset as nat, field_align as nat);
                lemma_cursor_monotonic(shapes, (i + 1) as nat, shapes.len());
            }
            if field_align > max_align {
                max_align = field_align;
            }
            offset = align_up(offset, field_align);
            offsets.push(offset);
            offset += field_size;
            i += 1;
        }
        proof {
            lemma_widest_align(shapes, shapes.len());
            lemma_round_up(offset as nat, max_align as nat);
        }
        let size = align_up(offset, max_align);
        (offsets, Layout { size, align: max_align })
    }
}

/// The shapes of the types that a list of handles names.
pub open spec fn handle_shapes(fields: Seq<TypeHandle>) -> Seq<FieldShape> {
    Seq::new(
        fields.len(),
        |i: int| FieldShape { size: fields[i].spec_size(), align: fields[i].spec_align() },
    )
}

/// Names a type of a registry. A handle shares the registry's definitions as
/// they stood when the handle was made; since a registry only grows, that is
/// all the handle ever needs, and what it reports never changes.
pub struct TypeHandle {
    registry: Arc<TypeRegistry>,
    kind: TypeKind,
}

impl Clone for TypeHandle {
    fn clone(&self) -> (h: Self)
        ensures
            h == *self,
    {
        TypeHandle { registry: self.registry.clone(), kind: self.kind }
    }
}

impl TypeHandle {
    /// What the handle names.
    pub closed spec fn kind(&self) -> TypeKind {
        self.kind
    }

    /// The definitions this handle resolves its kind against.
    pub closed spec fn defs(&self) -> Seq<StructDef> {
        self.registry@
    }

    /// The handle's definitions are consistent and know its kind.
    pub open spec fn wf(&self) -> bool {
        &&& defs_consistent(self.defs())
        &&& kind_known(self.defs(), self.kind())
    }

    /// The handle was made by `reg`, now or when `reg` was smaller.
    pub open spec fn belongs_to(&self, reg: &TypeRegistry) -> bool {
        self.defs().is_prefix_of(reg@)
    }

    /// The size of the type in bytes.
    pub open spec fn spec_size(&self) -> nat {
        kind_size(self.defs(), self.kind())
    }

    /// The alignment of the type in bytes.
    pub open spec fn spec_align(&self) -> nat {
        kind_align(self.defs(), self.kind())
    }

    /// Whether the handle names a composite.
    pub open spec fn is_struct(&self) -> bool {
        self.kind() is Struct
    }

    /// The kinds of the fields of a composite.
    pub open spec fn spec_field_kinds(&self) -> Seq<TypeKind>
        recommends
            self.is_struct(),
    {
        self.defs()[self.kind()->Struct_0 as int].field_kinds
    }

    /// The offsets of the fields of a composite.
    pub open spec fn spec_field_offsets(&self) -> Seq<nat>
        recommends
            self.is_struct(),
    {
        self.defs()[self.kind()->Struct_0 as int].field_offsets
    }

    /// The size of the type in bytes.
    pub fn size_of(&self) -> (n: usize)
        requires
            self.wf(),
        ensures
            n == self.spec_size(),
    {
        self.registry.size_of_kind(self.kind)
    }

    /// The alignment of the type in bytes.
    pub fn align_of(&self) -> (n: usize)
        requires
            self.wf(),
        ensures
            n == self.spec_align(),
    {
        self.registry.align_of_kind(self.kind)
    }

    /// The size and alignment of the type.
    pub fn layout(&self) -> (l: Layout)
        requires
            self.wf(),
        ensures
            l.spec_size() == self.spec_size(),
            l.spec_align() == self.spec_align(),
    {
        self.registry.layout_of_kind(self.kind)
    }

    /// The foreign-call descriptor of the type: that of a scalar, or the
    /// structure of the descriptors of a composite's fields, for passing a
    /// value of the type by value.
    pub fn libffi_type(&self) -> (t: FfiType)
        requires
            self.wf(),
        ensures
            t@ == kind_ffi_shape(self.defs(), self.kind()),
    {
        self.registry.libffi_type_kind(self.kind)
    }

    /// Whether the handle names a composite, which alone has fields.
    pub fn has_fields(&self) -> (b: bool)
        ensures
            b == self.is_struct(),
    {
        match self.kind {
            TypeKind::Primitive(_) => false,
            TypeKind::Struct(_) => true,
        }
    }

    /// The number of fields of a composite.
    pub fn field_count(&self) -> (n: usize)
        requires
            self.wf(),
            self.is_struct(),
        ensures
            n == self.spec_field_kinds().len(),
    {
        self.registry.field_count_kind(self.kind)
    }

    /// The byte offset of field `index` of a composite.
    pub fn field_offset(&self, index: usize) -> (n: usize)
        requires
            self.wf(),
            self.is_struct(),
            index < self.spec_field_kinds().len(),
        ensures
            n == self.spec_field_offsets()[index as int],
    {
        self.registry.field_offset_kind(self.kind, index)
    }

    /// A handle for the type of field `index` of a composite.
    pub fn field_type(&self, index: usize) -> (h: TypeHandle)
        requires
            self.wf(),
            self.is_struct(),
            index < self.spec_field_kinds().len(),
        ensures
            h.wf(),
            h.defs() == self.defs(),
            h.kind() == self.spec_field_kinds()[index as int],
    {
        let kind = self.registry.field_kind(self.kind, index);
        proof {
            let id = self.kind->Struct_0 as int;
            assert(def_consistent(self.defs(), id));
            assert(kind_precedes(self.defs()[id].field_kinds[index as int], id));
        }
        TypeHandle { registry: self.registry.clone(), kind }
    }

    /// A zeroed value of this type.
    pub fn default_value(&self) -> (v: ValueTypeData)
        requires
            self.wf(),
        ensures
            v.wf(),
            v.type_handle() == *self,
            v@ == Seq::new(self.spec_size(), |i: int| 0u8),
    {
        ValueTypeData::new(self)
    }
}

/// Whatever a registry grows into, it reports for a handle's kind what the
/// handle itself reports: size, alignment, and for a composite its fields and
/// their offsets. Queries on a handle therefore give the same answers before
/// and after any number of later definitions.
pub proof fn lemma_queries_stable(h: TypeHandle, reg: TypeRegistry)
    requires
        h.wf(),
        h.belongs_to(&reg),
    ensures
        kind_known(reg@, h.kind()),
        kind_size(reg@, h.kind()) == h.spec_size(),
        kind_align(reg@, h.kind()) == h.spec_align(),
        h.is_struct() ==> reg@[h.kind()->Struct_0 as int] == h.defs()[h.kind()->Struct_0 as int],
{
    lemma_prefix_agrees(h.defs(), reg@, h.kind());
    if h.is_struct() {
        let id = h.kind()->Struct_0 as int;
        assert(h.defs()[id] == reg@.subrange(0, h.defs().len() as int)[id]);
    }
}

/// What a well-formed handle of a composite reports is the natural layout of
/// its fields: the offsets, size and alignment are those of `struct_offsets`,
/// `struct_size` and `struct_align` applied to the shapes of its field kinds.
pub proof fn lemma_handle_layout(h: TypeHandle)
    requires
        h.wf(),
        h.is_struct(),
    ensures
        h.spec_field_offsets() == struct_offsets(shapes_of(h.defs(), h.spec_field_kinds())),
        h.spec_size() == struct_size(shapes_of(h.defs(), h.spec_field_kinds())),
        h.spec_align() == struct_align(shapes_of(h.defs(), h.spec_field_kinds())),
        shapes_aligned(shapes_of(h.defs(), h.spec_field_kinds())),
        forall|i: int|
            0 <= i < h.spec_field_kinds().len() ==> kind_known(
                h.defs(),
                #[trigger] h.spec_field_kinds()[i],
            ),
{
    let id = h.kind()->Struct_0 as int;
    assert(def_consistent(h.defs(), id));
    let kinds = h.spec_field_kinds();
    assert forall|i: int| 0 <= i < kinds.len() implies kind_known(h.defs(), #[trigger] kinds[i]) by {
        assert(kind_precedes(kinds[i], id));
    }
    lemma_shapes_aligned(h.defs(), kinds);
}

/// A value of a registered type: a buffer of as many bytes as the type's
/// size, zeroed at first, read and written field by field.
pub struct ValueTypeData {
    type_handle: TypeHandle,
    data: Vec<u8>,
}

impl View for ValueTypeData {
    type V = Seq<u8>;

    closed spec fn view(&self) -> Seq<u8> {
        self.data@
    }
}

impl Clone for ValueTypeData {
    /// A copy with its own storage.
    fn clone(&self) -> (v: Self)
        ensures
            v@ == self@,
            v.type_handle() == self.type_handle(),
    {
        let mut data: Vec<u8> = Vec::new();
        let mut i: usize = 0;
        while i < self.data.len()
            invariant
                i <= self.data@.len(),
                data@ == self.data@.subrange(0, i as int),
            decreases self.data@.len() - i,
        {
            data.push(self.data[i]);
            proof {
                assert(data@ =~= self.data@.subrange(0, i + 1));
            }
            i += 1;
        }
        proof {
            assert(data@ =~= self.data@);
        }
        ValueTypeData { type_handle: self.type_handle.clone(), data }
    }
}

impl ValueTypeData {
    /// The type of the value.
    pub closed spec fn type_handle(&self) -> TypeHandle {
        self.type_handle
    }

    /// The buffer is as long as its type is large.
    pub open spec fn wf(&self) -> bool {
        &&& self.type_handle().wf()
        &&& self@.len() == self.type_handle().spec_size()
    }

    /// Where field `index` lies in the buffer.
    pub open spec fn field_start(&self, index: int) -> int {
        self.type_handle().spec_field_offsets()[index] as int
    }

    /// How many bytes field `index` takes.
    pub open spec fn field_len(&self, index: int) -> int {
        kind_size(self.type_handle().defs(), self.type_handle().spec_field_kinds()[index]) as int
    }

    fn new(handle: &TypeHandle) -> (v: Self)
        requires
            handle.wf(),
        ensures
            v.wf(),
            v.type_handle() == *handle,
            v@ == Seq::new(handle.spec_size(), |i: int| 0u8),
    {
        let size = handle.size_of();
        let mut data: Vec<u8> = Vec::new();
        let mut i: usize = 0;
        while i < size
            invariant
                i <= size,
                data@.len() == i,
                forall|k: int| 0 <= k < i ==> data@[k] == 0u8,
            decreases size - i,
        {
            data.push(0u8);
            i += 1;
        }
        proof {
            assert(data@ =~= Seq::new(handle.spec_size(), |i: int| 0u8));
        }
        ValueTypeData { type_handle: handle.clone(), data }
    }

    /// The type of the value.
    pub fn handle(&self) -> (h: &TypeHandle)
        ensures
            *h == self.type_handle(),
    {
        &self.type_handle
    }

    /// The whole buffer.
    pub fn as_bytes(&self) -> (bytes: &Vec<u8>)
        ensures
            bytes@ == self@,
    {
        &self.data
    }

    /// The bytes of field `index`.
    pub fn get_field(&self, index: usize) -> (bytes: Vec<u8>)
        requires
            self.wf(),
            self.type_handle().is_struct(),
            index < self.type_handle().spec_field_kinds().len(),
        ensures
            bytes@ == self@.subrange(
                self.field_start(index as int),
                self.field_start(index as int) + self.field_len(index as int),
            ),
    {
        let offset = self.type_handle.field_offset(index);
        let size = self.type_handle.field_type(index).size_of();
        proof {
            self.lemma_field_in_bounds(index as int);
        }
        let total = self.data.len();
        let mut bytes: Vec<u8> = Vec::new();
        let mut i: usize = 0;
        while i < size
            invariant
                i <= size,
                total == self.data@.len(),
                offset + size <= total,
                bytes@ == self.data@.subrange(offset as int, offset + i),
            decreases size - i,
        {
            bytes.push(self.data[offset + i]);
            proof {
                assert(bytes@ =~= self.data@.subrange(offset as int, offset + i + 1));
            }
            i += 1;
        }
        bytes
    }

    /// Overwrites field `index` with `value`, which must be exactly as long as
    /// the field.
    pub fn set_field(&mut self, index: usize, value: &[u8])
        requires
            old(self).wf(),
            old(self).type_handle().is_struct(),
            index < old(self).type_handle().spec_field_kinds().len(),
            value@.len() == old(self).field_len(index as int),
        ensures
            final(self).wf(),
            final(self).type_handle() == old(self).type_handle(),
            final(self)@.len() == old(self)@.len(),
            forall|k: int|
                0 <= k < old(self)@.len() ==> (#[trigger] final(self)@[k]) == (if old(self).field_start(
                    index as int,
                ) <= k < old(self).field_start(index as int) + value@.len() {
                    value@[k - old(self).field_start(index as int)]
                } else {
                    old(self)@[k]
                }),
    {
        let offset = self.type_handle.field_offset(index);
        let size = self.type_handle.field_type(index).size_of();
        proof {
            self.lemma_field_in_bounds(index as int);
        }
        let total = self.data.len();
        let mut i: usize = 0;
        while i < size
            invariant
                i <= size,
                size == value@.len(),
                total == self.data@.len(),
                offset + size <= total,
                self.data@.len() == old(self).data@.len(),
                self.type_handle == old(self).type_handle,
                forall|k: int|
                    0 <= k < self.data@.len() ==> (#[trigger] self.data@[k]) == (if offset <= k < offset
                        + i {
                        value@[k - offset]
                    } else {
                        old(self).data@[k]
                    }),
            decreases size - i,
        {
            self.data.set(offset + i, value[i]);
            i += 1;
        }
    }

    /// A field of a well-formed value lies inside the buffer.
    proof fn lemma_field_in_bounds(&self, index: int)
        requires
            self.wf(),
            self.type_handle().is_struct(),
            0 <= index < self.type_handle().spec_field_kinds().len(),
        ensures
            0 <= self.field_start(index),
            self.field_start(index) + self.field_len(index) <= self@.len(),
    {
        let h = self.type_handle();
        lemma_handle_layout(h);
        let shapes = shapes_of(h.defs(), h.spec_field_kinds());
        lemma_layout_is_natural(shapes);
        assert(struct_offsets(shapes)[index] + shapes[index].size <= struct_size(shapes));
    }
}

} // verus!
