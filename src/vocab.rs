//! The decoration vocabulary and its typed payloads.
//!
//! SPIR-V enumerants (storage classes, built-ins, execution models and modes,
//! image dimensions and formats, access qualifiers) are held as their SPIR-V
//! word values.
use vstd::prelude::*;

verus! {

/// A source location, kept for diagnostics only.
#[derive(Clone, Copy, Debug, PartialEq, Eq, Structural)]
pub struct Span {
    pub lo: u32,
    pub hi: u32,
}

/// A value paired with the location it came from.
#[derive(Clone, Copy, Debug)]
pub struct Spanned<T> {
    pub value: T,
    pub span: Span,
}

/// Up to three literal operands of an execution mode.
#[derive(Clone, Copy, Debug)]
pub struct ExecutionModeExtra {
    args: [u32; 3],
    len: u8,
}

impl View for ExecutionModeExtra {
    type V = Seq<u32>;

    closed spec fn view(&self) -> Seq<u32> {
        self.args@.subrange(0, self.len as int)
    }
}

impl ExecutionModeExtra {
    #[verifier::type_invariant]
    spec fn inv(&self) -> bool {
        self.len <= 3
    }

    pub fn new(args: &[u32]) -> (r: Self)
        requires
            args@.len() <= 3,
        ensures
            r@ == args@,
    {
        let n = args.len();
        let a0: u32 = if n > 0 { args[0] } else { 0 };
        let a1: u32 = if n > 1 { args[1] } else { 0 };
        let a2: u32 = if n > 2 { args[2] } else { 0 };
        let r = ExecutionModeExtra { args: [a0, a1, a2], len: n as u8 };
        assert(r@ =~= args@);
        r
    }

    /// The operands, in order.
    pub fn as_ref(&self) -> (r: Vec<u32>)
        ensures
            r@ == self@,
            r@.len() <= 3,
    {
        proof {
            use_type_invariant(self);
        }
        let mut r: Vec<u32> = Vec::new();
        let n = self.len as usize;
        let mut i: usize = 0;
        while i < n
            invariant
                n == self.len as usize,
                n <= 3,
                i <= n,
                r@ =~= self.args@.subrange(0, i as int),
            decreases n - i,
        {
            r.push(self.args[i]);
            i = i + 1;
        }
        assert(r@ =~= self@);
        r
    }
}

/// An entry-point decoration: an execution model, the execution modes in
/// the order written, and an optional exported name.
#[derive(Clone, Debug)]
pub struct Entry {
    pub execution_model: u32,
    pub execution_modes: Vec<(u32, ExecutionModeExtra)>,
    pub name: Option<String>,
}

/// What an entry-point decoration holds, as plain values.
pub struct EntryModel {
    pub execution_model: u32,
    pub execution_modes: Seq<(u32, Seq<u32>)>,
    pub name: Option<Seq<char>>,
}

pub open spec fn name_view(n: Option<String>) -> Option<Seq<char>> {
    match n {
        Some(s) => Some(s@),
        None => None,
    }
}

impl View for Entry {
    type V = EntryModel;

    open spec fn view(&self) -> EntryModel {
        EntryModel {
            execution_model: self.execution_model,
            execution_modes: self.execution_modes@.map_values(|m: (u32, ExecutionModeExtra)| (m.0, m.1@)),
            name: name_view(self.name),
        }
    }
}

impl Entry {
    /// An entry point of the given execution model, with no execution modes
    /// and no name.
    pub fn from(execution_model: u32) -> (r: Self)
        ensures
            r@ == (EntryModel { execution_model, execution_modes: Seq::empty(), name: None }),
    {
        let r = Entry { execution_model, execution_modes: Vec::new(), name: None };
        assert(r@.execution_modes =~= Seq::empty());
        r
    }
}

/// `struct` types that stand for special SPIR-V types.
#[derive(Clone, Copy, Debug, PartialEq, Eq, Structural)]
pub enum IntrinsicType {
    ImageType {
        dim: u32,
        depth: u32,
        arrayed: u32,
        multisampled: u32,
        sampled: u32,
        image_format: u32,
        access_qualifier: Option<u32>,
    },
    Sampler,
    SampledImage,
}

/// One parsed decoration.
#[derive(Clone, Debug)]
pub enum SpirvAttribute {
    // `struct` decorations:
    IntrinsicType(IntrinsicType),
    Block,
    // `fn` decorations:
    Entry(Entry),
    // (entry) `fn` parameter decorations:
    StorageClass(u32),
    Builtin(u32),
    DescriptorSet(u32),
    Binding(u32),
    Flat,
    // `fn` and closure decorations:
    UnrollLoops,
}

/// What a decoration holds, as plain values.
pub enum AttrModel {
    IntrinsicType(IntrinsicType),
    Block,
    Entry(EntryModel),
    StorageClass(u32),
    Builtin(u32),
    DescriptorSet(u32),
    Binding(u32),
    Flat,
    UnrollLoops,
}

impl View for SpirvAttribute {
    type V = AttrModel;

    open spec fn view(&self) -> AttrModel {
        match self {
            SpirvAttribute::IntrinsicType(t) => AttrModel::IntrinsicType(*t),
            SpirvAttribute::Block => AttrModel::Block,
            SpirvAttribute::Entry(e) => AttrModel::Entry(e@),
            SpirvAttribute::StorageClass(w) => AttrModel::StorageClass(*w),
            SpirvAttribute::Builtin(w) => AttrModel::Builtin(*w),
            SpirvAttribute::DescriptorSet(n) => AttrModel::DescriptorSet(*n),
            SpirvAttribute::Binding(n) => AttrModel::Binding(*n),
            SpirvAttribute::Flat => AttrModel::Flat,
            SpirvAttribute::UnrollLoops => AttrModel::UnrollLoops,
        }
    }
}

/// The categories of decorations: a position holds at most one of each.
#[derive(Clone, Copy, Debug, PartialEq, Eq, Structural)]
pub enum Category {
    IntrinsicType,
    Block,
    Entry,
    StorageClass,
    Builtin,
    DescriptorSet,
    Binding,
    Flat,
    UnrollLoops,
}

pub open spec fn category_of(a: AttrModel) -> Category {
    match a {
        AttrModel::IntrinsicType(_) => Category::IntrinsicType,
        AttrModel::Block => Category::Block,
        AttrModel::Entry(_) => Category::Entry,
        AttrModel::StorageClass(_) => Category::StorageClass,
        AttrModel::Builtin(_) => Category::Builtin,
        AttrModel::DescriptorSet(_) => Category::DescriptorSet,
        AttrModel::Binding(_) => Category::Binding,
        AttrModel::Flat => Category::Flat,
        AttrModel::UnrollLoops => Category::UnrollLoops,
    }
}

impl SpirvAttribute {
    pub fn category(&self) -> (r: Category)
        ensures
            r == category_of(self@),
    {
        match self {
            SpirvAttribute::IntrinsicType(_) => Category::IntrinsicType,
            SpirvAttribute::Block => Category::Block,
            SpirvAttribute::Entry(_) => Category::Entry,
            SpirvAttribute::StorageClass(_) => Category::StorageClass,
            SpirvAttribute::Builtin(_) => Category::Builtin,
            SpirvAttribute::DescriptorSet(_) => Category::DescriptorSet,
            SpirvAttribute::Binding(_) => Category::Binding,
            SpirvAttribute::Flat => Category::Flat,
            SpirvAttribute::UnrollLoops => Category::UnrollLoops,
        }
    }
}

impl Category {
    /// The decorations that belong on a parameter of an entry point.
    pub open spec fn is_param_decoration(self) -> bool {
        self == Category::StorageClass || self == Category::Builtin || self
            == Category::DescriptorSet || self == Category::Binding || self == Category::Flat
    }

    pub open spec fn spec_label(self) -> Seq<char> {
        match self {
            Category::IntrinsicType => "intrinsic type"@,
            Category::Block => "#[spirv(block)]"@,
            Category::Entry => "entry-point"@,
            Category::StorageClass => "storage class"@,
            Category::Builtin => "builtin"@,
            Category::DescriptorSet => "#[spirv(descriptor_set)]"@,
            Category::Binding => "#[spirv(binding)]"@,
            Category::Flat => "#[spirv(flat)]"@,
            Category::UnrollLoops => "#[spirv(unroll_loops)]"@,
        }
    }

    /// A readable name of the category, for diagnostics.
    pub fn label(self) -> (r: &'static str)
        ensures
            r@ == self.spec_label(),
    {
        match self {
            Category::IntrinsicType => "intrinsic type",
            Category::Block => "#[spirv(block)]",
            Category::Entry => "entry-point",
            Category::StorageClass => "storage class",
            Category::Builtin => "builtin",
            Category::DescriptorSet => "#[spirv(descriptor_set)]",
            Category::Binding => "#[spirv(binding)]",
            Category::Flat => "#[spirv(flat)]",
            Category::UnrollLoops => "#[spirv(unroll_loops)]",
        }
    }
}

} // verus!
