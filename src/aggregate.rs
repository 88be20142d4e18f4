//! The per-position summary: at most one decoration of each category.
use vstd::prelude::*;
use crate::check::raws_view;
use crate::parse::{parse_attr, spec_parse_attr, RawAttr, RawAttrModel};
use crate::vocab::{
    category_of, AttrModel, Category, Entry, IntrinsicType, Span, Spanned, SpirvAttribute,
};

verus! {

/// The decorations of one position, one slot per category.
pub struct AggregatedSpirvAttributes {
    // `struct` decorations:
    pub intrinsic_type: Option<Spanned<IntrinsicType>>,
    pub block: Option<Spanned<()>>,
    // `fn` decorations:
    pub entry: Option<Spanned<Entry>>,
    // (entry) `fn` parameter decorations:
    pub storage_class: Option<Spanned<u32>>,
    pub builtin: Option<Spanned<u32>>,
    pub descriptor_set: Option<Spanned<u32>>,
    pub binding: Option<Spanned<u32>>,
    pub flat: Option<Spanned<()>>,
    // `fn` and closure decorations:
    pub unroll_loops: Option<Spanned<()>>,
}

/// A second decoration of a category that was already filled.
#[derive(Clone, Copy, Debug, PartialEq, Eq, Structural)]
pub struct MultipleAttrs {
    /// Where the decoration that was kept came from.
    pub prev_span: Span,
    pub category: Category,
}

/// What a filled slot holds, as plain values.
pub type Slot = (AttrModel, Span);

/// The summary after a decoration is offered to it, and whether it was kept.
pub open spec fn spec_insert(m: Map<Category, Slot>, a: AttrModel, span: Span) -> (
    Map<Category, Slot>,
    Result<(), MultipleAttrs>,
) {
    let c = category_of(a);
    if m.contains_key(c) {
        (m, Err(MultipleAttrs { prev_span: m[c].1, category: c }))
    } else {
        (m.insert(c, (a, span)), Ok(()))
    }
}

pub open spec fn unit_slot(s: Option<Spanned<()>>, a: AttrModel) -> Option<Slot> {
    match s {
        Some(x) => Some((a, x.span)),
        None => None,
    }
}

pub open spec fn word_slot(s: Option<Spanned<u32>>, f: spec_fn(u32) -> AttrModel) -> Option<Slot> {
    match s {
        Some(x) => Some((f(x.value), x.span)),
        None => None,
    }
}

impl AggregatedSpirvAttributes {
    pub open spec fn slot(&self, c: Category) -> Option<Slot> {
        match c {
            Category::IntrinsicType => match self.intrinsic_type {
                Some(x) => Some((AttrModel::IntrinsicType(x.value), x.span)),
                None => None,
            },
            Category::Block => unit_slot(self.block, AttrModel::Block),
            Category::Entry => match self.entry {
                Some(x) => Some((AttrModel::Entry(x.value@), x.span)),
                None => None,
            },
            Category::StorageClass => word_slot(
                self.storage_class,
                |w: u32| AttrModel::StorageClass(w),
            ),
            Category::Builtin => word_slot(self.builtin, |w: u32| AttrModel::Builtin(w)),
            Category::DescriptorSet => word_slot(
                self.descriptor_set,
                |w: u32| AttrModel::DescriptorSet(w),
            ),
            Category::Binding => word_slot(self.binding, |w: u32| AttrModel::Binding(w)),
            Category::Flat => unit_slot(self.flat, AttrModel::Flat),
            Category::UnrollLoops => unit_slot(self.unroll_loops, AttrModel::UnrollLoops),
        }
    }
}

impl View for AggregatedSpirvAttributes {
    type V = Map<Category, Slot>;

    /// Each filled slot, keyed by its category.
    open spec fn view(&self) -> Map<Category, Slot> {
        Map::new(|c: Category| self.slot(c) is Some, |c: Category| self.slot(c).unwrap())
    }
}

impl Default for AggregatedSpirvAttributes {
    fn default() -> (r: Self)
        ensures
            r@ == Map::<Category, Slot>::empty(),
    {
        let r = AggregatedSpirvAttributes {
            intrinsic_type: None,
            block: None,
            entry: None,
            storage_class: None,
            builtin: None,
            descriptor_set: None,
            binding: None,
            flat: None,
            unroll_loops: None,
        };
        assert(r@ =~= Map::<Category, Slot>::empty());
        r
    }
}

fn try_insert<T>(slot: &mut Option<Spanned<T>>, value: T, span: Span, category: Category) -> (r:
    Result<(), MultipleAttrs>)
    ensures
        match *old(slot) {
            Some(prev) => r == Err::<(), MultipleAttrs>(
                MultipleAttrs { prev_span: prev.span, category },
            ) && *final(slot) == *old(slot),
            None => r == Ok::<(), MultipleAttrs>(()) && *final(slot) == Some(Spanned { value, span }),
        },
{
    match slot {
        Some(prev) => Err(MultipleAttrs { prev_span: prev.span, category }),
        None => {
            *slot = Some(Spanned { value, span });
            Ok(())
        },
    }
}

impl AggregatedSpirvAttributes {
    /// Keeps `attr` when its category is still empty; otherwise leaves the
    /// summary as it was and names the location of the decoration kept.
    pub fn try_insert_attr(&mut self, attr: SpirvAttribute, span: Span) -> (r: Result<
        (),
        MultipleAttrs,
    >)
        ensures
            (final(self)@, r) == spec_insert(old(self)@, attr@, span),
    {
        let ghost a = attr@;
        let r = match attr {
            SpirvAttribute::IntrinsicType(value) => try_insert(
                &mut self.intrinsic_type,
                value,
                span,
                Category::IntrinsicType,
            ),
            SpirvAttribute::Block => try_insert(&mut self.block, (), span, Category::Block),
            SpirvAttribute::Entry(value) => try_insert(
                &mut self.entry,
                value,
                span,
                Category::Entry,
            ),
            SpirvAttribute::StorageClass(value) => try_insert(
                &mut self.storage_class,
                value,
                span,
                Category::StorageClass,
            ),
            SpirvAttribute::Builtin(value) => try_insert(
                &mut self.builtin,
                value,
                span,
                Category::Builtin,
            ),
            SpirvAttribute::DescriptorSet(value) => try_insert(
                &mut self.descriptor_set,
                value,
                span,
                Category::DescriptorSet,
            ),
            SpirvAttribute::Binding(value) => try_insert(
                &mut self.binding,
                value,
                span,
                Category::Binding,
            ),
            SpirvAttribute::Flat => try_insert(&mut self.flat, (), span, Category::Flat),
            SpirvAttribute::UnrollLoops => try_insert(
                &mut self.unroll_loops,
                (),
                span,
                Category::UnrollLoops,
            ),
        };
        assert(self@ =~= spec_insert(old(self)@, a, span).0);
        r
    }
}

/// The summary that the consumer of validated decorations computes: every
/// decoration must parse and fill a slot of its own, else the location of
/// the first that does not.
pub open spec fn spec_consume(raws: Seq<RawAttrModel>) -> Result<Map<Category, Slot>, Span>
    decreases raws.len(),
{
    if raws.len() == 0 {
        Ok(Map::empty())
    } else {
        match spec_consume(raws.drop_last()) {
            Err(s) => Err(s),
            Ok(m) => match spec_parse_attr(raws.last()) {
                Err(_) => Err(raws.last().span),
                Ok(a) => if spec_insert(m, a, raws.last().span).1 is Ok {
                    Ok(spec_insert(m, a, raws.last().span).0)
                } else {
                    Err(raws.last().span)
                },
            },
        }
    }
}

proof fn lemma_consume_error_stays(raws: Seq<RawAttrModel>, k: int)
    requires
        0 <= k <= raws.len(),
        spec_consume(raws.take(k)) is Err,
    ensures
        spec_consume(raws) == spec_consume(raws.take(k)),
    decreases raws.len() - k,
{
    if k < raws.len() {
        assert(raws.take(k + 1).drop_last() =~= raws.take(k));
        lemma_consume_error_stays(raws, k + 1);
    } else {
        assert(raws.take(k) =~= raws);
    }
}

impl AggregatedSpirvAttributes {
    /// The summary of decorations that were already validated. A decoration
    /// that does not parse, or a second one of a category, means validation
    /// did not run or missed it: its location is returned, and the caller is
    /// to stop at once.
    pub fn parse(attrs: &Vec<RawAttr>) -> (r: Result<Self, Span>)
        ensures
            match r {
                Ok(a) => spec_consume(raws_view(attrs@)) == Ok::<Map<Category, Slot>, Span>(a@),
                Err(s) => spec_consume(raws_view(attrs@)) == Err::<Map<Category, Slot>, Span>(s),
            },
    {
        let ghost raws = raws_view(attrs@);
        let mut aggregated: AggregatedSpirvAttributes = AggregatedSpirvAttributes::default();
        let mut i: usize = 0;
        assert(raws.take(0) =~= Seq::<RawAttrModel>::empty());
        while i < attrs.len()
            invariant
                i <= attrs.len(),
                raws == raws_view(attrs@),
                spec_consume(raws.take(i as int)) == Ok::<Map<Category, Slot>, Span>(aggregated@),
            decreases attrs.len() - i,
        {
            proof {
                assert(raws.take(i + 1).drop_last() =~= raws.take(i as int));
                assert(raws.take(i + 1).last() == attrs@[i as int]@);
            }
            let span = attrs[i].span;
            match parse_attr(&attrs[i]) {
                Err(_) => {
                    proof {
                        lemma_consume_error_stays(raws, i + 1);
                    }
                    return Err(span);
                },
                Ok(attr) => {
                    if aggregated.try_insert_attr(attr, span).is_err() {
                        proof {
                            lemma_consume_error_stays(raws, i + 1);
                        }
                        return Err(span);
                    }
                },
            }
            i = i + 1;
        }
        assert(raws.take(i as int) =~= raws);
        Ok(aggregated)
    }
}

} // verus!
