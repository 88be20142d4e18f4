//! The validation pass: each position's decorations are parsed, checked
//! against the kind of position, and collected; every problem becomes a
//! diagnostic and the pass goes on.
use vstd::prelude::*;
use crate::aggregate::{spec_insert, AggregatedSpirvAttributes, MultipleAttrs, Slot};
use crate::parse::{parse_attr, spec_parse_attr, ParseError, RawAttr, RawAttrModel};
use crate::target::{
    check_target, expected_for, legal_targets, spec_target_from_impl_item, target_from_expr,
    target_from_impl_item, Expected, ImplItemKind, Target,
};
use crate::vocab::{category_of, AttrModel, Category, Span, SpirvAttribute};

verus! {

/// What went wrong at a location.
#[derive(Clone, Copy, Debug, PartialEq, Eq, Structural)]
pub enum DiagKind {
    /// The decoration could not be parsed.
    Parse(ParseError),
    /// The decoration does not belong on this kind of position.
    WrongTarget { expected: Expected, actual: Target },
    /// A parameter decoration on a parameter of a function that is not an
    /// entry point.
    NotEntryParam,
    /// A second decoration of a category; the note points at the first.
    Multiple { category: Category, target: Target },
    /// A decoration on a macro definition.
    OnMacro,
}

/// A hard error at `span`, with an optional note pointing elsewhere.
#[derive(Clone, Copy, Debug, PartialEq, Eq, Structural)]
pub struct Diagnostic {
    pub span: Span,
    pub kind: DiagKind,
    pub note: Option<Span>,
}

pub open spec fn raws_view(v: Seq<RawAttr>) -> Seq<RawAttrModel> {
    v.map_values(|r: RawAttr| r@)
}

/// The summary and the diagnostics of a position so far.
pub type CheckState = (Map<Category, Slot>, Seq<Diagnostic>);

/// One decoration of a position of kind `target`. `parent_entry` tells
/// whether the enclosing function is an entry point; it matters only for
/// parameters.
pub open spec fn check_step(
    st: CheckState,
    raw: RawAttrModel,
    target: Target,
    parent_entry: bool,
) -> CheckState {
    match spec_parse_attr(raw) {
        Err(e) => (st.0, st.1.push(Diagnostic { span: raw.span, kind: DiagKind::Parse(e), note: None })),
        Ok(a) => {
            let c = category_of(a);
            if !legal_targets(c).contains(target) {
                (
                    st.0,
                    st.1.push(
                        Diagnostic {
                            span: raw.span,
                            kind: DiagKind::WrongTarget { expected: expected_for(c), actual: target },
                            note: None,
                        },
                    ),
                )
            } else {
                let d = if c.is_param_decoration() && !parent_entry {
                    st.1.push(Diagnostic { span: raw.span, kind: DiagKind::NotEntryParam, note: None })
                } else {
                    st.1
                };
                let (m, r) = spec_insert(st.0, a, raw.span);
                match r {
                    Ok(()) => (m, d),
                    Err(e) => (
                        m,
                        d.push(
                            Diagnostic {
                                span: raw.span,
                                kind: DiagKind::Multiple { category: c, target },
                                note: Some(e.prev_span),
                            },
                        ),
                    ),
                }
            }
        },
    }
}

/// The summary and the diagnostics of a position of kind `target` that
/// carries `raws`, in source order.
pub open spec fn spec_check(raws: Seq<RawAttrModel>, target: Target, parent_entry: bool) -> CheckState
    decreases raws.len(),
{
    if raws.len() == 0 {
        (Map::empty(), Seq::empty())
    } else {
        check_step(spec_check(raws.drop_last(), target, parent_entry), raws.last(), target, parent_entry)
    }
}

/// Whether one of the decorations parses to an entry point.
pub open spec fn has_entry(raws: Seq<RawAttrModel>) -> bool {
    exists|i: int|
        0 <= i < raws.len() && (#[trigger] spec_parse_attr(raws[i])) matches Ok(AttrModel::Entry(_))
}

/// Whether the decorations of a function make it an entry point.
pub fn parent_is_entry_point(attrs: &Vec<RawAttr>) -> (r: bool)
    ensures
        r == has_entry(raws_view(attrs@)),
{
    let ghost raws = raws_view(attrs@);
    let mut i: usize = 0;
    while i < attrs.len()
        invariant
            i <= attrs.len(),
            raws == raws_view(attrs@),
            forall|j: int| 0 <= j < i ==> !((#[trigger] spec_parse_attr(raws[j])) matches Ok(AttrModel::Entry(_))),
        decreases attrs.len() - i,
    {
        let r = parse_attr(&attrs[i]);
        assert(raws[i as int] == attrs@[i as int]@);
        if let Ok(SpirvAttribute::Entry(_)) = r {
            return true;
        }
        i = i + 1;
    }
    false
}

/// Checks the decorations of one position of kind `target` and returns its
/// summary; the diagnostics found are appended to `diags`.
pub fn check_spirv_attributes(
    attrs: &Vec<RawAttr>,
    target: Target,
    parent_entry: bool,
    diags: &mut Vec<Diagnostic>,
) -> (r: AggregatedSpirvAttributes)
    ensures
        r@ == spec_check(raws_view(attrs@), target, parent_entry).0,
        final(diags)@ == old(diags)@ + spec_check(raws_view(attrs@), target, parent_entry).1,
{
    let ghost raws = raws_view(attrs@);
    let mut aggregated: AggregatedSpirvAttributes = AggregatedSpirvAttributes::default();
    let mut i: usize = 0;
    proof {
        assert(raws.take(0) =~= Seq::<RawAttrModel>::empty());
        assert(diags@ =~= old(diags)@ + Seq::<Diagnostic>::empty());
    }
    while i < attrs.len()
        invariant
            i <= attrs.len(),
            raws == raws_view(attrs@),
            aggregated@ == spec_check(raws.take(i as int), target, parent_entry).0,
            diags@ == old(diags)@ + spec_check(raws.take(i as int), target, parent_entry).1,
        decreases attrs.len() - i,
    {
        let ghost before = diags@;
        let ghost st = spec_check(raws.take(i as int), target, parent_entry);
        proof {
            assert(raws.take(i + 1).drop_last() =~= raws.take(i as int));
            assert(raws.take(i + 1).last() == attrs@[i as int]@);
        }
        let raw = &attrs[i];
        let span = raw.span;
        match parse_attr(raw) {
            Err(e) => {
                diags.push(Diagnostic { span, kind: DiagKind::Parse(e), note: None });
                assert(diags@ =~= old(diags)@ + st.1.push(
                    Diagnostic { span, kind: DiagKind::Parse(e), note: None },
                ));
            },
            Ok(attr) => {
                let c = attr.category();
                match check_target(c, target) {
                    Err(expected) => {
                        let d = Diagnostic {
                            span,
                            kind: DiagKind::WrongTarget { expected, actual: target },
                            note: None,
                        };
                        diags.push(d);
                        assert(diags@ =~= old(diags)@ + st.1.push(d));
                    },
                    Ok(()) => {
                        let is_param = match c {
                            Category::StorageClass | Category::Builtin | Category::DescriptorSet
                            | Category::Binding | Category::Flat => true,
                            _ => false,
                        };
                        let ghost d1 = if is_param && !parent_entry {
                            st.1.push(Diagnostic { span, kind: DiagKind::NotEntryParam, note: None })
                        } else {
                            st.1
                        };
                        if is_param && !parent_entry {
                            diags.push(Diagnostic { span, kind: DiagKind::NotEntryParam, note: None });
                        }
                        assert(diags@ =~= old(diags)@ + d1);
                        match aggregated.try_insert_attr(attr, span) {
                            Ok(()) => {},
                            Err(MultipleAttrs { prev_span, category }) => {
                                let d = Diagnostic {
                                    span,
                                    kind: DiagKind::Multiple { category, target },
                                    note: Some(prev_span),
                                };
                                diags.push(d);
                                assert(diags@ =~= old(diags)@ + d1.push(d));
                            },
                        }
                    },
                }
            },
        }
        i = i + 1;
    }
    assert(raws.take(i as int) =~= raws);
    aggregated
}

/// Decorations found where macro definitions are written reach no position
/// of their own: each one is rejected.
pub open spec fn macro_diags(raws: Seq<RawAttrModel>) -> Seq<Diagnostic> {
    Seq::new(raws.len(), |i: int| Diagnostic { span: raws[i].span, kind: DiagKind::OnMacro, note: None })
}

pub fn check_invalid_macro_level_spirv_attr(attrs: &Vec<RawAttr>, diags: &mut Vec<Diagnostic>)
    ensures
        final(diags)@ == old(diags)@ + macro_diags(raws_view(attrs@)),
{
    let ghost raws = raws_view(attrs@);
    let mut i: usize = 0;
    proof {
        assert(diags@ =~= old(diags)@ + macro_diags(raws.take(0)));
    }
    while i < attrs.len()
        invariant
            i <= attrs.len(),
            raws == raws_view(attrs@),
            diags@ == old(diags)@ + macro_diags(raws.take(i as int)),
        decreases attrs.len() - i,
    {
        diags.push(Diagnostic { span: attrs[i].span, kind: DiagKind::OnMacro, note: None });
        assert(diags@ =~= old(diags)@ + macro_diags(raws.take(i + 1)));
        i = i + 1;
    }
    assert(raws.take(i as int) =~= raws);
}

/// The kind of a syntax node, with what its classification needs.
#[derive(Clone, Copy, Debug, PartialEq, Eq, Structural)]
pub enum NodeKind {
    /// A node whose kind of position is known by itself.
    Plain(Target),
    /// An implementation block, for a trait or not.
    Impl { of_trait: bool },
    /// A member of the implementation block that is its parent.
    ImplItem(ImplItemKind),
    /// An expression, a closure or another one.
    Expr { is_closure: bool },
    /// A statement. Only one that introduces a local variable is checked as
    /// a statement; an expression statement is checked as its expression.
    Stmt { is_local: bool },
}

/// A syntax position: its kind, the index of the node that encloses it (for
/// a parameter, its function or closure), and its decorations in source
/// order.
#[derive(Clone, Debug)]
pub struct Node {
    pub kind: NodeKind,
    pub parent: Option<usize>,
    pub attrs: Vec<RawAttr>,
}

pub struct NodeModel {
    pub kind: NodeKind,
    pub parent: Option<usize>,
    pub attrs: Seq<RawAttrModel>,
}

impl View for Node {
    type V = NodeModel;

    open spec fn view(&self) -> NodeModel {
        NodeModel { kind: self.kind, parent: self.parent, attrs: raws_view(self.attrs@) }
    }
}

pub open spec fn nodes_view(v: Seq<Node>) -> Seq<NodeModel> {
    v.map_values(|n: Node| n@)
}

/// Parents lie inside the tree, and a member of an implementation block has
/// that block as its parent.
pub open spec fn tree_wf(nodes: Seq<NodeModel>) -> bool {
    forall|i: int| 0 <= i < nodes.len() ==> #[trigger] node_wf(nodes, i)
}

pub open spec fn node_wf(nodes: Seq<NodeModel>, i: int) -> bool {
    &&& nodes[i].parent matches Some(p) ==> p < nodes.len()
    &&& nodes[i].kind is ImplItem ==> (nodes[i].parent matches Some(p) && nodes[p as int].kind is Impl)
}

/// The kind of position of node `i`.
pub open spec fn spec_classify(nodes: Seq<NodeModel>, i: int) -> Target {
    match nodes[i].kind {
        NodeKind::Plain(t) => t,
        NodeKind::Impl { .. } => Target::Impl,
        NodeKind::Expr { is_closure } => if is_closure {
            Target::Closure
        } else {
            Target::Expression
        },
        NodeKind::Stmt { .. } => Target::Statement,
        NodeKind::ImplItem(k) => spec_target_from_impl_item(
            k,
            match nodes[i].parent {
                Some(p) => match nodes[p as int].kind {
                    NodeKind::Impl { of_trait } => of_trait,
                    _ => false,
                },
                None => false,
            },
        ),
    }
}

/// Whether node `i` is a parameter of a function that is an entry point.
pub open spec fn spec_parent_entry(nodes: Seq<NodeModel>, i: int) -> bool {
    spec_classify(nodes, i) == Target::Param && match nodes[i].parent {
        Some(p) => has_entry(nodes[p as int].attrs),
        None => false,
    }
}

/// What checking node `i` finds; nothing for a statement that introduces
/// no local variable.
pub open spec fn node_check(nodes: Seq<NodeModel>, i: int) -> CheckState {
    if nodes[i].kind == (NodeKind::Stmt { is_local: false }) {
        (Map::empty(), Seq::empty())
    } else {
        spec_check(nodes[i].attrs, spec_classify(nodes, i), spec_parent_entry(nodes, i))
    }
}

/// The diagnostics of the first `k` nodes, node after node.
pub open spec fn tree_diags(nodes: Seq<NodeModel>, k: int) -> Seq<Diagnostic>
    decreases k,
{
    if k <= 0 {
        Seq::empty()
    } else {
        tree_diags(nodes, k - 1) + node_check(nodes, k - 1).1
    }
}

fn classify(nodes: &Vec<Node>, i: usize) -> (r: Target)
    requires
        tree_wf(nodes_view(nodes@)),
        i < nodes@.len(),
    ensures
        r == spec_classify(nodes_view(nodes@), i as int),
{
    let ghost nv = nodes_view(nodes@);
    assert(nv[i as int] == nodes@[i as int]@);
    assert(node_wf(nv, i as int));
    match nodes[i].kind {
        NodeKind::Plain(t) => t,
        NodeKind::Impl { .. } => Target::Impl,
        NodeKind::Expr { is_closure } => target_from_expr(is_closure),
        NodeKind::Stmt { .. } => Target::Statement,
        NodeKind::ImplItem(k) => {
            let of_trait = match nodes[i].parent {
                Some(p) => {
                    assert(nv[p as int] == nodes@[p as int]@);
                    match nodes[p].kind {
                        NodeKind::Impl { of_trait } => of_trait,
                        _ => false,
                    }
                },
                None => false,
            };
            target_from_impl_item(k, of_trait)
        },
    }
}

/// The results of checking one module.
pub struct ModuleReport {
    /// The summary of each node, by index.
    pub summaries: Vec<AggregatedSpirvAttributes>,
    /// Every diagnostic: node after node, then those of decorations on
    /// macro definitions.
    pub diagnostics: Vec<Diagnostic>,
}

/// Checks every node of a module, then the decorations found where macros
/// are defined. No problem stops the pass.
pub fn check_mod_attrs(nodes: &Vec<Node>, macro_attrs: &Vec<RawAttr>) -> (r: ModuleReport)
    requires
        tree_wf(nodes_view(nodes@)),
    ensures
        r.summaries@.len() == nodes@.len(),
        forall|i: int|
            0 <= i < nodes@.len() ==> (#[trigger] r.summaries@[i])@ == node_check(
                nodes_view(nodes@),
                i,
            ).0,
        r.diagnostics@ == tree_diags(nodes_view(nodes@), nodes@.len() as int) + macro_diags(
            raws_view(macro_attrs@),
        ),
{
    let ghost nv = nodes_view(nodes@);
    let mut summaries: Vec<AggregatedSpirvAttributes> = Vec::new();
    let mut diagnostics: Vec<Diagnostic> = Vec::new();
    let mut i: usize = 0;
    while i < nodes.len()
        invariant
            i <= nodes.len(),
            nv == nodes_view(nodes@),
            tree_wf(nv),
            summaries@.len() == i,
            forall|j: int| 0 <= j < i ==> (#[trigger] summaries@[j])@ == node_check(nv, j).0,
            diagnostics@ == tree_diags(nv, i as int),
        decreases nodes.len() - i,
    {
        assert(nv[i as int] == nodes@[i as int]@);
        assert(node_wf(nv, i as int));
        if let NodeKind::Stmt { is_local: false } = nodes[i].kind {
            summaries.push(AggregatedSpirvAttributes::default());
            assert(diagnostics@ =~= tree_diags(nv, i + 1));
            i = i + 1;
            continue;
        }
        let target = classify(nodes, i);
        let parent_entry = match target {
            Target::Param => match nodes[i].parent {
                Some(p) => {
                    assert(nv[p as int] == nodes@[p as int]@);
                    parent_is_entry_point(&nodes[p].attrs)
                },
                None => false,
            },
            _ => false,
        };
        let summary = check_spirv_attributes(&nodes[i].attrs, target, parent_entry, &mut diagnostics);
        summaries.push(summary);
        i = i + 1;
    }
    check_invalid_macro_level_spirv_attr(macro_attrs, &mut diagnostics);
    ModuleReport { summaries, diagnostics }
}

} // verus!
