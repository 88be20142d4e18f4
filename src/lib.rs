//! Validation of `#[spirv(...)]` decorations on syntax positions.
//!
//! A decoration is parsed from its raw form (a name and a list of literal
//! arguments), checked against the kind of position it is attached to, and
//! collected into a per-position summary that keeps at most one decoration of
//! each category. Every problem found is reported as a structured diagnostic.
mod aggregate;
mod check;
mod laws;
mod names;
mod parse;
mod target;
mod vocab;

pub use aggregate::{spec_consume, spec_insert, AggregatedSpirvAttributes, MultipleAttrs, Slot};
pub use check::{
    check_invalid_macro_level_spirv_attr, check_mod_attrs, check_spirv_attributes, check_step,
    has_entry, macro_diags, node_check, nodes_view, parent_is_entry_point, raws_view,
    spec_check, spec_classify, spec_parent_entry, tree_diags, tree_wf, CheckState, DiagKind,
    Diagnostic, ModuleReport, Node, NodeKind, NodeModel,
};
pub use laws::{
    conflicts, lemma_duplicates_conflict, lemma_legality_decides, lemma_macro_def_rejects_all,
    lemma_orphan_param_decoration, lemma_round_trip, parsed,
};
pub use names::{
    access_qualifier_word, builtin_word, dim_word, execution_mode_word, execution_model_word,
    image_format_word, storage_class_word,
};
pub use parse::{parse_attr, spec_parse_attr, Lit, LitModel, ParseError, RawAttr, RawAttrModel};
pub use target::{
    check_target, expected_for, legal_targets, spec_target_from_impl_item, target_from_expr,
    target_from_impl_item, Expected, GenericParamKind, ImplItemKind, MethodKind, Target,
};
pub use vocab::{
    category_of, AttrModel, Category, Entry, EntryModel, ExecutionModeExtra, IntrinsicType, Span,
    Spanned, SpirvAttribute,
};
