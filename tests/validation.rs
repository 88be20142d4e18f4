use spirv_attr::{
    check_invalid_macro_level_spirv_attr, check_mod_attrs, check_spirv_attributes, check_target,
    parent_is_entry_point, parse_attr, target_from_expr, target_from_impl_item,
    AggregatedSpirvAttributes, Category, DiagKind, Diagnostic, Entry, ExecutionModeExtra,
    Expected, ImplItemKind, IntrinsicType, Lit, MethodKind, MultipleAttrs, Node, NodeKind,
    ParseError, RawAttr, Span, SpirvAttribute, Target,
};

fn sp(lo: u32) -> Span {
    Span { lo, hi: lo + 1 }
}

fn raw(name: &str, args: Vec<Lit>, lo: u32) -> RawAttr {
    RawAttr { name: name.to_string(), args, span: sp(lo) }
}

fn ident(s: &str) -> Lit {
    Lit::Ident(s.to_string())
}

fn node(kind: NodeKind, parent: Option<usize>, attrs: Vec<RawAttr>) -> Node {
    Node { kind, parent, attrs }
}

fn image_type_args() -> Vec<Lit> {
    vec![
        ident("Dim2D"),
        Lit::Int(0),
        Lit::Int(0),
        Lit::Int(0),
        Lit::Int(1),
        ident("Unknown"),
    ]
}

#[test]
fn fragment_entry_with_bound_parameter_is_clean() {
    let nodes = vec![
        node(NodeKind::Plain(Target::Fn), None, vec![raw("fragment", vec![], 10)]),
        node(
            NodeKind::Plain(Target::Param),
            Some(0),
            vec![
                raw("descriptor_set", vec![Lit::Int(0)], 20),
                raw("binding", vec![Lit::Int(1)], 30),
            ],
        ),
    ];
    let report = check_mod_attrs(&nodes, &vec![]);
    assert!(report.diagnostics.is_empty());
    let entry = report.summaries[0].entry.as_ref().unwrap();
    assert_eq!(entry.value.execution_model, 4);
    assert_eq!(entry.span, sp(10));
    let param = &report.summaries[1];
    assert_eq!(param.descriptor_set.unwrap().value, 0);
    assert_eq!(param.descriptor_set.unwrap().span, sp(20));
    assert_eq!(param.binding.unwrap().value, 1);
    assert_eq!(param.binding.unwrap().span, sp(30));
    assert!(param.entry.is_none());
}

#[test]
fn struct_with_image_type_and_block_keeps_both() {
    let attrs = vec![raw("image_type", image_type_args(), 1), raw("block", vec![], 2)];
    let mut diags: Vec<Diagnostic> = Vec::new();
    let agg = check_spirv_attributes(&attrs, Target::Struct, false, &mut diags);
    assert!(diags.is_empty());
    let t = agg.intrinsic_type.unwrap();
    assert_eq!(
        t.value,
        IntrinsicType::ImageType {
            dim: 1,
            depth: 0,
            arrayed: 0,
            multisampled: 0,
            sampled: 1,
            image_format: 0,
            access_qualifier: None,
        }
    );
    assert_eq!(t.span, sp(1));
    assert_eq!(agg.block.unwrap().span, sp(2));
}

#[test]
fn two_entry_points_conflict_once() {
    let attrs = vec![raw("vertex", vec![], 1), raw("fragment", vec![], 2)];
    let mut diags: Vec<Diagnostic> = Vec::new();
    let agg = check_spirv_attributes(&attrs, Target::Fn, false, &mut diags);
    assert_eq!(
        diags,
        vec![Diagnostic {
            span: sp(2),
            kind: DiagKind::Multiple { category: Category::Entry, target: Target::Fn },
            note: Some(sp(1)),
        }]
    );
    let entry = agg.entry.unwrap();
    assert_eq!(entry.value.execution_model, 0);
    assert_eq!(entry.span, sp(1));
    assert_eq!(Category::Entry.label(), "entry-point");
}

#[test]
fn storage_class_on_function_is_out_of_place() {
    let attrs = vec![raw("uniform", vec![], 5)];
    let mut diags: Vec<Diagnostic> = Vec::new();
    let agg = check_spirv_attributes(&attrs, Target::Fn, false, &mut diags);
    assert_eq!(
        diags,
        vec![Diagnostic {
            span: sp(5),
            kind: DiagKind::WrongTarget {
                expected: Expected::FunctionParameter,
                actual: Target::Fn,
            },
            note: None,
        }]
    );
    assert_eq!(Expected::FunctionParameter.describe(), "function parameter");
    assert_eq!(Target::Fn.describe(), "function");
    assert!(agg.storage_class.is_none());
}

#[test]
fn legality_table_decides_acceptance() {
    let cases = [
        (Category::Block, Target::Struct, true),
        (Category::Block, Target::Fn, false),
        (Category::IntrinsicType, Target::Enum, false),
        (Category::Entry, Target::Fn, true),
        (Category::Entry, Target::Method(MethodKind::Inherent), true),
        (Category::Entry, Target::Method(MethodKind::Trait { body: true }), true),
        (Category::Entry, Target::Method(MethodKind::Trait { body: false }), false),
        (Category::Entry, Target::Closure, false),
        (Category::Binding, Target::Param, true),
        (Category::Flat, Target::Field, false),
        (Category::UnrollLoops, Target::Closure, true),
        (Category::UnrollLoops, Target::Expression, false),
        (Category::UnrollLoops, Target::Fn, true),
    ];
    for (c, t, ok) in cases {
        assert_eq!(check_target(c, t).is_ok(), ok, "{:?} on {:?}", c, t);
    }
    assert_eq!(check_target(Category::Entry, Target::Struct), Err(Expected::Function));
    assert_eq!(
        check_target(Category::UnrollLoops, Target::Statement),
        Err(Expected::FunctionOrClosure)
    );
    let mut diags: Vec<Diagnostic> = Vec::new();
    let agg = check_spirv_attributes(&vec![raw("block", vec![], 3)], Target::Fn, false, &mut diags);
    assert!(agg.block.is_none());
    assert_eq!(
        diags[0].kind,
        DiagKind::WrongTarget { expected: Expected::Struct, actual: Target::Fn }
    );
}

#[test]
fn every_duplicate_points_at_the_first() {
    let attrs = vec![raw("flat", vec![], 1), raw("flat", vec![], 2), raw("flat", vec![], 3)];
    let mut diags: Vec<Diagnostic> = Vec::new();
    let agg = check_spirv_attributes(&attrs, Target::Param, true, &mut diags);
    assert_eq!(diags.len(), 2);
    for (d, lo) in diags.iter().zip([2, 3]) {
        assert_eq!(d.span, sp(lo));
        assert_eq!(d.note, Some(sp(1)));
        assert_eq!(d.kind, DiagKind::Multiple { category: Category::Flat, target: Target::Param });
    }
    assert_eq!(agg.flat.unwrap().span, sp(1));
}

#[test]
fn parameter_of_plain_function_is_reported_and_kept() {
    let nodes = vec![
        node(NodeKind::Plain(Target::Fn), None, vec![]),
        node(NodeKind::Plain(Target::Param), Some(0), vec![raw("uniform", vec![], 7)]),
    ];
    let report = check_mod_attrs(&nodes, &vec![]);
    assert_eq!(
        report.diagnostics,
        vec![Diagnostic { span: sp(7), kind: DiagKind::NotEntryParam, note: None }]
    );
    let sc = report.summaries[1].storage_class.unwrap();
    assert_eq!(sc.value, 2);
    assert_eq!(sc.span, sp(7));
}

#[test]
fn decorations_on_macros_are_rejected() {
    let nodes = vec![node(
        NodeKind::Plain(Target::MacroDef),
        None,
        vec![raw("block", vec![], 1), raw("binding", vec![Lit::Int(2)], 2), raw("nonsense", vec![], 3)],
    )];
    let macro_attrs = vec![raw("unroll_loops", vec![], 8), raw("flat", vec![], 9)];
    let report = check_mod_attrs(&nodes, &macro_attrs);
    let s = &report.summaries[0];
    assert!(s.block.is_none() && s.binding.is_none());
    let spans: Vec<Span> = report.diagnostics.iter().map(|d| d.span).collect();
    assert_eq!(spans, vec![sp(1), sp(2), sp(3), sp(8), sp(9)]);
    assert_eq!(report.diagnostics[2].kind, DiagKind::Parse(ParseError::UnknownAttribute));
    assert_eq!(report.diagnostics[3].kind, DiagKind::OnMacro);
    assert_eq!(report.diagnostics[4].kind, DiagKind::OnMacro);

    let mut diags: Vec<Diagnostic> = Vec::new();
    check_invalid_macro_level_spirv_attr(&vec![raw("block", vec![], 4)], &mut diags);
    assert_eq!(diags, vec![Diagnostic { span: sp(4), kind: DiagKind::OnMacro, note: None }]);
}

#[test]
fn distinct_legal_decorations_fill_one_slot_each() {
    let attrs = vec![
        raw("input", vec![], 1),
        raw("frag_coord", vec![], 2),
        raw("descriptor_set", vec![Lit::Int(3)], 3),
        raw("binding", vec![Lit::Int(4)], 4),
        raw("flat", vec![], 5),
    ];
    let mut diags: Vec<Diagnostic> = Vec::new();
    let agg = check_spirv_attributes(&attrs, Target::Param, true, &mut diags);
    assert!(diags.is_empty());
    assert_eq!(agg.storage_class.unwrap().value, 1);
    assert_eq!(agg.builtin.unwrap().value, 15);
    assert_eq!(agg.descriptor_set.unwrap().value, 3);
    assert_eq!(agg.binding.unwrap().value, 4);
    assert_eq!(agg.flat.unwrap().span, sp(5));
    assert!(agg.entry.is_none() && agg.block.is_none() && agg.intrinsic_type.is_none());
    assert!(agg.unroll_loops.is_none());
}

#[test]
fn parse_errors_are_reported_and_siblings_still_checked() {
    let cases: Vec<(RawAttr, ParseError)> = vec![
        (raw("not_a_decoration", vec![], 1), ParseError::UnknownAttribute),
        (raw("block", vec![Lit::Int(1)], 1), ParseError::ArgumentCount),
        (raw("binding", vec![], 1), ParseError::ArgumentCount),
        (raw("binding", vec![Lit::Str("x".to_string())], 1), ParseError::ExpectedInteger),
        (raw("descriptor_set", vec![Lit::Int(1 << 32)], 1), ParseError::IntegerTooLarge),
        (raw("fragment", vec![ident("no_such_mode")], 1), ParseError::UnknownValue),
        (raw("fragment", vec![Lit::Int(1)], 1), ParseError::OperandWithoutMode),
        (
            raw(
                "gl_compute",
                vec![ident("local_size"), Lit::Int(1), Lit::Int(1), Lit::Int(1), Lit::Int(1)],
                1,
            ),
            ParseError::TooManyOperands,
        ),
        (
            raw("vertex", vec![Lit::Str("a".to_string()), Lit::Str("b".to_string())], 1),
            ParseError::DuplicateEntryName,
        ),
        (raw("image_type", vec![], 1), ParseError::ArgumentCount),
        (
            raw(
                "image_type",
                vec![Lit::Int(2), Lit::Int(0), Lit::Int(0), Lit::Int(0), Lit::Int(1), ident("Unknown")],
                1,
            ),
            ParseError::ExpectedName,
        ),
        (
            raw(
                "image_type",
                vec![ident("Dim9D"), Lit::Int(0), Lit::Int(0), Lit::Int(0), Lit::Int(1), ident("Unknown")],
                1,
            ),
            ParseError::UnknownValue,
        ),
    ];
    for (r, e) in cases {
        assert_eq!(parse_attr(&r).err(), Some(e), "{:?}", r);
    }
    let attrs = vec![raw("bogus", vec![], 1), raw("block", vec![], 2)];
    let mut diags: Vec<Diagnostic> = Vec::new();
    let agg = check_spirv_attributes(&attrs, Target::Struct, false, &mut diags);
    assert_eq!(
        diags,
        vec![Diagnostic {
            span: sp(1),
            kind: DiagKind::Parse(ParseError::UnknownAttribute),
            note: None,
        }]
    );
    assert_eq!(agg.block.unwrap().span, sp(2));
}

#[test]
fn entry_point_arguments_are_parsed_in_order() {
    let r = raw(
        "gl_compute",
        vec![
            ident("local_size"),
            Lit::Int(8),
            Lit::Int(4),
            Lit::Int(1),
            Lit::Str("main_cs".to_string()),
            ident("local_size_hint"),
            Lit::Int(2),
        ],
        1,
    );
    match parse_attr(&r) {
        Ok(SpirvAttribute::Entry(e)) => {
            assert_eq!(e.execution_model, 5);
            assert_eq!(e.name.as_deref(), Some("main_cs"));
            assert_eq!(e.execution_modes.len(), 2);
            assert_eq!(e.execution_modes[0].0, 17);
            assert_eq!(e.execution_modes[0].1.as_ref(), vec![8, 4, 1]);
            assert_eq!(e.execution_modes[1].0, 18);
            assert_eq!(e.execution_modes[1].1.as_ref(), vec![2]);
        }
        other => panic!("unexpected {:?}", other),
    }
    let e = Entry::from(4);
    assert_eq!(e.execution_model, 4);
    assert!(e.execution_modes.is_empty() && e.name.is_none());
}

#[test]
fn image_type_with_access_qualifier() {
    let mut args = image_type_args();
    args[5] = ident("Rgba8");
    args.push(ident("ReadWrite"));
    match parse_attr(&raw("image_type", args, 1)) {
        Ok(SpirvAttribute::IntrinsicType(IntrinsicType::ImageType {
            image_format,
            access_qualifier,
            ..
        })) => {
            assert_eq!(image_format, 4);
            assert_eq!(access_qualifier, Some(2));
        }
        other => panic!("unexpected {:?}", other),
    }
    assert!(matches!(
        parse_attr(&raw("sampler", vec![], 1)),
        Ok(SpirvAttribute::IntrinsicType(IntrinsicType::Sampler))
    ));
}

#[test]
fn execution_mode_extra_keeps_its_operands() {
    assert_eq!(ExecutionModeExtra::new(&[]).as_ref(), Vec::<u32>::new());
    assert_eq!(ExecutionModeExtra::new(&[7]).as_ref(), vec![7]);
    assert_eq!(ExecutionModeExtra::new(&[1, 2, 3]).as_ref(), vec![1, 2, 3]);
}

#[test]
fn impl_members_and_closures_are_classified() {
    assert_eq!(
        target_from_impl_item(ImplItemKind::Fn, true),
        Target::Method(MethodKind::Trait { body: true })
    );
    assert_eq!(target_from_impl_item(ImplItemKind::Fn, false), Target::Method(MethodKind::Inherent));
    assert_eq!(target_from_impl_item(ImplItemKind::Const, true), Target::AssocConst);
    assert_eq!(target_from_impl_item(ImplItemKind::TyAlias, false), Target::AssocTy);
    assert_eq!(target_from_expr(true), Target::Closure);
    assert_eq!(target_from_expr(false), Target::Expression);

    let nodes = vec![
        node(NodeKind::Impl { of_trait: true }, None, vec![]),
        node(NodeKind::ImplItem(ImplItemKind::Fn), Some(0), vec![raw("vertex", vec![], 1)]),
        node(NodeKind::ImplItem(ImplItemKind::Const), Some(0), vec![raw("vertex", vec![], 2)]),
        node(NodeKind::Expr { is_closure: true }, None, vec![raw("unroll_loops", vec![], 3)]),
        node(NodeKind::Expr { is_closure: false }, None, vec![raw("unroll_loops", vec![], 4)]),
    ];
    let report = check_mod_attrs(&nodes, &vec![]);
    assert!(report.summaries[1].entry.is_some());
    assert!(report.summaries[3].unroll_loops.is_some());
    assert_eq!(
        report.diagnostics,
        vec![
            Diagnostic {
                span: sp(2),
                kind: DiagKind::WrongTarget { expected: Expected::Function, actual: Target::AssocConst },
                note: None,
            },
            Diagnostic {
                span: sp(4),
                kind: DiagKind::WrongTarget {
                    expected: Expected::FunctionOrClosure,
                    actual: Target::Expression,
                },
                note: None,
            },
        ]
    );
}

#[test]
fn entry_point_parent_is_detected() {
    assert!(parent_is_entry_point(&vec![raw("block", vec![], 1), raw("vertex", vec![], 2)]));
    assert!(!parent_is_entry_point(&vec![raw("unroll_loops", vec![], 1)]));
    assert!(!parent_is_entry_point(&vec![raw("vertex", vec![Lit::Int(1)], 1)]));
}

#[test]
fn consumer_summary_trusts_validation() {
    let ok = AggregatedSpirvAttributes::parse(&vec![raw("fragment", vec![], 1), raw("unroll_loops", vec![], 2)]);
    let agg = ok.ok().unwrap();
    assert_eq!(agg.entry.unwrap().value.execution_model, 4);
    assert_eq!(agg.unroll_loops.unwrap().span, sp(2));

    let dup = AggregatedSpirvAttributes::parse(&vec![raw("flat", vec![], 1), raw("flat", vec![], 2)]);
    assert_eq!(dup.err(), Some(sp(2)));
    let bad = AggregatedSpirvAttributes::parse(&vec![raw("bogus", vec![], 3), raw("flat", vec![], 4)]);
    assert_eq!(bad.err(), Some(sp(3)));

    let mut agg = AggregatedSpirvAttributes::default();
    assert!(agg.try_insert_attr(SpirvAttribute::Binding(1), sp(1)).is_ok());
    assert_eq!(
        agg.try_insert_attr(SpirvAttribute::Binding(2), sp(2)),
        Err(MultipleAttrs { prev_span: sp(1), category: Category::Binding })
    );
    assert_eq!(agg.binding.unwrap().value, 1);
}

#[test]
fn only_local_statements_are_checked() {
    let nodes = vec![
        node(NodeKind::Stmt { is_local: true }, None, vec![raw("flat", vec![], 1)]),
        node(NodeKind::Stmt { is_local: false }, None, vec![raw("flat", vec![], 2)]),
    ];
    let report = check_mod_attrs(&nodes, &vec![]);
    assert_eq!(report.summaries.len(), 2);
    assert_eq!(
        report.diagnostics,
        vec![Diagnostic {
            span: sp(1),
            kind: DiagKind::WrongTarget {
                expected: Expected::FunctionParameter,
                actual: Target::Statement,
            },
            note: None,
        }]
    );
}
