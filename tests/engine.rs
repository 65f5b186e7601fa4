use model_mapper::diag::{DiagKind, Diagnostic};
use model_mapper::mapper::{expand, ExpandError};
use model_mapper::model::{
    AddInput, Data, DefaultInput, DeriveInput, FieldReceiver, HintOpts, ItemFieldInput, ItemInput,
    Loc, MapperOpts, SkipInput, Spanned, TypeOptions, TypePath, VariantReceiver,
};
use model_mapper::plan::{Arm, FieldInit, Fill, Member, Mode, PatternField, Plan, PlanBody, Transform};

fn loc(id: u64) -> Loc {
    Loc { id }
}

fn path(key: &str) -> TypePath {
    TypePath::new(key.to_string())
}

fn spanned_path(key: &str, id: u64) -> Spanned<TypePath> {
    Spanned { value: path(key), loc: loc(id) }
}

fn no_hints() -> HintOpts {
    HintOpts { func: None, expr: None, optional: None, iterable: None, keyed: None }
}

fn field(name: &str, ty: &str) -> FieldReceiver {
    FieldReceiver {
        ident: Some(name.to_string()),
        ty: ty.to_string(),
        items: vec![],
        path: None,
        rename: None,
        skip: None,
        with: no_hints(),
        into_with: no_hints(),
        from_with: no_hints(),
    }
}

fn variant(name: &str) -> VariantReceiver {
    VariantReceiver {
        ident: name.to_string(),
        fields: vec![],
        items: vec![],
        path: None,
        rename: None,
        add: vec![],
        skip: None,
        ignore_extra: None,
    }
}

fn trait_derive(id: u64) -> Option<DeriveInput> {
    Some(DeriveInput { loc: loc(id), custom: None })
}

fn custom_derive(id: u64, name: Option<&str>) -> Option<DeriveInput> {
    Some(DeriveInput {
        loc: loc(id),
        custom: Some(model_mapper::model::CustomInput {
            loc: loc(id + 1),
            name: name.map(|n| n.to_string()),
        }),
    })
}

fn implicit(other: &str) -> TypeOptions {
    TypeOptions {
        items: vec![],
        path: Some(spanned_path(other, 1)),
        from: None,
        into: None,
        try_from: None,
        try_into: None,
        add: vec![],
        ignore_extra: None,
    }
}

fn request(other: &str, id: u64) -> ItemInput {
    ItemInput {
        path: spanned_path(other, id),
        from: trait_derive(id + 1),
        into: None,
        try_from: None,
        try_into: None,
        add: vec![],
        ignore_extra: None,
    }
}

fn opts(data: Data, options: TypeOptions) -> MapperOpts {
    MapperOpts { ident: "Model".to_string(), generics: vec![], data, options }
}

fn named(n: &str) -> Member {
    Member::Named(n.to_string())
}

fn mapped(n: &str, transform: Transform) -> FieldInit {
    FieldInit { member: named(n), fill: Fill::Mapped { binding: named(n), transform } }
}

fn same(n: &str) -> PatternField {
    PatternField { member: named(n), binding: named(n) }
}

fn plans_of(r: Result<Vec<Plan>, ExpandError>) -> Vec<Plan> {
    match r {
        Ok(p) => p,
        Err(e) => panic!("expected plans, got {:?}", e),
    }
}

fn diags_of(r: Result<Vec<Plan>, ExpandError>) -> Vec<Diagnostic> {
    match r {
        Err(ExpandError::Invalid(d)) => d,
        other => panic!("expected diagnostics, got {:?}", other),
    }
}

fn two_field_struct() -> Data {
    Data::Struct(vec![field("f1", "String"), field("f2", "i64")])
}

#[test]
fn round_trip_is_identity_mapping() {
    let mut o = implicit("B");
    o.from = trait_derive(2);
    o.into = trait_derive(3);
    let plans = plans_of(expand(opts(two_field_struct(), o)));
    assert_eq!(plans.len(), 2);
    for (plan, incoming) in plans.iter().zip([true, false]) {
        assert_eq!(plan.incoming, incoming);
        assert!(!plan.fallible);
        assert_eq!(plan.mode, Mode::Trait);
        assert!(plan.params.is_empty());
        match &plan.body {
            PlanBody::Struct { pattern, construct } => {
                assert_eq!(pattern.fields, vec![same("f1"), same("f2")]);
                assert!(pattern.ignored.is_empty());
                assert!(!pattern.rest);
                assert_eq!(
                    construct.fields,
                    vec![mapped("f1", Transform::Convert), mapped("f2", Transform::Convert)]
                );
                assert!(!construct.rest_default);
            }
            other => panic!("unexpected body {:?}", other),
        }
    }
}

fn skip_f3(default: Option<DefaultInput>) -> Data {
    let mut f3 = field("f3", "i64");
    f3.skip = Some(SkipInput { loc: loc(30), default });
    Data::Struct(vec![field("f1", "String"), field("f2", "i64"), f3])
}

#[test]
fn skip_with_default_uses_sibling_expression() {
    let mut o = implicit("B");
    o.from = trait_derive(2);
    let d = DefaultInput { loc: loc(31), value: Some("f2 * 2".to_string()) };
    let plans = plans_of(expand(opts(skip_f3(Some(d)), o)));
    assert_eq!(plans.len(), 1);
    assert!(plans[0].params.is_empty());
    match &plans[0].body {
        PlanBody::Struct { pattern, construct } => {
            assert_eq!(pattern.fields, vec![same("f1"), same("f2")]);
            assert_eq!(
                construct.fields[2],
                FieldInit { member: named("f3"), fill: Fill::Expr("f2 * 2".to_string()) }
            );
        }
        other => panic!("unexpected body {:?}", other),
    }
}

#[test]
fn skip_without_default_needs_custom_from() {
    let mut o = implicit("B");
    o.from = trait_derive(2);
    let diags = diags_of(expand(opts(skip_f3(None), o)));
    assert_eq!(diags, vec![Diagnostic { loc: loc(30), kind: DiagKind::SkipNeedsDefaultOrCustom }]);
}

#[test]
fn skip_without_default_becomes_parameter_of_custom_from() {
    let mut o = implicit("B");
    o.from = custom_derive(2, None);
    let plans = plans_of(expand(opts(skip_f3(None), o)));
    assert_eq!(plans[0].params.len(), 1);
    assert_eq!(plans[0].params[0].name, named("f3"));
    assert_eq!(plans[0].params[0].ty, Some("i64".to_string()));
    assert!(!plans[0].params[0].provider);
    assert_eq!(plans[0].function_name(), Some("from_b".to_string()));
}

#[test]
fn enum_unlisted_variants_fall_to_default() {
    let mut o = implicit("Other");
    o.from = trait_derive(2);
    o.ignore_extra = Some(loc(4));
    let data = Data::Enum(vec![variant("One"), variant("Two")]);
    let plans = plans_of(expand(opts(data, o)));
    assert_eq!(plans.len(), 1);
    match &plans[0].body {
        PlanBody::Enum { arms } => {
            assert_eq!(arms.len(), 3);
            let sources: Vec<&str> = arms
                .iter()
                .filter_map(|a| match a {
                    Arm::Matched { source, .. } => Some(source.as_str()),
                    _ => None,
                })
                .collect();
            assert_eq!(sources, vec!["One", "Two"]);
            assert_eq!(arms[2], Arm::CatchAll);
        }
        other => panic!("unexpected body {:?}", other),
    }
}

fn wrap(id: u64, inner: HintOpts) -> Option<Box<Spanned<HintOpts>>> {
    Some(Box::new(Spanned { value: inner, loc: loc(id) }))
}

#[test]
fn nested_hints_nest_transformations() {
    let mut f = field("sizes", "Option<Vec<Option<i64>>>");
    let inner = HintOpts { optional: wrap(42, no_hints()), ..no_hints() };
    let middle = HintOpts { iterable: wrap(41, inner), ..no_hints() };
    f.from_with = HintOpts { optional: wrap(40, middle), ..no_hints() };
    let mut o = implicit("B");
    o.from = trait_derive(2);
    let plans = plans_of(expand(opts(Data::Struct(vec![f]), o)));
    let expected = Transform::Optional(Box::new(Transform::Iterable(Box::new(
        Transform::Optional(Box::new(Transform::Convert)),
    ))));
    match &plans[0].body {
        PlanBody::Struct { construct, .. } => {
            assert_eq!(construct.fields, vec![mapped("sizes", expected)]);
        }
        other => panic!("unexpected body {:?}", other),
    }
}

#[test]
fn expanding_twice_gives_equal_plans() {
    let build = || {
        let mut o = implicit("B");
        o.from = trait_derive(2);
        o.try_into = custom_derive(3, Some("to_b"));
        opts(two_field_struct(), o)
    };
    let first = plans_of(expand(build()));
    let second = plans_of(expand(build()));
    assert_eq!(first, second);
    assert_eq!(first.len(), 2);
}

#[test]
fn scoped_hint_wins_for_its_type_only() {
    let mut f = field("age", "i64");
    f.with = HintOpts { func: Some(spanned_path("global_fn", 50)), ..no_hints() };
    f.items = vec![ItemFieldInput {
        path: spanned_path("X", 51),
        rename: None,
        skip: None,
        with: HintOpts { func: Some(spanned_path("scoped_fn", 52)), ..no_hints() },
        into_with: no_hints(),
        from_with: no_hints(),
    }];
    let x = f.with_from_for(&path("X")).unwrap();
    assert_eq!(x.func.as_ref().unwrap().value, path("scoped_fn"));
    let y = f.with_into_for(&path("Y")).unwrap();
    assert_eq!(y.func.as_ref().unwrap().value, path("global_fn"));
}

#[test]
fn scoped_rename_and_skip_follow_precedence() {
    let mut f = field("name", "String");
    f.path = Some(spanned_path("X", 60));
    f.rename = Some(Spanned { value: "title".to_string(), loc: loc(61) });
    assert_eq!(f.rename_for(&path("X")).unwrap().value, "title");
    assert!(f.rename_for(&path("Y")).is_none());
    assert!(f.skip_for(&path("X")).is_none());
}

#[test]
fn duplicate_requests_are_rejected() {
    let mut o = implicit("B");
    o.path = None;
    o.items = vec![request("B", 10), request("B", 20)];
    let diags = diags_of(expand(opts(two_field_struct(), o)));
    assert!(diags.contains(&Diagnostic { loc: loc(10), kind: DiagKind::DuplicatedType }));
    assert!(diags.contains(&Diagnostic { loc: loc(20), kind: DiagKind::DuplicatedType }));
}

#[test]
fn mixed_shapes_are_rejected() {
    let mut o = implicit("B");
    o.from = trait_derive(2);
    o.items = vec![request("C", 10)];
    let diags = diags_of(expand(opts(two_field_struct(), o)));
    assert_eq!(
        diags,
        vec![
            Diagnostic { loc: loc(1), kind: DiagKind::IllegalWithDerive },
            Diagnostic { loc: loc(2), kind: DiagKind::IllegalWithDerive },
        ]
    );
}

#[test]
fn explicit_requests_are_planned_in_order() {
    let mut o = implicit("B");
    o.path = None;
    o.items = vec![request("B", 10), request("C", 20)];
    let plans = plans_of(expand(opts(two_field_struct(), o)));
    assert_eq!(plans.len(), 2);
    assert_eq!(plans[0].other, path("B"));
    assert_eq!(plans[1].other, path("C"));
}

#[test]
fn missing_other_type_aborts() {
    let mut o = implicit("B");
    o.path = None;
    match expand(opts(two_field_struct(), o)) {
        Err(ExpandError::NoOtherType) => {}
        other => panic!("unexpected {:?}", other),
    }
}

#[test]
fn request_without_direction_is_rejected() {
    let o = implicit("B");
    let diags = diags_of(expand(opts(two_field_struct(), o)));
    assert_eq!(diags, vec![Diagnostic { loc: loc(1), kind: DiagKind::MissingDirection }]);
}

fn added(name: &str, id: u64, ty: Option<&str>, default: Option<DefaultInput>) -> AddInput {
    AddInput {
        field: name.to_string(),
        loc: loc(id),
        ty: ty.map(|t| Spanned { value: t.to_string(), loc: loc(id + 1) }),
        default,
    }
}

#[test]
fn enum_added_variant_needs_default_for_from() {
    let mut o = implicit("Other");
    o.from = trait_derive(2);
    o.add = vec![added("Three", 70, Some("i32"), None)];
    let diags = diags_of(expand(opts(Data::Enum(vec![variant("One")]), o)));
    assert_eq!(
        diags,
        vec![
            Diagnostic { loc: loc(71), kind: DiagKind::IllegalForEnums },
            Diagnostic { loc: loc(70), kind: DiagKind::EnumAddNeedsDefault },
        ]
    );
}

#[test]
fn enum_added_variant_with_default_gets_an_arm() {
    let mut o = implicit("Other");
    o.from = trait_derive(2);
    o.add = vec![added("Three", 70, None, Some(DefaultInput { loc: loc(72), value: None }))];
    let plans = plans_of(expand(opts(Data::Enum(vec![variant("One")]), o)));
    match &plans[0].body {
        PlanBody::Enum { arms } => {
            assert_eq!(arms.len(), 2);
            assert_eq!(
                arms[1],
                Arm::Filled { source: "Three".to_string(), fill: Fill::DefaultValue }
            );
        }
        other => panic!("unexpected body {:?}", other),
    }
}

#[test]
fn struct_added_field_rules() {
    let mut o = implicit("B");
    o.into = trait_derive(2);
    o.add = vec![added("extra", 80, None, None)];
    let diags = diags_of(expand(opts(two_field_struct(), o)));
    assert_eq!(
        diags,
        vec![
            Diagnostic { loc: loc(80), kind: DiagKind::AddNeedsDefaultOrCustom },
            Diagnostic { loc: loc(80), kind: DiagKind::AddNeedsType },
        ]
    );
}

#[test]
fn struct_added_field_becomes_parameter_of_custom_into() {
    let mut o = implicit("OtherEntity");
    o.into = custom_derive(2, None);
    o.add = vec![added("extra", 80, Some("bool"), None)];
    let plans = plans_of(expand(opts(two_field_struct(), o)));
    let plan = &plans[0];
    assert_eq!(plan.params.len(), 1);
    assert_eq!(plan.params[0].name, named("extra"));
    assert_eq!(plan.params[0].ty, Some("bool".to_string()));
    assert_eq!(plan.function_name(), Some("into_other_entity".to_string()));
    match &plan.body {
        PlanBody::Struct { construct, .. } => {
            assert_eq!(
                construct.fields[2],
                FieldInit { member: named("extra"), fill: Fill::Param(named("extra")) }
            );
        }
        other => panic!("unexpected body {:?}", other),
    }
}

#[test]
fn two_hints_in_one_group_are_rejected() {
    let mut f = field("sizes", "Option<Vec<i64>>");
    f.with = HintOpts { optional: wrap(90, no_hints()), iterable: wrap(91, no_hints()), ..no_hints() };
    let mut o = implicit("B");
    o.from = trait_derive(2);
    let diags = diags_of(expand(opts(Data::Struct(vec![f]), o)));
    assert_eq!(
        diags,
        vec![
            Diagnostic { loc: loc(91), kind: DiagKind::MultipleHints },
            Diagnostic { loc: loc(91), kind: DiagKind::MultipleHints },
        ]
    );
}

#[test]
fn shared_and_outgoing_hints_are_two_for_one_direction() {
    let mut f = field("sizes", "Option<Vec<i64>>");
    f.with = HintOpts { optional: wrap(92, no_hints()), ..no_hints() };
    f.into_with = HintOpts { iterable: wrap(93, no_hints()), ..no_hints() };
    let mut o = implicit("B");
    o.into = trait_derive(2);
    let diags = diags_of(expand(opts(Data::Struct(vec![f]), o)));
    assert_eq!(diags, vec![Diagnostic { loc: loc(93), kind: DiagKind::MultipleHints }]);
}

#[test]
fn scoped_block_with_two_incoming_hints_is_rejected() {
    let mut f = field("sizes", "Option<Vec<i64>>");
    f.items = vec![ItemFieldInput {
        path: spanned_path("B", 94),
        rename: None,
        skip: None,
        with: HintOpts { func: Some(spanned_path("conv", 95)), ..no_hints() },
        into_with: no_hints(),
        from_with: HintOpts { keyed: wrap(96, no_hints()), ..no_hints() },
    }];
    let mut o = implicit("B");
    o.from = trait_derive(2);
    let diags = diags_of(expand(opts(Data::Struct(vec![f]), o)));
    assert_eq!(diags, vec![Diagnostic { loc: loc(96), kind: DiagKind::MultipleHints }]);
}

#[test]
fn one_hint_per_direction_is_accepted() {
    let mut f = field("sizes", "Option<Vec<i64>>");
    f.into_with = HintOpts { optional: wrap(97, no_hints()), ..no_hints() };
    f.from_with = HintOpts { iterable: wrap(98, no_hints()), ..no_hints() };
    let mut o = implicit("B");
    o.from = trait_derive(2);
    o.into = trait_derive(3);
    let plans = plans_of(expand(opts(Data::Struct(vec![f]), o)));
    assert_eq!(plans.len(), 2);
}

#[test]
fn scoped_block_for_unknown_type_is_rejected() {
    let mut f = field("age", "i64");
    f.items = vec![ItemFieldInput {
        path: spanned_path("Unknown", 95),
        rename: None,
        skip: None,
        with: no_hints(),
        into_with: no_hints(),
        from_with: no_hints(),
    }];
    f.rename = Some(Spanned { value: "years".to_string(), loc: loc(96) });
    let mut o = implicit("B");
    o.from = trait_derive(2);
    let diags = diags_of(expand(opts(Data::Struct(vec![f]), o)));
    assert_eq!(
        diags,
        vec![
            Diagnostic { loc: loc(96), kind: DiagKind::IllegalWithWhen },
            Diagnostic { loc: loc(95), kind: DiagKind::UnknownDerive },
        ]
    );
}

#[test]
fn skipped_variant_needs_default_for_into() {
    let mut v = variant("Gone");
    v.skip = Some(SkipInput { loc: loc(97), default: None });
    let mut o = implicit("Other");
    o.into = trait_derive(2);
    let diags = diags_of(expand(opts(Data::Enum(vec![variant("One"), v]), o)));
    assert_eq!(diags, vec![Diagnostic { loc: loc(97), kind: DiagKind::SkippedVariantNeedsDefault }]);
}

#[test]
fn enum_into_renames_and_fills_skipped_variants() {
    let mut gone = variant("Gone");
    gone.skip = Some(SkipInput {
        loc: loc(97),
        default: Some(DefaultInput { loc: loc(98), value: Some("Other::One".to_string()) }),
    });
    let mut one = variant("One");
    one.rename = Some(Spanned { value: "Uno".to_string(), loc: loc(99) });
    let mut o = implicit("Other");
    o.try_into = trait_derive(2);
    let plans = plans_of(expand(opts(Data::Enum(vec![one, gone]), o)));
    let plan = &plans[0];
    assert!(plan.fallible);
    assert!(!plan.incoming);
    match &plan.body {
        PlanBody::Enum { arms } => {
            assert_eq!(arms.len(), 2);
            match &arms[0] {
                Arm::Matched { source, target, .. } => {
                    assert_eq!(source, "One");
                    assert_eq!(target, "Uno");
                }
                other => panic!("unexpected arm {:?}", other),
            }
            assert_eq!(
                arms[1],
                Arm::Filled { source: "Gone".to_string(), fill: Fill::Expr("Other::One".to_string()) }
            );
        }
        other => panic!("unexpected body {:?}", other),
    }
}

#[test]
fn enum_skipped_field_becomes_provider() {
    let mut f = field("extra", "u8");
    f.skip = Some(SkipInput { loc: loc(100), default: None });
    let mut v = variant("One");
    v.fields = vec![field("a", "i32"), f];
    let mut o = implicit("Other");
    o.from = custom_derive(2, Some("build"));
    let plans = plans_of(expand(opts(Data::Enum(vec![v]), o)));
    let plan = &plans[0];
    assert_eq!(plan.function_name(), Some("build".to_string()));
    assert_eq!(plan.params.len(), 1);
    assert!(plan.params[0].provider);
    match &plan.body {
        PlanBody::Enum { arms } => match &arms[0] {
            Arm::Matched { construct, pattern, .. } => {
                assert_eq!(pattern.fields, vec![same("a")]);
                assert_eq!(
                    construct.fields[1],
                    FieldInit { member: named("extra"), fill: Fill::Provider(named("extra")) }
                );
            }
            other => panic!("unexpected arm {:?}", other),
        },
        other => panic!("unexpected body {:?}", other),
    }
}

#[test]
fn positional_fields_are_mapped_by_index() {
    let mut a = field("x", "i32");
    a.ident = None;
    let mut b = field("y", "i32");
    b.ident = None;
    let mut o = implicit("B");
    o.from = trait_derive(2);
    let plans = plans_of(expand(opts(Data::Struct(vec![a, b]), o)));
    match &plans[0].body {
        PlanBody::Struct { pattern, .. } => {
            assert_eq!(
                pattern.fields,
                vec![
                    PatternField { member: Member::Index(0), binding: Member::Index(0) },
                    PatternField { member: Member::Index(1), binding: Member::Index(1) },
                ]
            );
        }
        other => panic!("unexpected body {:?}", other),
    }
}

#[test]
fn diagnostics_have_messages() {
    let d = Diagnostic { loc: loc(1), kind: DiagKind::DuplicatedType };
    assert_eq!(d.message(), "This type is duplicated");
}
