//! Plan synthesis: for each conversion request and each requested direction,
//! the member correspondence, the fill values of the members that one side
//! lacks, and the transformation of every mapped value.
use vstd::prelude::*;

use crate::model::{
    AddInput, DefaultInput, DeriveInput, FieldReceiver, HintOpts, ItemInput, TypePath,
    VariantReceiver,
};
use crate::plan::{
    arms_view, Arm, ArmV, BodyV, Construct, ConstructV, FieldInit, Fill, Member, Mode, Param,
    Pattern, PatternField, PatternV, Plan, PlanBody, PlanV, Transform,
};
use crate::validate::concat_map;

verus! {

/// What `f` gives each of the first `n` elements and their indices, in order.
pub open spec fn concat_idx<A, B>(s: Seq<A>, f: spec_fn(int, A) -> Seq<B>, n: int) -> Seq<B>
    decreases n,
{
    if n <= 0 {
        Seq::empty()
    } else {
        concat_idx(s, f, n - 1) + f(n - 1, s[n - 1])
    }
}

/// The field as this type names it: its name, or its position.
pub open spec fn own_member(f: FieldReceiver, i: int) -> Member {
    match f.ident {
        Some(n) => Member::Named(n),
        None => Member::Index(i as usize),
    }
}

/// The field as the other type `x` names it.
pub open spec fn other_member(f: FieldReceiver, i: int, x: Seq<char>) -> Member {
    match f.spec_rename_for(x) {
        Some(r) => Member::Named(r.value),
        None => own_member(f, i),
    }
}

/// The transformation that a hint group describes; an unset group converts.
pub open spec fn hint_transform(h: HintOpts) -> Transform
    decreases h,
{
    match h.func {
        Some(p) => Transform::Func(p.value),
        None => match h.expr {
            Some(e) => Transform::Expr(e.value),
            None => match h.optional {
                Some(b) => Transform::Optional(Box::new(hint_transform(b.value))),
                None => match h.iterable {
                    Some(b) => Transform::Iterable(Box::new(hint_transform(b.value))),
                    None => match h.keyed {
                        Some(b) => Transform::Keyed(Box::new(hint_transform(b.value))),
                        None => Transform::Convert,
                    },
                },
            },
        },
    }
}

/// The transformation of an effective hint, the generic conversion when none.
pub open spec fn transform_of(h: Option<HintOpts>) -> Transform {
    match h {
        Some(h) => hint_transform(h),
        None => Transform::Convert,
    }
}

pub open spec fn default_fill(d: DefaultInput) -> Fill {
    match d.value {
        Some(e) => Fill::Expr(e),
        None => Fill::DefaultValue,
    }
}

/// The value handed in from outside for a member: a parameter, or a provider
/// (enum arms resolve it only when taken).
pub open spec fn outside_fill(m: Member, provider: bool) -> Fill {
    if provider {
        Fill::Provider(m)
    } else {
        Fill::Param(m)
    }
}

pub open spec fn mode_of(d: DeriveInput) -> Mode {
    match d.custom {
        Some(c) => Mode::Custom(c.name),
        None => Mode::Trait,
    }
}

pub open spec fn add_names(adds: Seq<AddInput>) -> Seq<Member> {
    adds.map_values(|a: AddInput| Member::Named(a.field))
}

// Building this type from the other one.

/// The other type's member extracted for field `f`, unless it is skipped.
pub open spec fn from_pattern_field(f: FieldReceiver, i: int, x: Seq<char>) -> Seq<PatternField> {
    if f.spec_skip_for(x) is None {
        seq![PatternField { member: other_member(f, i, x), binding: own_member(f, i) }]
    } else {
        Seq::empty()
    }
}

pub open spec fn from_pattern_fields(fields: Seq<FieldReceiver>, x: Seq<char>) -> Seq<PatternField> {
    concat_idx(fields, |k: int, f: FieldReceiver| from_pattern_field(f, k, x), fields.len() as int)
}

/// The value of field `f`: its skip default, the outside value, or the
/// extracted value through its hint.
pub open spec fn from_field_init(f: FieldReceiver, i: int, x: Seq<char>, provider: bool) -> Seq<
    FieldInit,
> {
    seq![
        FieldInit {
            member: own_member(f, i),
            fill: match f.spec_skip_for(x) {
                Some(s) => match s.default {
                    Some(d) => default_fill(d),
                    None => outside_fill(own_member(f, i), provider),
                },
                None => Fill::Mapped {
                    binding: own_member(f, i),
                    transform: transform_of(f.spec_with_from_for(x)),
                },
            },
        },
    ]
}

pub open spec fn from_field_inits(fields: Seq<FieldReceiver>, x: Seq<char>, provider: bool) -> Seq<
    FieldInit,
> {
    concat_idx(
        fields,
        |k: int, f: FieldReceiver| from_field_init(f, k, x, provider),
        fields.len() as int,
    )
}

/// The outside value that a skipped field without default needs.
pub open spec fn from_param(f: FieldReceiver, i: int, x: Seq<char>, provider: bool) -> Seq<Param> {
    match f.spec_skip_for(x) {
        Some(s) => if s.default is None {
            seq![Param { name: own_member(f, i), ty: Some(f.ty), provider }]
        } else {
            Seq::empty()
        },
        None => Seq::empty(),
    }
}

pub open spec fn from_params(fields: Seq<FieldReceiver>, x: Seq<char>, provider: bool) -> Seq<
    Param,
> {
    concat_idx(fields, |k: int, f: FieldReceiver| from_param(f, k, x, provider), fields.len() as int)
}

// Building the other type from this one.

pub open spec fn into_pattern_field(f: FieldReceiver, i: int, x: Seq<char>) -> Seq<PatternField> {
    if f.spec_skip_for(x) is None {
        seq![PatternField { member: own_member(f, i), binding: own_member(f, i) }]
    } else {
        Seq::empty()
    }
}

pub open spec fn into_pattern_fields(fields: Seq<FieldReceiver>, x: Seq<char>) -> Seq<PatternField> {
    concat_idx(fields, |k: int, f: FieldReceiver| into_pattern_field(f, k, x), fields.len() as int)
}

pub open spec fn into_ignored_field(f: FieldReceiver, i: int, x: Seq<char>) -> Seq<Member> {
    if f.spec_skip_for(x) is Some {
        seq![own_member(f, i)]
    } else {
        Seq::empty()
    }
}

pub open spec fn into_ignored(fields: Seq<FieldReceiver>, x: Seq<char>) -> Seq<Member> {
    concat_idx(fields, |k: int, f: FieldReceiver| into_ignored_field(f, k, x), fields.len() as int)
}

pub open spec fn into_field_init(f: FieldReceiver, i: int, x: Seq<char>) -> Seq<FieldInit> {
    if f.spec_skip_for(x) is None {
        seq![
            FieldInit {
                member: other_member(f, i, x),
                fill: Fill::Mapped {
                    binding: own_member(f, i),
                    transform: transform_of(f.spec_with_into_for(x)),
                },
            },
        ]
    } else {
        Seq::empty()
    }
}

pub open spec fn into_field_inits(fields: Seq<FieldReceiver>, x: Seq<char>) -> Seq<FieldInit> {
    concat_idx(fields, |k: int, f: FieldReceiver| into_field_init(f, k, x), fields.len() as int)
}

/// The value of a member that only the other type has.
pub open spec fn add_init(a: AddInput, provider: bool) -> FieldInit {
    FieldInit {
        member: Member::Named(a.field),
        fill: match a.default {
            Some(d) => default_fill(d),
            None => outside_fill(Member::Named(a.field), provider),
        },
    }
}

pub open spec fn add_inits(adds: Seq<AddInput>, provider: bool) -> Seq<FieldInit> {
    adds.map_values(|a: AddInput| add_init(a, provider))
}

pub open spec fn add_param(a: AddInput, provider: bool) -> Seq<Param> {
    if a.default is None {
        seq![
            Param {
                name: Member::Named(a.field),
                ty: match a.ty {
                    Some(t) => Some(t.value),
                    None => None,
                },
                provider,
            },
        ]
    } else {
        Seq::empty()
    }
}

pub open spec fn add_params(adds: Seq<AddInput>, provider: bool) -> Seq<Param> {
    concat_map(adds, |a: AddInput| add_param(a, provider), adds.len() as int)
}

fn own_member_exec(f: &FieldReceiver, i: usize) -> (r: Member)
    ensures
        r == own_member(*f, i as int),
{
    match &f.ident {
        Some(n) => Member::Named(n.clone()),
        None => Member::Index(i),
    }
}

fn other_member_exec(f: &FieldReceiver, i: usize, x: &TypePath) -> (r: Member)
    ensures
        r == other_member(*f, i as int, x@),
{
    match f.rename_for(x) {
        Some(r) => Member::Named(r.value.clone()),
        None => own_member_exec(f, i),
    }
}

/// The transformation that a hint group describes.
pub fn hint_transform_exec(h: &HintOpts) -> (r: Transform)
    ensures
        r == hint_transform(*h),
    decreases h,
{
    match &h.func {
        Some(p) => Transform::Func(p.value.duplicate()),
        None => match &h.expr {
            Some(e) => Transform::Expr(e.value.clone()),
            None => match &h.optional {
                Some(b) => Transform::Optional(Box::new(hint_transform_exec(&b.value))),
                None => match &h.iterable {
                    Some(b) => Transform::Iterable(Box::new(hint_transform_exec(&b.value))),
                    None => match &h.keyed {
                        Some(b) => Transform::Keyed(Box::new(hint_transform_exec(&b.value))),
                        None => Transform::Convert,
                    },
                },
            },
        },
    }
}

fn transform_exec(h: Option<&HintOpts>, hv: Ghost<Option<HintOpts>>) -> (r: Transform)
    requires
        crate::resolve::refers_to(h, hv@),
    ensures
        r == transform_of(hv@),
{
    match h {
        Some(h) => hint_transform_exec(h),
        None => Transform::Convert,
    }
}

fn default_fill_exec(d: &DefaultInput) -> (r: Fill)
    ensures
        r == default_fill(*d),
{
    match &d.value {
        Some(e) => Fill::Expr(e.clone()),
        None => Fill::DefaultValue,
    }
}

fn outside_fill_exec(m: Member, provider: bool) -> (r: Fill)
    ensures
        r == outside_fill(m, provider),
{
    if provider {
        Fill::Provider(m)
    } else {
        Fill::Param(m)
    }
}

fn mode_exec(d: &DeriveInput) -> (r: Mode)
    ensures
        r == mode_of(*d),
{
    match &d.custom {
        Some(c) => Mode::Custom(
            match &c.name {
                Some(n) => Some(n.clone()),
                None => None,
            },
        ),
        None => Mode::Trait,
    }
}

fn add_names_exec(adds: &Vec<AddInput>) -> (r: Vec<Member>)
    ensures
        r@ == add_names(adds@),
{
    let mut r: Vec<Member> = Vec::new();
    let mut i: usize = 0;
    while i < adds.len()
        invariant
            i <= adds.len(),
            r@ == add_names(adds@.subrange(0, i as int)),
        decreases adds.len() - i,
    {
        r.push(Member::Named(adds[i].field.clone()));
        proof {
            assert(adds@.subrange(0, i + 1) =~= adds@.subrange(0, i as int).push(adds@[i as int]));
            assert(r@ =~= add_names(adds@.subrange(0, i + 1)));
        }
        i += 1;
    }
    proof {
        assert(adds@.subrange(0, adds.len() as int) =~= adds@);
    }
    r
}

fn from_pattern_fields_exec(fields: &Vec<FieldReceiver>, x: &TypePath) -> (r: Vec<PatternField>)
    ensures
        r@ == from_pattern_fields(fields@, x@),
{
    let mut r: Vec<PatternField> = Vec::new();
    let mut i: usize = 0;
    while i < fields.len()
        invariant
            i <= fields.len(),
            r@ == concat_idx(
                fields@,
                |k: int, f: FieldReceiver| from_pattern_field(f, k, x@),
                i as int,
            ),
        decreases fields.len() - i,
    {
        let f = &fields[i];
        if f.skip_for(x).is_none() {
            r.push(PatternField { member: other_member_exec(f, i, x), binding: own_member_exec(f, i) });
        }
        proof {
            assert(r@ =~= concat_idx(
                fields@,
                |k: int, f: FieldReceiver| from_pattern_field(f, k, x@),
                i + 1,
            ));
        }
        i += 1;
    }
    r
}

fn from_field_inits_exec(fields: &Vec<FieldReceiver>, x: &TypePath, provider: bool) -> (r: Vec<
    FieldInit,
>)
    ensures
        r@ == from_field_inits(fields@, x@, provider),
{
    let mut r: Vec<FieldInit> = Vec::new();
    let mut i: usize = 0;
    while i < fields.len()
        invariant
            i <= fields.len(),
            r@ == concat_idx(
                fields@,
                |k: int, f: FieldReceiver| from_field_init(f, k, x@, provider),
                i as int,
            ),
        decreases fields.len() - i,
    {
        let f = &fields[i];
        let fill = match f.skip_for(x) {
            Some(s) => match &s.default {
                Some(d) => default_fill_exec(d),
                None => outside_fill_exec(own_member_exec(f, i), provider),
            },
            None => Fill::Mapped {
                binding: own_member_exec(f, i),
                transform: transform_exec(f.with_from_for(x), Ghost(f.spec_with_from_for(x@))),
            },
        };
        r.push(FieldInit { member: own_member_exec(f, i), fill });
        proof {
            assert(r@ =~= concat_idx(
                fields@,
                |k: int, f: FieldReceiver| from_field_init(f, k, x@, provider),
                i + 1,
            ));
        }
        i += 1;
    }
    r
}

fn from_params_exec(fields: &Vec<FieldReceiver>, x: &TypePath, provider: bool) -> (r: Vec<Param>)
    ensures
        r@ == from_params(fields@, x@, provider),
{
    let mut r: Vec<Param> = Vec::new();
    let mut i: usize = 0;
    while i < fields.len()
        invariant
            i <= fields.len(),
            r@ == concat_idx(
                fields@,
                |k: int, f: FieldReceiver| from_param(f, k, x@, provider),
                i as int,
            ),
        decreases fields.len() - i,
    {
        let f = &fields[i];
        if let Some(s) = f.skip_for(x) {
            if s.default.is_none() {
                r.push(Param { name: own_member_exec(f, i), ty: Some(f.ty.clone()), provider });
            }
        }
        proof {
            assert(r@ =~= concat_idx(
                fields@,
                |k: int, f: FieldReceiver| from_param(f, k, x@, provider),
                i + 1,
            ));
        }
        i += 1;
    }
    r
}

fn into_pattern_fields_exec(fields: &Vec<FieldReceiver>, x: &TypePath) -> (r: Vec<PatternField>)
    ensures
        r@ == into_pattern_fields(fields@, x@),
{
    let mut r: Vec<PatternField> = Vec::new();
    let mut i: usize = 0;
    while i < fields.len()
        invariant
            i <= fields.len(),
            r@ == concat_idx(
                fields@,
                |k: int, f: FieldReceiver| into_pattern_field(f, k, x@),
                i as int,
            ),
        decreases fields.len() - i,
    {
        let f = &fields[i];
        if f.skip_for(x).is_none() {
            r.push(PatternField { member: own_member_exec(f, i), binding: own_member_exec(f, i) });
        }
        proof {
            assert(r@ =~= concat_idx(
                fields@,
                |k: int, f: FieldReceiver| into_pattern_field(f, k, x@),
                i + 1,
            ));
        }
        i += 1;
    }
    r
}

fn into_ignored_exec(fields: &Vec<FieldReceiver>, x: &TypePath) -> (r: Vec<Member>)
    ensures
        r@ == into_ignored(fields@, x@),
{
    let mut r: Vec<Member> = Vec::new();
    let mut i: usize = 0;
    while i < fields.len()
        invariant
            i <= fields.len(),
            r@ == concat_idx(
                fields@,
                |k: int, f: FieldReceiver| into_ignored_field(f, k, x@),
                i as int,
            ),
        decreases fields.len() - i,
    {
        let f = &fields[i];
        if f.skip_for(x).is_some() {
            r.push(own_member_exec(f, i));
        }
        proof {
            assert(r@ =~= concat_idx(
                fields@,
                |k: int, f: FieldReceiver| into_ignored_field(f, k, x@),
                i + 1,
            ));
        }
        i += 1;
    }
    r
}

fn into_field_inits_exec(fields: &Vec<FieldReceiver>, x: &TypePath) -> (r: Vec<FieldInit>)
    ensures
        r@ == into_field_inits(fields@, x@),
{
    let mut r: Vec<FieldInit> = Vec::new();
    let mut i: usize = 0;
    while i < fields.len()
        invariant
            i <= fields.len(),
            r@ == concat_idx(
                fields@,
                |k: int, f: FieldReceiver| into_field_init(f, k, x@),
                i as int,
            ),
        decreases fields.len() - i,
    {
        let f = &fields[i];
        if f.skip_for(x).is_none() {
            let fill = Fill::Mapped {
                binding: own_member_exec(f, i),
                transform: transform_exec(f.with_into_for(x), Ghost(f.spec_with_into_for(x@))),
            };
            r.push(FieldInit { member: other_member_exec(f, i, x), fill });
        }
        proof {
            assert(r@ =~= concat_idx(
                fields@,
                |k: int, f: FieldReceiver| into_field_init(f, k, x@),
                i + 1,
            ));
        }
        i += 1;
    }
    r
}

fn add_inits_exec(adds: &Vec<AddInput>, provider: bool) -> (r: Vec<FieldInit>)
    ensures
        r@ == add_inits(adds@, provider),
{
    let mut r: Vec<FieldInit> = Vec::new();
    let mut i: usize = 0;
    while i < adds.len()
        invariant
            i <= adds.len(),
            r@ == add_inits(adds@.subrange(0, i as int), provider),
        decreases adds.len() - i,
    {
        let a = &adds[i];
        let fill = match &a.default {
            Some(d) => default_fill_exec(d),
            None => outside_fill_exec(Member::Named(a.field.clone()), provider),
        };
        r.push(FieldInit { member: Member::Named(a.field.clone()), fill });
        proof {
            assert(adds@.subrange(0, i + 1) =~= adds@.subrange(0, i as int).push(adds@[i as int]));
            assert(r@ =~= add_inits(adds@.subrange(0, i + 1), provider));
        }
        i += 1;
    }
    proof {
        assert(adds@.subrange(0, adds.len() as int) =~= adds@);
    }
    r
}

fn add_params_exec(adds: &Vec<AddInput>, provider: bool) -> (r: Vec<Param>)
    ensures
        r@ == add_params(adds@, provider),
{
    let mut r: Vec<Param> = Vec::new();
    let mut i: usize = 0;
    while i < adds.len()
        invariant
            i <= adds.len(),
            r@ == concat_map(adds@, |a: AddInput| add_param(a, provider), i as int),
        decreases adds.len() - i,
    {
        let a = &adds[i];
        if a.default.is_none() {
            let ty = match &a.ty {
                Some(t) => Some(t.value.clone()),
                None => None,
            };
            r.push(Param { name: Member::Named(a.field.clone()), ty, provider });
        }
        proof {
            assert(r@ =~= concat_map(adds@, |a: AddInput| add_param(a, provider), i + 1));
        }
        i += 1;
    }
    r
}

// Whole plans.

pub open spec fn struct_from_plan(
    d: DeriveInput,
    it: ItemInput,
    fields: Seq<FieldReceiver>,
    fallible: bool,
) -> PlanV {
    let x = it.path.value@;
    PlanV {
        other: it.path.value,
        incoming: true,
        fallible,
        mode: mode_of(d),
        body: BodyV::Struct {
            pattern: PatternV {
                fields: from_pattern_fields(fields, x),
                ignored: add_names(it.add@),
                rest: it.ignore_extra is Some,
            },
            construct: ConstructV { fields: from_field_inits(fields, x, false), rest_default: false },
        },
        params: if d.custom is Some {
            from_params(fields, x, false)
        } else {
            Seq::empty()
        },
    }
}

pub open spec fn struct_into_plan(
    d: DeriveInput,
    it: ItemInput,
    fields: Seq<FieldReceiver>,
    fallible: bool,
) -> PlanV {
    let x = it.path.value@;
    PlanV {
        other: it.path.value,
        incoming: false,
        fallible,
        mode: mode_of(d),
        body: BodyV::Struct {
            pattern: PatternV {
                fields: into_pattern_fields(fields, x),
                ignored: into_ignored(fields, x),
                rest: false,
            },
            construct: ConstructV {
                fields: into_field_inits(fields, x) + add_inits(it.add@, false),
                rest_default: it.ignore_extra is Some,
            },
        },
        params: if d.custom is Some {
            add_params(it.add@, false)
        } else {
            Seq::empty()
        },
    }
}

/// Plans the conversion from the other type of `it` into this struct.
pub fn derive_struct_from(
    d: &DeriveInput,
    it: &ItemInput,
    fields: &Vec<FieldReceiver>,
    is_try: bool,
) -> (r: Plan)
    ensures
        r@ == struct_from_plan(*d, *it, fields@, is_try),
{
    let x = &it.path.value;
    let pattern = Pattern {
        fields: from_pattern_fields_exec(fields, x),
        ignored: add_names_exec(&it.add),
        rest: it.ignore_extra.is_some(),
    };
    let construct = Construct { fields: from_field_inits_exec(fields, x, false), rest_default: false };
    let params = if d.custom.is_some() {
        from_params_exec(fields, x, false)
    } else {
        Vec::new()
    };
    let r = Plan {
        other: x.duplicate(),
        incoming: true,
        fallible: is_try,
        mode: mode_exec(d),
        body: PlanBody::Struct { pattern, construct },
        params,
    };
    proof {
        assert(r@.params =~= struct_from_plan(*d, *it, fields@, is_try).params);
    }
    r
}

/// Plans the conversion from this struct into the other type of `it`.
pub fn derive_struct_into(
    d: &DeriveInput,
    it: &ItemInput,
    fields: &Vec<FieldReceiver>,
    is_try: bool,
) -> (r: Plan)
    requires
        adds_typed(it.add@),
    ensures
        r@ == struct_into_plan(*d, *it, fields@, is_try),
{
    let x = &it.path.value;
    let pattern = Pattern {
        fields: into_pattern_fields_exec(fields, x),
        ignored: into_ignored_exec(fields, x),
        rest: false,
    };
    let mut inits = into_field_inits_exec(fields, x);
    let mut extra = add_inits_exec(&it.add, false);
    inits.append(&mut extra);
    let construct = Construct { fields: inits, rest_default: it.ignore_extra.is_some() };
    let params = if d.custom.is_some() {
        add_params_exec(&it.add, false)
    } else {
        Vec::new()
    };
    let r = Plan {
        other: x.duplicate(),
        incoming: false,
        fallible: is_try,
        mode: mode_exec(d),
        body: PlanBody::Struct { pattern, construct },
        params,
    };
    proof {
        assert(r@.params =~= struct_into_plan(*d, *it, fields@, is_try).params);
    }
    r
}

/// The name of variant `v` on the other type `x`.
pub open spec fn variant_other_name(v: VariantReceiver, x: Seq<char>) -> String {
    match v.spec_rename_for(x) {
        Some(r) => r.value,
        None => v.ident,
    }
}

pub open spec fn additional_or_empty(v: VariantReceiver, x: Seq<char>) -> Seq<AddInput> {
    match v.spec_additional_for(x) {
        Some(a) => a,
        None => Seq::empty(),
    }
}

/// The arm of a variant kept for `x`, building it from its counterpart.
pub open spec fn from_arm(v: VariantReceiver, x: Seq<char>) -> Seq<ArmV> {
    if v.spec_skip_for(x) is None {
        seq![
            ArmV::Matched {
                source: variant_other_name(v, x),
                pattern: PatternV {
                    fields: from_pattern_fields(v.fields@, x),
                    ignored: add_names(additional_or_empty(v, x)),
                    rest: v.spec_ignore_extra_for(x),
                },
                target: v.ident,
                construct: ConstructV { fields: from_field_inits(v.fields@, x, true), rest_default: false },
            },
        ]
    } else {
        Seq::empty()
    }
}

/// The arm of a variant that only the other type has.
pub open spec fn extra_arm(a: AddInput) -> ArmV {
    ArmV::Filled { source: a.field, fill: default_fill(a.default.unwrap()) }
}

pub open spec fn enum_from_arms(variants: Seq<VariantReceiver>, it: ItemInput) -> Seq<ArmV> {
    let x = it.path.value@;
    concat_map(variants, |v: VariantReceiver| from_arm(v, x), variants.len() as int)
        + it.add@.map_values(|a: AddInput| extra_arm(a)) + if it.ignore_extra is Some {
        seq![ArmV::CatchAll]
    } else {
        Seq::empty()
    }
}

pub open spec fn enum_from_params(variants: Seq<VariantReceiver>, x: Seq<char>) -> Seq<Param> {
    concat_map(
        variants,
        |v: VariantReceiver| from_params(v.fields@, x, true),
        variants.len() as int,
    )
}

pub open spec fn enum_from_plan(
    d: DeriveInput,
    it: ItemInput,
    variants: Seq<VariantReceiver>,
    fallible: bool,
) -> PlanV {
    PlanV {
        other: it.path.value,
        incoming: true,
        fallible,
        mode: mode_of(d),
        body: BodyV::Enum { arms: enum_from_arms(variants, it) },
        params: if d.custom is Some {
            enum_from_params(variants, it.path.value@)
        } else {
            Seq::empty()
        },
    }
}

/// The arm of a variant kept for `x`, building its counterpart.
pub open spec fn into_arm(v: VariantReceiver, x: Seq<char>) -> Seq<ArmV> {
    if v.spec_skip_for(x) is None {
        seq![
            ArmV::Matched {
                source: v.ident,
                pattern: PatternV {
                    fields: into_pattern_fields(v.fields@, x),
                    ignored: into_ignored(v.fields@, x),
                    rest: false,
                },
                target: variant_other_name(v, x),
                construct: ConstructV {
                    fields: into_field_inits(v.fields@, x) + add_inits(
                        additional_or_empty(v, x),
                        true,
                    ),
                    rest_default: false,
                },
            },
        ]
    } else {
        Seq::empty()
    }
}

/// The arm of a variant skipped for `x`: its default.
pub open spec fn skipped_arm(v: VariantReceiver, x: Seq<char>) -> Seq<ArmV> {
    match v.spec_skip_for(x) {
        Some(s) => seq![ArmV::Filled { source: v.ident, fill: default_fill(s.default.unwrap()) }],
        None => Seq::empty(),
    }
}

pub open spec fn enum_into_arms(variants: Seq<VariantReceiver>, x: Seq<char>) -> Seq<ArmV> {
    concat_map(variants, |v: VariantReceiver| into_arm(v, x), variants.len() as int) + concat_map(
        variants,
        |v: VariantReceiver| skipped_arm(v, x),
        variants.len() as int,
    )
}

pub open spec fn enum_into_params(variants: Seq<VariantReceiver>, x: Seq<char>) -> Seq<Param> {
    concat_map(
        variants,
        |v: VariantReceiver| add_params(additional_or_empty(v, x), true),
        variants.len() as int,
    )
}

pub open spec fn enum_into_plan(
    d: DeriveInput,
    it: ItemInput,
    variants: Seq<VariantReceiver>,
    fallible: bool,
) -> PlanV {
    PlanV {
        other: it.path.value,
        incoming: false,
        fallible,
        mode: mode_of(d),
        body: BodyV::Enum { arms: enum_into_arms(variants, it.path.value@) },
        params: if d.custom is Some {
            enum_into_params(variants, it.path.value@)
        } else {
            Seq::empty()
        },
    }
}

/// Every added member without default declares its type, which the
/// parameter that supplies it needs.
pub open spec fn adds_typed(adds: Seq<AddInput>) -> bool {
    forall|k: int| 0 <= k < adds.len() ==> (#[trigger] adds[k]).default is None ==> adds[k].ty is Some
}

/// Every field that a variant of the other type `x` adds without default
/// declares its type.
pub open spec fn variant_adds_typed(variants: Seq<VariantReceiver>, x: Seq<char>) -> bool {
    forall|k: int| 0 <= k < variants.len() ==> adds_typed(additional_or_empty(#[trigger] variants[k], x))
}

/// Every variant the other type adds carries a default.
pub open spec fn adds_have_defaults(it: ItemInput) -> bool {
    forall|k: int| 0 <= k < it.add.len() ==> (#[trigger] it.add@[k]).default is Some
}

/// Every variant skipped for `x` carries a default.
pub open spec fn skips_have_defaults(variants: Seq<VariantReceiver>, x: Seq<char>) -> bool {
    forall|k: int|
        0 <= k < variants.len() ==> match (#[trigger] variants[k]).spec_skip_for(x) {
            Some(s) => s.default is Some,
            None => true,
        }
}

fn variant_other_name_exec(v: &VariantReceiver, x: &TypePath) -> (r: String)
    ensures
        r == variant_other_name(*v, x@),
{
    match v.rename_for(x) {
        Some(r) => r.value.clone(),
        None => v.ident.clone(),
    }
}

fn from_arms_exec(variants: &Vec<VariantReceiver>, x: &TypePath) -> (r: Vec<Arm>)
    ensures
        arms_view(r@) == concat_map(
            variants@,
            |v: VariantReceiver| from_arm(v, x@),
            variants.len() as int,
        ),
{
    let mut r: Vec<Arm> = Vec::new();
    let mut i: usize = 0;
    while i < variants.len()
        invariant
            i <= variants.len(),
            arms_view(r@) == concat_map(
                variants@,
                |v: VariantReceiver| from_arm(v, x@),
                i as int,
            ),
        decreases variants.len() - i,
    {
        let v = &variants[i];
        let ghost before = r@;
        if v.skip_for(x).is_none() {
            let ignored = match v.additional_for(x) {
                Some(a) => add_names_exec(a),
                None => Vec::new(),
            };
            proof {
                assert(ignored@ =~= add_names(additional_or_empty(*v, x@)));
            }
            let pattern = Pattern {
                fields: from_pattern_fields_exec(&v.fields, x),
                ignored,
                rest: v.ignore_extra_for(x),
            };
            let construct = Construct {
                fields: from_field_inits_exec(&v.fields, x, true),
                rest_default: false,
            };
            let arm = Arm::Matched {
                source: variant_other_name_exec(v, x),
                pattern,
                target: v.ident.clone(),
                construct,
            };
            r.push(arm);
        }
        proof {
            assert(arms_view(r@) =~= concat_map(
                variants@,
                |v: VariantReceiver| from_arm(v, x@),
                i + 1,
            ));
        }
        i += 1;
    }
    r
}

/// The view of joined arm lists is the join of their views.
pub proof fn lemma_arms_view_add(a: Seq<Arm>, b: Seq<Arm>)
    ensures
        arms_view(a + b) == arms_view(a) + arms_view(b),
{
    assert(arms_view(a + b) =~= arms_view(a) + arms_view(b));
}

fn extra_arms_exec(adds: &Vec<AddInput>) -> (r: Vec<Arm>)
    requires
        forall|k: int| 0 <= k < adds.len() ==> (#[trigger] adds@[k]).default is Some,
    ensures
        arms_view(r@) == adds@.map_values(|a: AddInput| extra_arm(a)),
{
    let mut r: Vec<Arm> = Vec::new();
    let mut i: usize = 0;
    while i < adds.len()
        invariant
            i <= adds.len(),
            forall|k: int| 0 <= k < adds.len() ==> (#[trigger] adds@[k]).default is Some,
            r.len() == i,
            arms_view(r@) == adds@.subrange(0, i as int).map_values(|a: AddInput| extra_arm(a)),
        decreases adds.len() - i,
    {
        let a = &adds[i];
        let fill = match &a.default {
            Some(d) => default_fill_exec(d),
            None => Fill::DefaultValue,
        };
        let ghost prev = r@;
        r.push(Arm::Filled { source: a.field.clone(), fill });
        proof {
            lemma_arms_view_add(prev, seq![r@[i as int]]);
            assert(r@ =~= prev + seq![r@[i as int]]);
            assert(adds@[i as int].default is Some);
            assert(r@[i as int]@ == extra_arm(adds@[i as int]));
            assert(adds@.subrange(0, i + 1) =~= adds@.subrange(0, i as int).push(adds@[i as int]));
            assert(arms_view(r@) =~= adds@.subrange(0, i + 1).map_values(
                |a: AddInput| extra_arm(a),
            ));
        }
        i += 1;
    }
    proof {
        assert(adds@.subrange(0, adds.len() as int) =~= adds@);
    }
    r
}

fn enum_from_params_exec(variants: &Vec<VariantReceiver>, x: &TypePath) -> (r: Vec<Param>)
    ensures
        r@ == enum_from_params(variants@, x@),
{
    let mut r: Vec<Param> = Vec::new();
    let mut i: usize = 0;
    while i < variants.len()
        invariant
            i <= variants.len(),
            r@ == concat_map(
                variants@,
                |v: VariantReceiver| from_params(v.fields@, x@, true),
                i as int,
            ),
        decreases variants.len() - i,
    {
        let mut more = from_params_exec(&variants[i].fields, x, true);
        r.append(&mut more);
        i += 1;
    }
    r
}

/// Plans the conversion from the other enum of `it` into this enum.
pub fn derive_enum_from(
    d: &DeriveInput,
    it: &ItemInput,
    variants: &Vec<VariantReceiver>,
    is_try: bool,
) -> (r: Plan)
    requires
        adds_have_defaults(*it),
    ensures
        r@ == enum_from_plan(*d, *it, variants@, is_try),
{
    let x = &it.path.value;
    let mut arms = from_arms_exec(variants, x);
    let ghost a0 = arms@;
    let mut extra = extra_arms_exec(&it.add);
    let ghost e0 = extra@;
    arms.append(&mut extra);
    let ghost a1 = arms@;
    if it.ignore_extra.is_some() {
        arms.push(Arm::CatchAll);
    }
    proof {
        lemma_arms_view_add(a0, e0);
        if it.ignore_extra.is_some() {
            lemma_arms_view_add(a1, seq![Arm::CatchAll]);
            assert(arms@ =~= a1 + seq![Arm::CatchAll]);
        }
        assert(arms_view(arms@) =~= enum_from_arms(variants@, *it));
    }
    let params = if d.custom.is_some() {
        enum_from_params_exec(variants, x)
    } else {
        Vec::new()
    };
    let r = Plan {
        other: x.duplicate(),
        incoming: true,
        fallible: is_try,
        mode: mode_exec(d),
        body: PlanBody::Enum { arms },
        params,
    };
    proof {
        assert(r@.params =~= enum_from_plan(*d, *it, variants@, is_try).params);
    }
    r
}

fn into_arms_exec(variants: &Vec<VariantReceiver>, x: &TypePath) -> (r: Vec<Arm>)
    ensures
        arms_view(r@) == concat_map(
            variants@,
            |v: VariantReceiver| into_arm(v, x@),
            variants.len() as int,
        ),
{
    let mut r: Vec<Arm> = Vec::new();
    let mut i: usize = 0;
    while i < variants.len()
        invariant
            i <= variants.len(),
            arms_view(r@) == concat_map(
                variants@,
                |v: VariantReceiver| into_arm(v, x@),
                i as int,
            ),
        decreases variants.len() - i,
    {
        let v = &variants[i];
        let ghost prev = r@;
        if v.skip_for(x).is_none() {
            let pattern = Pattern {
                fields: into_pattern_fields_exec(&v.fields, x),
                ignored: into_ignored_exec(&v.fields, x),
                rest: false,
            };
            let mut inits = into_field_inits_exec(&v.fields, x);
            let mut extra = match v.additional_for(x) {
                Some(a) => add_inits_exec(a, true),
                None => Vec::new(),
            };
            proof {
                assert(extra@ =~= add_inits(additional_or_empty(*v, x@), true));
            }
            inits.append(&mut extra);
            let construct = Construct { fields: inits, rest_default: false };
            let arm = Arm::Matched {
                source: v.ident.clone(),
                pattern,
                target: variant_other_name_exec(v, x),
                construct,
            };
            r.push(arm);
            proof {
                lemma_arms_view_add(prev, seq![r@[prev.len() as int]]);
                assert(r@ =~= prev + seq![r@[prev.len() as int]]);
            }
        }
        proof {
            assert(arms_view(r@) =~= concat_map(
                variants@,
                |v: VariantReceiver| into_arm(v, x@),
                i + 1,
            ));
        }
        i += 1;
    }
    r
}

fn skipped_arms_exec(variants: &Vec<VariantReceiver>, x: &TypePath) -> (r: Vec<Arm>)
    requires
        skips_have_defaults(variants@, x@),
    ensures
        arms_view(r@) == concat_map(
            variants@,
            |v: VariantReceiver| skipped_arm(v, x@),
            variants.len() as int,
        ),
{
    let mut r: Vec<Arm> = Vec::new();
    let mut i: usize = 0;
    while i < variants.len()
        invariant
            i <= variants.len(),
            skips_have_defaults(variants@, x@),
            arms_view(r@) == concat_map(
                variants@,
                |v: VariantReceiver| skipped_arm(v, x@),
                i as int,
            ),
        decreases variants.len() - i,
    {
        let v = &variants[i];
        let ghost prev = r@;
        proof {
            assert(match variants@[i as int].spec_skip_for(x@) {
                Some(s) => s.default is Some,
                None => true,
            });
        }
        if let Some(s) = v.skip_for(x) {
            let fill = match &s.default {
                Some(d) => default_fill_exec(d),
                None => Fill::DefaultValue,
            };
            r.push(Arm::Filled { source: v.ident.clone(), fill });
            proof {
                lemma_arms_view_add(prev, seq![r@[prev.len() as int]]);
                assert(r@ =~= prev + seq![r@[prev.len() as int]]);
            }
        }
        proof {
            assert(arms_view(r@) =~= concat_map(
                variants@,
                |v: VariantReceiver| skipped_arm(v, x@),
                i + 1,
            ));
        }
        i += 1;
    }
    r
}

fn enum_into_params_exec(variants: &Vec<VariantReceiver>, x: &TypePath) -> (r: Vec<Param>)
    ensures
        r@ == enum_into_params(variants@, x@),
{
    let mut r: Vec<Param> = Vec::new();
    let mut i: usize = 0;
    while i < variants.len()
        invariant
            i <= variants.len(),
            r@ == concat_map(
                variants@,
                |v: VariantReceiver| add_params(additional_or_empty(v, x@), true),
                i as int,
            ),
        decreases variants.len() - i,
    {
        let v = &variants[i];
        let mut more = match v.additional_for(x) {
            Some(a) => add_params_exec(a, true),
            None => Vec::new(),
        };
        proof {
            assert(more@ =~= add_params(additional_or_empty(*v, x@), true));
        }
        r.append(&mut more);
        i += 1;
    }
    r
}

/// Plans the conversion from this enum into the other enum of `it`.
pub fn derive_enum_into(
    d: &DeriveInput,
    it: &ItemInput,
    variants: &Vec<VariantReceiver>,
    is_try: bool,
) -> (r: Plan)
    requires
        skips_have_defaults(variants@, it.path.value@),
        variant_adds_typed(variants@, it.path.value@),
    ensures
        r@ == enum_into_plan(*d, *it, variants@, is_try),
{
    let x = &it.path.value;
    let mut arms = into_arms_exec(variants, x);
    let ghost a0 = arms@;
    let mut skipped = skipped_arms_exec(variants, x);
    let ghost s0 = skipped@;
    arms.append(&mut skipped);
    proof {
        lemma_arms_view_add(a0, s0);
        assert(arms_view(arms@) =~= enum_into_arms(variants@, x@));
    }
    let params = if d.custom.is_some() {
        enum_into_params_exec(variants, x)
    } else {
        Vec::new()
    };
    let r = Plan {
        other: x.duplicate(),
        incoming: false,
        fallible: is_try,
        mode: mode_exec(d),
        body: PlanBody::Enum { arms },
        params,
    };
    proof {
        assert(r@.params =~= enum_into_plan(*d, *it, variants@, is_try).params);
    }
    r
}

} // verus!
