//! The whole run: resolve the requests, validate them and then the member
//! options (stopping with every diagnostic found at the first gate that is
//! not clean), and plan each requested direction of each request.
use vstd::prelude::*;

use crate::diag::Diagnostic;
use crate::model::{AddInput, Data, DeriveInput, FieldReceiver, ItemInput, MapperOpts, VariantReceiver};
use crate::plan::{Plan, PlanV};
use crate::resolve::{derive_paths, dup_diags, first_match, items_diags, spec_items};
use crate::synth::{
    adds_have_defaults, adds_typed, derive_enum_from, derive_enum_into, derive_struct_from, derive_struct_into,
    enum_from_plan, enum_into_plan, skips_have_defaults, struct_from_plan, struct_into_plan,
};
use crate::validate::{
    concat_map, fields_diags, has_from, has_into, items_validation, validate_fields, validate_items,
    validate_variants, variants_diags,
};

verus! {

/// Why no plan was produced.
#[derive(Debug, PartialEq, Eq)]
pub enum ExpandError {
    /// Neither `ty` nor any `derive` block names another type.
    NoOtherType,
    /// The options are invalid; every diagnostic found at the failing gate.
    Invalid(Vec<Diagnostic>),
}

pub open spec fn plans_view(v: Seq<Plan>) -> Seq<PlanV> {
    v.map_values(|p: Plan| p@)
}

pub open spec fn opt_plan(d: Option<DeriveInput>, f: spec_fn(DeriveInput) -> PlanV) -> Seq<PlanV> {
    match d {
        Some(d) => seq![f(d)],
        None => Seq::empty(),
    }
}

/// The plans of a struct request: `from`, `into`, `try_from`, `try_into`, as requested.
pub open spec fn struct_plans(it: ItemInput, fields: Seq<FieldReceiver>) -> Seq<PlanV> {
    opt_plan(it.from, |d: DeriveInput| struct_from_plan(d, it, fields, false)) + opt_plan(
        it.into,
        |d: DeriveInput| struct_into_plan(d, it, fields, false),
    ) + opt_plan(it.try_from, |d: DeriveInput| struct_from_plan(d, it, fields, true)) + opt_plan(
        it.try_into,
        |d: DeriveInput| struct_into_plan(d, it, fields, true),
    )
}

/// The plans of an enum request, in the same order.
pub open spec fn enum_plans(it: ItemInput, variants: Seq<VariantReceiver>) -> Seq<PlanV> {
    opt_plan(it.from, |d: DeriveInput| enum_from_plan(d, it, variants, false)) + opt_plan(
        it.into,
        |d: DeriveInput| enum_into_plan(d, it, variants, false),
    ) + opt_plan(it.try_from, |d: DeriveInput| enum_from_plan(d, it, variants, true)) + opt_plan(
        it.try_into,
        |d: DeriveInput| enum_into_plan(d, it, variants, true),
    )
}

pub open spec fn request_plans(it: ItemInput, data: Data) -> Seq<PlanV> {
    match data {
        Data::Struct(fields) => struct_plans(it, fields@),
        Data::Enum(variants) => enum_plans(it, variants@),
    }
}

pub open spec fn all_plans(items: Seq<ItemInput>, data: Data) -> Seq<PlanV> {
    concat_map(items, |it: ItemInput| request_plans(it, data), items.len() as int)
}

/// Diagnostics of the first gate: request resolution and request rules.
pub open spec fn request_gate(opts: MapperOpts) -> Seq<Diagnostic> {
    items_diags(opts.options) + items_validation(
        spec_items(opts.options).unwrap(),
        opts.data is Enum,
    )
}

/// Diagnostics of the second gate: the member rules.
pub open spec fn member_gate(opts: MapperOpts) -> Seq<Diagnostic> {
    let items = spec_items(opts.options).unwrap();
    match opts.data {
        Data::Struct(fields) => fields_diags(fields@, items),
        Data::Enum(variants) => variants_diags(variants@, items),
    }
}

/// Plans every requested direction of a struct request.
pub fn derive_struct(it: &ItemInput, fields: &Vec<FieldReceiver>) -> (r: Vec<Plan>)
    requires
        has_into(*it) ==> adds_typed(it.add@),
    ensures
        plans_view(r@) == struct_plans(*it, fields@),
{
    let mut r: Vec<Plan> = Vec::new();
    if let Some(d) = &it.from {
        r.push(derive_struct_from(d, it, fields, false));
    }
    if let Some(d) = &it.into {
        r.push(derive_struct_into(d, it, fields, false));
    }
    if let Some(d) = &it.try_from {
        r.push(derive_struct_from(d, it, fields, true));
    }
    if let Some(d) = &it.try_into {
        r.push(derive_struct_into(d, it, fields, true));
    }
    proof {
        assert(plans_view(r@) =~= struct_plans(*it, fields@));
    }
    r
}

/// Plans every requested direction of an enum request.
pub fn derive_enum(it: &ItemInput, variants: &Vec<VariantReceiver>) -> (r: Vec<Plan>)
    requires
        has_from(*it) ==> adds_have_defaults(*it),
        has_into(*it) ==> skips_have_defaults(variants@, it.path.value@),
        has_into(*it) ==> crate::synth::variant_adds_typed(variants@, it.path.value@),
    ensures
        plans_view(r@) == enum_plans(*it, variants@),
{
    let mut r: Vec<Plan> = Vec::new();
    if let Some(d) = &it.from {
        r.push(derive_enum_from(d, it, variants, false));
    }
    if let Some(d) = &it.into {
        r.push(derive_enum_into(d, it, variants, false));
    }
    if let Some(d) = &it.try_from {
        r.push(derive_enum_from(d, it, variants, true));
    }
    if let Some(d) = &it.try_into {
        r.push(derive_enum_into(d, it, variants, true));
    }
    proof {
        assert(plans_view(r@) =~= enum_plans(*it, variants@));
    }
    r
}

/// An empty concatenation has an empty part for every element.
pub proof fn lemma_concat_map_empty<A, B>(s: Seq<A>, f: spec_fn(A) -> Seq<B>, n: int)
    requires
        0 <= n <= s.len(),
        concat_map(s, f, n).len() == 0,
    ensures
        forall|i: int| 0 <= i < n ==> (#[trigger] f(s[i])).len() == 0,
    decreases n,
{
    if n > 0 {
        lemma_concat_map_empty(s, f, n - 1);
    }
}

/// No duplicate diagnostic means no entry repeats another's path.
pub proof fn lemma_no_duplicates(paths: Seq<Seq<char>>, locs: Seq<crate::model::Loc>, n: int)
    requires
        0 <= n <= paths.len(),
        dup_diags(paths, locs, n).len() == 0,
    ensures
        forall|j: int| 0 <= j < n ==> !crate::resolve::is_duplicate(paths, j),
    decreases n,
{
    if n > 0 {
        lemma_no_duplicates(paths, locs, n - 1);
    }
}

/// Without duplicates, the first entry with an entry's path is that entry.
pub proof fn lemma_first_is_self(paths: Seq<Seq<char>>, m: int)
    requires
        0 <= m < paths.len(),
        !crate::resolve::is_duplicate(paths, m),
    ensures
        first_match(paths, paths[m], 0) == Some(m),
{
    crate::resolve::lemma_first_match(paths, paths[m], 0);
    match first_match(paths, paths[m], 0) {
        Some(k) => {
            if k != m {
                assert(0 <= k < paths.len() && k != m && paths[k] == paths[m]);
            }
        },
        None => {
            assert(paths[m] == paths[m]);
        },
    }
}

/// Clean request resolution leaves no two requests for one type.
pub proof fn lemma_clean_requests_distinct(opts: crate::model::TypeOptions)
    requires
        spec_items(opts) is Some,
        items_diags(opts).len() == 0,
    ensures
        forall|m: int|
            0 <= m < spec_items(opts).unwrap().len() ==> !crate::resolve::is_duplicate(
                derive_paths(spec_items(opts).unwrap()),
                m,
            ),
{
    let items = spec_items(opts).unwrap();
    if opts.items.len() > 0 {
        let paths = derive_paths(opts.items@);
        let locs = crate::resolve::derive_locs(opts.items@);
        assert(dup_diags(paths, locs, opts.items.len() as int).len() == 0);
        lemma_no_duplicates(paths, locs, opts.items.len() as int);
    } else {
        assert forall|m: int| 0 <= m < items.len() implies !crate::resolve::is_duplicate(
            derive_paths(items),
            m,
        ) by {
            assert(items.len() == 1);
        }
    }
}

/// A struct request that passed the request rules gives every added member
/// without default a type when the other type is built from this one.
pub proof fn lemma_clean_struct_adds(items: Seq<ItemInput>, m: int)
    requires
        0 <= m < items.len(),
        items_validation(items, false).len() == 0,
    ensures
        has_into(items[m]) ==> adds_typed(items[m].add@),
{
    let it = items[m];
    let g = |it: ItemInput| crate::validate::item_diags(it, false);
    assert(concat_map(items, g, items.len() as int).len() == 0);
    lemma_concat_map_empty(items, g, items.len() as int);
    assert(g(items[m]).len() == 0);
    let f = |a: AddInput| crate::validate::struct_add_diags(a, it);
    assert(concat_map(it.add@, f, it.add.len() as int).len() == 0);
    lemma_concat_map_empty(it.add@, f, it.add.len() as int);
    assert forall|k: int| 0 <= k < it.add.len() implies ((#[trigger] it.add@[k]).default is None
        ==> it.add@[k].ty is Some) || !has_into(it) by {
        assert(f(it.add@[k]).len() == 0);
    }
}

/// A request that passed the request rules gives every added variant of an
/// enum a default when it is built from the other type.
pub proof fn lemma_clean_enum_adds(items: Seq<ItemInput>, m: int)
    requires
        0 <= m < items.len(),
        items_validation(items, true).len() == 0,
    ensures
        has_from(items[m]) ==> adds_have_defaults(items[m]),
{
    let it = items[m];
    let g = |it: ItemInput| crate::validate::item_diags(it, true);
    assert(concat_map(items, g, items.len() as int).len() == 0);
    lemma_concat_map_empty(items, g, items.len() as int);
    assert(g(items[m]).len() == 0);
    let f = |a: AddInput| crate::validate::enum_add_diags(a, it);
    assert(concat_map(it.add@, f, it.add.len() as int).len() == 0);
    lemma_concat_map_empty(it.add@, f, it.add.len() as int);
    assert forall|k: int| 0 <= k < it.add.len() implies (#[trigger] it.add@[k]).default is Some
        || !has_from(it) by {
        assert(f(it.add@[k]).len() == 0);
    }
}

/// Member options that passed the member rules give every variant skipped for
/// a request a default when the other type is built from this one.
pub proof fn lemma_clean_enum_skips(items: Seq<ItemInput>, variants: Seq<VariantReceiver>, m: int)
    requires
        0 <= m < items.len(),
        forall|j: int| 0 <= j < items.len() ==> !crate::resolve::is_duplicate(derive_paths(items), j),
        variants_diags(variants, items).len() == 0,
    ensures
        has_into(items[m]) ==> skips_have_defaults(variants, items[m].path.value@),
{
    let x = items[m].path.value@;
    let paths = derive_paths(items);
    lemma_first_is_self(paths, m);
    assert(paths[m] == x);
    let gv = |v: VariantReceiver| crate::validate::variant_diags(v, items);
    assert(concat_map(variants, gv, variants.len() as int).len() == 0);
    lemma_concat_map_empty(variants, gv, variants.len() as int);
    if has_into(items[m]) {
        assert forall|k: int| 0 <= k < variants.len() implies match (#[trigger] variants[k]).spec_skip_for(x) {
            Some(s) => s.default is Some,
            None => true,
        } by {
            let v = variants[k];
            assert(gv(v).len() == 0);
            reveal(crate::validate::variant_diags);
            match v.scoped(x) {
                Some(i) => {
                    crate::resolve::lemma_first_match(crate::resolve::variant_item_paths(v.items@), x, 0);
                    let gs = |it: crate::model::ItemVariantInput|
                        crate::validate::variant_block_diags(it.path, it.add@, it.skip, items);
                    assert(concat_map(v.items@, gs, v.items.len() as int).len() == 0);
                    lemma_concat_map_empty(v.items@, gs, v.items.len() as int);
                    assert(gs(v.items@[i]).len() == 0);
                    assert(v.items@[i].path.value@ == x);
                },
                None => {
                    if crate::resolve::global_applies(v.path, x) {
                        match v.path {
                            Some(p) => {},
                            None => {
                                let gd = |d: ItemInput|
                                    crate::validate::variant_block_diags(d.path, v.add@, v.skip, items);
                                assert(concat_map(items, gd, items.len() as int).len() == 0);
                                lemma_concat_map_empty(items, gd, items.len() as int);
                                assert(gd(items[m]).len() == 0);
                            },
                        }
                    }
                },
            }
        }
    }
}

pub open spec fn plans_ok(opts: MapperOpts, plans: Seq<Plan>) -> bool {
    plans_view(plans) == all_plans(spec_items(opts.options).unwrap(), opts.data)
}

/// The view of joined plan lists is the join of their views.
pub proof fn lemma_plans_view_add(a: Seq<Plan>, b: Seq<Plan>)
    ensures
        plans_view(a + b) == plans_view(a) + plans_view(b),
{
    assert(plans_view(a + b) =~= plans_view(a) + plans_view(b));
}

/// Runs the whole generation for one annotated type: the requests, their
/// validation in two gates, and the plans of every requested direction.
pub fn expand(opts: MapperOpts) -> (r: Result<Vec<Plan>, ExpandError>)
    ensures
        spec_items(opts.options) is None <==> r matches Err(ExpandError::NoOtherType),
        spec_items(opts.options) is Some && request_gate(opts).len() > 0 ==> (r matches Err(
            ExpandError::Invalid(d),
        ) && d@ == request_gate(opts)),
        spec_items(opts.options) is Some && request_gate(opts).len() == 0 && member_gate(opts).len()
            > 0 ==> (r matches Err(ExpandError::Invalid(d)) && d@ == member_gate(opts)),
        spec_items(opts.options) is Some && request_gate(opts).len() == 0 && member_gate(opts).len()
            == 0 ==> (r matches Ok(plans) && plans_ok(opts, plans@)),
{
    let ghost o = opts;
    let MapperOpts { ident, generics, data, options } = opts;
    let mut diags: Vec<Diagnostic> = Vec::new();
    let items = match options.items(&mut diags) {
        Some(v) => v,
        None => {
            return Err(ExpandError::NoOtherType);
        },
    };
    let is_enum = data.is_enum();
    validate_items(&items, is_enum, &mut diags);
    if diags.len() > 0 {
        return Err(ExpandError::Invalid(diags));
    }
    let mut members: Vec<Diagnostic> = Vec::new();
    match &data {
        Data::Struct(fields) => validate_fields(fields, &items, &mut members),
        Data::Enum(variants) => validate_variants(variants, &items, &mut members),
    }
    if members.len() > 0 {
        return Err(ExpandError::Invalid(members));
    }
    proof {
        lemma_clean_requests_distinct(o.options);
    }
    let mut plans: Vec<Plan> = Vec::new();
    let mut i: usize = 0;
    while i < items.len()
        invariant
            i <= items.len(),
            items@ == spec_items(o.options).unwrap(),
            data == o.data,
            is_enum == (data is Enum),
            items_validation(items@, is_enum).len() == 0,
            member_gate(o).len() == 0,
            forall|j: int|
                0 <= j < items.len() ==> !crate::resolve::is_duplicate(derive_paths(items@), j),
            plans_view(plans@) == concat_map(
                items@,
                |it: ItemInput| request_plans(it, data),
                i as int,
            ),
        decreases items.len() - i,
    {
        let ghost prev = plans@;
        let mut more = match &data {
            Data::Struct(fields) => {
                proof {
                    lemma_clean_struct_adds(items@, i as int);
                }
                derive_struct(&items[i], fields)
            },
            Data::Enum(variants) => {
                proof {
                    lemma_clean_enum_adds(items@, i as int);
                    lemma_clean_enum_skips(items@, variants@, i as int);
                    lemma_clean_variant_adds(items@, variants@, i as int);
                }
                derive_enum(&items[i], variants)
            },
        };
        let ghost m0 = more@;
        plans.append(&mut more);
        proof {
            lemma_plans_view_add(prev, m0);
        }
        i += 1;
    }
    Ok(plans)
}

/// Added fields that pass the rules under request `it` have a type when `it`
/// builds the other type from this one.
pub proof fn lemma_clean_add_block(add: Seq<AddInput>, it: ItemInput)
    requires
        concat_map(
            add,
            |a: AddInput| crate::validate::struct_add_diags(a, it),
            add.len() as int,
        ).len() == 0,
        has_into(it),
    ensures
        adds_typed(add),
{
    let f = |a: AddInput| crate::validate::struct_add_diags(a, it);
    lemma_concat_map_empty(add, f, add.len() as int);
    assert forall|k: int| 0 <= k < add.len() implies (#[trigger] add[k]).default is None
        ==> add[k].ty is Some by {
        assert(f(add[k]).len() == 0);
    }
}

/// Member options that passed the member rules give every field that a
/// variant adds for a request a type when the other type is built from this one.
pub proof fn lemma_clean_variant_adds(items: Seq<ItemInput>, variants: Seq<VariantReceiver>, m: int)
    requires
        0 <= m < items.len(),
        forall|j: int| 0 <= j < items.len() ==> !crate::resolve::is_duplicate(derive_paths(items), j),
        variants_diags(variants, items).len() == 0,
    ensures
        has_into(items[m]) ==> crate::synth::variant_adds_typed(variants, items[m].path.value@),
{
    let x = items[m].path.value@;
    let paths = derive_paths(items);
    lemma_first_is_self(paths, m);
    assert(paths[m] == x);
    let gv = |v: VariantReceiver| crate::validate::variant_diags(v, items);
    assert(concat_map(variants, gv, variants.len() as int).len() == 0);
    lemma_concat_map_empty(variants, gv, variants.len() as int);
    if has_into(items[m]) {
        assert forall|k: int| 0 <= k < variants.len() implies adds_typed(
            crate::synth::additional_or_empty(#[trigger] variants[k], x),
        ) by {
            let v = variants[k];
            assert(gv(v).len() == 0);
            reveal(crate::validate::variant_diags);
            match v.scoped(x) {
                Some(i) => {
                    crate::resolve::lemma_first_match(crate::resolve::variant_item_paths(v.items@), x, 0);
                    let gs = |it: crate::model::ItemVariantInput|
                        crate::validate::variant_block_diags(it.path, it.add@, it.skip, items);
                    assert(concat_map(v.items@, gs, v.items.len() as int).len() == 0);
                    lemma_concat_map_empty(v.items@, gs, v.items.len() as int);
                    assert(gs(v.items@[i]).len() == 0);
                    assert(v.items@[i].path.value@ == x);
                    lemma_clean_add_block(v.items@[i].add@, items[m]);
                },
                None => {
                    if crate::resolve::global_applies(v.path, x) {
                        match v.path {
                            Some(p) => {
                                lemma_clean_add_block(v.add@, items[m]);
                            },
                            None => {
                                let gd = |d: ItemInput|
                                    crate::validate::variant_block_diags(d.path, v.add@, v.skip, items);
                                assert(concat_map(items, gd, items.len() as int).len() == 0);
                                lemma_concat_map_empty(items, gd, items.len() as int);
                                assert(gd(items[m]).len() == 0);
                                lemma_clean_add_block(v.add@, items[m]);
                            },
                        }
                    }
                },
            }
        }
    }
}

} // verus!
