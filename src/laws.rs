//! Properties that hold of every input, proved over the contracts above.
use vstd::prelude::*;

use crate::diag::{diag, DiagKind};
use crate::mapper::{member_gate, plans_ok, plans_view, request_gate};
use crate::model::{FieldReceiver, HintOpts, ItemFieldInput, ItemInput, Loc, MapperOpts, TypeOptions};
use crate::plan::Plan;
use crate::resolve::{
    derive_locs, derive_paths, dup_diags, field_item_paths, first_match, is_duplicate,
    items_diags, lemma_first_match, prefer, spec_items,
};
use crate::validate::{
    concat_map, enum_add_diags, field_diags, field_hint_diags, group_hint_diags, has_from,
    after_first, class_hint_diags, hint_diags, item_diags, items_validation, locs_diags, slot_locs,
};

verus! {

/// Every element of one part is in the concatenation.
pub proof fn lemma_concat_map_contains<A, B>(
    s: Seq<A>,
    f: spec_fn(A) -> Seq<B>,
    n: int,
    i: int,
    e: B,
)
    requires
        0 <= i < n <= s.len(),
        f(s[i]).contains(e),
    ensures
        concat_map(s, f, n).contains(e),
    decreases n,
{
    let prefix = concat_map(s, f, n - 1);
    let last = f(s[n - 1]);
    assert(concat_map(s, f, n) == prefix + last);
    if i == n - 1 {
        let k = choose|k: int| 0 <= k < last.len() && last[k] == e;
        assert((prefix + last)[prefix.len() + k] == e);
    } else {
        lemma_concat_map_contains(s, f, n - 1, i, e);
        let k = choose|k: int| 0 <= k < prefix.len() && prefix[k] == e;
        assert((prefix + last)[k] == e);
    }
}

/// An entry whose path another repeats gets a duplicate diagnostic.
pub proof fn lemma_dup_contains(paths: Seq<Seq<char>>, locs: Seq<Loc>, n: int, j: int)
    requires
        0 <= j < n,
        is_duplicate(paths, j),
    ensures
        dup_diags(paths, locs, n).contains(diag(locs[j], DiagKind::DuplicatedType)),
    decreases n,
{
    let e = diag(locs[j], DiagKind::DuplicatedType);
    let prefix = dup_diags(paths, locs, n - 1);
    if j == n - 1 {
        assert(dup_diags(paths, locs, n)[prefix.len() as int] == e);
    } else {
        lemma_dup_contains(paths, locs, n - 1, j);
        let k = choose|k: int| 0 <= k < prefix.len() && prefix[k] == e;
        assert(dup_diags(paths, locs, n)[k] == e);
    }
}

/// Resolution depends on the type description alone: any two plan lists
/// that a run may return for it are the same.
pub proof fn law_resolution_idempotent(opts: MapperOpts, first: Seq<Plan>, second: Seq<Plan>)
    requires
        spec_items(opts.options) is Some,
        plans_ok(opts, first),
        plans_ok(opts, second),
    ensures
        plans_view(first) == plans_view(second),
{
}

/// A member's options scoped to the other type `x` win over its global
/// options for `x`; for any other type `y` that no scoped block names, the
/// global options apply. This holds of the rename, the skip and both hint
/// directions alike.
pub proof fn law_scoped_precedence(f: FieldReceiver, k: int, y: Seq<char>)
    requires
        0 <= k < f.items.len(),
        f.path is None,
        forall|j: int|
            0 <= j < f.items.len() && j != k ==> f.items@[j].path.value@
                != f.items@[k].path.value@,
        forall|j: int| 0 <= j < f.items.len() ==> f.items@[j].path.value@ != y,
    ensures
        f.spec_with_into_for(f.items@[k].path.value@) == prefer(
            f.items@[k].into_with,
            f.items@[k].with,
        ),
        f.spec_with_from_for(f.items@[k].path.value@) == prefer(
            f.items@[k].from_with,
            f.items@[k].with,
        ),
        f.spec_rename_for(f.items@[k].path.value@) == f.items@[k].rename,
        f.spec_skip_for(f.items@[k].path.value@) == f.items@[k].skip,
        f.spec_with_into_for(y) == prefer(f.into_with, f.with),
        f.spec_with_from_for(y) == prefer(f.from_with, f.with),
        f.spec_rename_for(y) == f.rename,
        f.spec_skip_for(y) == f.skip,
{
    let paths = field_item_paths(f.items@);
    let x = f.items@[k].path.value@;
    lemma_first_match(paths, x, 0);
    lemma_first_match(paths, y, 0);
    assert(paths[k] == x);
    match first_match(paths, x, 0) {
        Some(i) => {
            if i != k {
                assert(paths[i] == x);
            }
        },
        None => {},
    }
    match first_match(paths, y, 0) {
        Some(i) => {
            assert(paths[i] == y);
        },
        None => {},
    }
}

/// Two requests for one other type are always rejected: every request whose
/// path another repeats, the first included, gets a duplicate diagnostic.
pub proof fn law_duplicate_requests_rejected(o: TypeOptions, i: int, j: int)
    requires
        0 <= i < o.items.len(),
        0 <= j < o.items.len(),
        i != j,
        o.items@[i].path.value@ == o.items@[j].path.value@,
    ensures
        items_diags(o).contains(diag(o.items@[j].path.loc, DiagKind::DuplicatedType)),
{
    let paths = derive_paths(o.items@);
    let locs = derive_locs(o.items@);
    assert(paths[i] == paths[j]);
    assert(is_duplicate(paths, j));
    lemma_dup_contains(paths, locs, o.items.len() as int, j);
    let d = dup_diags(paths, locs, o.items.len() as int);
    let pre = crate::resolve::implicit_diags(o);
    let e = diag(o.items@[j].path.loc, DiagKind::DuplicatedType);
    let k = choose|k: int| 0 <= k < d.len() && d[k] == e;
    assert((pre + d)[pre.len() + k] == e);
}

/// A request given in the implicit shape next to explicit `derive` blocks is
/// always rejected.
pub proof fn law_mixed_shapes_rejected(o: TypeOptions)
    requires
        o.items.len() > 0,
        o.path is Some,
    ensures
        items_diags(o).contains(diag(o.path.unwrap().loc, DiagKind::IllegalWithDerive)),
{
    let e = diag(o.path.unwrap().loc, DiagKind::IllegalWithDerive);
    assert(items_diags(o)[0] == e);
}

/// On an enum, a request that builds this type from the other one fails
/// validation when one of its added variants has no default.
pub proof fn law_enum_added_variant_needs_default(items: Seq<ItemInput>, m: int, k: int)
    requires
        0 <= m < items.len(),
        0 <= k < items[m].add.len(),
        items[m].add@[k].default is None,
        has_from(items[m]),
    ensures
        items_validation(items, true).contains(
            diag(items[m].add@[k].loc, DiagKind::EnumAddNeedsDefault),
        ),
{
    let it = items[m];
    let a = it.add@[k];
    let e = diag(a.loc, DiagKind::EnumAddNeedsDefault);
    let fa = |a: crate::model::AddInput| enum_add_diags(a, it);
    let ea = enum_add_diags(a, it);
    assert(ea[ea.len() - 1] == e);
    lemma_concat_map_contains(it.add@, fa, it.add.len() as int, k, e);
    let inner = concat_map(it.add@, fa, it.add.len() as int);
    let head = crate::diag::diag_if(
        !crate::validate::has_direction(it),
        it.path.loc,
        DiagKind::MissingDirection,
    );
    let q = choose|q: int| 0 <= q < inner.len() && inner[q] == e;
    assert(item_diags(it, true) == head + inner);
    assert((head + inner)[head.len() + q] == e);
    let fi = |it: ItemInput| item_diags(it, true);
    lemma_concat_map_contains(items, fi, items.len() as int, m, e);
}

/// Two or more hints for one direction: the shared group and the group of
/// the outgoing direction, or the shared group and that of the incoming one.
pub open spec fn two_hints_for_a_direction(with: HintOpts, into_with: HintOpts, from_with: HintOpts) -> bool {
    (slot_locs(with) + slot_locs(into_with)).len() >= 2 || (slot_locs(with) + slot_locs(
        from_with,
    )).len() >= 2
}

/// Two hints for one direction in a set of groups is a diagnostic.
pub proof fn lemma_two_hints(with: HintOpts, into_with: HintOpts, from_with: HintOpts)
    requires
        two_hints_for_a_direction(with, into_with, from_with),
    ensures
        group_hint_diags(with, into_with, from_with).len() > 0,
{
    reveal(group_hint_diags);
    reveal(class_hint_diags);
    let a = slot_locs(with) + slot_locs(into_with);
    let b = slot_locs(with) + slot_locs(from_with);
    assert(locs_diags(after_first(a), DiagKind::MultipleHints).len() == after_first(a).len());
    assert(locs_diags(after_first(b), DiagKind::MultipleHints).len() == after_first(b).len());
}

/// A field with two or more hints for one direction (for instance an
/// optional hint shared by both directions and an iterable hint for the
/// outgoing one), globally or inside one `when` block, fails validation,
/// whatever its other options.
pub proof fn law_at_most_one_hint(f: FieldReceiver, derives: Seq<ItemInput>)
    requires
        two_hints_for_a_direction(f.with, f.into_with, f.from_with) || exists|k: int|
            0 <= k < f.items.len() && two_hints_for_a_direction(
                #[trigger] f.items@[k].with,
                f.items@[k].into_with,
                f.items@[k].from_with,
            ),
    ensures
        field_diags(f, derives).len() > 0,
{
    if two_hints_for_a_direction(f.with, f.into_with, f.from_with) {
        lemma_two_hints(f.with, f.into_with, f.from_with);
    } else {
        let k = choose|k: int|
            0 <= k < f.items.len() && two_hints_for_a_direction(
                #[trigger] f.items@[k].with,
                f.items@[k].into_with,
                f.items@[k].from_with,
            );
        let it = f.items@[k];
        lemma_two_hints(it.with, it.into_with, it.from_with);
        let g = |it: ItemFieldInput| group_hint_diags(it.with, it.into_with, it.from_with);
        let d = g(it);
        assert(d.contains(d[0]));
        lemma_concat_map_contains(f.items@, g, f.items.len() as int, k, d[0]);
        lemma_contains_nonempty(concat_map(f.items@, g, f.items.len() as int), d[0]);
    }
    assert(field_hint_diags(f).len() > 0);
    reveal(field_diags);
}

/// A sequence with an element is not empty.
proof fn lemma_contains_nonempty<A>(s: Seq<A>, e: A)
    requires
        s.contains(e),
    ensures
        s.len() > 0,
{
}

/// A run on a type description with two requests for one other type stops
/// at the request gate.
pub proof fn law_duplicate_requests_fail_run(opts: MapperOpts, i: int, j: int)
    requires
        0 <= i < opts.options.items.len(),
        0 <= j < opts.options.items.len(),
        i != j,
        opts.options.items@[i].path.value@ == opts.options.items@[j].path.value@,
    ensures
        spec_items(opts.options) is Some,
        request_gate(opts).len() > 0,
{
    law_duplicate_requests_rejected(opts.options, i, j);
    lemma_contains_nonempty(
        items_diags(opts.options),
        diag(opts.options.items@[j].path.loc, DiagKind::DuplicatedType),
    );
}

/// A run on an enum whose request builds it from the other type while an
/// added variant has no default stops at the request gate.
pub proof fn law_enum_default_fails_run(opts: MapperOpts, m: int, k: int)
    requires
        spec_items(opts.options) is Some,
        opts.data is Enum,
        0 <= m < spec_items(opts.options).unwrap().len(),
        0 <= k < spec_items(opts.options).unwrap()[m].add.len(),
        spec_items(opts.options).unwrap()[m].add@[k].default is None,
        has_from(spec_items(opts.options).unwrap()[m]),
    ensures
        request_gate(opts).len() > 0,
{
    let items = spec_items(opts.options).unwrap();
    law_enum_added_variant_needs_default(items, m, k);
    lemma_contains_nonempty(
        items_validation(items, true),
        diag(items[m].add@[k].loc, DiagKind::EnumAddNeedsDefault),
    );
}

/// A run on a struct with a field that has two or more hints for one
/// direction stops at one of the two gates.
pub proof fn law_two_hints_fail_run(opts: MapperOpts, i: int)
    requires
        spec_items(opts.options) is Some,
        opts.data is Struct,
        0 <= i < opts.data->Struct_0.len(),
        ({
            let f = opts.data->Struct_0@[i];
            two_hints_for_a_direction(f.with, f.into_with, f.from_with) || exists|k: int|
                0 <= k < f.items.len() && two_hints_for_a_direction(
                    #[trigger] f.items@[k].with,
                    f.items@[k].into_with,
                    f.items@[k].from_with,
                )
        }),
    ensures
        request_gate(opts).len() > 0 || member_gate(opts).len() > 0,
{
    let items = spec_items(opts.options).unwrap();
    let fields = opts.data->Struct_0@;
    law_at_most_one_hint(fields[i], items);
    let d = field_diags(fields[i], items);
    let g = |f: FieldReceiver| field_diags(f, items);
    assert(g(fields[i]).contains(d[0]));
    lemma_concat_map_contains(fields, g, fields.len() as int, i, d[0]);
    lemma_contains_nonempty(concat_map(fields, g, fields.len() as int), d[0]);
}

} // verus!
