//! Validation of the conversion requests and of the member options against
//! them. Every rule appends its diagnostics; nothing stops at the first one.
use vstd::prelude::*;

use crate::diag::{diag, diag_if, emit, DiagKind, Diagnostic};
use crate::model::{
    AddInput, DeriveInput, FieldReceiver, HintOpts, ItemFieldInput, ItemInput, ItemVariantInput,
    Loc, SkipInput, Spanned, TypePath, VariantReceiver,
};
use crate::resolve::{
    adds_diags, derive_paths, dup_diags, emit_adds, emit_duplicates, find_derive, first_match,
    loc_diag, path_diag, variant_item_paths, field_item_paths,
};

verus! {

/// What `f` gives each of the first `n` elements, in order.
pub open spec fn concat_map<A, B>(s: Seq<A>, f: spec_fn(A) -> Seq<B>, n: int) -> Seq<B>
    decreases n,
{
    if n <= 0 {
        Seq::empty()
    } else {
        concat_map(s, f, n - 1) + f(s[n - 1])
    }
}

/// The direction is requested as a trait, not as a custom function.
pub open spec fn is_trait(d: Option<DeriveInput>) -> bool {
    match d {
        Some(d) => d.custom is None,
        None => false,
    }
}

pub open spec fn has_direction(it: ItemInput) -> bool {
    it.from is Some || it.into is Some || it.try_from is Some || it.try_into is Some
}

/// `into` or `try_into` is requested.
pub open spec fn has_into(it: ItemInput) -> bool {
    it.into is Some || it.try_into is Some
}

/// `from` or `try_from` is requested.
pub open spec fn has_from(it: ItemInput) -> bool {
    it.from is Some || it.try_from is Some
}

/// `into` or `try_into` is requested as a trait.
pub open spec fn into_needs_custom(it: ItemInput) -> bool {
    is_trait(it.into) || is_trait(it.try_into)
}

/// `from` or `try_from` is requested as a trait.
pub open spec fn from_needs_custom(it: ItemInput) -> bool {
    is_trait(it.from) || is_trait(it.try_from)
}

/// Rules on a member added to a struct (or to a variant's fields): without a
/// default, the outgoing directions must be custom functions, which then need
/// its type.
pub open spec fn struct_add_diags(a: AddInput, it: ItemInput) -> Seq<Diagnostic> {
    if a.default is None {
        diag_if(into_needs_custom(it), a.loc, DiagKind::AddNeedsDefaultOrCustom) + diag_if(
            a.ty is None && has_into(it),
            a.loc,
            DiagKind::AddNeedsType,
        )
    } else {
        Seq::empty()
    }
}

/// Rules on a variant added to an enum: it takes no type, and it needs a
/// default for the incoming directions.
pub open spec fn enum_add_diags(a: AddInput, it: ItemInput) -> Seq<Diagnostic> {
    (match a.ty {
        Some(t) => seq![diag(t.loc, DiagKind::IllegalForEnums)],
        None => Seq::empty(),
    }) + diag_if(a.default is None && has_from(it), a.loc, DiagKind::EnumAddNeedsDefault)
}

/// All diagnostics of one conversion request.
pub open spec fn item_diags(it: ItemInput, is_enum: bool) -> Seq<Diagnostic> {
    diag_if(!has_direction(it), it.path.loc, DiagKind::MissingDirection) + if is_enum {
        concat_map(it.add@, |a: AddInput| enum_add_diags(a, it), it.add.len() as int)
    } else {
        concat_map(it.add@, |a: AddInput| struct_add_diags(a, it), it.add.len() as int)
    }
}

/// All diagnostics of the requests.
pub open spec fn items_validation(items: Seq<ItemInput>, is_enum: bool) -> Seq<Diagnostic> {
    concat_map(items, |it: ItemInput| item_diags(it, is_enum), items.len() as int)
}

/// A skipped variant needs a default for the outgoing directions.
pub open spec fn skip_variant_diags(skip: Option<SkipInput>, it: ItemInput) -> Seq<Diagnostic> {
    match skip {
        Some(s) => diag_if(
            s.default is None && has_into(it),
            s.loc,
            DiagKind::SkippedVariantNeedsDefault,
        ),
        None => Seq::empty(),
    }
}

/// A skipped field without default needs custom functions for the incoming directions.
pub open spec fn skip_field_diags(skip: Option<SkipInput>, it: ItemInput) -> Seq<Diagnostic> {
    match skip {
        Some(s) => diag_if(
            s.default is None && from_needs_custom(it),
            s.loc,
            DiagKind::SkipNeedsDefaultOrCustom,
        ),
        None => Seq::empty(),
    }
}

/// Rules on the variant options that apply to the other type `p`.
pub open spec fn variant_block_diags(
    p: Spanned<TypePath>,
    add: Seq<AddInput>,
    skip: Option<SkipInput>,
    derives: Seq<ItemInput>,
) -> Seq<Diagnostic> {
    match first_match(derive_paths(derives), p.value@, 0) {
        Some(i) => concat_map(add, |a: AddInput| struct_add_diags(a, derives[i]), add.len() as int)
            + skip_variant_diags(skip, derives[i]),
        None => seq![diag(p.loc, DiagKind::UnknownDerive)],
    }
}

/// Rules on the field options that apply to the other type `p`.
pub open spec fn field_block_diags(
    p: Spanned<TypePath>,
    skip: Option<SkipInput>,
    derives: Seq<ItemInput>,
) -> Seq<Diagnostic> {
    match first_match(derive_paths(derives), p.value@, 0) {
        Some(i) => skip_field_diags(skip, derives[i]),
        None => seq![diag(p.loc, DiagKind::UnknownDerive)],
    }
}

pub open spec fn rename_diag(r: Option<Spanned<String>>, kind: DiagKind) -> Seq<Diagnostic> {
    match r {
        Some(r) => seq![diag(r.loc, kind)],
        None => Seq::empty(),
    }
}

pub open spec fn skip_diag(s: Option<SkipInput>, kind: DiagKind) -> Seq<Diagnostic> {
    match s {
        Some(s) => seq![diag(s.loc, kind)],
        None => Seq::empty(),
    }
}

pub open spec fn func_loc(o: Option<Spanned<TypePath>>) -> Seq<Loc> {
    match o {
        Some(v) => seq![v.loc],
        None => Seq::empty(),
    }
}

pub open spec fn expr_loc(o: Option<Spanned<String>>) -> Seq<Loc> {
    match o {
        Some(v) => seq![v.loc],
        None => Seq::empty(),
    }
}

pub open spec fn wrap_loc(o: Option<Box<Spanned<HintOpts>>>) -> Seq<Loc> {
    match o {
        Some(v) => seq![v.loc],
        None => Seq::empty(),
    }
}

/// Locations of the set slots of a hint group, in slot order.
pub open spec fn slot_locs(h: HintOpts) -> Seq<Loc> {
    func_loc(h.func) + expr_loc(h.expr) + wrap_loc(h.optional) + wrap_loc(h.iterable) + wrap_loc(
        h.keyed,
    )
}

pub open spec fn locs_diags(l: Seq<Loc>, kind: DiagKind) -> Seq<Diagnostic> {
    l.map_values(|x: Loc| diag(x, kind))
}

/// At most one hint per group, at every level of nesting: a diagnostic at
/// each set slot after the first.
pub open spec fn hint_diags(h: HintOpts) -> Seq<Diagnostic>
    decreases h,
{
    let own = slot_locs(h);
    locs_diags(own.subrange(if own.len() > 0 { 1 } else { 0 }, own.len() as int), DiagKind::MultipleHints)
        + (match h.optional {
        Some(b) => hint_diags(b.value),
        None => Seq::empty(),
    }) + (match h.iterable {
        Some(b) => hint_diags(b.value),
        None => Seq::empty(),
    }) + (match h.keyed {
        Some(b) => hint_diags(b.value),
        None => Seq::empty(),
    })
}

/// The hints nested inside the wrapper slots of a group.
#[verifier::opaque]
pub open spec fn inner_hint_diags(h: HintOpts) -> Seq<Diagnostic> {
    (match h.optional {
        Some(b) => hint_diags(b.value),
        None => Seq::empty(),
    }) + (match h.iterable {
        Some(b) => hint_diags(b.value),
        None => Seq::empty(),
    }) + (match h.keyed {
        Some(b) => hint_diags(b.value),
        None => Seq::empty(),
    })
}

/// All but the first location.
pub open spec fn after_first(l: Seq<Loc>) -> Seq<Loc> {
    l.subrange(if l.len() > 0 { 1 } else { 0 }, l.len() as int)
}

/// At most one hint for one direction, whose hints are those of the shared
/// group and of its own group: a diagnostic at each set slot after the first.
#[verifier::opaque]
pub open spec fn class_hint_diags(shared: HintOpts, own: HintOpts) -> Seq<Diagnostic> {
    locs_diags(after_first(slot_locs(shared) + slot_locs(own)), DiagKind::MultipleHints)
}

/// The hint rules of one set of groups: per direction (outgoing: shared and
/// `into_with`; incoming: shared and `from_with`), then inside every wrapper.
#[verifier::opaque]
pub open spec fn group_hint_diags(with: HintOpts, into_with: HintOpts, from_with: HintOpts) -> Seq<
    Diagnostic,
> {
    class_hint_diags(with, into_with) + class_hint_diags(with, from_with) + inner_hint_diags(with)
        + inner_hint_diags(into_with) + inner_hint_diags(from_with)
}

pub open spec fn field_hint_diags(f: FieldReceiver) -> Seq<Diagnostic> {
    group_hint_diags(f.with, f.into_with, f.from_with) + concat_map(
        f.items@,
        |it: ItemFieldInput| group_hint_diags(it.with, it.into_with, it.from_with),
        f.items.len() as int,
    )
}

pub open spec fn field_item_locs(items: Seq<ItemFieldInput>) -> Seq<Loc> {
    items.map_values(|it: ItemFieldInput| it.path.loc)
}

pub open spec fn variant_item_locs(items: Seq<ItemVariantInput>) -> Seq<Loc> {
    items.map_values(|it: ItemVariantInput| it.path.loc)
}

/// Global options next to scoped blocks, and scoped blocks for one type twice.
pub open spec fn field_when_diags(f: FieldReceiver) -> Seq<Diagnostic> {
    let k = DiagKind::IllegalWithWhen;
    if f.items.len() > 0 {
        path_diag(f.path, k) + rename_diag(f.rename, k) + skip_diag(f.skip, k) + locs_diags(
            slot_locs(f.with),
            k,
        ) + locs_diags(slot_locs(f.into_with), k) + locs_diags(slot_locs(f.from_with), k)
            + dup_diags(
            field_item_paths(f.items@),
            field_item_locs(f.items@),
            f.items.len() as int,
        )
    } else {
        Seq::empty()
    }
}

/// All diagnostics of one field.
#[verifier::opaque]
pub open spec fn field_diags(f: FieldReceiver, derives: Seq<ItemInput>) -> Seq<Diagnostic> {
    field_when_diags(f) + (match f.path {
        Some(p) => field_block_diags(p, f.skip, derives),
        None => concat_map(
            derives,
            |d: ItemInput| field_block_diags(d.path, f.skip, derives),
            derives.len() as int,
        ),
    }) + concat_map(
        f.items@,
        |it: ItemFieldInput| field_block_diags(it.path, it.skip, derives),
        f.items.len() as int,
    ) + field_hint_diags(f)
}

pub open spec fn fields_diags(fields: Seq<FieldReceiver>, derives: Seq<ItemInput>) -> Seq<
    Diagnostic,
> {
    concat_map(fields, |f: FieldReceiver| field_diags(f, derives), fields.len() as int)
}

pub open spec fn variant_when_diags(v: VariantReceiver) -> Seq<Diagnostic> {
    let k = DiagKind::IllegalWithWhen;
    if v.items.len() > 0 {
        path_diag(v.path, k) + rename_diag(v.rename, k) + adds_diags(v.add@, k) + skip_diag(
            v.skip,
            k,
        ) + loc_diag(v.ignore_extra, k) + dup_diags(
            variant_item_paths(v.items@),
            variant_item_locs(v.items@),
            v.items.len() as int,
        )
    } else {
        Seq::empty()
    }
}

/// All diagnostics of one variant, its fields included.
#[verifier::opaque]
pub open spec fn variant_diags(v: VariantReceiver, derives: Seq<ItemInput>) -> Seq<Diagnostic> {
    variant_when_diags(v) + (match v.path {
        Some(p) => variant_block_diags(p, v.add@, v.skip, derives),
        None => concat_map(
            derives,
            |d: ItemInput| variant_block_diags(d.path, v.add@, v.skip, derives),
            derives.len() as int,
        ),
    }) + concat_map(
        v.items@,
        |it: ItemVariantInput| variant_block_diags(it.path, it.add@, it.skip, derives),
        v.items.len() as int,
    ) + fields_diags(v.fields@, derives)
}

pub open spec fn variants_diags(variants: Seq<VariantReceiver>, derives: Seq<ItemInput>) -> Seq<
    Diagnostic,
> {
    concat_map(variants, |v: VariantReceiver| variant_diags(v, derives), variants.len() as int)
}

fn is_trait_exec(d: &Option<DeriveInput>) -> (r: bool)
    ensures
        r == is_trait(*d),
{
    match d {
        Some(d) => d.custom.is_none(),
        None => false,
    }
}

fn check_struct_add(a: &AddInput, it: &ItemInput, diags: &mut Vec<Diagnostic>)
    ensures
        final(diags)@ == old(diags)@ + struct_add_diags(*a, *it),
{
    let ghost d0 = diags@;
    if a.default.is_none() {
        if is_trait_exec(&it.into) || is_trait_exec(&it.try_into) {
            emit(diags, a.loc, DiagKind::AddNeedsDefaultOrCustom);
        }
        if a.ty.is_none() && (it.into.is_some() || it.try_into.is_some()) {
            emit(diags, a.loc, DiagKind::AddNeedsType);
        }
    }
    proof {
        assert(diags@ =~= d0 + struct_add_diags(*a, *it));
    }
}

fn check_enum_add(a: &AddInput, it: &ItemInput, diags: &mut Vec<Diagnostic>)
    ensures
        final(diags)@ == old(diags)@ + enum_add_diags(*a, *it),
{
    let ghost d0 = diags@;
    if let Some(t) = &a.ty {
        emit(diags, t.loc, DiagKind::IllegalForEnums);
    }
    if a.default.is_none() && (it.from.is_some() || it.try_from.is_some()) {
        emit(diags, a.loc, DiagKind::EnumAddNeedsDefault);
    }
    proof {
        assert(diags@ =~= d0 + enum_add_diags(*a, *it));
    }
}

/// Applies the struct rules of added members, under the request `it`.
fn check_struct_adds(add: &Vec<AddInput>, it: &ItemInput, diags: &mut Vec<Diagnostic>)
    ensures
        final(diags)@ == old(diags)@ + concat_map(
            add@,
            |a: AddInput| struct_add_diags(a, *it),
            add.len() as int,
        ),
{
    let ghost d0 = diags@;
    let mut i: usize = 0;
    while i < add.len()
        invariant
            i <= add.len(),
            diags@ == d0 + concat_map(add@, |a: AddInput| struct_add_diags(a, *it), i as int),
        decreases add.len() - i,
    {
        check_struct_add(&add[i], it, diags);
        proof {
            assert(diags@ =~= d0 + concat_map(
                add@,
                |a: AddInput| struct_add_diags(a, *it),
                i + 1,
            ));
        }
        i += 1;
    }
}

fn check_enum_adds(add: &Vec<AddInput>, it: &ItemInput, diags: &mut Vec<Diagnostic>)
    ensures
        final(diags)@ == old(diags)@ + concat_map(
            add@,
            |a: AddInput| enum_add_diags(a, *it),
            add.len() as int,
        ),
{
    let ghost d0 = diags@;
    let mut i: usize = 0;
    while i < add.len()
        invariant
            i <= add.len(),
            diags@ == d0 + concat_map(add@, |a: AddInput| enum_add_diags(a, *it), i as int),
        decreases add.len() - i,
    {
        check_enum_add(&add[i], it, diags);
        proof {
            assert(diags@ =~= d0 + concat_map(
                add@,
                |a: AddInput| enum_add_diags(a, *it),
                i + 1,
            ));
        }
        i += 1;
    }
}

impl ItemInput {
    /// Checks that the request is well formed for a struct or an enum.
    pub fn validate(&self, is_enum: bool, diags: &mut Vec<Diagnostic>)
        ensures
            final(diags)@ == old(diags)@ + item_diags(*self, is_enum),
    {
        let ghost d0 = diags@;
        if self.from.is_none() && self.into.is_none() && self.try_from.is_none()
            && self.try_into.is_none() {
            emit(diags, self.path.loc, DiagKind::MissingDirection);
        }
        if is_enum {
            check_enum_adds(&self.add, self, diags);
        } else {
            check_struct_adds(&self.add, self, diags);
        }
        proof {
            assert(diags@ =~= d0 + item_diags(*self, is_enum));
        }
    }
}

/// Checks every request.
pub fn validate_items(items: &Vec<ItemInput>, is_enum: bool, diags: &mut Vec<Diagnostic>)
    ensures
        final(diags)@ == old(diags)@ + items_validation(items@, is_enum),
{
    let ghost d0 = diags@;
    let mut i: usize = 0;
    while i < items.len()
        invariant
            i <= items.len(),
            diags@ == d0 + concat_map(items@, |it: ItemInput| item_diags(it, is_enum), i as int),
        decreases items.len() - i,
    {
        items[i].validate(is_enum, diags);
        proof {
            assert(diags@ =~= d0 + concat_map(
                items@,
                |it: ItemInput| item_diags(it, is_enum),
                i + 1,
            ));
        }
        i += 1;
    }
}

/// Checks the variant options that apply to the other type `p`.
fn check_variant_block(
    p: &Spanned<TypePath>,
    add: &Vec<AddInput>,
    skip: &Option<SkipInput>,
    derives: &Vec<ItemInput>,
    diags: &mut Vec<Diagnostic>,
)
    ensures
        final(diags)@ == old(diags)@ + variant_block_diags(*p, add@, *skip, derives@),
{
    let ghost d0 = diags@;
    match find_derive(derives, &p.value) {
        Some(i) => {
            let d = &derives[i];
            check_struct_adds(add, d, diags);
            if let Some(s) = skip {
                if s.default.is_none() && (d.into.is_some() || d.try_into.is_some()) {
                    emit(diags, s.loc, DiagKind::SkippedVariantNeedsDefault);
                }
            }
        },
        None => {
            emit(diags, p.loc, DiagKind::UnknownDerive);
        },
    }
    proof {
        assert(diags@ =~= d0 + variant_block_diags(*p, add@, *skip, derives@));
    }
}

/// Checks the field options that apply to the other type `p`.
fn check_field_block(
    p: &Spanned<TypePath>,
    skip: &Option<SkipInput>,
    derives: &Vec<ItemInput>,
    diags: &mut Vec<Diagnostic>,
)
    ensures
        final(diags)@ == old(diags)@ + field_block_diags(*p, *skip, derives@),
{
    let ghost d0 = diags@;
    match find_derive(derives, &p.value) {
        Some(i) => {
            let d = &derives[i];
            if let Some(s) = skip {
                if s.default.is_none() && (is_trait_exec(&d.from) || is_trait_exec(&d.try_from)) {
                    emit(diags, s.loc, DiagKind::SkipNeedsDefaultOrCustom);
                }
            }
        },
        None => {
            emit(diags, p.loc, DiagKind::UnknownDerive);
        },
    }
    proof {
        assert(diags@ =~= d0 + field_block_diags(*p, *skip, derives@));
    }
}

impl ItemVariantInput {
    /// Checks this scoped block against the requests.
    pub fn validate(&self, derives: &Vec<ItemInput>, diags: &mut Vec<Diagnostic>)
        ensures
            final(diags)@ == old(diags)@ + variant_block_diags(
                self.path,
                self.add@,
                self.skip,
                derives@,
            ),
    {
        check_variant_block(&self.path, &self.add, &self.skip, derives, diags);
    }
}

impl ItemFieldInput {
    /// Checks this scoped block against the requests.
    pub fn validate(&self, derives: &Vec<ItemInput>, diags: &mut Vec<Diagnostic>)
        ensures
            final(diags)@ == old(diags)@ + field_block_diags(self.path, self.skip, derives@),
    {
        check_field_block(&self.path, &self.skip, derives, diags);
    }
}

fn slot_locs_exec(h: &HintOpts) -> (r: Vec<Loc>)
    ensures
        r@ == slot_locs(*h),
{
    let mut r: Vec<Loc> = Vec::new();
    if let Some(v) = &h.func {
        r.push(v.loc);
    }
    if let Some(v) = &h.expr {
        r.push(v.loc);
    }
    if let Some(v) = &h.optional {
        r.push(v.loc);
    }
    if let Some(v) = &h.iterable {
        r.push(v.loc);
    }
    if let Some(v) = &h.keyed {
        r.push(v.loc);
    }
    proof {
        assert(r@ =~= slot_locs(*h));
    }
    r
}

/// Appends a diagnostic of `kind` at each location from index `from` on.
fn emit_locs(l: &Vec<Loc>, from: usize, kind: DiagKind, diags: &mut Vec<Diagnostic>)
    requires
        from <= l.len(),
    ensures
        final(diags)@ == old(diags)@ + locs_diags(l@.subrange(from as int, l.len() as int), kind),
{
    let ghost d0 = diags@;
    let mut i: usize = from;
    while i < l.len()
        invariant
            from <= i <= l.len(),
            diags@ == d0 + locs_diags(l@.subrange(from as int, i as int), kind),
        decreases l.len() - i,
    {
        emit(diags, l[i], kind);
        proof {
            assert(locs_diags(l@.subrange(from as int, i + 1), kind) =~= locs_diags(
                l@.subrange(from as int, i as int),
                kind,
            ).push(diag(l@[i as int], kind)));
        }
        i += 1;
    }
}

/// Checks that each group of hints sets at most one slot, at every level.
pub fn check_hints(h: &HintOpts, diags: &mut Vec<Diagnostic>)
    ensures
        final(diags)@ == old(diags)@ + hint_diags(*h),
    decreases h,
{
    let ghost d0 = diags@;
    let locs = slot_locs_exec(h);
    let first: usize = if locs.len() > 0 { 1 } else { 0 };
    emit_locs(&locs, first, DiagKind::MultipleHints, diags);
    let ghost d1 = diags@;
    if let Some(b) = &h.optional {
        check_hints(&b.value, diags);
    }
    let ghost d2 = diags@;
    if let Some(b) = &h.iterable {
        check_hints(&b.value, diags);
    }
    let ghost d3 = diags@;
    if let Some(b) = &h.keyed {
        check_hints(&b.value, diags);
    }
    proof {
        assert(diags@ =~= d0 + hint_diags(*h));
    }
}

fn emit_rename(r: &Option<Spanned<String>>, kind: DiagKind, diags: &mut Vec<Diagnostic>)
    ensures
        final(diags)@ == old(diags)@ + rename_diag(*r, kind),
{
    if let Some(r) = r {
        emit(diags, r.loc, kind);
    }
}

fn emit_skip(s: &Option<SkipInput>, kind: DiagKind, diags: &mut Vec<Diagnostic>)
    ensures
        final(diags)@ == old(diags)@ + skip_diag(*s, kind),
{
    if let Some(s) = s {
        emit(diags, s.loc, kind);
    }
}

fn emit_slots(h: &HintOpts, kind: DiagKind, diags: &mut Vec<Diagnostic>)
    ensures
        final(diags)@ == old(diags)@ + locs_diags(slot_locs(*h), kind),
{
    let locs = slot_locs_exec(h);
    emit_locs(&locs, 0, kind, diags);
    proof {
        assert(locs@.subrange(0, locs@.len() as int) =~= locs@);
    }
}

fn field_paths_and_locs(items: &Vec<ItemFieldInput>) -> (r: (Vec<&TypePath>, Vec<Loc>))
    ensures
        r.0@.map_values(|p: &TypePath| p@) == field_item_paths(items@),
        r.1@ == field_item_locs(items@),
        r.0.len() == r.1.len(),
{
    let mut paths: Vec<&TypePath> = Vec::new();
    let mut locs: Vec<Loc> = Vec::new();
    let mut i: usize = 0;
    while i < items.len()
        invariant
            i <= items.len(),
            paths.len() == i,
            locs.len() == i,
            forall|k: int| 0 <= k < i ==> *paths@[k] == items@[k].path.value,
            forall|k: int| 0 <= k < i ==> locs@[k] == items@[k].path.loc,
        decreases items.len() - i,
    {
        paths.push(&items[i].path.value);
        locs.push(items[i].path.loc);
        i += 1;
    }
    proof {
        assert(paths@.map_values(|p: &TypePath| p@) =~= field_item_paths(items@));
        assert(locs@ =~= field_item_locs(items@));
    }
    (paths, locs)
}

fn variant_paths_and_locs(items: &Vec<ItemVariantInput>) -> (r: (Vec<&TypePath>, Vec<Loc>))
    ensures
        r.0@.map_values(|p: &TypePath| p@) == variant_item_paths(items@),
        r.1@ == variant_item_locs(items@),
        r.0.len() == r.1.len(),
{
    let mut paths: Vec<&TypePath> = Vec::new();
    let mut locs: Vec<Loc> = Vec::new();
    let mut i: usize = 0;
    while i < items.len()
        invariant
            i <= items.len(),
            paths.len() == i,
            locs.len() == i,
            forall|k: int| 0 <= k < i ==> *paths@[k] == items@[k].path.value,
            forall|k: int| 0 <= k < i ==> locs@[k] == items@[k].path.loc,
        decreases items.len() - i,
    {
        paths.push(&items[i].path.value);
        locs.push(items[i].path.loc);
        i += 1;
    }
    proof {
        assert(paths@.map_values(|p: &TypePath| p@) =~= variant_item_paths(items@));
        assert(locs@ =~= variant_item_locs(items@));
    }
    (paths, locs)
}

fn check_inner_hints(h: &HintOpts, diags: &mut Vec<Diagnostic>)
    ensures
        final(diags)@ == old(diags)@ + inner_hint_diags(*h),
{
    let ghost d0 = diags@;
    if let Some(b) = &h.optional {
        check_hints(&b.value, diags);
    }
    let ghost d1 = diags@;
    if let Some(b) = &h.iterable {
        check_hints(&b.value, diags);
    }
    let ghost d2 = diags@;
    if let Some(b) = &h.keyed {
        check_hints(&b.value, diags);
    }
    proof {
        reveal(inner_hint_diags);
        assert(diags@ =~= d0 + inner_hint_diags(*h));
    }
}

fn check_class_hints(shared: &HintOpts, own: &HintOpts, diags: &mut Vec<Diagnostic>)
    ensures
        final(diags)@ == old(diags)@ + class_hint_diags(*shared, *own),
{
    let mut locs = slot_locs_exec(shared);
    let mut more = slot_locs_exec(own);
    locs.append(&mut more);
    let first: usize = if locs.len() > 0 { 1 } else { 0 };
    emit_locs(&locs, first, DiagKind::MultipleHints, diags);
    proof {
        reveal(class_hint_diags);
    }
}

fn check_group_hints(
    with: &HintOpts,
    into_with: &HintOpts,
    from_with: &HintOpts,
    diags: &mut Vec<Diagnostic>,
)
    ensures
        final(diags)@ == old(diags)@ + group_hint_diags(*with, *into_with, *from_with),
{
    let ghost d0 = diags@;
    check_class_hints(with, into_with, diags);
    check_class_hints(with, from_with, diags);
    check_inner_hints(with, diags);
    check_inner_hints(into_with, diags);
    check_inner_hints(from_with, diags);
    proof {
        reveal(group_hint_diags);
        assert(diags@ =~= d0 + group_hint_diags(*with, *into_with, *from_with));
    }
}

/// Appending `p` to `d0 + acc` is appending `acc + p` to `d0`.
proof fn lemma_append_step(d0: Seq<Diagnostic>, acc: Seq<Diagnostic>, p: Seq<Diagnostic>)
    ensures
        d0 + acc + p == d0 + (acc + p),
{
    vstd::seq_lib::lemma_concat_associative(d0, acc, p);
}

impl FieldReceiver {
    fn check_when(&self, diags: &mut Vec<Diagnostic>)
        ensures
            final(diags)@ == old(diags)@ + field_when_diags(*self),
    {
        let ghost d0 = diags@;
        if self.items.len() > 0 {
            let k = DiagKind::IllegalWithWhen;
            crate::resolve::emit_path(&self.path, k, diags);
            let ghost a1 = crate::resolve::path_diag(self.path, k);
            emit_rename(&self.rename, k, diags);
            proof {
                lemma_append_step(d0, a1, rename_diag(self.rename, k));
            }
            let ghost a2 = a1 + rename_diag(self.rename, k);
            emit_skip(&self.skip, k, diags);
            proof {
                lemma_append_step(d0, a2, skip_diag(self.skip, k));
            }
            let ghost a3 = a2 + skip_diag(self.skip, k);
            emit_slots(&self.with, k, diags);
            proof {
                lemma_append_step(d0, a3, locs_diags(slot_locs(self.with), k));
            }
            let ghost a4 = a3 + locs_diags(slot_locs(self.with), k);
            emit_slots(&self.into_with, k, diags);
            proof {
                lemma_append_step(d0, a4, locs_diags(slot_locs(self.into_with), k));
            }
            let ghost a5 = a4 + locs_diags(slot_locs(self.into_with), k);
            emit_slots(&self.from_with, k, diags);
            proof {
                lemma_append_step(d0, a5, locs_diags(slot_locs(self.from_with), k));
            }
            let ghost a6 = a5 + locs_diags(slot_locs(self.from_with), k);
            let (paths, locs) = field_paths_and_locs(&self.items);
            emit_duplicates(&paths, &locs, diags);
            proof {
                let dd = dup_diags(
                    field_item_paths(self.items@),
                    field_item_locs(self.items@),
                    self.items.len() as int,
                );
                lemma_append_step(d0, a6, dd);
                assert(a6 + dd == field_when_diags(*self));
            }
        } else {
            proof {
                assert(d0 + field_when_diags(*self) =~= d0);
            }
        }
    }

    fn check_global(&self, derives: &Vec<ItemInput>, diags: &mut Vec<Diagnostic>)
        ensures
            final(diags)@ == old(diags)@ + (match self.path {
                Some(p) => field_block_diags(p, self.skip, derives@),
                None => concat_map(
                    derives@,
                    |d: ItemInput| field_block_diags(d.path, self.skip, derives@),
                    derives.len() as int,
                ),
            }),
    {
        match &self.path {
            Some(p) => check_field_block(p, &self.skip, derives, diags),
            None => {
                let ghost d0 = diags@;
                let mut i: usize = 0;
                while i < derives.len()
                    invariant
                        i <= derives.len(),
                        self.path is None,
                        diags@ == d0 + concat_map(
                            derives@,
                            |d: ItemInput| field_block_diags(d.path, self.skip, derives@),
                            i as int,
                        ),
                    decreases derives.len() - i,
                {
                    check_field_block(&derives[i].path, &self.skip, derives, diags);
                    i += 1;
                }
            },
        }
    }

    fn check_scoped(&self, derives: &Vec<ItemInput>, diags: &mut Vec<Diagnostic>)
        ensures
            final(diags)@ == old(diags)@ + concat_map(
                self.items@,
                |it: ItemFieldInput| field_block_diags(it.path, it.skip, derives@),
                self.items.len() as int,
            ),
    {
        let ghost d0 = diags@;
        let mut i: usize = 0;
        while i < self.items.len()
            invariant
                i <= self.items.len(),
                diags@ == d0 + concat_map(
                    self.items@,
                    |it: ItemFieldInput| field_block_diags(it.path, it.skip, derives@),
                    i as int,
                ),
            decreases self.items.len() - i,
        {
            self.items[i].validate(derives, diags);
            i += 1;
        }
    }

    #[verifier::rlimit(30)]
    fn check_all_hints(&self, diags: &mut Vec<Diagnostic>)
        ensures
            final(diags)@ == old(diags)@ + field_hint_diags(*self),
    {
        let ghost d0 = diags@;
        check_group_hints(&self.with, &self.into_with, &self.from_with, diags);
        let ghost d1 = diags@;
        let mut i: usize = 0;
        while i < self.items.len()
            invariant
                i <= self.items.len(),
                diags@ == d1 + concat_map(
                    self.items@,
                    |it: ItemFieldInput| group_hint_diags(it.with, it.into_with, it.from_with),
                    i as int,
                ),
            decreases self.items.len() - i,
        {
            let it = &self.items[i];
            check_group_hints(&it.with, &it.into_with, &it.from_with, diags);
            i += 1;
        }
        proof {
            assert(diags@ =~= d0 + field_hint_diags(*self));
        }
    }

    /// Checks the options of this field against the requests.
    #[verifier::rlimit(40)]
    pub fn validate(&self, derives: &Vec<ItemInput>, diags: &mut Vec<Diagnostic>)
        ensures
            final(diags)@ == old(diags)@ + field_diags(*self, derives@),
    {
        let ghost d0 = diags@;
        self.check_when(diags);
        self.check_global(derives, diags);
        self.check_scoped(derives, diags);
        self.check_all_hints(diags);
        proof {
            reveal(field_diags);
            assert(diags@ =~= d0 + field_diags(*self, derives@));
        }
    }
}

/// Checks the options of every field against the requests.
pub fn validate_fields(
    fields: &Vec<FieldReceiver>,
    derives: &Vec<ItemInput>,
    diags: &mut Vec<Diagnostic>,
)
    ensures
        final(diags)@ == old(diags)@ + fields_diags(fields@, derives@),
{
    let ghost d0 = diags@;
    let mut i: usize = 0;
    while i < fields.len()
        invariant
            i <= fields.len(),
            diags@ == d0 + concat_map(
                fields@,
                |f: FieldReceiver| field_diags(f, derives@),
                i as int,
            ),
        decreases fields.len() - i,
    {
        fields[i].validate(derives, diags);
        i += 1;
    }
}

impl VariantReceiver {
    fn check_when(&self, diags: &mut Vec<Diagnostic>)
        ensures
            final(diags)@ == old(diags)@ + variant_when_diags(*self),
    {
        let ghost d0 = diags@;
        if self.items.len() > 0 {
            let k = DiagKind::IllegalWithWhen;
            crate::resolve::emit_path(&self.path, k, diags);
            let ghost a1 = crate::resolve::path_diag(self.path, k);
            emit_rename(&self.rename, k, diags);
            proof {
                lemma_append_step(d0, a1, rename_diag(self.rename, k));
            }
            let ghost a2 = a1 + rename_diag(self.rename, k);
            emit_adds(&self.add, k, diags);
            proof {
                lemma_append_step(d0, a2, adds_diags(self.add@, k));
            }
            let ghost a3 = a2 + adds_diags(self.add@, k);
            emit_skip(&self.skip, k, diags);
            proof {
                lemma_append_step(d0, a3, skip_diag(self.skip, k));
            }
            let ghost a4 = a3 + skip_diag(self.skip, k);
            crate::resolve::emit_loc(&self.ignore_extra, k, diags);
            proof {
                lemma_append_step(d0, a4, loc_diag(self.ignore_extra, k));
            }
            let ghost a5 = a4 + loc_diag(self.ignore_extra, k);
            let (paths, locs) = variant_paths_and_locs(&self.items);
            emit_duplicates(&paths, &locs, diags);
            proof {
                let dd = dup_diags(
                    variant_item_paths(self.items@),
                    variant_item_locs(self.items@),
                    self.items.len() as int,
                );
                lemma_append_step(d0, a5, dd);
                assert(a5 + dd == variant_when_diags(*self));
            }
        } else {
            proof {
                assert(d0 + variant_when_diags(*self) =~= d0);
            }
        }
    }

    fn check_global(&self, derives: &Vec<ItemInput>, diags: &mut Vec<Diagnostic>)
        ensures
            final(diags)@ == old(diags)@ + (match self.path {
                Some(p) => variant_block_diags(p, self.add@, self.skip, derives@),
                None => concat_map(
                    derives@,
                    |d: ItemInput| variant_block_diags(d.path, self.add@, self.skip, derives@),
                    derives.len() as int,
                ),
            }),
    {
        match &self.path {
            Some(p) => check_variant_block(p, &self.add, &self.skip, derives, diags),
            None => {
                let ghost d0 = diags@;
                let mut i: usize = 0;
                while i < derives.len()
                    invariant
                        i <= derives.len(),
                        self.path is None,
                        diags@ == d0 + concat_map(
                            derives@,
                            |d: ItemInput| variant_block_diags(d.path, self.add@, self.skip, derives@),
                            i as int,
                        ),
                    decreases derives.len() - i,
                {
                    check_variant_block(&derives[i].path, &self.add, &self.skip, derives, diags);
                    i += 1;
                }
            },
        }
    }

    fn check_scoped(&self, derives: &Vec<ItemInput>, diags: &mut Vec<Diagnostic>)
        ensures
            final(diags)@ == old(diags)@ + concat_map(
                self.items@,
                |it: ItemVariantInput| variant_block_diags(it.path, it.add@, it.skip, derives@),
                self.items.len() as int,
            ),
    {
        let ghost d0 = diags@;
        let mut i: usize = 0;
        while i < self.items.len()
            invariant
                i <= self.items.len(),
                diags@ == d0 + concat_map(
                    self.items@,
                    |it: ItemVariantInput| variant_block_diags(it.path, it.add@, it.skip, derives@),
                    i as int,
                ),
            decreases self.items.len() - i,
        {
            self.items[i].validate(derives, diags);
            i += 1;
        }
    }

    /// Checks the options of this variant and of its fields against the requests.
    pub fn validate(&self, derives: &Vec<ItemInput>, diags: &mut Vec<Diagnostic>)
        ensures
            final(diags)@ == old(diags)@ + variant_diags(*self, derives@),
    {
        let ghost d0 = diags@;
        self.check_when(diags);
        self.check_global(derives, diags);
        self.check_scoped(derives, diags);
        validate_fields(&self.fields, derives, diags);
        proof {
            reveal(variant_diags);
            assert(diags@ =~= d0 + variant_diags(*self, derives@));
        }
    }
}

/// Checks the options of every variant against the requests.
pub fn validate_variants(
    variants: &Vec<VariantReceiver>,
    derives: &Vec<ItemInput>,
    diags: &mut Vec<Diagnostic>,
)
    ensures
        final(diags)@ == old(diags)@ + variants_diags(variants@, derives@),
{
    let ghost d0 = diags@;
    let mut i: usize = 0;
    while i < variants.len()
        invariant
            i <= variants.len(),
            diags@ == d0 + concat_map(
                variants@,
                |v: VariantReceiver| variant_diags(v, derives@),
                i as int,
            ),
        decreases variants.len() - i,
    {
        variants[i].validate(derives, diags);
        i += 1;
    }
}

} // verus!
