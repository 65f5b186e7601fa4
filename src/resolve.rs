//! Conversion-request resolution and the per-member lookup of effective
//! options: a block scoped to the other type first, then the global options
//! when they apply to it, else nothing.
use vstd::prelude::*;

use crate::diag::{diag, diag_if, emit, DiagKind, Diagnostic};
use crate::model::{
    AddInput, DeriveInput, FieldReceiver, HintOpts, ItemFieldInput, ItemInput, ItemVariantInput,
    Loc, SkipInput, Spanned, TypeOptions, TypePath, VariantReceiver,
};

verus! {

/// Index of the first path equal to `x`, searching from `i` on.
pub open spec fn first_match(paths: Seq<Seq<char>>, x: Seq<char>, i: int) -> Option<int>
    decreases paths.len() - i,
{
    if i < 0 || i >= paths.len() {
        None
    } else if paths[i] == x {
        Some(i)
    } else {
        first_match(paths, x, i + 1)
    }
}

/// What the first match is: the least index from `i` on whose path is `x`.
pub proof fn lemma_first_match(paths: Seq<Seq<char>>, x: Seq<char>, i: int)
    requires
        0 <= i,
    ensures
        match first_match(paths, x, i) {
            Some(k) => i <= k < paths.len() && paths[k] == x && forall|j: int|
                i <= j < k ==> paths[j] != x,
            None => forall|j: int| i <= j < paths.len() ==> paths[j] != x,
        },
    decreases paths.len() - i,
{
    if i < paths.len() && paths[i] != x {
        lemma_first_match(paths, x, i + 1);
    }
}

pub open spec fn as_int(r: Option<usize>) -> Option<int> {
    match r {
        Some(k) => Some(k as int),
        None => None,
    }
}

/// `r` refers to the value `v` holds, or is `None` where `v` is.
pub open spec fn refers_to<T>(r: Option<&T>, v: Option<T>) -> bool {
    match (r, v) {
        (Some(a), Some(b)) => *a == b,
        (None, None) => true,
        _ => false,
    }
}

/// Global options apply to `x` when they name no type, or name `x`.
pub open spec fn global_applies(path: Option<Spanned<TypePath>>, x: Seq<char>) -> bool {
    match path {
        Some(p) => p.value@ == x,
        None => true,
    }
}

pub open spec fn derive_paths(items: Seq<ItemInput>) -> Seq<Seq<char>> {
    items.map_values(|it: ItemInput| it.path.value@)
}

pub open spec fn field_item_paths(items: Seq<ItemFieldInput>) -> Seq<Seq<char>> {
    items.map_values(|it: ItemFieldInput| it.path.value@)
}

pub open spec fn variant_item_paths(items: Seq<ItemVariantInput>) -> Seq<Seq<char>> {
    items.map_values(|it: ItemVariantInput| it.path.value@)
}

/// Whether any hint slot of the group is set.
pub open spec fn hint_set(h: HintOpts) -> bool {
    h.func is Some || h.expr is Some || h.optional is Some || h.iterable is Some || h.keyed is Some
}

/// The direction-specific group when set, else the shared one when set.
/// Validation rejects a direction whose two groups are both set.
pub open spec fn prefer(specific: HintOpts, shared: HintOpts) -> Option<HintOpts> {
    if hint_set(specific) {
        Some(specific)
    } else if hint_set(shared) {
        Some(shared)
    } else {
        None
    }
}

fn prefer_exec<'a>(specific: &'a HintOpts, shared: &'a HintOpts) -> (r: Option<&'a HintOpts>)
    ensures
        refers_to(r, prefer(*specific, *shared)),
{
    if specific.is_set() {
        Some(specific)
    } else if shared.is_set() {
        Some(shared)
    } else {
        None
    }
}

impl HintOpts {
    pub fn is_set(&self) -> (r: bool)
        ensures
            r == hint_set(*self),
    {
        self.func.is_some() || self.expr.is_some() || self.optional.is_some()
            || self.iterable.is_some() || self.keyed.is_some()
    }
}

/// Index of the first request for the path `x`.
pub fn find_derive(derives: &Vec<ItemInput>, x: &TypePath) -> (r: Option<usize>)
    ensures
        as_int(r) == first_match(derive_paths(derives@), x@, 0),
        r matches Some(k) ==> k < derives.len(),
{
    proof {
        lemma_first_match(derive_paths(derives@), x@, 0);
    }
    let mut i: usize = 0;
    while i < derives.len()
        invariant
            i <= derives.len(),
            first_match(derive_paths(derives@), x@, 0) == first_match(
                derive_paths(derives@),
                x@,
                i as int,
            ),
        decreases derives.len() - i,
    {
        if derives[i].path.value.same_as(x) {
            return Some(i);
        }
        i += 1;
    }
    None
}

fn find_field_item(items: &Vec<ItemFieldInput>, x: &TypePath) -> (r: Option<usize>)
    ensures
        as_int(r) == first_match(field_item_paths(items@), x@, 0),
        r matches Some(k) ==> k < items.len(),
{
    proof {
        lemma_first_match(field_item_paths(items@), x@, 0);
    }
    let mut i: usize = 0;
    while i < items.len()
        invariant
            i <= items.len(),
            first_match(field_item_paths(items@), x@, 0) == first_match(
                field_item_paths(items@),
                x@,
                i as int,
            ),
        decreases items.len() - i,
    {
        if items[i].path.value.same_as(x) {
            return Some(i);
        }
        i += 1;
    }
    None
}

fn find_variant_item(items: &Vec<ItemVariantInput>, x: &TypePath) -> (r: Option<usize>)
    ensures
        as_int(r) == first_match(variant_item_paths(items@), x@, 0),
        r matches Some(k) ==> k < items.len(),
{
    proof {
        lemma_first_match(variant_item_paths(items@), x@, 0);
    }
    let mut i: usize = 0;
    while i < items.len()
        invariant
            i <= items.len(),
            first_match(variant_item_paths(items@), x@, 0) == first_match(
                variant_item_paths(items@),
                x@,
                i as int,
            ),
        decreases items.len() - i,
    {
        if items[i].path.value.same_as(x) {
            return Some(i);
        }
        i += 1;
    }
    None
}

fn global_applies_exec(path: &Option<Spanned<TypePath>>, x: &TypePath) -> (r: bool)
    ensures
        r == global_applies(*path, x@),
{
    match path {
        Some(p) => p.value.same_as(x),
        None => true,
    }
}

impl FieldReceiver {
    /// The scoped block of this field for `x`, if any.
    pub open spec fn scoped(&self, x: Seq<char>) -> Option<int> {
        first_match(field_item_paths(self.items@), x, 0)
    }

    pub open spec fn spec_rename_for(&self, x: Seq<char>) -> Option<Spanned<String>> {
        match self.scoped(x) {
            Some(i) => self.items@[i].rename,
            None => if global_applies(self.path, x) {
                self.rename
            } else {
                None
            },
        }
    }

    pub open spec fn spec_skip_for(&self, x: Seq<char>) -> Option<SkipInput> {
        match self.scoped(x) {
            Some(i) => self.items@[i].skip,
            None => if global_applies(self.path, x) {
                self.skip
            } else {
                None
            },
        }
    }

    pub open spec fn spec_with_into_for(&self, x: Seq<char>) -> Option<HintOpts> {
        match self.scoped(x) {
            Some(i) => prefer(self.items@[i].into_with, self.items@[i].with),
            None => if global_applies(self.path, x) {
                prefer(self.into_with, self.with)
            } else {
                None
            },
        }
    }

    pub open spec fn spec_with_from_for(&self, x: Seq<char>) -> Option<HintOpts> {
        match self.scoped(x) {
            Some(i) => prefer(self.items@[i].from_with, self.items@[i].with),
            None => if global_applies(self.path, x) {
                prefer(self.from_with, self.with)
            } else {
                None
            },
        }
    }

    /// The name of this field on the other type `x`, when renamed.
    pub fn rename_for(&self, x: &TypePath) -> (r: Option<&Spanned<String>>)
        ensures
            refers_to(r, self.spec_rename_for(x@)),
    {
        match find_field_item(&self.items, x) {
            Some(i) => match &self.items[i].rename {
                Some(v) => Some(v),
                None => None,
            },
            None => if global_applies_exec(&self.path, x) {
                match &self.rename {
                    Some(v) => Some(v),
                    None => None,
                }
            } else {
                None
            },
        }
    }

    /// The skip option of this field for the other type `x`.
    pub fn skip_for(&self, x: &TypePath) -> (r: Option<&SkipInput>)
        ensures
            refers_to(r, self.spec_skip_for(x@)),
    {
        match find_field_item(&self.items, x) {
            Some(i) => match &self.items[i].skip {
                Some(v) => Some(v),
                None => None,
            },
            None => if global_applies_exec(&self.path, x) {
                match &self.skip {
                    Some(v) => Some(v),
                    None => None,
                }
            } else {
                None
            },
        }
    }

    /// The hint for converting this field toward the other type `x`.
    pub fn with_into_for(&self, x: &TypePath) -> (r: Option<&HintOpts>)
        ensures
            refers_to(r, self.spec_with_into_for(x@)),
    {
        match find_field_item(&self.items, x) {
            Some(i) => prefer_exec(&self.items[i].into_with, &self.items[i].with),
            None => if global_applies_exec(&self.path, x) {
                prefer_exec(&self.into_with, &self.with)
            } else {
                None
            },
        }
    }

    /// The hint for converting this field from the other type `x`.
    pub fn with_from_for(&self, x: &TypePath) -> (r: Option<&HintOpts>)
        ensures
            refers_to(r, self.spec_with_from_for(x@)),
    {
        match find_field_item(&self.items, x) {
            Some(i) => prefer_exec(&self.items[i].from_with, &self.items[i].with),
            None => if global_applies_exec(&self.path, x) {
                prefer_exec(&self.from_with, &self.with)
            } else {
                None
            },
        }
    }
}

/// A list of added members, `None` when empty.
pub open spec fn non_empty(add: Seq<AddInput>) -> Option<Seq<AddInput>> {
    if add.len() == 0 {
        None
    } else {
        Some(add)
    }
}

pub open spec fn seq_of(r: Option<&Vec<AddInput>>) -> Option<Seq<AddInput>> {
    match r {
        Some(v) => Some(v@),
        None => None,
    }
}

impl VariantReceiver {
    /// The scoped block of this variant for `x`, if any.
    pub open spec fn scoped(&self, x: Seq<char>) -> Option<int> {
        first_match(variant_item_paths(self.items@), x, 0)
    }

    pub open spec fn spec_rename_for(&self, x: Seq<char>) -> Option<Spanned<String>> {
        match self.scoped(x) {
            Some(i) => self.items@[i].rename,
            None => if global_applies(self.path, x) {
                self.rename
            } else {
                None
            },
        }
    }

    pub open spec fn spec_additional_for(&self, x: Seq<char>) -> Option<Seq<AddInput>> {
        match self.scoped(x) {
            Some(i) => non_empty(self.items@[i].add@),
            None => if global_applies(self.path, x) {
                non_empty(self.add@)
            } else {
                None
            },
        }
    }

    pub open spec fn spec_skip_for(&self, x: Seq<char>) -> Option<SkipInput> {
        match self.scoped(x) {
            Some(i) => self.items@[i].skip,
            None => if global_applies(self.path, x) {
                self.skip
            } else {
                None
            },
        }
    }

    pub open spec fn spec_ignore_extra_for(&self, x: Seq<char>) -> bool {
        match self.scoped(x) {
            Some(i) => self.items@[i].ignore_extra is Some,
            None => global_applies(self.path, x) && self.ignore_extra is Some,
        }
    }

    /// The name of this variant on the other type `x`, when renamed.
    pub fn rename_for(&self, x: &TypePath) -> (r: Option<&Spanned<String>>)
        ensures
            refers_to(r, self.spec_rename_for(x@)),
    {
        match find_variant_item(&self.items, x) {
            Some(i) => match &self.items[i].rename {
                Some(v) => Some(v),
                None => None,
            },
            None => if global_applies_exec(&self.path, x) {
                match &self.rename {
                    Some(v) => Some(v),
                    None => None,
                }
            } else {
                None
            },
        }
    }

    /// The members that the variant of the other type `x` adds, when any.
    pub fn additional_for(&self, x: &TypePath) -> (r: Option<&Vec<AddInput>>)
        ensures
            seq_of(r) == self.spec_additional_for(x@),
    {
        match find_variant_item(&self.items, x) {
            Some(i) => if self.items[i].add.len() == 0 {
                None
            } else {
                Some(&self.items[i].add)
            },
            None => if global_applies_exec(&self.path, x) && self.add.len() != 0 {
                Some(&self.add)
            } else {
                None
            },
        }
    }

    /// The skip option of this variant for the other type `x`.
    pub fn skip_for(&self, x: &TypePath) -> (r: Option<&SkipInput>)
        ensures
            refers_to(r, self.spec_skip_for(x@)),
    {
        match find_variant_item(&self.items, x) {
            Some(i) => match &self.items[i].skip {
                Some(v) => Some(v),
                None => None,
            },
            None => if global_applies_exec(&self.path, x) {
                match &self.skip {
                    Some(v) => Some(v),
                    None => None,
                }
            } else {
                None
            },
        }
    }

    /// Whether the extra fields of the other variant are ignored for `x`.
    pub fn ignore_extra_for(&self, x: &TypePath) -> (r: bool)
        ensures
            r == self.spec_ignore_extra_for(x@),
    {
        match find_variant_item(&self.items, x) {
            Some(i) => self.items[i].ignore_extra.is_some(),
            None => global_applies_exec(&self.path, x) && self.ignore_extra.is_some(),
        }
    }
}

/// A diagnostic of `kind` at a direction flag, when it is given.
pub open spec fn derive_flag_diag(d: Option<DeriveInput>, kind: DiagKind) -> Seq<Diagnostic> {
    match d {
        Some(d) => seq![diag(d.loc, kind)],
        None => Seq::empty(),
    }
}

/// A diagnostic of `kind` at a path, when it is given.
pub open spec fn path_diag(p: Option<Spanned<TypePath>>, kind: DiagKind) -> Seq<Diagnostic> {
    match p {
        Some(p) => seq![diag(p.loc, kind)],
        None => Seq::empty(),
    }
}

/// A diagnostic of `kind` at a flag, when it is set.
pub open spec fn loc_diag(l: Option<Loc>, kind: DiagKind) -> Seq<Diagnostic> {
    match l {
        Some(l) => seq![diag(l, kind)],
        None => Seq::empty(),
    }
}

/// A diagnostic of `kind` at each added member.
pub open spec fn adds_diags(adds: Seq<AddInput>, kind: DiagKind) -> Seq<Diagnostic> {
    adds.map_values(|a: AddInput| diag(a.loc, kind))
}

/// Whether another entry than `j` has the same path.
pub open spec fn is_duplicate(paths: Seq<Seq<char>>, j: int) -> bool {
    exists|i: int| 0 <= i < paths.len() && i != j && paths[i] == paths[j]
}

/// One diagnostic at each of the first `n` entries whose path another entry repeats.
pub open spec fn dup_diags(paths: Seq<Seq<char>>, locs: Seq<Loc>, n: int) -> Seq<Diagnostic>
    decreases n,
{
    if n <= 0 {
        Seq::empty()
    } else {
        dup_diags(paths, locs, n - 1) + diag_if(
            is_duplicate(paths, n - 1),
            locs[n - 1],
            DiagKind::DuplicatedType,
        )
    }
}

pub open spec fn derive_locs(items: Seq<ItemInput>) -> Seq<Loc> {
    items.map_values(|it: ItemInput| it.path.loc)
}

/// Appends a diagnostic at each added member.
pub fn emit_adds(adds: &Vec<AddInput>, kind: DiagKind, diags: &mut Vec<Diagnostic>)
    ensures
        final(diags)@ == old(diags)@ + adds_diags(adds@, kind),
{
    let ghost start = diags@;
    let mut i: usize = 0;
    while i < adds.len()
        invariant
            i <= adds.len(),
            diags@ == start + adds_diags(adds@.subrange(0, i as int), kind),
        decreases adds.len() - i,
    {
        emit(diags, adds[i].loc, kind);
        proof {
            assert(adds@.subrange(0, i + 1) =~= adds@.subrange(0, i as int).push(adds@[i as int]));
            assert(adds_diags(adds@.subrange(0, i + 1), kind) =~= adds_diags(
                adds@.subrange(0, i as int),
                kind,
            ).push(diag(adds@[i as int].loc, kind)));
        }
        i += 1;
    }
    proof {
        assert(adds@.subrange(0, adds@.len() as int) =~= adds@);
    }
}

/// Appends one diagnostic at each path that another entry repeats.
pub fn emit_duplicates(paths: &Vec<&TypePath>, locs: &Vec<Loc>, diags: &mut Vec<Diagnostic>)
    requires
        paths.len() == locs.len(),
    ensures
        final(diags)@ == old(diags)@ + dup_diags(
            paths@.map_values(|p: &TypePath| p@),
            locs@,
            paths.len() as int,
        ),
{
    let ghost ps = paths@.map_values(|p: &TypePath| p@);
    let ghost start = diags@;
    let mut j: usize = 0;
    while j < paths.len()
        invariant
            j <= paths.len(),
            paths.len() == locs.len(),
            ps == paths@.map_values(|p: &TypePath| p@),
            diags@ == start + dup_diags(ps, locs@, j as int),
        decreases paths.len() - j,
    {
        let mut found = false;
        let mut i: usize = 0;
        while i < paths.len()
            invariant
                i <= paths.len(),
                j < paths.len(),
                ps == paths@.map_values(|p: &TypePath| p@),
                found == exists|k: int| 0 <= k < i && k != j && ps[k] == ps[j as int],
            decreases paths.len() - i,
        {
            let ghost before = found;
            if i != j && paths[i].same_as(paths[j]) {
                found = true;
            }
            proof {
                assert(ps[i as int] == paths@[i as int]@);
                assert(ps[j as int] == paths@[j as int]@);
                if found && !before {
                    assert(0 <= i < i + 1 && i != j && ps[i as int] == ps[j as int]);
                }
                if !found {
                    assert forall|k: int| 0 <= k < i + 1 && k != j implies ps[k] != ps[j as int] by {
                        if k == i {
                        }
                    }
                }
            }
            i += 1;
        }
        if found {
            emit(diags, locs[j], DiagKind::DuplicatedType);
        }
        proof {
            assert(found == is_duplicate(ps, j as int));
        }
        j += 1;
    }
}

/// Diagnostics for the implicit-shape options given next to `derive` blocks.
pub open spec fn implicit_diags(o: TypeOptions) -> Seq<Diagnostic> {
    let k = DiagKind::IllegalWithDerive;
    path_diag(o.path, k) + derive_flag_diag(o.from, k) + derive_flag_diag(o.into, k)
        + derive_flag_diag(o.try_from, k) + derive_flag_diag(o.try_into, k) + loc_diag(
        o.ignore_extra,
        k,
    ) + adds_diags(o.add@, k)
}

/// Diagnostics of the request resolution.
pub open spec fn items_diags(o: TypeOptions) -> Seq<Diagnostic> {
    if o.items.len() > 0 {
        implicit_diags(o) + dup_diags(
            derive_paths(o.items@),
            derive_locs(o.items@),
            o.items.len() as int,
        )
    } else {
        Seq::empty()
    }
}

/// The normalized request list: the explicit blocks, else the one implicit
/// request, else nothing.
pub open spec fn spec_items(o: TypeOptions) -> Option<Seq<ItemInput>> {
    if o.items.len() > 0 {
        Some(o.items@)
    } else if o.path is Some {
        Some(
            seq![
                ItemInput {
                    path: o.path.unwrap(),
                    from: o.from,
                    into: o.into,
                    try_from: o.try_from,
                    try_into: o.try_into,
                    add: o.add,
                    ignore_extra: o.ignore_extra,
                },
            ],
        )
    } else {
        None
    }
}

fn emit_flag(d: &Option<DeriveInput>, kind: DiagKind, diags: &mut Vec<Diagnostic>)
    ensures
        final(diags)@ == old(diags)@ + derive_flag_diag(*d, kind),
{
    if let Some(d) = d {
        emit(diags, d.loc, kind);
    }
}

pub fn emit_path(p: &Option<Spanned<TypePath>>, kind: DiagKind, diags: &mut Vec<Diagnostic>)
    ensures
        final(diags)@ == old(diags)@ + path_diag(*p, kind),
{
    if let Some(p) = p {
        emit(diags, p.loc, kind);
    }
}

pub fn emit_loc(l: &Option<Loc>, kind: DiagKind, diags: &mut Vec<Diagnostic>)
    ensures
        final(diags)@ == old(diags)@ + loc_diag(*l, kind),
{
    if let Some(l) = l {
        emit(diags, *l, kind);
    }
}

/// The paths and locations of the requests, in order.
fn paths_and_locs(items: &Vec<ItemInput>) -> (r: (Vec<&TypePath>, Vec<Loc>))
    ensures
        r.0@.map_values(|p: &TypePath| p@) == derive_paths(items@),
        r.1@ == derive_locs(items@),
        r.0.len() == r.1.len(),
{
    let mut paths: Vec<&TypePath> = Vec::new();
    let mut locs: Vec<Loc> = Vec::new();
    let mut i: usize = 0;
    while i < items.len()
        invariant
            i <= items.len(),
            paths.len() == i,
            locs.len() == i,
            forall|k: int| 0 <= k < i ==> *paths@[k] == items@[k].path.value,
            forall|k: int| 0 <= k < i ==> locs@[k] == items@[k].path.loc,
        decreases items.len() - i,
    {
        paths.push(&items[i].path.value);
        locs.push(items[i].path.loc);
        i += 1;
    }
    proof {
        assert(paths@.map_values(|p: &TypePath| p@) =~= derive_paths(items@));
        assert(locs@ =~= derive_locs(items@));
    }
    (paths, locs)
}

impl TypeOptions {
    fn emit_explicit(&self, diags: &mut Vec<Diagnostic>)
        requires
            self.items.len() > 0,
        ensures
            final(diags)@ == old(diags)@ + items_diags(*self),
    {
        let k = DiagKind::IllegalWithDerive;
        let ghost d0 = diags@;
        emit_path(&self.path, k, diags);
        emit_flag(&self.from, k, diags);
        emit_flag(&self.into, k, diags);
        emit_flag(&self.try_from, k, diags);
        emit_flag(&self.try_into, k, diags);
        emit_loc(&self.ignore_extra, k, diags);
        emit_adds(&self.add, k, diags);
        let (paths, locs) = paths_and_locs(&self.items);
        emit_duplicates(&paths, &locs, diags);
        proof {
            assert(diags@ =~= d0 + items_diags(*self));
        }
    }

    /// Normalizes both authoring shapes into the list of conversion requests,
    /// appending the diagnostics of mixed shapes and duplicated types. `None`
    /// when no other type is named at all.
    pub fn items(self, diags: &mut Vec<Diagnostic>) -> (r: Option<Vec<ItemInput>>)
        ensures
            final(diags)@ == old(diags)@ + items_diags(self),
            r is Some == spec_items(self) is Some,
            r matches Some(v) ==> v@ == spec_items(self).unwrap(),
    {
        if self.items.len() > 0 {
            self.emit_explicit(diags);
            Some(self.items)
        } else if let Some(path) = self.path {
            let mut v: Vec<ItemInput> = Vec::new();
            v.push(
                ItemInput {
                    path,
                    from: self.from,
                    into: self.into,
                    try_from: self.try_from,
                    try_into: self.try_into,
                    add: self.add,
                    ignore_extra: self.ignore_extra,
                },
            );
            proof {
                assert(v@ =~= spec_items(self).unwrap());
                assert(old(diags)@ + items_diags(self) =~= old(diags)@);
            }
            Some(v)
        } else {
            proof {
                assert(old(diags)@ + items_diags(self) =~= old(diags)@);
            }
            None
        }
    }
}

} // verus!
