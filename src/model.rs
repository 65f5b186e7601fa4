//! The option model: an already-parsed description of the annotated type,
//! its members, and every mapping option attached to them.
use vstd::prelude::*;

verus! {

/// Location tag of an annotation, used only to place diagnostics.
#[derive(Clone, Copy, Debug, PartialEq, Eq, Structural)]
pub struct Loc {
    pub id: u64,
}

/// A value together with the location it was written at.
#[derive(Debug, PartialEq, Eq)]
pub struct Spanned<T> {
    pub value: T,
    pub loc: Loc,
}

/// Path of another type, in canonical form: segments joined by `::` and
/// generic arguments written without whitespace, so that two spellings of the
/// same path have the same key.
#[derive(Debug, PartialEq, Eq)]
pub struct TypePath {
    pub key: String,
}

impl View for TypePath {
    type V = Seq<char>;

    open spec fn view(&self) -> Seq<char> {
        self.key@
    }
}

impl TypePath {
    pub fn new(key: String) -> (r: TypePath)
        ensures
            r.key == key,
    {
        TypePath { key }
    }

    /// A copy of the path, equal to it.
    pub fn duplicate(&self) -> (r: TypePath)
        ensures
            r == *self,
    {
        TypePath { key: self.key.clone() }
    }

    /// Structural equality of two paths.
    pub fn same_as(&self, other: &TypePath) -> (r: bool)
        ensures
            r == (self@ == other@),
    {
        self.key == other.key
    }
}

/// A derive direction that was requested (`from`, `into`, `try_from` or `try_into`).
#[derive(Debug, PartialEq, Eq)]
pub struct DeriveInput {
    pub loc: Loc,
    /// Derive a named function instead of the trait.
    pub custom: Option<CustomInput>,
}

/// The `custom` flag of a direction, with the function name when one is given.
#[derive(Debug, PartialEq, Eq)]
pub struct CustomInput {
    pub loc: Loc,
    pub name: Option<String>,
}

/// A default value: the given expression, or `Default::default()` when none.
#[derive(Debug, PartialEq, Eq)]
pub struct DefaultInput {
    pub loc: Loc,
    pub value: Option<String>,
}

/// A member that the other type has and this one lacks.
#[derive(Debug, PartialEq, Eq)]
pub struct AddInput {
    pub field: String,
    pub loc: Loc,
    /// Declared type of the member, as source text.
    pub ty: Option<Spanned<String>>,
    pub default: Option<DefaultInput>,
}

/// The `skip` option of a member: absent on the other side.
#[derive(Debug, PartialEq, Eq)]
pub struct SkipInput {
    pub loc: Loc,
    pub default: Option<DefaultInput>,
}

/// A group of mapping hints of a field: the group shared by both directions
/// (`with`) or that of one direction (`into_with`, `from_with`). A direction
/// may have at most one hint across its own group and the shared one; an
/// unset group means the generic structural conversion.
#[derive(Debug, PartialEq, Eq)]
pub struct HintOpts {
    /// A function applied to the value.
    pub func: Option<Spanned<TypePath>>,
    /// An expression applied to the value (a closure or a function value).
    pub expr: Option<Spanned<String>>,
    /// The value is optional: map the contained value.
    pub optional: Option<Box<Spanned<HintOpts>>>,
    /// The value is a sequence or set: map every element.
    pub iterable: Option<Box<Spanned<HintOpts>>>,
    /// The value is a keyed collection: map every value, keep the keys.
    pub keyed: Option<Box<Spanned<HintOpts>>>,
}

/// One conversion request: the other type and what to derive for it.
#[derive(Debug, PartialEq, Eq)]
pub struct ItemInput {
    pub path: Spanned<TypePath>,
    pub from: Option<DeriveInput>,
    pub into: Option<DeriveInput>,
    pub try_from: Option<DeriveInput>,
    pub try_into: Option<DeriveInput>,
    pub add: Vec<AddInput>,
    pub ignore_extra: Option<Loc>,
}

/// Options of a field scoped to one other type.
#[derive(Debug, PartialEq, Eq)]
pub struct ItemFieldInput {
    pub path: Spanned<TypePath>,
    pub rename: Option<Spanned<String>>,
    pub skip: Option<SkipInput>,
    pub with: HintOpts,
    pub into_with: HintOpts,
    pub from_with: HintOpts,
}

/// A field of the annotated type with its options.
#[derive(Debug, PartialEq, Eq)]
pub struct FieldReceiver {
    /// The field name, `None` for a positional field.
    pub ident: Option<String>,
    /// The declared type, as source text.
    pub ty: String,
    pub items: Vec<ItemFieldInput>,
    pub path: Option<Spanned<TypePath>>,
    pub rename: Option<Spanned<String>>,
    pub skip: Option<SkipInput>,
    pub with: HintOpts,
    pub into_with: HintOpts,
    pub from_with: HintOpts,
}

/// Options of a variant scoped to one other type.
#[derive(Debug, PartialEq, Eq)]
pub struct ItemVariantInput {
    pub path: Spanned<TypePath>,
    pub rename: Option<Spanned<String>>,
    pub add: Vec<AddInput>,
    pub skip: Option<SkipInput>,
    pub ignore_extra: Option<Loc>,
}

/// A variant of the annotated enum with its fields and options.
#[derive(Debug, PartialEq, Eq)]
pub struct VariantReceiver {
    pub ident: String,
    pub fields: Vec<FieldReceiver>,
    pub items: Vec<ItemVariantInput>,
    pub path: Option<Spanned<TypePath>>,
    pub rename: Option<Spanned<String>>,
    pub add: Vec<AddInput>,
    pub skip: Option<SkipInput>,
    pub ignore_extra: Option<Loc>,
}

/// The body of the annotated type.
#[derive(Debug, PartialEq, Eq)]
pub enum Data {
    Struct(Vec<FieldReceiver>),
    Enum(Vec<VariantReceiver>),
}

impl Data {
    pub fn is_enum(&self) -> (r: bool)
        ensures
            r == (self is Enum),
    {
        match self {
            Data::Struct(_) => false,
            Data::Enum(_) => true,
        }
    }
}

/// The type-level options, in either the implicit shape (one `ty` with its
/// directions) or the explicit shape (a list of `derive` blocks).
#[derive(Debug, PartialEq, Eq)]
pub struct TypeOptions {
    pub items: Vec<ItemInput>,
    pub path: Option<Spanned<TypePath>>,
    pub from: Option<DeriveInput>,
    pub into: Option<DeriveInput>,
    pub try_from: Option<DeriveInput>,
    pub try_into: Option<DeriveInput>,
    pub add: Vec<AddInput>,
    pub ignore_extra: Option<Loc>,
}

/// The annotated type: its name, generic parameters, body and type-level options.
#[derive(Debug, PartialEq, Eq)]
pub struct MapperOpts {
    pub ident: String,
    pub generics: Vec<String>,
    pub data: Data,
    pub options: TypeOptions,
}

} // verus!
