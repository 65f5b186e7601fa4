//! Diagnostics reported while resolving and validating the options.
use vstd::prelude::*;

use crate::model::Loc;

verus! {

/// What a diagnostic reports.
#[derive(Clone, Copy, Debug, PartialEq, Eq, Structural)]
pub enum DiagKind {
    /// An implicit-shape option next to `derive` blocks.
    IllegalWithDerive,
    /// A second block for the same other type.
    DuplicatedType,
    /// A request that enables no direction.
    MissingDirection,
    /// An added member without default while a trait `into` / `try_into` is derived.
    AddNeedsDefaultOrCustom,
    /// An added member without default nor type while `into` / `try_into` is derived.
    AddNeedsType,
    /// A type given to an added enum variant.
    IllegalForEnums,
    /// An added enum variant without default while `from` / `try_from` is derived.
    EnumAddNeedsDefault,
    /// A skipped variant without default while `into` / `try_into` is derived.
    SkippedVariantNeedsDefault,
    /// A scoped block for a type that no request names.
    UnknownDerive,
    /// A global member option next to scoped `when` blocks.
    IllegalWithWhen,
    /// A skipped field without default while a trait `from` / `try_from` is derived.
    SkipNeedsDefaultOrCustom,
    /// More than one mapping hint in one direction class.
    MultipleHints,
}

/// A diagnostic: what is wrong, and where.
#[derive(Clone, Copy, Debug, PartialEq, Eq, Structural)]
pub struct Diagnostic {
    pub loc: Loc,
    pub kind: DiagKind,
}

pub open spec fn diag(loc: Loc, kind: DiagKind) -> Diagnostic {
    Diagnostic { loc, kind }
}

/// One diagnostic when `c` holds, none otherwise.
pub open spec fn diag_if(c: bool, loc: Loc, kind: DiagKind) -> Seq<Diagnostic> {
    if c {
        seq![diag(loc, kind)]
    } else {
        Seq::empty()
    }
}

/// The human-readable message of each kind of diagnostic.
pub open spec fn message_of(kind: DiagKind) -> Seq<char> {
    match kind {
        DiagKind::IllegalWithDerive => "Illegal attribute when 'derive' is set"@,
        DiagKind::DuplicatedType => "This type is duplicated"@,
        DiagKind::MissingDirection => "One of 'from', 'into', 'try_from' or 'try_into' must be set"@,
        DiagKind::AddNeedsDefaultOrCustom => "Enable `default` here or include `custom` on `into` and `try_into` derives"@,
        DiagKind::AddNeedsType => "Provide a field type with `ty` if the field is not `default` to derive `into` and `try_into`"@,
        DiagKind::IllegalForEnums => "Illegal attribute for enums"@,
        DiagKind::EnumAddNeedsDefault => "Missing mandatory `default` for enums when deriving `from` or `try_from`"@,
        DiagKind::SkippedVariantNeedsDefault => "Enable `default` here required for `into` and `try_into` derives"@,
        DiagKind::UnknownDerive => "There is no derive defined for this type"@,
        DiagKind::IllegalWithWhen => "Illegal attribute if 'when' is set"@,
        DiagKind::SkipNeedsDefaultOrCustom => "Enable `default` here or include `custom` on `from` and `try_from` derives"@,
        DiagKind::MultipleHints => "Only one of `func`, `expr`, `optional`, `iterable` or `keyed` can be set here"@,
    }
}

impl Diagnostic {
    pub fn new(loc: Loc, kind: DiagKind) -> (r: Diagnostic)
        ensures
            r == diag(loc, kind),
    {
        Diagnostic { loc, kind }
    }

    /// The human-readable message of the diagnostic.
    pub fn message(&self) -> (r: &'static str)
        ensures
            r@ == message_of(self.kind),
    {
        match self.kind {
            DiagKind::IllegalWithDerive => "Illegal attribute when 'derive' is set",
            DiagKind::DuplicatedType => "This type is duplicated",
            DiagKind::MissingDirection => "One of 'from', 'into', 'try_from' or 'try_into' must be set",
            DiagKind::AddNeedsDefaultOrCustom => "Enable `default` here or include `custom` on `into` and `try_into` derives",
            DiagKind::AddNeedsType => "Provide a field type with `ty` if the field is not `default` to derive `into` and `try_into`",
            DiagKind::IllegalForEnums => "Illegal attribute for enums",
            DiagKind::EnumAddNeedsDefault => "Missing mandatory `default` for enums when deriving `from` or `try_from`",
            DiagKind::SkippedVariantNeedsDefault => "Enable `default` here required for `into` and `try_into` derives",
            DiagKind::UnknownDerive => "There is no derive defined for this type",
            DiagKind::IllegalWithWhen => "Illegal attribute if 'when' is set",
            DiagKind::SkipNeedsDefaultOrCustom => "Enable `default` here or include `custom` on `from` and `try_from` derives",
            DiagKind::MultipleHints => "Only one of `func`, `expr`, `optional`, `iterable` or `keyed` can be set here",
        }
    }
}

/// Appends one diagnostic.
pub fn emit(diags: &mut Vec<Diagnostic>, loc: Loc, kind: DiagKind)
    ensures
        final(diags)@ == old(diags)@.push(diag(loc, kind)),
{
    diags.push(Diagnostic { loc, kind });
}

} // verus!
