//! The transformation plan: for one request and one direction, how the source
//! value is taken apart and the target value is put together.
use vstd::prelude::*;

use crate::model::TypePath;

verus! {

/// A member of a struct or variant: by name, or by position.
#[derive(Debug, PartialEq, Eq)]
pub enum Member {
    Named(String),
    Index(usize),
}

/// How an extracted value becomes the target member's value.
#[derive(Debug, PartialEq, Eq)]
pub enum Transform {
    /// The generic structural conversion (`Into` / `TryInto`).
    Convert,
    /// A user function applied to the value.
    Func(TypePath),
    /// A user expression applied to the value.
    Expr(String),
    /// Map the contained value of an optional, keeping absence.
    Optional(Box<Transform>),
    /// Map every element of a sequence or set, keeping the order.
    Iterable(Box<Transform>),
    /// Map every value of a keyed collection, keeping the keys.
    Keyed(Box<Transform>),
}

/// A source member extracted under a binding.
#[derive(Debug, PartialEq, Eq)]
pub struct PatternField {
    /// The member's name on the source side.
    pub member: Member,
    /// The name the value is bound to.
    pub binding: Member,
}

/// How the source value is taken apart.
#[derive(Debug, PartialEq, Eq)]
pub struct Pattern {
    pub fields: Vec<PatternField>,
    /// Source members matched and dropped.
    pub ignored: Vec<Member>,
    /// Any other source member is dropped too (`..`).
    pub rest: bool,
}

/// Where a target member's value comes from.
#[derive(Debug, PartialEq, Eq)]
pub enum Fill {
    /// An extracted value, transformed.
    Mapped { binding: Member, transform: Transform },
    /// A default expression.
    Expr(String),
    /// The type's default value.
    DefaultValue,
    /// A parameter of the generated function, named after the member.
    Param(Member),
    /// The result of calling the provider parameter named after the member.
    Provider(Member),
}

/// One member of the target value.
#[derive(Debug, PartialEq, Eq)]
pub struct FieldInit {
    pub member: Member,
    pub fill: Fill,
}

/// How the target value is put together.
#[derive(Debug, PartialEq, Eq)]
pub struct Construct {
    pub fields: Vec<FieldInit>,
    /// The remaining target members take their default values.
    pub rest_default: bool,
}

/// One arm of an enum conversion.
#[derive(Debug, PartialEq, Eq)]
pub enum Arm {
    /// A source variant mapped to a target variant.
    Matched { source: String, pattern: Pattern, target: String, construct: Construct },
    /// A source variant without counterpart, replaced by a value.
    Filled { source: String, fill: Fill },
    /// Every other source variant gives the target's default value.
    CatchAll,
}

/// The body of a plan.
#[derive(Debug, PartialEq, Eq)]
pub enum PlanBody {
    Struct { pattern: Pattern, construct: Construct },
    Enum { arms: Vec<Arm> },
}

/// A parameter that a custom function takes besides the source value.
#[derive(Debug, PartialEq, Eq)]
pub struct Param {
    pub name: Member,
    /// The declared type, as source text.
    pub ty: Option<String>,
    /// The parameter is a zero-argument function returning the value.
    pub provider: bool,
}

/// Whether the conversion trait is implemented, or a named function is generated.
#[derive(Debug, PartialEq, Eq)]
pub enum Mode {
    Trait,
    /// A custom function, with its name when one is given.
    Custom(Option<String>),
}

/// The plan of one direction of one conversion request.
#[derive(Debug, PartialEq, Eq)]
pub struct Plan {
    /// The other type.
    pub other: TypePath,
    /// The conversion builds this type from the other one.
    pub incoming: bool,
    pub fallible: bool,
    pub mode: Mode,
    pub body: PlanBody,
    pub params: Vec<Param>,
}

pub ghost struct PatternV {
    pub fields: Seq<PatternField>,
    pub ignored: Seq<Member>,
    pub rest: bool,
}

pub ghost struct ConstructV {
    pub fields: Seq<FieldInit>,
    pub rest_default: bool,
}

pub ghost enum ArmV {
    Matched { source: String, pattern: PatternV, target: String, construct: ConstructV },
    Filled { source: String, fill: Fill },
    CatchAll,
}

pub ghost enum BodyV {
    Struct { pattern: PatternV, construct: ConstructV },
    Enum { arms: Seq<ArmV> },
}

pub ghost struct PlanV {
    pub other: TypePath,
    pub incoming: bool,
    pub fallible: bool,
    pub mode: Mode,
    pub body: BodyV,
    pub params: Seq<Param>,
}

impl View for Pattern {
    type V = PatternV;

    open spec fn view(&self) -> PatternV {
        PatternV { fields: self.fields@, ignored: self.ignored@, rest: self.rest }
    }
}

impl View for Construct {
    type V = ConstructV;

    open spec fn view(&self) -> ConstructV {
        ConstructV { fields: self.fields@, rest_default: self.rest_default }
    }
}

impl View for Arm {
    type V = ArmV;

    open spec fn view(&self) -> ArmV {
        match self {
            Arm::Matched { source, pattern, target, construct } => ArmV::Matched {
                source: *source,
                pattern: pattern@,
                target: *target,
                construct: construct@,
            },
            Arm::Filled { source, fill } => ArmV::Filled { source: *source, fill: *fill },
            Arm::CatchAll => ArmV::CatchAll,
        }
    }
}

pub open spec fn arms_view(arms: Seq<Arm>) -> Seq<ArmV> {
    arms.map_values(|a: Arm| a@)
}

impl View for PlanBody {
    type V = BodyV;

    open spec fn view(&self) -> BodyV {
        match self {
            PlanBody::Struct { pattern, construct } => BodyV::Struct {
                pattern: pattern@,
                construct: construct@,
            },
            PlanBody::Enum { arms } => BodyV::Enum { arms: arms_view(arms@) },
        }
    }
}

impl View for Plan {
    type V = PlanV;

    open spec fn view(&self) -> PlanV {
        PlanV {
            other: self.other,
            incoming: self.incoming,
            fallible: self.fallible,
            mode: self.mode,
            body: self.body@,
            params: self.params@,
        }
    }
}

} // verus!
