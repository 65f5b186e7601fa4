//! The name of a generated custom function.
use vstd::prelude::*;

use crate::plan::{Mode, Plan, PlanV};

verus! {

/// What heck's snake-case conversion gives for a text.
pub uninterp spec fn snake_case_of(s: Seq<char>) -> Seq<char>;

/// Relies on `heck::ToSnakeCase::to_snake_case` for `str`: its result depends
/// on the characters of the text alone, and an empty text gives an empty result.
#[verifier::external_body]
fn to_snake_case(s: &str) -> (r: String)
    ensures
        r@ == snake_case_of(s@),
        s@.len() == 0 ==> r@.len() == 0,
{
    heck::ToSnakeCase::to_snake_case(s)
}

/// The verb a direction's functions start with.
pub open spec fn direction_prefix(incoming: bool, fallible: bool) -> Seq<char> {
    if incoming {
        if fallible {
            "try_from_"@
        } else {
            "from_"@
        }
    } else {
        if fallible {
            "try_into_"@
        } else {
            "into_"@
        }
    }
}

/// The name of the custom function of a plan: the given one, or the verb of
/// the direction followed by the snake-case form of the other type's path.
/// `None` for a trait implementation.
pub open spec fn spec_function_name(p: PlanV) -> Option<Seq<char>> {
    match p.mode {
        Mode::Trait => None,
        Mode::Custom(Some(n)) => Some(n@),
        Mode::Custom(None) => Some(
            direction_prefix(p.incoming, p.fallible) + snake_case_of(p.other@),
        ),
    }
}

fn prefix_exec(incoming: bool, fallible: bool) -> (r: String)
    ensures
        r@ == direction_prefix(incoming, fallible),
{
    let s = if incoming {
        if fallible {
            "try_from_"
        } else {
            "from_"
        }
    } else {
        if fallible {
            "try_into_"
        } else {
            "into_"
        }
    };
    String::from_str(s)
}

impl Plan {
    /// The name of the function this plan generates, when it is not a trait.
    pub fn function_name(&self) -> (r: Option<String>)
        ensures
            r is Some == spec_function_name(self@) is Some,
            r matches Some(n) ==> n@ == spec_function_name(self@).unwrap(),
    {
        match &self.mode {
            Mode::Trait => None,
            Mode::Custom(Some(n)) => Some(n.clone()),
            Mode::Custom(None) => {
                let snake = to_snake_case(self.other.key.as_str());
                let mut name = prefix_exec(self.incoming, self.fallible);
                name.append(snake.as_str());
                Some(name)
            },
        }
    }
}

} // verus!
