//! Model identifiers for the text-generation endpoint.

use vstd::prelude::*;

verus! {

/// Model variants accepted by the endpoint.
///
/// Three well-known selectors plus an open variant for forward
/// compatibility with identifiers this crate does not know about.
#[derive(Debug, Clone)]
pub enum Gpt5Model {
    /// Main model - most capable
    Gpt5,
    /// Balanced performance and cost
    Gpt5Mini,
    /// Fastest and most cost-effective
    Gpt5Nano,
    /// Custom variant for future models
    Custom(String),
}

/// The wire identifier a model selector stands for.
pub open spec fn model_wire(m: Gpt5Model) -> Seq<char> {
    match m {
        Gpt5Model::Gpt5 => "gpt-5"@,
        Gpt5Model::Gpt5Mini => "gpt-5-mini"@,
        Gpt5Model::Gpt5Nano => "gpt-5-nano"@,
        Gpt5Model::Custom(name) => name@,
    }
}

impl Gpt5Model {
    /// The string identifier sent to the endpoint for this model.
    pub fn as_str(&self) -> (r: &str)
        ensures
            r@ == model_wire(*self),
    {
        match self {
            Gpt5Model::Gpt5 => "gpt-5",
            Gpt5Model::Gpt5Mini => "gpt-5-mini",
            Gpt5Model::Gpt5Nano => "gpt-5-nano",
            Gpt5Model::Custom(name) => name.as_str(),
        }
    }
}

} // verus!
