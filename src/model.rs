use vstd::prelude::*;
use crate::types::same_text;

verus! {

/// The model that a request is sent to.
#[derive(Debug, Clone, PartialEq, Eq)]
pub enum GeminiModel {
    Gemini1_0Pro,
    Gemini1_5Pro,
    Gemini1_5Flash,
    Gemini1_5Flash8B,
    Gemini2_0Flash,
    /// A model named by the caller, passed through as it is.
    Custom(String),
}

/// The model that an optional model name selects: a known name picks its
/// model, any other name is passed through, and no name picks the flash model.
pub open spec fn resolves_to(name: Option<Seq<char>>, m: GeminiModel) -> bool {
    match name {
        None => m == GeminiModel::Gemini1_5Flash,
        Some(s) => if s == "Gemini1_0Pro"@ {
            m == GeminiModel::Gemini1_0Pro
        } else if s == "Gemini1_5Pro"@ {
            m == GeminiModel::Gemini1_5Pro
        } else if s == "Gemini1_5Flash"@ {
            m == GeminiModel::Gemini1_5Flash
        } else if s == "Gemini1_5Flash8B"@ {
            m == GeminiModel::Gemini1_5Flash8B
        } else if s == "Gemini2_0Flash"@ {
            m == GeminiModel::Gemini2_0Flash
        } else {
            m matches GeminiModel::Custom(c) && c@ == s
        },
    }
}

/// The view of an optional model name.
pub open spec fn name_view(name: Option<String>) -> Option<Seq<char>> {
    match name {
        Some(s) => Some(s@),
        None => None,
    }
}

/// Picks the model for an optional model name.
pub fn resolve_model(name: &Option<String>) -> (r: GeminiModel)
    ensures
        resolves_to(name_view(*name), r),
{
    match name {
        None => GeminiModel::Gemini1_5Flash,
        Some(s) => {
            let s = s.as_str();
            if same_text(s, "Gemini1_0Pro") {
                GeminiModel::Gemini1_0Pro
            } else if same_text(s, "Gemini1_5Pro") {
                GeminiModel::Gemini1_5Pro
            } else if same_text(s, "Gemini1_5Flash") {
                GeminiModel::Gemini1_5Flash
            } else if same_text(s, "Gemini1_5Flash8B") {
                GeminiModel::Gemini1_5Flash8B
            } else if same_text(s, "Gemini2_0Flash") {
                GeminiModel::Gemini2_0Flash
            } else {
                GeminiModel::Custom(s.to_owned())
            }
        },
    }
}

} // verus!
