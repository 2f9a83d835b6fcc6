use vstd::prelude::*;
use crate::types::{mime_text, MimeType};

verus! {

/// The fixed instruction sent ahead of every image.
pub const PROMPT: &'static str = "You are a nutrition assistant. Identify each food item visible in the image, estimate its portion size, and report the estimated calories, protein, carbohydrates and fat of each item and of the whole meal. Answer in Markdown, with one table row per item followed by a line with the totals.";

/// One part of the single user turn sent to the model.
#[derive(Debug, Clone, PartialEq, Eq)]
pub enum Part {
    Text(String),
    InlineData { mime_type: String, data: String },
}

/// The content of one user turn: an instruction text, then the image.
#[derive(Debug, Clone, PartialEq, Eq)]
pub struct Payload {
    pub parts: Vec<Part>,
}

/// `p` is the instruction text followed by the image `data` of media type `mime`.
pub open spec fn is_payload_for(p: Payload, mime: MimeType, data: Seq<char>) -> bool {
    &&& p.parts@.len() == 2
    &&& p.parts@[0] matches Part::Text(t) && t@ == PROMPT@
    &&& p.parts@[1] matches Part::InlineData { mime_type, data: d } && mime_type@ == mime_text(mime)
        && d@ == data
}

/// Builds the two-part user turn for an image.
pub fn build_payload(mime: MimeType, data: &String) -> (r: Payload)
    ensures
        is_payload_for(r, mime, data@),
{
    let mut parts: Vec<Part> = Vec::new();
    parts.push(Part::Text(String::from_str(PROMPT)));
    parts.push(Part::InlineData { mime_type: String::from_str(mime.as_str()), data: data.clone() });
    Payload { parts }
}

} // verus!
