use vstd::prelude::*;
use crate::types::GenError;

verus! {

/// One part of a candidate's content; `text` is `None` for media-only parts.
#[derive(Debug, Clone, PartialEq, Eq)]
pub struct ContentPart {
    pub text: Option<String>,
}

/// One generated alternative.
#[derive(Debug, Clone, PartialEq, Eq)]
pub struct Candidate {
    pub parts: Vec<ContentPart>,
}

/// What the provider answered to a call.
#[derive(Debug, Clone, PartialEq, Eq)]
pub enum ProviderResponse {
    /// A generated-content response with its candidates.
    Generated { candidates: Vec<Candidate> },
    /// Any other kind of response (streamed, token count).
    Other,
}

/// The text of the first part of the first candidate, or why there is none.
pub open spec fn extracted(r: ProviderResponse) -> Result<String, GenError> {
    match r {
        ProviderResponse::Other => Err(GenError::UnexpectedResponseShape),
        ProviderResponse::Generated { candidates } => if candidates@.len() == 0 {
            Err(GenError::NoCandidates)
        } else if candidates@[0].parts@.len() == 0 {
            Err(GenError::NoParts)
        } else {
            match candidates@[0].parts@[0].text {
                Some(t) => Ok(t),
                None => Err(GenError::NoText),
            }
        },
    }
}

/// Reads the answer text out of a response, unmodified.
pub fn extract_text(resp: &ProviderResponse) -> (r: Result<String, GenError>)
    ensures
        r == extracted(*resp),
{
    match resp {
        ProviderResponse::Other => Err(GenError::UnexpectedResponseShape),
        ProviderResponse::Generated { candidates } => {
            if candidates.len() == 0 {
                Err(GenError::NoCandidates)
            } else if candidates[0].parts.len() == 0 {
                Err(GenError::NoParts)
            } else {
                match &candidates[0].parts[0].text {
                    Some(t) => Ok(t.clone()),
                    None => Err(GenError::NoText),
                }
            }
        },
    }
}

} // verus!
