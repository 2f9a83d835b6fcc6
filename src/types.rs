use vstd::prelude::*;

verus! {

/// Media type of the image sent to the model.
#[derive(Debug, Clone, Copy, PartialEq, Eq, Structural)]
pub enum MimeType {
    ImageJpeg,
    ImagePng,
}

/// The MIME text of a media type.
pub open spec fn mime_text(m: MimeType) -> Seq<char> {
    match m {
        MimeType::ImageJpeg => "image/jpeg"@,
        MimeType::ImagePng => "image/png"@,
    }
}

/// Whether `s` names a media type: its lower-case variant name or its MIME text.
pub open spec fn names_mime(s: Seq<char>, m: MimeType) -> bool {
    match m {
        MimeType::ImageJpeg => s == "imagejpeg"@ || s == "image/jpeg"@,
        MimeType::ImagePng => s == "imagepng"@ || s == "image/png"@,
    }
}

/// Text equality on string slices.
pub fn same_text(a: &str, b: &str) -> (r: bool)
    ensures
        r == (a@ == b@),
{
    a.to_owned() == b.to_owned()
}

/// What a request to analyse an image carries.
#[derive(Debug, Clone)]
pub struct GeminiRequest {
    /// The image, base64-encoded.
    pub file_base64: String,
    pub file_mime_type: MimeType,
    /// The credential for the model provider.
    pub google_key: String,
    /// The model to use; `None` picks the default model.
    pub model: Option<String>,
}

/// Why a request was refused before any call was made.
#[derive(Debug, Clone, PartialEq, Eq)]
pub enum InputProblem {
    EmptyImage,
    EmptyApiKey,
    UnsupportedMimeType(String),
}

/// The ways in which generating an answer can fail.
#[derive(Debug, Clone, PartialEq, Eq)]
pub enum GenError {
    /// The request was refused; no call was made.
    InvalidInput(InputProblem),
    /// The model stayed overloaded for every attempt.
    Overloaded,
    /// The transport failed for another reason; holds its message.
    ProviderError(String),
    /// The response held no candidate.
    NoCandidates,
    /// The first candidate held no part.
    NoParts,
    /// The first part of the first candidate held no text.
    NoText,
    /// The response was not a generated-content response.
    UnexpectedResponseShape,
}

/// The message that describes an error.
pub open spec fn error_text(e: GenError) -> Seq<char> {
    match e {
        GenError::InvalidInput(InputProblem::EmptyImage) => "File base64 string is empty"@,
        GenError::InvalidInput(InputProblem::EmptyApiKey) => "Google API key is empty"@,
        GenError::InvalidInput(InputProblem::UnsupportedMimeType(m)) => "Unsupported MIME type: '"@
            + m@ + "'. Must be 'image/png' or 'image/jpeg'"@,
        GenError::Overloaded => "Gemini model is overloaded after 3 attempts. Please try again later."@,
        GenError::ProviderError(m) => "Gemini API error: "@ + m@,
        GenError::NoCandidates => "No candidates returned by Gemini API"@,
        GenError::NoParts => "No parts in candidate"@,
        GenError::NoText => "No text found in candidate part"@,
        GenError::UnexpectedResponseShape => "Unexpected response type from Gemini API"@,
    }
}

impl GenError {
    /// The human-readable message of this error.
    pub fn message(&self) -> (r: String)
        ensures
            r@ == error_text(*self),
    {
        match self {
            GenError::InvalidInput(InputProblem::EmptyImage) => String::from_str(
                "File base64 string is empty",
            ),
            GenError::InvalidInput(InputProblem::EmptyApiKey) => String::from_str(
                "Google API key is empty",
            ),
            GenError::InvalidInput(InputProblem::UnsupportedMimeType(m)) => {
                let mut r = String::from_str("Unsupported MIME type: '");
                r.append(m.as_str());
                r.append("'. Must be 'image/png' or 'image/jpeg'");
                r
            },
            GenError::Overloaded => String::from_str(
                "Gemini model is overloaded after 3 attempts. Please try again later.",
            ),
            GenError::ProviderError(m) => {
                let r = String::from_str("Gemini API error: ");
                r.concat(m.as_str())
            },
            GenError::NoCandidates => String::from_str("No candidates returned by Gemini API"),
            GenError::NoParts => String::from_str("No parts in candidate"),
            GenError::NoText => String::from_str("No text found in candidate part"),
            GenError::UnexpectedResponseShape => String::from_str(
                "Unexpected response type from Gemini API",
            ),
        }
    }
}

impl MimeType {
    /// Reads a media type from its lower-case variant name (`imagepng`)
    /// or its MIME text (`image/png`); any other text is refused.
    pub fn parse(s: &str) -> (r: Result<MimeType, GenError>)
        ensures
            r matches Ok(m) ==> names_mime(s@, m),
            r is Err <==> (!names_mime(s@, MimeType::ImageJpeg) && !names_mime(s@, MimeType::ImagePng)),
            r matches Err(e) ==> (e matches GenError::InvalidInput(InputProblem::UnsupportedMimeType(t)) && t@ == s@),
    {
        if same_text(s, "imagejpeg") || same_text(s, "image/jpeg") {
            Ok(MimeType::ImageJpeg)
        } else if same_text(s, "imagepng") || same_text(s, "image/png") {
            Ok(MimeType::ImagePng)
        } else {
            Err(GenError::InvalidInput(InputProblem::UnsupportedMimeType(s.to_owned())))
        }
    }

    pub fn as_str(&self) -> (r: &'static str)
        ensures
            r@ == mime_text(*self),
    {
        match self {
            MimeType::ImageJpeg => "image/jpeg",
            MimeType::ImagePng => "image/png",
        }
    }
}

} // verus!
