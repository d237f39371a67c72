//! Errors originating from API calls, parsing responses, and reading-or-writing to the file system.
use vstd::prelude::*;

verus! {

/// The error object the API returns on failure.
#[derive(Debug, Clone, PartialEq)]
pub struct ApiError {
    /// A unique identifier for this particular occurrence of the problem.
    pub id: String,
    /// The short-name of this class of errors e.g. `bad_request`.
    pub name: String,
    /// A human-readable explanation specific to this occurrence of the problem.
    pub message: String,
}

/// What an [`ApiError`] says.
pub struct ApiErrorView {
    pub id: Seq<char>,
    pub name: Seq<char>,
    pub message: Seq<char>,
}

impl View for ApiError {
    type V = ApiErrorView;

    open spec fn view(&self) -> ApiErrorView {
        ApiErrorView { id: self.id@, name: self.name@, message: self.message@ }
    }
}

#[derive(Debug, Clone, PartialEq)]
pub enum StabilityAIError {
    /// The HTTP transport failed; holds its description.
    Reqwest(String),
    /// The API returned an error object with the details of the failure.
    ApiError(ApiError),
    /// A response body could not be decoded into the expected shape.
    JSONDeserialize {
        /// What the decoder reported.
        reason: String,
        /// The body as it was received.
        body: Vec<u8>,
    },
    /// Error on the client side when saving a file to the file system.
    FileSaveError(String),
    /// Error on the client side when reading a file from the file system.
    FileReadError(String),
    /// Client side validation failed, or a builder could not build the request.
    InvalidArgument(String),
}

/// What a [`StabilityAIError`] says.
pub enum ErrorView {
    Reqwest(Seq<char>),
    Api(ApiErrorView),
    JSONDeserialize { reason: Seq<char>, body: Seq<u8> },
    FileSave(Seq<char>),
    FileRead(Seq<char>),
    InvalidArgument(Seq<char>),
}

impl View for StabilityAIError {
    type V = ErrorView;

    open spec fn view(&self) -> ErrorView {
        match self {
            StabilityAIError::Reqwest(m) => ErrorView::Reqwest(m@),
            StabilityAIError::ApiError(e) => ErrorView::Api(e@),
            StabilityAIError::JSONDeserialize { reason, body } => ErrorView::JSONDeserialize {
                reason: reason@,
                body: body@,
            },
            StabilityAIError::FileSaveError(m) => ErrorView::FileSave(m@),
            StabilityAIError::FileReadError(m) => ErrorView::FileRead(m@),
            StabilityAIError::InvalidArgument(m) => ErrorView::InvalidArgument(m@),
        }
    }
}

/// The text by which an error is reported to a user.
pub open spec fn error_text(e: ErrorView) -> Seq<char> {
    match e {
        ErrorView::Reqwest(m) => "http error: "@ + m,
        ErrorView::Api(a) => "id: "@ + a.id + ", name: "@ + a.name + ", message: "@ + a.message,
        ErrorView::JSONDeserialize { reason, body } => "failed to deserialize api response: "@
            + reason,
        ErrorView::FileSave(m) => "failed to save file: "@ + m,
        ErrorView::FileRead(m) => "failed to read file: "@ + m,
        ErrorView::InvalidArgument(m) => "invalid args: "@ + m,
    }
}

impl StabilityAIError {
    /// The text by which this error is reported to a user.
    pub fn to_string(&self) -> (r: String)
        ensures
            r@ == error_text(self@),
    {
        match self {
            StabilityAIError::Reqwest(m) => String::from_str("http error: ").concat(m.as_str()),
            StabilityAIError::ApiError(a) => {
                let s = String::from_str("id: ").concat(a.id.as_str());
                let s = s.concat(", name: ").concat(a.name.as_str());
                s.concat(", message: ").concat(a.message.as_str())
            },
            StabilityAIError::JSONDeserialize { reason, body } => String::from_str(
                "failed to deserialize api response: ",
            ).concat(reason.as_str()),
            StabilityAIError::FileSaveError(m) => String::from_str("failed to save file: ").concat(
                m.as_str(),
            ),
            StabilityAIError::FileReadError(m) => String::from_str("failed to read file: ").concat(
                m.as_str(),
            ),
            StabilityAIError::InvalidArgument(m) => String::from_str("invalid args: ").concat(
                m.as_str(),
            ),
        }
    }
}

/// The error for a body that could not be decoded; it keeps the body for diagnostics.
pub fn map_deserialization_error(reason: String, bytes: Vec<u8>) -> (r: StabilityAIError)
    ensures
        r@ == (ErrorView::JSONDeserialize { reason: reason@, body: bytes@ }),
{
    StabilityAIError::JSONDeserialize { reason, body: bytes }
}

} // verus!
