use axum::body::Body;
use axum::http::Response;
use vstd::prelude::*;
use vstd::string::StringExecFns;

verus! {

/// What an [`Error`] is in contracts: the variant, with its text as a
/// sequence of characters.
pub enum ErrorView {
    IOError(Seq<char>),
    AxumError(Seq<char>),
    RequestDecodingError(Seq<char>),
    NoModelAvailableError,
    ModelNotFoundError(Seq<char>),
    OpenAIConversionError(Seq<char>),
    OpenAIError(Seq<char>),
}

/// The failures of the service. The variants that stand for a failure of a
/// collaborator (the operating system, the transport, the provider's API)
/// carry that failure's description.
#[derive(Debug, PartialEq, Eq)]
pub enum Error {
    /// A read or write on the connection failed.
    IOError(String),
    /// The transport could not frame or send an event.
    AxumError(String),
    /// The request body was missing or malformed.
    RequestDecodingError(String),
    /// No model was requested and the registry is empty.
    NoModelAvailableError,
    /// The requested code is not in the registry.
    ModelNotFoundError(String),
    /// A streamed item of the provider could not be turned into a message.
    OpenAIConversionError(String),
    /// The provider's API could not list its models, refused the request or
    /// broke the stream.
    OpenAIError(String),
}

impl View for Error {
    type V = ErrorView;

    open spec fn view(&self) -> ErrorView {
        match *self {
            Error::IOError(s) => ErrorView::IOError(s@),
            Error::AxumError(s) => ErrorView::AxumError(s@),
            Error::RequestDecodingError(s) => ErrorView::RequestDecodingError(s@),
            Error::NoModelAvailableError => ErrorView::NoModelAvailableError,
            Error::ModelNotFoundError(s) => ErrorView::ModelNotFoundError(s@),
            Error::OpenAIConversionError(s) => ErrorView::OpenAIConversionError(s@),
            Error::OpenAIError(s) => ErrorView::OpenAIError(s@),
        }
    }
}

/// The status that the transport answers with for each kind of failure.
pub open spec fn status_of(e: ErrorView) -> u16 {
    match e {
        ErrorView::RequestDecodingError(_) => 400,
        ErrorView::NoModelAvailableError => 404,
        ErrorView::ModelNotFoundError(_) => 404,
        _ => 500,
    }
}

/// The body of the response that the transport answers with: it names the
/// kind of failure and gives away nothing of its cause.
pub open spec fn reason_of(e: ErrorView) -> Seq<char> {
    match e {
        ErrorView::RequestDecodingError(_) => "Bad Request"@,
        ErrorView::NoModelAvailableError => "No model available"@,
        ErrorView::ModelNotFoundError(_) => "Model not found"@,
        _ => "Internal Server Error"@,
    }
}

/// The description of a failure, for the operator.
pub open spec fn message_of(e: ErrorView) -> Seq<char> {
    match e {
        ErrorView::IOError(text) => text,
        ErrorView::AxumError(text) => text,
        ErrorView::RequestDecodingError(text) => "Invalid request body: "@ + text,
        ErrorView::NoModelAvailableError => "No model available"@,
        ErrorView::ModelNotFoundError(code) => "Model "@ + code + " not found"@,
        ErrorView::OpenAIConversionError(text) => "OpenAI API conversion error: "@ + text,
        ErrorView::OpenAIError(text) => text,
    }
}

/// A response of the `http` crate, as axum hands it on.
#[verifier::external_type_specification]
#[verifier::external_body]
#[verifier::reject_recursive_types(T)]
pub struct ExResponse<T>(Response<T>);

/// The body of a response in axum.
#[verifier::external_type_specification]
#[verifier::external_body]
pub struct ExBody(Body);

/// What the response builder of the `http` crate returns when it is given
/// `status` and, as a body of axum, the text `body`, and nothing else.
pub uninterp spec fn built_response(status: u16, body: Seq<char>) -> Response<Body>;

/// Builds a response: `Response::builder` of the `http` crate, given
/// `status`, then `body` with the text as axum's `Body`. The builder takes
/// the statuses from 100 to 999 and fails on every other; that failure would
/// be a panic here, so those are left out. The contract only names what
/// comes back: the builder works on its arguments alone.
#[verifier::external_body]
fn plain_response(status: u16, body: &'static str) -> (response: Response<Body>)
    requires
        100 <= status <= 999,
    ensures
        response == built_response(status, body@),
{
    Response::builder().status(status).body(Body::from(body)).unwrap()
}

impl Error {
    /// The response that this failure is answered with before any
    /// streaming: its status, and the name of its kind as the body.
    pub fn into_response(self) -> (response: Response<Body>)
        ensures
            response == built_response(status_of(self@), reason_of(self@)),
    {
        let status = self.status_code();
        let body = self.reason();
        plain_response(status, body)
    }

    /// The body of the response that this failure is answered with.
    pub fn reason(&self) -> (body: &'static str)
        ensures
            body@ == reason_of(self@),
    {
        match self {
            Error::RequestDecodingError(_) => "Bad Request",
            Error::NoModelAvailableError => "No model available",
            Error::ModelNotFoundError(_) => "Model not found",
            Error::IOError(_) => "Internal Server Error",
            Error::AxumError(_) => "Internal Server Error",
            Error::OpenAIConversionError(_) => "Internal Server Error",
            Error::OpenAIError(_) => "Internal Server Error",
        }
    }

    /// The description of this failure, for the operator.
    pub fn message(&self) -> (text: String)
        ensures
            text@ == message_of(self@),
    {
        match self {
            Error::IOError(text) => text.clone(),
            Error::AxumError(text) => text.clone(),
            Error::RequestDecodingError(text) => String::from_str("Invalid request body: ").concat(
                text.as_str(),
            ),
            Error::NoModelAvailableError => String::from_str("No model available"),
            Error::ModelNotFoundError(code) => String::from_str("Model ").concat(
                code.as_str(),
            ).concat(" not found"),
            Error::OpenAIConversionError(text) => String::from_str(
                "OpenAI API conversion error: ",
            ).concat(text.as_str()),
            Error::OpenAIError(text) => text.clone(),
        }
    }

    /// The HTTP status code that this failure is answered with.
    pub fn status_code(&self) -> (code: u16)
        ensures
            code == status_of(self@),
    {
        match self {
            Error::RequestDecodingError(_) => 400,
            Error::NoModelAvailableError => 404,
            Error::ModelNotFoundError(_) => 404,
            Error::IOError(_) => 500,
            Error::AxumError(_) => 500,
            Error::OpenAIConversionError(_) => 500,
            Error::OpenAIError(_) => 500,
        }
    }
}

} // verus!
