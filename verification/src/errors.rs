//! The error that the extractor reports when a message body cannot be
//! deserialized.
use vstd::prelude::*;
use vstd::string::StringExecFns;

verus! {

/// What went wrong while deserializing a message.
#[derive(Clone, Copy, Debug, PartialEq, Eq, Structural)]
pub enum DeserializeErrorKind {
    /// A request specifies a content type other than JSON or protobuf.
    InvalidContentTypeForMessage,
    /// A request's headers do not fit the message.
    InvalidHeadersForMessage,
    /// The message could not be parsed as JSON.
    ErrorParsingJson,
    /// The message could not be parsed as protobuf.
    ErrorParsingProtobuf,
    /// The message could not be parsed as plain text.
    ErrorParsingPlaintext,
}

/// An error met while deserializing a message: its kind, and the message of
/// the error that caused it, where there is one.
#[derive(Debug)]
pub struct DeserializeError {
    kind: DeserializeErrorKind,
    err_message: Option<String>,
}

/// The model of a [`DeserializeError`].
pub struct ErrorView {
    pub kind: DeserializeErrorKind,
    pub message: Option<Seq<char>>,
}

impl View for DeserializeError {
    type V = ErrorView;

    closed spec fn view(&self) -> ErrorView {
        ErrorView {
            kind: self.kind,
            message: match self.err_message {
                Some(m) => Some(m@),
                None => None,
            },
        }
    }
}

/// The HTTP status with which a deserialization error is answered.
pub open spec fn status_of(kind: DeserializeErrorKind) -> u16 {
    415
}

/// The body with which a deserialization error is answered: a fixed summary,
/// then, where there is one, `"; "` and the cause's message.
pub open spec fn response_message(e: ErrorView) -> Seq<char> {
    match e.message {
        Some(m) => "TODO"@ + "; "@ + m,
        None => "TODO"@,
    }
}

/// The text of a deserialization error: the cause's message, or
/// `Unknown Error` where there is none.
pub open spec fn error_text(e: ErrorView) -> Seq<char> {
    match e.message {
        Some(m) => m,
        None => "Unknown Error"@,
    }
}

/// Every deserialization error is answered with status 415 (unsupported
/// media type); the body is `TODO`, followed by `; ` and the cause where there
/// is one; the error's text is the cause, or `Unknown Error`.
pub proof fn law_error_answers(kind: DeserializeErrorKind, cause: Option<Seq<char>>)
    ensures
        status_of(kind) == 415,
        response_message(ErrorView { kind, message: cause }) == (match cause {
            Some(m) => "TODO; "@ + m,
            None => "TODO"@,
        }),
        error_text(ErrorView { kind, message: cause }) == (match cause {
            Some(m) => m,
            None => "Unknown Error"@,
        }),
{
    reveal_strlit("TODO");
    reveal_strlit("; ");
    reveal_strlit("TODO; ");
    if let Some(m) = cause {
        assert("TODO"@ + "; "@ + m =~= "TODO; "@ + m);
    }
}

impl Clone for DeserializeError {
    fn clone(&self) -> (r: Self)
        ensures
            r@ == self@,
    {
        let err_message = match &self.err_message {
            Some(m) => Some(m.clone()),
            None => None,
        };
        DeserializeError { kind: self.kind, err_message }
    }
}

impl DeserializeError {
    /// An error of the given kind with no message.
    pub fn new(kind: DeserializeErrorKind) -> (r: Self)
        ensures
            r@.kind == kind,
            r@.message is None,
    {
        DeserializeError { kind, err_message: None }
    }

    /// An error of the given kind with the given message.
    pub fn new_with_message(kind: DeserializeErrorKind, message: String) -> (r: Self)
        ensures
            r@.kind == kind,
            r@.message == Some(message@),
    {
        DeserializeError { kind, err_message: Some(message) }
    }

    /// An error of the given kind whose message is what `err` displays.
    pub fn new_with_error<T: core::fmt::Display>(kind: DeserializeErrorKind, err: T) -> (r: Self)
        ensures
            r@.kind == kind,
            exists|s: String|
                vstd::string::to_string_from_display_ensures::<T>(&err, s) && r@.message == Some(
                    s@,
                ),
    {
        let message = err.to_string();
        DeserializeError { kind, err_message: Some(message) }
    }

    /// The kind of this error.
    pub fn kind(&self) -> (r: DeserializeErrorKind)
        ensures
            r == self@.kind,
    {
        self.kind
    }

    /// The HTTP status and the body with which this error is answered.
    pub fn get_code_and_message(&self) -> (r: (u16, String))
        ensures
            r.0 == status_of(self@.kind),
            r.1@ == response_message(self@),
    {
        let (status, msg) = match self.kind {
            DeserializeErrorKind::InvalidHeadersForMessage => (415u16, "TODO"),
            DeserializeErrorKind::InvalidContentTypeForMessage => (415u16, "TODO"),
            DeserializeErrorKind::ErrorParsingPlaintext => (415u16, "TODO"),
            DeserializeErrorKind::ErrorParsingProtobuf => (415u16, "TODO"),
            DeserializeErrorKind::ErrorParsingJson => (415u16, "TODO"),
        };
        let msg = match &self.err_message {
            Some(err) => {
                let mut e = String::from_str(msg);
                e.append("; ");
                e.append(err.as_str());
                e
            },
            None => String::from_str(msg),
        };
        (status, msg)
    }

    /// The text of this error (what it displays): the cause's message, or
    /// `Unknown Error`.
    pub fn to_string(&self) -> (r: String)
        ensures
            r@ == error_text(self@),
    {
        match &self.err_message {
            Some(msg) => msg.clone(),
            None => String::from_str("Unknown Error"),
        }
    }
}

} // verus!
