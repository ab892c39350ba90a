//! Request-level errors: the uniform diagnostic contract of every decoder.
//! A structurally malformed body yields `InvalidFormat` with a static field
//! name and the request's correlation id; an unknown API key or version
//! yields its own variant; a header so short that no correlation id was
//! read yields `InvalidFormatWithoutCId`.
use vstd::prelude::*;

verus! {

/// The static name of the field whose read failed.
#[derive(Debug, Clone, Copy)]
pub struct ErrorField {
    pub name: &'static str,
}

impl View for ErrorField {
    type V = Seq<char>;

    open spec fn view(&self) -> Seq<char> {
        self.name@
    }
}

impl DeepView for ErrorField {
    type V = Seq<char>;

    open spec fn deep_view(&self) -> Seq<char> {
        self@
    }
}

impl ErrorField {
    /// Wrap a static field name.
    pub fn new(name: &'static str) -> (r: ErrorField)
        ensures
            r@ == name@,
    {
        ErrorField { name }
    }
}

/// Why a request could not be decoded.
#[derive(Debug)]
pub enum RequestError {
    UnsupportedVersion { api_version: i16, correlation_id: i32 },
    UnsupportedApiKey { api_key: i16, correlation_id: i32 },
    InvalidFormat { field: ErrorField, correlation_id: i32 },
    InvalidFormatWithoutCId(ErrorField),
}

/// Mathematical model of a request error.
pub enum RequestErrorV {
    UnsupportedVersion { api_version: i16, correlation_id: i32 },
    UnsupportedApiKey { api_key: i16, correlation_id: i32 },
    InvalidFormat { field: Seq<char>, correlation_id: i32 },
    InvalidFormatWithoutCId(Seq<char>),
}

impl View for RequestError {
    type V = RequestErrorV;

    open spec fn view(&self) -> RequestErrorV {
        match self {
            RequestError::UnsupportedVersion { api_version, correlation_id } => {
                RequestErrorV::UnsupportedVersion {
                    api_version: *api_version,
                    correlation_id: *correlation_id,
                }
            },
            RequestError::UnsupportedApiKey { api_key, correlation_id } => {
                RequestErrorV::UnsupportedApiKey {
                    api_key: *api_key,
                    correlation_id: *correlation_id,
                }
            },
            RequestError::InvalidFormat { field, correlation_id } => {
                RequestErrorV::InvalidFormat {
                    field: field@,
                    correlation_id: *correlation_id,
                }
            },
            RequestError::InvalidFormatWithoutCId(field) => {
                RequestErrorV::InvalidFormatWithoutCId(field@)
            },
        }
    }
}

impl DeepView for RequestError {
    type V = RequestErrorV;

    open spec fn deep_view(&self) -> RequestErrorV {
        self@
    }
}

/// The model of an `InvalidFormat` error over a field name.
pub open spec fn spec_invalid_format(field: Seq<char>, correlation_id: i32) -> RequestErrorV {
    RequestErrorV::InvalidFormat { field, correlation_id }
}

impl RequestError {
    /// An `InvalidFormat` error for the given field and correlation id.
    pub fn invalid_format(field: &'static str, correlation_id: i32) -> (r: RequestError)
        ensures
            r@ == spec_invalid_format(field@, correlation_id),
    {
        RequestError::InvalidFormat { field: ErrorField::new(field), correlation_id }
    }

    /// An `UnsupportedVersion` error for the given version and correlation
    /// id.
    pub fn unsupported_version(api_version: i16, correlation_id: i32) -> (r: RequestError)
        ensures
            r@ == (RequestErrorV::UnsupportedVersion { api_version, correlation_id }),
    {
        RequestError::UnsupportedVersion { api_version, correlation_id }
    }
}

} // verus!
