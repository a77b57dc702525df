use vstd::prelude::*;
use vstd::string::to_string_from_display_ensures;

verus! {

#[verifier::external_type_specification]
#[verifier::external_body]
pub struct ExIoError(std::io::Error);

#[verifier::external_type_specification]
#[verifier::external_body]
pub struct ExJsonError(serde_json::Error);

/// The one error of this library: a failure of the I/O layer or of the JSON
/// layer, each carrying the error that caused it.
#[derive(Debug)]
pub enum SerializeError {
    /// The file system or the stream failed.
    Io(std::io::Error),
    /// The JSON text could not be produced or read: malformed syntax, a shape
    /// that does not fit the target, or a value that JSON cannot hold.
    Json(serde_json::Error),
}

impl SerializeError {
    /// Whether the failure came from the I/O layer.
    pub fn is_io(&self) -> (r: bool)
        ensures
            r == (self is Io),
    {
        match self {
            SerializeError::Io(_) => true,
            SerializeError::Json(_) => false,
        }
    }

    /// Whether the failure came from the JSON layer.
    pub fn is_json(&self) -> (r: bool)
        ensures
            r == (self is Json),
    {
        match self {
            SerializeError::Io(_) => false,
            SerializeError::Json(_) => true,
        }
    }

    /// The I/O error behind this one, if it came from the I/O layer.
    pub fn io_cause(&self) -> (r: Option<&std::io::Error>)
        ensures
            match self {
                SerializeError::Io(e) => r == Some(e),
                SerializeError::Json(_) => r is None,
            },
    {
        match self {
            SerializeError::Io(e) => Some(e),
            SerializeError::Json(_) => None,
        }
    }

    /// The JSON error behind this one, if it came from the JSON layer.
    pub fn json_cause(&self) -> (r: Option<&serde_json::Error>)
        ensures
            match self {
                SerializeError::Io(_) => r is None,
                SerializeError::Json(e) => r == Some(e),
            },
    {
        match self {
            SerializeError::Io(_) => None,
            SerializeError::Json(e) => Some(e),
        }
    }

    /// The description of the failure: that of the error behind it.
    pub fn message(&self) -> (r: String)
        ensures
            match self {
                SerializeError::Io(e) => to_string_from_display_ensures::<std::io::Error>(e, r),
                SerializeError::Json(e) => to_string_from_display_ensures::<serde_json::Error>(e, r),
            },
    {
        match self {
            SerializeError::Io(e) => e.to_string(),
            SerializeError::Json(e) => e.to_string(),
        }
    }
}

impl From<std::io::Error> for SerializeError {
    fn from(e: std::io::Error) -> (r: SerializeError)
        ensures
            r == SerializeError::Io(e),
    {
        SerializeError::Io(e)
    }
}

impl vstd::std_specs::convert::FromSpecImpl<std::io::Error> for SerializeError {
    open spec fn obeys_from_spec() -> bool {
        true
    }

    open spec fn from_spec(e: std::io::Error) -> SerializeError {
        SerializeError::Io(e)
    }
}

impl From<serde_json::Error> for SerializeError {
    fn from(e: serde_json::Error) -> (r: SerializeError)
        ensures
            r == SerializeError::Json(e),
    {
        SerializeError::Json(e)
    }
}

impl vstd::std_specs::convert::FromSpecImpl<serde_json::Error> for SerializeError {
    open spec fn obeys_from_spec() -> bool {
        true
    }

    open spec fn from_spec(e: serde_json::Error) -> SerializeError {
        SerializeError::Json(e)
    }
}

} // verus!
