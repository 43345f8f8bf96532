use vstd::prelude::*;

verus! {

/// Declares `std::io::Error` to the verifier; held opaquely as the cause of
/// a filesystem failure.
#[verifier::external_type_specification]
#[verifier::external_body]
pub struct ExIoError(std::io::Error);

/// Declares `pyo3::PyErr` to the verifier; held opaquely as the cause of a
/// failure raised by the embedded Python runtime.
#[verifier::external_type_specification]
#[verifier::external_body]
pub struct ExPyErr(pyo3::PyErr);

/// Every failure this library surfaces to its callers.
#[derive(Debug)]
pub enum Error {
    /// A string that is not the canonical name of any `Language`; carries
    /// the offending input.
    InvalidLanguageString(String),
    /// A filesystem path could not be resolved or accessed; carries the
    /// underlying cause.
    InputOutput(std::io::Error),
    /// The transcription response lacked a required field; carries that
    /// field's name.
    MissingResult(&'static str),
    /// Any other failure raised across the embedding boundary, preserved
    /// as the runtime reported it.
    Python(pyo3::PyErr),
}

impl From<pyo3::PyErr> for Error {
    fn from(e: pyo3::PyErr) -> (r: Error) {
        Error::Python(e)
    }
}

impl vstd::std_specs::convert::FromSpecImpl<pyo3::PyErr> for Error {
    open spec fn obeys_from_spec() -> bool {
        true
    }

    open spec fn from_spec(e: pyo3::PyErr) -> Error {
        Error::Python(e)
    }
}

impl From<std::io::Error> for Error {
    fn from(e: std::io::Error) -> (r: Error) {
        Error::InputOutput(e)
    }
}

impl vstd::std_specs::convert::FromSpecImpl<std::io::Error> for Error {
    open spec fn obeys_from_spec() -> bool {
        true
    }

    open spec fn from_spec(e: std::io::Error) -> Error {
        Error::InputOutput(e)
    }
}

} // verus!
