//! # Groom
//!
//! Groom renders [mustache](https://mustache.github.io/) text templates
//! against a YAML-encoded data mapping. The companion binary reads the
//! template from a file, the mapping from a file or `stdin`, and writes the
//! rendered text to a file or `stdout`; this crate holds everything that does
//! not touch a file or a stream: the builder that carries the two optional
//! paths, the rendering pipeline over in-memory text, and the error type with
//! its exit-code mapping.
//!
//! ## Exit Codes
//!
//! | Code | Reason                               |
//! |------|--------------------------------------|
//! | 0    | Success, no error                    |
//! | 1    | Failure, generic                     |
//! | 2    | Failure, user input                  |
//! | 3    | Failure, Input/Output (IO)           |
//! | 4    | Failure, rendering mustache template |
//! | 5    | Failure, UTF8 encoding               |
//! | 6    | Failure, YAML decoding               |

use vstd::prelude::*;

mod ext;
mod groom;

pub use crate::groom::Groom;
pub use crate::groom::compile_template;
pub use crate::groom::decode_rendered;
pub use crate::groom::finish_render;
pub use crate::groom::missing_data_error;
pub use crate::groom::missing_template_error;
pub use crate::groom::parse_data;
pub use crate::groom::yaml_parses;

verus! {

/// The error type for groom-related operations and associated traits.
///
/// Errors mostly originate from the dependencies, but custom instances of
/// `Error` can be created with the `Generic` variant and a message. If the
/// error is related to user input, then the `Input` variant should be used.
#[derive(Debug)]
pub enum Error {
    /// A generic or custom error occurred. The message should contain the
    /// detailed information.
    Generic(String),
    /// An error occurred with end-user input, such as a typo in a path.
    Input(String),
    /// An I/O operation failed.
    Io(std::io::Error),
    /// Parsing and rendering a mustache template failed. The message is the
    /// template engine's own report.
    Mustache(String),
    /// Converting to and/or from a UTF8 string failed.
    Utf8(core::str::Utf8Error),
    /// Decoding or deserializing YAML data failed. The message is the YAML
    /// decoder's own report.
    Yaml(String),
}

impl Error {
    /// The exit code that belongs to each variant.
    pub open spec fn spec_code(&self) -> i32 {
        match *self {
            Error::Generic(..) => 1,
            Error::Input(..) => 2,
            Error::Io(..) => 3,
            Error::Mustache(..) => 4,
            Error::Utf8(..) => 5,
            Error::Yaml(..) => 6,
        }
    }

    /// Gets an error code related to the error.
    ///
    /// This is useful as a return, or exit, code for a command line
    /// application, where a non-zero integer indicates a failure in the
    /// application. It can also be used for quickly and easily testing
    /// equality between two errors.
    pub fn code(&self) -> (c: i32)
        ensures
            c == self.spec_code(),
    {
        match *self {
            Error::Generic(..) => 1,
            Error::Input(..) => 2,
            Error::Io(..) => 3,
            Error::Mustache(..) => 4,
            Error::Utf8(..) => 5,
            Error::Yaml(..) => 6,
        }
    }

    /// Gets the detail message for the error.
    ///
    /// Four variants carry their message as text and hand it back whole; the
    /// `Io` and `Utf8` variants carry an outside error value, whose own
    /// report is rendered.
    pub fn message(&self) -> (m: String)
        ensures
            self is Generic ==> m@ == self->Generic_0@,
            self is Input ==> m@ == self->Input_0@,
            self is Mustache ==> m@ == self->Mustache_0@,
            self is Yaml ==> m@ == self->Yaml_0@,
    {
        match self {
            Error::Generic(msg) => msg.clone(),
            Error::Input(msg) => msg.clone(),
            Error::Io(err) => io_error_message(err),
            Error::Mustache(msg) => msg.clone(),
            Error::Utf8(err) => utf8_error_message(err),
            Error::Yaml(msg) => msg.clone(),
        }
    }
}

/// Relies on std's `Display` for `std::io::Error`: the report std renders
/// for the I/O fault. Nothing is promised of the text.
#[verifier::external_body]
fn io_error_message(err: &std::io::Error) -> String {
    format!("{}", err)
}

/// Relies on std's `Display` for `core::str::Utf8Error`: the report std
/// renders for the encoding fault. Nothing is promised of the text.
#[verifier::external_body]
fn utf8_error_message(err: &core::str::Utf8Error) -> String {
    format!("{}", err)
}

impl From<std::io::Error> for Error {
    fn from(err: std::io::Error) -> (r: Error) {
        Error::Io(err)
    }
}

impl vstd::std_specs::convert::FromSpecImpl<std::io::Error> for Error {
    open spec fn obeys_from_spec() -> bool {
        true
    }

    open spec fn from_spec(err: std::io::Error) -> Error {
        Error::Io(err)
    }
}

impl From<core::str::Utf8Error> for Error {
    fn from(err: core::str::Utf8Error) -> (r: Error) {
        Error::Utf8(err)
    }
}

impl vstd::std_specs::convert::FromSpecImpl<core::str::Utf8Error> for Error {
    open spec fn obeys_from_spec() -> bool {
        true
    }

    open spec fn from_spec(err: core::str::Utf8Error) -> Error {
        Error::Utf8(err)
    }
}

} // verus!
