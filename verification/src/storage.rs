//! How the state of an environment or of an agent is written to a file: the
//! format is told by the end of the file's name.

use vstd::prelude::*;
use crate::text::{append_str, chars_of, ends_with, string_of};

verus! {

/// The formats in which a state is stored.
#[derive(Clone, Copy, Debug, PartialEq, Eq, Structural)]
pub enum StorageFormat {
    /// JavaScript Object Notation, a text format; files that end in `.json`.
    Json,
    /// Rusty Object Notation, a text format; files that end in `.ron`.
    Ron,
    /// A compact binary format; files that end in `.bin`.
    Bincode,
}

/// The format of the file with the given path, if its name ends as that of a
/// known format does.
pub open spec fn format_of(path: Seq<char>) -> Option<StorageFormat> {
    if ".json"@.is_suffix_of(path) {
        Some(StorageFormat::Json)
    } else if ".ron"@.is_suffix_of(path) {
        Some(StorageFormat::Ron)
    } else if ".bin"@.is_suffix_of(path) {
        Some(StorageFormat::Bincode)
    } else {
        None
    }
}

/// Tells the format of the file with the given path by the end of its name.
pub fn storage_format(path: &str) -> (format: Option<StorageFormat>)
    ensures
        format == format_of(path@),
{
    let chars = chars_of(path);
    if ends_with(&chars, &chars_of(".json")) {
        Some(StorageFormat::Json)
    } else if ends_with(&chars, &chars_of(".ron")) {
        Some(StorageFormat::Ron)
    } else if ends_with(&chars, &chars_of(".bin")) {
        Some(StorageFormat::Bincode)
    } else {
        None
    }
}

/// Why a state could not be loaded. Every variant but the last holds the
/// description of what went wrong underneath.
#[derive(Debug, PartialEq, Eq)]
pub enum LoadError {
    /// The file could not be read.
    IoError(String),
    /// The content of the file is no state in JavaScript Object Notation.
    SerdeJsonError(String),
    /// The content of the file is no state in Rusty Object Notation.
    RonError(String),
    /// The content of the file is no state in the binary format.
    BincodeError(String),
    /// The environment or the agent did not take the state.
    EnvironmentAgentError(String),
    /// The end of the file's name tells no known format. Holds the path.
    UnknownFormat(String),
}

/// Why a state could not be stored. Every variant but the last holds the
/// description of what went wrong underneath.
#[derive(Debug, PartialEq, Eq)]
pub enum StoreError {
    /// The file could not be written.
    IoError(String),
    /// The state could not be written in JavaScript Object Notation.
    SerdeJsonError(String),
    /// The state could not be written in Rusty Object Notation.
    RonError(String),
    /// The state could not be written in the binary format.
    BincodeError(String),
    /// The end of the file's name tells no known format. Holds the path.
    UnknownFormat(String),
}

/// The message that a file's name tells no known format.
pub open spec fn unknown_format_text(path: Seq<char>) -> Seq<char> {
    "The file \""@ + path + "\" has an unknown file ending"@
}

/// A message that holds the description of what went wrong underneath.
pub open spec fn received_text(kind: Seq<char>, description: Seq<char>) -> Seq<char> {
    kind + description + ")"@
}

/// Builds the message that holds the description of what went wrong.
fn received(kind: &str, description: &str) -> (message: String)
    ensures
        message@ == received_text(kind@, description@),
{
    let mut message: Vec<char> = Vec::new();
    append_str(&mut message, kind);
    append_str(&mut message, description);
    append_str(&mut message, ")");
    string_of(&message)
}

/// Builds the message that a file's name tells no known format.
fn unknown_format(path: &str) -> (message: String)
    ensures
        message@ == unknown_format_text(path@),
{
    let mut message: Vec<char> = Vec::new();
    append_str(&mut message, "The file \"");
    append_str(&mut message, path);
    append_str(&mut message, "\" has an unknown file ending");
    string_of(&message)
}

impl LoadError {
    /// The text of the error's message.
    pub open spec fn text(&self) -> Seq<char> {
        match self {
            LoadError::IoError(description) => received_text(
                "Received IoError ("@,
                description@,
            ),
            LoadError::SerdeJsonError(description) => received_text(
                "Received SerdeJsonError ("@,
                description@,
            ),
            LoadError::RonError(description) => received_text(
                "Received RonError ("@,
                description@,
            ),
            LoadError::BincodeError(description) => received_text(
                "Received BincodeError ("@,
                description@,
            ),
            LoadError::EnvironmentAgentError(description) => received_text(
                "Recedived EnvironmentError("@,
                description@,
            ),
            LoadError::UnknownFormat(path) => unknown_format_text(path@),
        }
    }

    /// The error's message.
    pub fn to_string(&self) -> (message: String)
        ensures
            message@ == self.text(),
    {
        match self {
            LoadError::IoError(description) => received("Received IoError (", description.as_str()),
            LoadError::SerdeJsonError(description) => received(
                "Received SerdeJsonError (",
                description.as_str(),
            ),
            LoadError::RonError(description) => received(
                "Received RonError (",
                description.as_str(),
            ),
            LoadError::BincodeError(description) => received(
                "Received BincodeError (",
                description.as_str(),
            ),
            LoadError::EnvironmentAgentError(description) => received(
                "Recedived EnvironmentError(",
                description.as_str(),
            ),
            LoadError::UnknownFormat(path) => unknown_format(path.as_str()),
        }
    }
}

impl StoreError {
    /// The text of the error's message.
    pub open spec fn text(&self) -> Seq<char> {
        match self {
            StoreError::IoError(description) => received_text(
                "Received IoError ("@,
                description@,
            ),
            StoreError::SerdeJsonError(description) => received_text(
                "Received SerdeJsonError ("@,
                description@,
            ),
            StoreError::RonError(description) => received_text(
                "Received RonError ("@,
                description@,
            ),
            StoreError::BincodeError(description) => received_text(
                "Received BincodeError ("@,
                description@,
            ),
            StoreError::UnknownFormat(path) => unknown_format_text(path@),
        }
    }

    /// The error's message.
    pub fn to_string(&self) -> (message: String)
        ensures
            message@ == self.text(),
    {
        match self {
            StoreError::IoError(description) => received(
                "Received IoError (",
                description.as_str(),
            ),
            StoreError::SerdeJsonError(description) => received(
                "Received SerdeJsonError (",
                description.as_str(),
            ),
            StoreError::RonError(description) => received(
                "Received RonError (",
                description.as_str(),
            ),
            StoreError::BincodeError(description) => received(
                "Received BincodeError (",
                description.as_str(),
            ),
            StoreError::UnknownFormat(path) => unknown_format(path.as_str()),
        }
    }
}

/// The format in which a state is loaded from the file with the given path.
/// A name that ends as no known format does is an error that holds the path.
pub fn load_format(path: &str) -> (format: Result<StorageFormat, LoadError>)
    ensures
        match format {
            Ok(format) => format_of(path@) == Some(format),
            Err(LoadError::UnknownFormat(named)) => format_of(path@) is None && named@ == path@,
            Err(_) => false,
        },
{
    match storage_format(path) {
        Some(format) => Ok(format),
        None => Err(LoadError::UnknownFormat(path.to_owned())),
    }
}

/// The format in which a state is stored in the file with the given path.
/// A name that ends as no known format does is an error that holds the path.
pub fn store_format(path: &str) -> (format: Result<StorageFormat, StoreError>)
    ensures
        match format {
            Ok(format) => format_of(path@) == Some(format),
            Err(StoreError::UnknownFormat(named)) => format_of(path@) is None && named@ == path@,
            Err(_) => false,
        },
{
    match storage_format(path) {
        Some(format) => Ok(format),
        None => Err(StoreError::UnknownFormat(path.to_owned())),
    }
}

} // verus!
