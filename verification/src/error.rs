//! What can go wrong before any tool is started.
use vstd::prelude::*;
use crate::text::{concat, concat3, owned};

verus! {

/// A fatal condition. None of them is recovered from: the build stops with the
/// message.
#[derive(Debug, Clone, PartialEq, Eq)]
pub enum Error {
    /// A text that names none of the values of an enumeration.
    InvalidVariant { input: String },
    /// An override that is not of the form `KEY=value`.
    InvalidKeyValue { input: String },
    /// A target for which no Android package can be made.
    UnsupportedAndroidTarget { target: String },
    /// A version whose parts do not fit the version code of a package.
    InvalidVersionCode { version: String },
    /// A path inside a binary that names no file.
    NoFileName { path: String },
    /// A library whose dependencies lead back to itself, or to nothing.
    CouldNotCompile { library: String },
    /// A tool that must be present before compilation starts and is not.
    RequirementNotSatisfied { requirement: String },
    /// A template that could not be rendered.
    Template { name: String },
    /// A text that was given as version and is none.
    InvalidVersion { version: String },
}

impl Error {
    /// The text of the message, by variant.
    pub open spec fn text(self) -> Seq<char> {
        match self {
            Error::InvalidVariant { input } => "Invalid variant: "@ + input@,
            Error::InvalidKeyValue { input } => "invalid KEY=value: no `=` found in `"@ + input@
                + "`"@,
            Error::UnsupportedAndroidTarget { target } => "Unsupported android target: "@
                + target@,
            Error::InvalidVersionCode { version } => "Invalid version code: "@ + version@,
            Error::NoFileName { path } => "No file name in "@ + path@,
            Error::CouldNotCompile { library } => "Could not compile "@ + library@,
            Error::RequirementNotSatisfied { requirement } => "Requirement not satisfied: "@
                + requirement@,
            Error::Template { name } => "Could not render "@ + name@,
            Error::InvalidVersion { version } => "Could not parse version "@ + version@,
        }
    }

    /// The message for a person to read.
    pub fn message(&self) -> (m: String)
        ensures
            m@ == self.text(),
    {
        match self {
            Error::InvalidVariant { input } => concat("Invalid variant: ", input.as_str()),
            Error::InvalidKeyValue { input } => concat3(
                "invalid KEY=value: no `=` found in `",
                input.as_str(),
                "`",
            ),
            Error::UnsupportedAndroidTarget { target } => concat(
                "Unsupported android target: ",
                target.as_str(),
            ),
            Error::InvalidVersionCode { version } => concat(
                "Invalid version code: ",
                version.as_str(),
            ),
            Error::NoFileName { path } => concat("No file name in ", path.as_str()),
            Error::CouldNotCompile { library } => concat("Could not compile ", library.as_str()),
            Error::RequirementNotSatisfied { requirement } => concat(
                "Requirement not satisfied: ",
                requirement.as_str(),
            ),
            Error::Template { name } => concat("Could not render ", name.as_str()),
            Error::InvalidVersion { version } => concat(
                "Could not parse version ",
                version.as_str(),
            ),
        }
    }

    /// The error for a text that names no value of an enumeration.
    pub fn invalid_variant(input: &str) -> (e: Error)
        ensures
            e matches Error::InvalidVariant { input: i } && i@ == input@,
    {
        Error::InvalidVariant { input: owned(input) }
    }
}

} // verus!
