//! The failure modes of loading a microfrontends configuration.
//!
//! "No configuration file" is never an error: the loaders encode it as a
//! successful absence instead.
use vstd::prelude::*;
use vstd::string::StringExecFns;

verus! {

/// Why a configuration could not be loaded.
#[derive(Debug)]
pub enum Error {
    /// The text declares a schema version this crate does not understand;
    /// carries the raw declared version string.
    UnsupportedVersion(String),
    /// The file is a reference to the configuration owned by another
    /// application rather than an owning configuration itself.
    ChildConfig { reference: String },
    /// An underlying filesystem failure other than "file absent".
    Io(String),
    /// The text is not a structurally valid configuration for the dispatched
    /// version's grammar.
    Parse(String),
}

impl Error {
    /// A human-readable description, embedding the offending version string
    /// or the referenced application name.
    pub fn message(&self) -> (r: String)
        ensures
            r@ == match *self {
                Error::UnsupportedVersion(v) => "Unsupported microfrontends configuration version: "@
                    + v@ + ". Supported versions: [\"1\"]"@,
                Error::ChildConfig { reference } => "Microfrontends configuration references the configuration owned by application "@
                    + reference@,
                Error::Io(m) => "Failed to read microfrontends configuration: "@ + m@,
                Error::Parse(m) => "Failed to parse microfrontends configuration: "@ + m@,
            },
    {
        match self {
            Error::UnsupportedVersion(v) => "Unsupported microfrontends configuration version: "
                .to_owned()
                .concat(v.as_str())
                .concat(". Supported versions: [\"1\"]"),
            Error::ChildConfig { reference } => "Microfrontends configuration references the configuration owned by application "
                .to_owned()
                .concat(reference.as_str()),
            Error::Io(m) => "Failed to read microfrontends configuration: ".to_owned().concat(
                m.as_str(),
            ),
            Error::Parse(m) => "Failed to parse microfrontends configuration: ".to_owned().concat(
                m.as_str(),
            ),
        }
    }
}

} // verus!
