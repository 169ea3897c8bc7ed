use vstd::prelude::*;
use crate::text::{append_decimal, decimal};

verus! {

/// Why an engine run did not yield anonymized text.
pub enum BridgeError {
    /// The workspace directory could not be created or the input file could
    /// not be written.
    WorkspaceIo { detail: String },
    /// The engine's entry point or its configuration file is absent.
    MissingDependency { path: String },
    /// The operating system could not start the engine.
    LaunchFailure { detail: String },
    /// The engine ran and exited with a failure status. The diagnostic is
    /// its standard error, or its standard output when standard error was
    /// empty.
    EngineFailure { code: Option<i32>, diagnostic: String },
    /// The engine reported success but its output file could not be read.
    OutputRetrieval { detail: String },
}

/// How a run ended, without the text it carries.
#[derive(Clone, Copy, Debug, PartialEq, Eq, Structural)]
pub enum Ending {
    Success,
    WorkspaceIo,
    MissingDependency,
    LaunchFailure,
    EngineFailure,
    OutputRetrieval,
}

/// The ending that an outcome belongs to.
pub open spec fn ending_of(o: Result<String, BridgeError>) -> Ending {
    match o {
        Ok(_) => Ending::Success,
        Err(e) => match e {
            BridgeError::WorkspaceIo { .. } => Ending::WorkspaceIo,
            BridgeError::MissingDependency { .. } => Ending::MissingDependency,
            BridgeError::LaunchFailure { .. } => Ending::LaunchFailure,
            BridgeError::EngineFailure { .. } => Ending::EngineFailure,
            BridgeError::OutputRetrieval { .. } => Ending::OutputRetrieval,
        },
    }
}

impl BridgeError {
    /// The human-readable message for this error.
    pub open spec fn spec_message(&self) -> Seq<char> {
        match self {
            BridgeError::WorkspaceIo { detail } => "workspace I/O failure: "@ + detail@,
            BridgeError::MissingDependency { path } => "missing engine dependency: "@ + path@,
            BridgeError::LaunchFailure { detail } => "could not launch the engine: "@ + detail@,
            BridgeError::EngineFailure { code, diagnostic } => match code {
                Some(c) => "engine failed with exit code "@ + decimal(*c as int) + ": "@
                    + diagnostic@,
                None => "engine failed without an exit code: "@ + diagnostic@,
            },
            BridgeError::OutputRetrieval { detail } => "could not read the engine output: "@
                + detail@,
        }
    }

    pub fn message(&self) -> (r: String)
        ensures
            r@ == self.spec_message(),
    {
        match self {
            BridgeError::WorkspaceIo { detail } => {
                let mut m = String::from_str("workspace I/O failure: ");
                m.append(detail.as_str());
                m
            },
            BridgeError::MissingDependency { path } => {
                let mut m = String::from_str("missing engine dependency: ");
                m.append(path.as_str());
                m
            },
            BridgeError::LaunchFailure { detail } => {
                let mut m = String::from_str("could not launch the engine: ");
                m.append(detail.as_str());
                m
            },
            BridgeError::EngineFailure { code, diagnostic } => match code {
                Some(c) => {
                    let mut m = String::from_str("engine failed with exit code ");
                    append_decimal(&mut m, *c);
                    m.append(": ");
                    m.append(diagnostic.as_str());
                    m
                },
                None => {
                    let mut m = String::from_str("engine failed without an exit code: ");
                    m.append(diagnostic.as_str());
                    m
                },
            },
            BridgeError::OutputRetrieval { detail } => {
                let mut m = String::from_str("could not read the engine output: ");
                m.append(detail.as_str());
                m
            },
        }
    }

    /// Which of the five kinds this error is.
    pub fn ending(&self) -> (r: Ending)
        ensures
            r == ending_of(Err(*self)),
    {
        match self {
            BridgeError::WorkspaceIo { .. } => Ending::WorkspaceIo,
            BridgeError::MissingDependency { .. } => Ending::MissingDependency,
            BridgeError::LaunchFailure { .. } => Ending::LaunchFailure,
            BridgeError::EngineFailure { .. } => Ending::EngineFailure,
            BridgeError::OutputRetrieval { .. } => Ending::OutputRetrieval,
        }
    }
}

} // verus!
