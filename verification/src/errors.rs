//! Compilation-failure records and the error taxonomy of the layer.

use vstd::prelude::*;
use vstd::string::StringExecFns;

verus! {

/// One compiler diagnostic, immutable once produced: an optional
/// human-readable explanation (`None` means no explanation is available) and
/// an opaque machine-readable encoded form.
#[derive(Debug)]
pub struct CompilationFailureRecord {
    pub explanation: Option<String>,
    pub encoded: String,
}

/// Mathematical image of a `CompilationFailureRecord`.
pub struct FailureV {
    pub explanation: Option<Seq<char>>,
    pub encoded: Seq<char>,
}

impl View for CompilationFailureRecord {
    type V = FailureV;

    open spec fn view(&self) -> FailureV {
        FailureV {
            explanation: match self.explanation {
                Some(ref e) => Some(e@),
                None => None,
            },
            encoded: self.encoded@,
        }
    }
}

impl DeepView for CompilationFailureRecord {
    type V = FailureV;

    open spec fn deep_view(&self) -> FailureV {
        self.view()
    }
}

/// Everything a dispatch call can fail with.
#[derive(Debug)]
pub enum Error {
    /// A command name the dispatcher does not recognize.
    UnrecognisedCommand(String),
    /// The dependency command was given no argument at all.
    MissingDependencyArgument,
    /// The dependency argument does not have the shape `name [= text]`.
    MalformedDependencyArgument,
    /// The engine rejects an empty optimization level.
    InvalidOptimizationLevel,
    /// The engine rejects an error formatter it has no capability for.
    InvalidErrorFormat,
    /// Error introspection was asked for, but no compilation failure is
    /// recorded.
    NoFailureToExplain,
    /// A recorded compilation failure carries no explanation.
    FailureWithoutExplanation,
    /// The encoded forms of the recorded diagnostics, surfaced to the caller
    /// through the failure channel.
    EncodedReport(String),
    /// The submitted code failed to compile; carries the engine's
    /// diagnostics.
    CompilationFailures(Vec<CompilationFailureRecord>),
    /// The engine reported a failure that is not a compilation failure.
    EngineFailure(String),
    /// The engine had no evaluation verdict left for the submitted code.
    EngineUnavailable,
    /// Startup replay asked for another startup replay.
    NestedReplay,
}

/// Mathematical image of an `Error`.
pub enum ErrV {
    UnrecognisedCommand(Seq<char>),
    MissingDependencyArgument,
    MalformedDependencyArgument,
    InvalidOptimizationLevel,
    InvalidErrorFormat,
    NoFailureToExplain,
    FailureWithoutExplanation,
    EncodedReport(Seq<char>),
    CompilationFailures(Seq<FailureV>),
    EngineFailure(Seq<char>),
    EngineUnavailable,
    NestedReplay,
}

impl View for Error {
    type V = ErrV;

    open spec fn view(&self) -> ErrV {
        match self {
            Error::UnrecognisedCommand(n) => ErrV::UnrecognisedCommand(n@),
            Error::MissingDependencyArgument => ErrV::MissingDependencyArgument,
            Error::MalformedDependencyArgument => ErrV::MalformedDependencyArgument,
            Error::InvalidOptimizationLevel => ErrV::InvalidOptimizationLevel,
            Error::InvalidErrorFormat => ErrV::InvalidErrorFormat,
            Error::NoFailureToExplain => ErrV::NoFailureToExplain,
            Error::FailureWithoutExplanation => ErrV::FailureWithoutExplanation,
            Error::EncodedReport(s) => ErrV::EncodedReport(s@),
            Error::CompilationFailures(v) => ErrV::CompilationFailures(v.deep_view()),
            Error::EngineFailure(s) => ErrV::EngineFailure(s@),
            Error::EngineUnavailable => ErrV::EngineUnavailable,
            Error::NestedReplay => ErrV::NestedReplay,
        }
    }
}

/// The user-facing message of each error, as a sequence of characters.
pub open spec fn error_message(e: ErrV) -> Seq<char> {
    match e {
        ErrV::UnrecognisedCommand(n) => "Unrecognised command "@ + n,
        ErrV::MissingDependencyArgument => "The dependency command requires arguments"@,
        ErrV::MalformedDependencyArgument => "Invalid dependency argument. Expected: name = ... or just name"@,
        ErrV::InvalidOptimizationLevel => "Optimization level cannot be empty"@,
        ErrV::InvalidErrorFormat => "Unsupported error format"@,
        ErrV::NoFailureToExplain => "No last error to explain"@,
        ErrV::FailureWithoutExplanation => "Sorry, last error has no explanation"@,
        ErrV::EncodedReport(s) => s,
        ErrV::CompilationFailures(_) => "The code failed to compile"@,
        ErrV::EngineFailure(s) => s,
        ErrV::EngineUnavailable => "No evaluation verdict is available"@,
        ErrV::NestedReplay => "Startup replay cannot replay itself"@,
    }
}

impl Error {
    /// Renders the error for the user.
    pub fn message(&self) -> (r: String)
        ensures
            r@ == error_message(self@),
    {
        match self {
            Error::UnrecognisedCommand(n) => {
                let mut out = String::from_str("Unrecognised command ");
                out.append(n.as_str());
                out
            },
            Error::MissingDependencyArgument => String::from_str(
                "The dependency command requires arguments",
            ),
            Error::MalformedDependencyArgument => String::from_str(
                "Invalid dependency argument. Expected: name = ... or just name",
            ),
            Error::InvalidOptimizationLevel => String::from_str("Optimization level cannot be empty"),
            Error::InvalidErrorFormat => String::from_str("Unsupported error format"),
            Error::NoFailureToExplain => String::from_str("No last error to explain"),
            Error::FailureWithoutExplanation => String::from_str(
                "Sorry, last error has no explanation",
            ),
            Error::EncodedReport(s) => s.clone(),
            Error::CompilationFailures(_) => String::from_str("The code failed to compile"),
            Error::EngineFailure(s) => s.clone(),
            Error::EngineUnavailable => String::from_str("No evaluation verdict is available"),
            Error::NestedReplay => String::from_str("Startup replay cannot replay itself"),
        }
    }
}

/// Rebuilds a failure record; the copy has the same image.
pub fn clone_failure(r: &CompilationFailureRecord) -> (c: CompilationFailureRecord)
    ensures
        c@ == r@,
{
    CompilationFailureRecord {
        explanation: match &r.explanation {
            Some(e) => Some(e.clone()),
            None => None,
        },
        encoded: r.encoded.clone(),
    }
}

/// Rebuilds a list of failure records; the copy has the same image.
pub fn clone_failures(v: &Vec<CompilationFailureRecord>) -> (c: Vec<CompilationFailureRecord>)
    ensures
        c.deep_view() == v.deep_view(),
{
    let mut out: Vec<CompilationFailureRecord> = Vec::new();
    let mut i: usize = 0;
    while i < v.len()
        invariant
            i <= v.len(),
            out.len() == i,
            forall|j: int| 0 <= j < i ==> out@[j]@ == v@[j]@,
        decreases v.len() - i,
    {
        out.push(clone_failure(&v[i]));
        i = i + 1;
    }
    proof {
        assert(out.deep_view() =~= v.deep_view());
    }
    out
}

} // verus!
