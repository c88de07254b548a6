//! The errors that abort a run, and the stage names they speak of.

use vstd::prelude::*;

verus! {

/// One level of the resource hierarchy. It labels a candidate list put in
/// front of the chooser and says which lookup stage came back empty.
#[derive(Clone, Copy, Debug, PartialEq, Eq)]
pub enum Stage {
    Profile,
    Cluster,
    Service,
    Task,
    Container,
}

/// Everything that can abort a run. Each of these is fatal where it occurs:
/// the flow has no retry or fallback anywhere, so the run either obtains all
/// four selections plus the command string, or it reports one of these and
/// prints nothing.
#[derive(Debug, PartialEq, Eq)]
pub enum RunError {
    /// The credentials file could not be read.
    CredentialsFileMissing,
    /// A lookup call failed; carries the reported cause.
    LookupFailed { cause: String },
    /// A resource name did not match the anchored template for its type.
    MalformedIdentifier,
    /// A lookup stage returned zero candidates.
    NoCandidates { stage: Stage },
    /// The user interrupted an interactive prompt.
    PromptAborted,
    /// A state/event pairing or a chooser index that the protocol never
    /// produces under a correct driver; defended as a fatal internal error.
    Internal,
}

} // verus!
