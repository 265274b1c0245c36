use vstd::prelude::*;

verus! {

/// The failures the wrapper distinguishes.
#[derive(Clone, Copy, Debug, PartialEq, Eq, Structural)]
pub enum TailError {
    /// The external tailing utility was missing, not executable, or the
    /// operating system refused to start it.
    SpawnFailure,
    /// The freshly spawned process unexpectedly carried no output pipe.
    /// Defensive: it should not happen when the process was requested with a
    /// piped output, but it is handled as an error, never as an assumption.
    PipeAcquisitionFailure,
    /// Reading from the pipe failed after the spawn.
    IoError,
}

impl TailError {
    /// A short description of the failure.
    pub fn describe(&self) -> (s: &'static str)
        ensures
            *self is SpawnFailure ==> s@ == "failed to spawn the tail process"@,
            *self is PipeAcquisitionFailure ==> s@ == "child stdout handle missing"@,
            *self is IoError ==> s@ == "failed to read from the tail process"@,
    {
        match self {
            TailError::SpawnFailure => "failed to spawn the tail process",
            TailError::PipeAcquisitionFailure => "child stdout handle missing",
            TailError::IoError => "failed to read from the tail process",
        }
    }
}

/// Classify the attempt to take the spawned process's output pipe: a pipe
/// that is there is handed back whole; a missing one is the defensive
/// pipe-acquisition failure, never a crash.
pub fn pipe_outcome<T>(stdout: Option<T>) -> (r: Result<T, TailError>)
    ensures
        match stdout {
            Some(s) => r == Result::<T, TailError>::Ok(s),
            None => r == Result::<T, TailError>::Err(TailError::PipeAcquisitionFailure),
        },
{
    match stdout {
        Some(s) => Ok(s),
        None => Err(TailError::PipeAcquisitionFailure),
    }
}

} // verus!
