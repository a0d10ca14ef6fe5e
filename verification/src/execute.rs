//! What running the generated command left behind.

use vstd::prelude::*;

verus! {

/// The result of one run of the interpreter, with its output captured.
#[derive(Debug, PartialEq, Eq)]
pub struct ExecutionResult {
    /// The status the command ended with; `None` where it gave none, as when
    /// a signal ended it.
    pub status: Option<i32>,
    /// What the command wrote to its standard output.
    pub stdout: Vec<u8>,
    /// What the command wrote to its standard error.
    pub stderr: Vec<u8>,
}

/// An `ExecutionResult` with its output as sequences of bytes.
pub struct ExecutionResultView {
    pub status: Option<i32>,
    pub stdout: Seq<u8>,
    pub stderr: Seq<u8>,
}

impl ExecutionResultView {
    /// Whether the command succeeded: it ended with status zero.
    pub open spec fn success(self) -> bool {
        self.status == Some(0i32)
    }
}

impl View for ExecutionResult {
    type V = ExecutionResultView;

    open spec fn view(&self) -> ExecutionResultView {
        ExecutionResultView { status: self.status, stdout: self.stdout@, stderr: self.stderr@ }
    }
}

impl ExecutionResult {
    /// Whether the command succeeded.
    pub fn success(&self) -> (r: bool)
        ensures
            r == self@.success(),
    {
        match self.status {
            Some(status) => status == 0,
            None => false,
        }
    }
}

} // verus!
