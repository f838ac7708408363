use vstd::prelude::*;

use crate::model::{CommandSpec, Output, WrapError};

verus! {

/// How an attempt to run a command ended.
#[derive(Debug, Clone)]
pub enum Spawned {
    /// The command could not be started (no such program, no permission).
    Failed,
    /// The command ran to its end.
    Finished(Output),
}

impl Output {
    /// A command succeeded when it exited with status zero; one that a signal ended did not.
    pub open spec fn succeeded(&self) -> bool {
        self.code == Some(0i32)
    }

    pub fn success(&self) -> (r: bool)
        ensures
            r == self.succeeded(),
    {
        match self.code {
            Some(c) => c == 0,
            None => false,
        }
    }
}

/// The result of running `command`, given how the attempt ended. A command that could not be
/// started fails the run; one that ran and did not succeed fails it only when `require_success`
/// is set, and then the failure keeps both the command and what it wrote.
pub open spec fn exec_result(command: CommandSpec, spawned: Spawned, require_success: bool) -> Result<
    Output,
    WrapError,
> {
    match spawned {
        Spawned::Failed => Err(WrapError::SpawnFailed),
        Spawned::Finished(o) => if require_success && !o.succeeded() {
            Err(WrapError::CommandFailed(command, o))
        } else {
            Ok(o)
        },
    }
}

/// Judges the run of `command` (see `exec_result`).
pub fn exec(command: CommandSpec, spawned: Spawned, require_success: bool) -> (r: Result<
    Output,
    WrapError,
>)
    ensures
        r == exec_result(command, spawned, require_success),
{
    match spawned {
        Spawned::Failed => Err(WrapError::SpawnFailed),
        Spawned::Finished(o) => {
            if require_success && !o.success() {
                Err(WrapError::CommandFailed(command, o))
            } else {
                Ok(o)
            }
        },
    }
}

/// The exit status of a program whose last step had the result `r`: the status of the command
/// it ran, when that command ran and exited; 1 on any other failure.
pub open spec fn status_of(r: Result<Output, WrapError>) -> i32 {
    match r {
        Ok(o) => match o.code {
            Some(c) => c,
            None => 1,
        },
        Err(WrapError::CommandFailed(_, o)) => match o.code {
            Some(c) => c,
            None => 1,
        },
        Err(_) => 1,
    }
}

/// The exit status to end with after a last step with the result `r`.
pub fn exit_status(r: &Result<Output, WrapError>) -> (s: i32)
    ensures
        s == status_of(*r),
{
    let code = match r {
        Ok(o) => o.code,
        Err(WrapError::CommandFailed(_, o)) => o.code,
        Err(_) => None,
    };
    match code {
        Some(c) => c,
        None => 1,
    }
}

/// The output a run keeps: that of the command, whenever the command ran.
pub open spec fn kept_output(r: Result<Output, WrapError>) -> Option<Output> {
    match r {
        Ok(o) => Some(o),
        Err(WrapError::CommandFailed(_, o)) => Some(o),
        Err(_) => None,
    }
}

/// A run of a command that ran to its end, whether or not it must succeed, keeps exactly what
/// the command wrote and ends with the command's own exit status (1 when a signal ended it).
pub proof fn lemma_run_relays_status_and_output(
    command: CommandSpec,
    o: Output,
    require_success: bool,
)
    ensures
        ({
            let r = exec_result(command, Spawned::Finished(o), require_success);
            &&& kept_output(r) == Some(o)
            &&& status_of(r) == (match o.code {
                Some(c) => c,
                None => 1i32,
            })
        }),
{
}

} // verus!
