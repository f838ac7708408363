use vstd::prelude::*;

verus! {

/// A command line: the program to run and its arguments, each as the bytes of an OS string.
#[derive(Debug, Clone)]
pub struct CommandSpec {
    pub program: Vec<u8>,
    pub args: Vec<Vec<u8>>,
}

impl View for CommandSpec {
    type V = (Seq<u8>, Seq<Seq<u8>>);

    open spec fn view(&self) -> (Seq<u8>, Seq<Seq<u8>>) {
        (self.program@, byte_views(self.args@))
    }
}

pub open spec fn byte_views(v: Seq<Vec<u8>>) -> Seq<Seq<u8>> {
    v.map_values(|b: Vec<u8>| b@)
}

/// Appends the bytes of `b` to `v`.
pub fn append_bytes(v: &mut Vec<u8>, b: &[u8])
    ensures
        final(v)@ == old(v)@ + b@,
{
    let mut i: usize = 0;
    while i < b.len()
        invariant
            i <= b@.len(),
            v@ == old(v)@ + b@.take(i as int),
        decreases b@.len() - i,
    {
        v.push(b[i]);
        i = i + 1;
        assert(b@.take(i as int) == b@.take(i - 1).push(b@[i - 1]));
    }
    assert(b@.take(b@.len() as int) == b@);
}

/// What a finished command left behind: its exit code (`None` when a signal ended it) and what
/// it wrote to its two output streams.
#[derive(Debug, Clone)]
pub struct Output {
    pub code: Option<i32>,
    pub stdout: Vec<u8>,
    pub stderr: Vec<u8>,
}

/// The conditions under which a step of wrapping or running a helper fails.
#[derive(Debug, Clone)]
pub enum WrapError {
    /// The command could not be started at all.
    SpawnFailed,
    /// The command ran, was required to succeed, and did not.
    CommandFailed(CommandSpec, Output),
    /// A path is not valid UTF-8.
    InvalidPath,
    /// The command that runs an unpacked helper was not configured.
    MissingConfig,
    /// The command that runs an unpacked helper is configured but holds no word.
    EmptyCommand,
}

} // verus!
