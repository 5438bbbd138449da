//! How a child process that tried something dangerous ended.
use vstd::prelude::*;

verus! {

/// What became of a child that was forked to try one instruction.
#[derive(Debug, Clone, Copy, PartialEq, Eq, Structural)]
pub enum ChildOutcome {
    /// There was no child: the fork failed.
    NotForked,
    /// The child could not be waited for.
    NotWaitedFor,
    /// The child ended with this wait status.
    Ended { status: i32 },
}

/// `libc::WIFEXITED`: whether the low seven bits of a wait status, which hold
/// the signal that ended a process, are clear. So it is on Linux, Android, the
/// BSDs and Apple's systems, which are those a child is forked on.
#[verifier::external_body]
fn exited(status: i32) -> (exited: bool)
    ensures
        exited == (status & 0x7f == 0),
{
    libc::WIFEXITED(status)
}

/// `libc::WEXITSTATUS`: the exit code in a wait status, its second byte, on
/// the same systems.
#[verifier::external_body]
fn exit_code(status: i32) -> (code: i32)
    ensures
        code == (status >> 8) & 0xff,
{
    libc::WEXITSTATUS(status)
}

impl ChildOutcome {
    /// Whether the child came back by itself, with code zero.
    pub open spec fn well(self) -> bool {
        self matches ChildOutcome::Ended { status } && status & 0x7f == 0 && (status >> 8) & 0xff
            == 0
    }

    /// Whether what the child tried is permitted: it exited by itself, with
    /// code zero. A signal that killed it is the expected "no".
    pub fn ended_well(self) -> (well: bool)
        ensures
            well == self.well(),
    {
        match self {
            ChildOutcome::Ended { status } => exited(status) && exit_code(status) == 0,
            _ => false,
        }
    }
}

} // verus!
