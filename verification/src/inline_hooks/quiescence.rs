//! Keeping other threads away from code while it is patched.
use vstd::prelude::*;

verus! {

/// Bytes before a target in which no other thread may stand.
pub const PATCH_WINDOW_BEFORE: usize = 32;

/// Bytes from a target on in which no other thread may stand.
pub const PATCH_WINDOW_AFTER: usize = 64;

/// Attempts at suspending every other thread.
pub const QUIESCENCE_ATTEMPTS: usize = 8;

/// Attempts at resuming one thread.
pub const RESUME_ATTEMPTS: usize = 64;

/// What a thread call returns on failure.
pub const API_FAILURE: u32 = u32::MAX;

/// The end of an enumeration.
pub const ERROR_NO_MORE_FILES: u32 = 18;

/// Why the process could not be quiesced.
#[derive(Clone, Copy, Debug, PartialEq, Eq, Structural)]
pub enum QuiescenceError {
    /// Memory could not be allocated.
    OutOfMemory,
    /// The threads could not be listed.
    Snapshot,
    /// The list of threads ended early.
    Enumeration,
    /// A thread could not be opened.
    OpenThread,
    /// A thread could not be suspended.
    SuspendThread,
    /// Where a thread stands could not be read.
    ThreadContext(u32),
    /// A thread stands in a patch window.
    TargetBusy,
}

/// Where the patch window of a target begins.
pub open spec fn window_start(target: usize) -> int {
    if target < PATCH_WINDOW_BEFORE {
        0
    } else {
        target - PATCH_WINDOW_BEFORE
    }
}

/// Where the patch window of a target has ended.
pub open spec fn window_end(target: usize) -> int {
    if target + PATCH_WINDOW_AFTER > usize::MAX {
        usize::MAX as int
    } else {
        target + PATCH_WINDOW_AFTER
    }
}

/// Whether an address lies in the patch window of a target.
pub open spec fn in_window(address: usize, target: usize) -> bool {
    window_start(target) <= address < window_end(target)
}

/// Returns whether an address lies in the patch window of one of the targets.
pub fn rip_in_patch_window(rip: usize, targets: &[usize]) -> (inside: bool)
    ensures
        inside == exists|i: int| 0 <= i < targets@.len() && #[trigger] in_window(rip, targets@[i]),
{
    let mut i: usize = 0;
    while i < targets.len()
        invariant
            i <= targets@.len(),
            forall|j: int| 0 <= j < i ==> !#[trigger] in_window(rip, targets@[j]),
        decreases targets@.len() - i,
    {
        let target = targets[i];
        let start: usize = if target < PATCH_WINDOW_BEFORE {
            0
        } else {
            target - PATCH_WINDOW_BEFORE
        };
        let end: usize = match target.checked_add(PATCH_WINDOW_AFTER) {
            Some(end) => end,
            None => usize::MAX,
        };
        if start <= rip && rip < end {
            proof {
                assert(in_window(rip, targets@[i as int]));
            }
            return true;
        }
        proof {
            assert(!in_window(rip, targets@[i as int]));
        }
        i = i + 1;
    }
    false
}

/// Returns start and size of the code whose cached instructions are discarded
/// after a target was patched.
pub fn flush_window(target: usize) -> (window: (usize, usize))
    ensures
        window.0 == window_start(target),
        window.1 == 96,
        window.0 <= target,
        target >= 32 ==> window.0 + 32 == target,
        target < 32 ==> window.0 == 0,
{
    let start: usize = if target < PATCH_WINDOW_BEFORE {
        0
    } else {
        target - PATCH_WINDOW_BEFORE
    };
    (start, PATCH_WINDOW_BEFORE + PATCH_WINDOW_AFTER)
}

/// Returns whether a listed thread is another thread of this process.
pub fn suspends_thread(owner: u32, thread: u32, process: u32, current_thread: u32) -> (suspends: bool)
    ensures
        suspends == (owner == process && thread != current_thread),
        suspends ==> thread != current_thread,
        suspends ==> owner == process,
        !suspends && owner == process ==> thread == current_thread,
{
    owner == process && thread != current_thread
}

/// Judges where a suspended thread stands.
pub fn judge_thread(instruction_pointer: Result<usize, u32>, targets: &[usize]) -> (result: Result<
    (),
    QuiescenceError,
>)
    ensures
        match instruction_pointer {
            Err(code) => result == Err::<(), QuiescenceError>(QuiescenceError::ThreadContext(code)),
            Ok(rip) => match result {
                Ok(_) => forall|i: int|
                    0 <= i < targets@.len() ==> !#[trigger] in_window(rip, targets@[i]),
                Err(error) => {
                    &&& error == QuiescenceError::TargetBusy
                    &&& exists|i: int|
                        0 <= i < targets@.len() && #[trigger] in_window(rip, targets@[i])
                },
            },
        },
{
    match instruction_pointer {
        Err(code) => Err(QuiescenceError::ThreadContext(code)),
        Ok(rip) => {
            if rip_in_patch_window(rip, targets) {
                Err(QuiescenceError::TargetBusy)
            } else {
                Ok(())
            }
        },
    }
}

/// Judges how the list of threads ended.
pub fn enumeration_ended(error: u32) -> (result: Result<(), QuiescenceError>)
    ensures
        match result {
            Ok(_) => error == ERROR_NO_MORE_FILES,
            Err(failure) => error != ERROR_NO_MORE_FILES && failure == QuiescenceError::Enumeration,
        },
        result is Ok <==> error == 18,
{
    if error != ERROR_NO_MORE_FILES {
        return Err(QuiescenceError::Enumeration);
    }
    Ok(())
}

/// What follows an attempt.
#[derive(Clone, Copy, Debug, PartialEq, Eq, Structural)]
pub enum AfterAttempt {
    /// Every other thread is suspended.
    Acquired,
    /// Another attempt is made.
    Retry,
    /// No other attempt is made.
    GiveUp(QuiescenceError),
}

/// The attempts at quiescing the process.
#[derive(Clone, Copy, Debug, PartialEq, Eq, Structural)]
pub struct Attempts {
    made: usize,
}

impl Attempts {
    /// Attempts made so far.
    pub closed spec fn count(self) -> int {
        self.made as int
    }

    /// Starts with no attempt made.
    pub fn begin() -> (attempts: Self)
        ensures
            attempts.count() == 0,
    {
        Self { made: 0 }
    }

    /// Takes the outcome of one attempt. The last error is the one that is
    /// reported.
    pub fn after(&mut self, outcome: Result<(), QuiescenceError>) -> (step: AfterAttempt)
        requires
            old(self).count() < QUIESCENCE_ATTEMPTS,
        ensures
            final(self).count() == old(self).count() + 1,
            step == (match outcome {
                Ok(_) => AfterAttempt::Acquired,
                Err(error) => if old(self).count() + 1 < QUIESCENCE_ATTEMPTS {
                    AfterAttempt::Retry
                } else {
                    AfterAttempt::GiveUp(error)
                },
            }),
            step is Acquired <==> outcome is Ok,
            step is GiveUp <==> outcome is Err && final(self).count() == 8,
            step matches AfterAttempt::GiveUp(error) ==> outcome == Err::<(), QuiescenceError>(
                error,
            ),
    {
        self.made = self.made + 1;
        match outcome {
            Ok(_) => AfterAttempt::Acquired,
            Err(error) => {
                if self.made < QUIESCENCE_ATTEMPTS {
                    AfterAttempt::Retry
                } else {
                    AfterAttempt::GiveUp(error)
                }
            },
        }
    }
}

/// What follows an attempt at resuming a thread.
#[derive(Clone, Copy, Debug, PartialEq, Eq, Structural)]
pub enum AfterResume {
    /// The thread runs again, or has ended.
    Done,
    /// Another attempt is made.
    Retry,
    /// The process cannot go on with the thread suspended.
    Abort,
}

/// Decides what follows one of the attempts at resuming a thread: how the call
/// ended, and whether the thread has ended.
pub fn after_resume(attempt: usize, previous_count: u32, thread_ended: bool) -> (step: AfterResume)
    requires
        attempt < RESUME_ATTEMPTS,
    ensures
        step == (if previous_count != API_FAILURE || thread_ended {
            AfterResume::Done
        } else if attempt + 1 < RESUME_ATTEMPTS {
            AfterResume::Retry
        } else {
            AfterResume::Abort
        }),
        step is Abort ==> attempt == 63 && previous_count == 0xffff_ffff && !thread_ended,
        step is Retry ==> attempt < 63 && previous_count == 0xffff_ffff && !thread_ended,
        thread_ended ==> step is Done,
{
    if previous_count != API_FAILURE || thread_ended {
        AfterResume::Done
    } else if attempt + 1 < RESUME_ATTEMPTS {
        AfterResume::Retry
    } else {
        AfterResume::Abort
    }
}

/// A target always lies in its own patch window, and the window neither wraps
/// around nor exceeds its size. The one exception is the last address, which
/// no window can hold.
pub proof fn law_patch_window_is_bounded(target: usize, address: usize)
    ensures
        target < usize::MAX ==> in_window(target, target),
        in_window(address, target) ==> address + PATCH_WINDOW_BEFORE >= target && address < target
            + PATCH_WINDOW_AFTER,
        window_end(target) - window_start(target) <= 96,
{
}

/// A thread within 32 bytes before a target or less than 64 bytes after it is
/// in its window, and no other.
pub proof fn law_a_window_reaches_around_its_target(address: usize, target: usize)
    requires
        address < usize::MAX,
    ensures
        in_window(address, target) <==> -32 <= address - target < 64,
{
}

/// A target moved away from both ends of the address space takes its window
/// with it.
pub proof fn law_a_window_moves_with_its_target(
    address: usize,
    target: usize,
    moved_address: usize,
    moved_target: usize,
)
    requires
        moved_address - moved_target == address - target,
        address < usize::MAX,
        moved_address < usize::MAX,
    ensures
        in_window(moved_address, moved_target) == in_window(address, target),
{
}

} // verus!
