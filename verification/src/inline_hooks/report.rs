//! Results of cleaning up the hooks of one add-on generation.
use vstd::prelude::*;
use crate::host::lifecycle::OwnerToken;
use crate::inline_hooks::status::MinHookStatus;
use crate::text::{decimal, signed_decimal, Message};

verus! {

/// Proof that all hooks registered by one exact add-on generation were retired.
#[derive(Clone, Copy, Debug, PartialEq, Eq, Structural)]
pub struct CleanupReport {
    owner: OwnerToken,
    retired: usize,
}

impl CleanupReport {
    /// Generation and number of retired hooks.
    pub closed spec fn content(self) -> (OwnerToken, usize) {
        (self.owner, self.retired)
    }

    pub(crate) fn new(owner: OwnerToken, retired: usize) -> (report: Self)
        ensures
            report.content() == (owner, retired),
    {
        Self { owner, retired }
    }

    /// Returns the exact add-on generation that was cleaned.
    pub fn owner(self) -> (owner: OwnerToken)
        ensures
            owner == self.content().0,
    {
        self.owner
    }

    /// Returns how many hooks were retired.
    pub fn retired(self) -> (retired: usize)
        ensures
            retired == self.content().1,
    {
        self.retired
    }

    /// Returns the number of matching hooks left registered after success.
    pub fn remaining(self) -> (remaining: usize)
        ensures
            remaining == 0,
    {
        0
    }
}

/// What a failed cleanup holds.
pub struct CleanupFailure {
    /// Generation.
    pub owner: OwnerToken,
    /// Status that stopped the cleanup.
    pub status: MinHookStatus,
    /// Retired hooks.
    pub retired: usize,
    /// Hooks that remain.
    pub remaining: usize,
}

/// A redacted owner-cleanup failure that never exposes hook addresses.
#[derive(Clone, Copy, Debug, PartialEq, Eq, Structural)]
pub struct CleanupError {
    owner: OwnerToken,
    status: MinHookStatus,
    retired: usize,
    remaining: usize,
}

impl CleanupError {
    /// What the failure holds.
    pub closed spec fn content(self) -> CleanupFailure {
        CleanupFailure {
            owner: self.owner,
            status: self.status,
            retired: self.retired,
            remaining: self.remaining,
        }
    }

    pub(crate) fn new(
        owner: OwnerToken,
        status: MinHookStatus,
        retired: usize,
        remaining: usize,
    ) -> (error: Self)
        ensures
            error.content() == (CleanupFailure { owner, status, retired, remaining }),
    {
        Self { owner, status, retired, remaining }
    }

    /// Returns the exact add-on generation whose cleanup failed.
    pub fn owner(self) -> (owner: OwnerToken)
        ensures
            owner == self.content().owner,
    {
        self.owner
    }

    /// Returns the compatible MinHook status that caused cleanup to stop.
    pub fn status(self) -> (status: MinHookStatus)
        ensures
            status == self.content().status,
    {
        self.status
    }

    /// Returns how many matching hooks were retired before the failure.
    pub fn retired(self) -> (retired: usize)
        ensures
            retired == self.content().retired,
    {
        self.retired
    }

    /// Returns how many hooks for the exact generation remain retryable.
    pub fn remaining(self) -> (remaining: usize)
        ensures
            remaining == self.content().remaining,
    {
        self.remaining
    }

    /// Formats the failure for diagnostics.
    pub fn to_string(&self) -> (text: String)
        ensures
            text@ == "inline-hook cleanup failed with status "@ + signed_decimal(
                self.content().status as int,
            ) + "; "@ + decimal(self.content().remaining as nat) + " hook(s) remain"@,
    {
        let mut message = Message::new();
        message.text("inline-hook cleanup failed with status ");
        message.signed(self.status);
        message.text("; ");
        message.number(self.remaining as u64);
        message.text(" hook(s) remain");
        proof {
            assert(message@ =~= "inline-hook cleanup failed with status "@ + signed_decimal(
                self.content().status as int,
            ) + "; "@ + decimal(self.content().remaining as nat) + " hook(s) remain"@);
        }
        message.finish()
    }
}

} // verus!
