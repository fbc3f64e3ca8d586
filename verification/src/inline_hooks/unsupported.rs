//! A deterministic service for targets without inline hooks.
use vstd::prelude::*;
use crate::host::lifecycle::OwnerToken;
use crate::inline_hooks::report::{CleanupError, CleanupFailure, CleanupReport};
use crate::inline_hooks::status::{
    MinHookStatus, MH_ERROR_NOT_CREATED, MH_ERROR_UNSUPPORTED_FUNCTION,
};

verus! {

/// A deterministic unsupported implementation.
#[derive(Clone, Copy, Debug, PartialEq, Eq)]
pub struct InlineHookService {}

impl InlineHookService {
    /// Creates an unsupported service value.
    pub fn new() -> (service: Self)
        ensures
            service == (InlineHookService {  }),
    {
        Self {  }
    }

    /// Reports that inline hooks are unsupported on this target.
    pub fn initialize(&self) -> (status: MinHookStatus)
        ensures
            status == MH_ERROR_UNSUPPORTED_FUNCTION,
    {
        MH_ERROR_UNSUPPORTED_FUNCTION
    }

    /// Reports that inline hooks are unsupported on this target.
    pub fn uninitialize(&self) -> (status: MinHookStatus)
        ensures
            status == MH_ERROR_UNSUPPORTED_FUNCTION,
    {
        MH_ERROR_UNSUPPORTED_FUNCTION
    }

    /// Reports that create preflight is unsupported on this target.
    pub fn preflight_create(&self, target: usize, detour: usize) -> (status: MinHookStatus)
        ensures
            status == MH_ERROR_UNSUPPORTED_FUNCTION,
    {
        MH_ERROR_UNSUPPORTED_FUNCTION
    }

    /// Reports that remove preflight is unsupported on this target.
    pub fn preflight_remove(&self, target: usize) -> (status: MinHookStatus)
        ensures
            status == MH_ERROR_UNSUPPORTED_FUNCTION,
    {
        MH_ERROR_UNSUPPORTED_FUNCTION
    }

    /// Reports that enable/disable preflight is unsupported on this target.
    pub fn preflight_change(&self) -> (status: MinHookStatus)
        ensures
            status == MH_ERROR_UNSUPPORTED_FUNCTION,
    {
        MH_ERROR_UNSUPPORTED_FUNCTION
    }

    /// Reports that inline hooks are unsupported on this target. No trampoline
    /// is handed out.
    pub fn create_hook(&self, owner: OwnerToken, target: usize, detour: usize) -> (created: Result<
        usize,
        MinHookStatus,
    >)
        ensures
            created == Err::<usize, MinHookStatus>(MH_ERROR_UNSUPPORTED_FUNCTION),
    {
        Err(MH_ERROR_UNSUPPORTED_FUNCTION)
    }

    /// Reports that transactional hook creation is unsupported on this target.
    /// `publish` is never invoked.
    pub fn create_hook_transaction<F: FnOnce(usize) -> MinHookStatus>(
        &self,
        owner: OwnerToken,
        target: usize,
        detour: usize,
        publish: F,
    ) -> (status: MinHookStatus)
        ensures
            status == MH_ERROR_UNSUPPORTED_FUNCTION,
    {
        MH_ERROR_UNSUPPORTED_FUNCTION
    }

    /// Reports that inline hooks are unsupported on this target.
    pub fn remove_hook(&self, target: usize) -> (status: MinHookStatus)
        ensures
            status == MH_ERROR_UNSUPPORTED_FUNCTION,
    {
        MH_ERROR_UNSUPPORTED_FUNCTION
    }

    /// Rejects a null target and otherwise reports owner-scoped hooks unsupported.
    pub fn remove_owned_hook(&self, owner: OwnerToken, target: usize) -> (status: MinHookStatus)
        ensures
            status == (if target == 0 {
                MH_ERROR_NOT_CREATED
            } else {
                MH_ERROR_UNSUPPORTED_FUNCTION
            }),
    {
        if target == 0 {
            MH_ERROR_NOT_CREATED
        } else {
            MH_ERROR_UNSUPPORTED_FUNCTION
        }
    }

    /// Reports that inline hooks are unsupported on this target.
    pub fn enable_hook(&self, target: usize) -> (status: MinHookStatus)
        ensures
            status == MH_ERROR_UNSUPPORTED_FUNCTION,
    {
        MH_ERROR_UNSUPPORTED_FUNCTION
    }

    /// Reports that inline hooks are unsupported on this target.
    pub fn disable_hook(&self, target: usize) -> (status: MinHookStatus)
        ensures
            status == MH_ERROR_UNSUPPORTED_FUNCTION,
    {
        MH_ERROR_UNSUPPORTED_FUNCTION
    }

    /// Reports that owner-scoped inline hooks are unsupported on this target.
    pub fn enable_owned_hook(&self, owner: OwnerToken, target: usize) -> (status: MinHookStatus)
        ensures
            status == MH_ERROR_UNSUPPORTED_FUNCTION,
    {
        MH_ERROR_UNSUPPORTED_FUNCTION
    }

    /// Reports that owner-scoped inline hooks are unsupported on this target.
    pub fn disable_owned_hook(&self, owner: OwnerToken, target: usize) -> (status: MinHookStatus)
        ensures
            status == MH_ERROR_UNSUPPORTED_FUNCTION,
    {
        MH_ERROR_UNSUPPORTED_FUNCTION
    }

    /// Reports deterministic unsupported cleanup without exposing addresses.
    pub fn cleanup_owner(&self, owner: OwnerToken) -> (result: Result<CleanupReport, CleanupError>)
        ensures
            result matches Err(error) && error.content() == (CleanupFailure {
                owner,
                status: MH_ERROR_UNSUPPORTED_FUNCTION,
                retired: 0,
                remaining: 0,
            }),
    {
        Err(CleanupError::new(owner, MH_ERROR_UNSUPPORTED_FUNCTION, 0, 0))
    }

    /// Returns zero because hooks cannot be registered on this target.
    pub fn hook_count(&self) -> (count: usize)
        ensures
            count == 0,
    {
        0
    }

    /// Returns zero because hooks cannot be registered on this target.
    pub fn owned_hook_count(&self, owner: OwnerToken) -> (count: usize)
        ensures
            count == 0,
    {
        0
    }
}

} // verus!
