//! MinHook-compatible status codes.
use vstd::prelude::*;

verus! {

/// A status code.
pub type MinHookStatus = i32;

/// Unknown error.
pub const MH_UNKNOWN: MinHookStatus = -1;

/// Success.
pub const MH_OK: MinHookStatus = 0;

/// The service is already initialized.
pub const MH_ERROR_ALREADY_INITIALIZED: MinHookStatus = 1;

/// The service is not initialized.
pub const MH_ERROR_NOT_INITIALIZED: MinHookStatus = 2;

/// The target already has a hook.
pub const MH_ERROR_ALREADY_CREATED: MinHookStatus = 3;

/// The target has no hook.
pub const MH_ERROR_NOT_CREATED: MinHookStatus = 4;

/// The hook is already enabled.
pub const MH_ERROR_ENABLED: MinHookStatus = 5;

/// The hook is already disabled.
pub const MH_ERROR_DISABLED: MinHookStatus = 6;

/// An address is not executable.
pub const MH_ERROR_NOT_EXECUTABLE: MinHookStatus = 7;

/// The target cannot be hooked.
pub const MH_ERROR_UNSUPPORTED_FUNCTION: MinHookStatus = 8;

/// Memory could not be allocated.
pub const MH_ERROR_MEMORY_ALLOC: MinHookStatus = 9;

/// Memory protection could not be changed.
pub const MH_ERROR_MEMORY_PROTECT: MinHookStatus = 10;

/// The module is not loaded.
pub const MH_ERROR_MODULE_NOT_FOUND: MinHookStatus = 11;

/// The function does not exist.
pub const MH_ERROR_FUNCTION_NOT_FOUND: MinHookStatus = 12;

/// Why the detour library refused a request.
#[derive(Clone, Copy, Debug, PartialEq, Eq, Structural)]
pub enum DetourError {
    /// Target and detour are the same.
    SameAddress,
    /// The target holds no valid code.
    InvalidCode,
    /// There is no room for the patch.
    NoPatchArea,
    /// An address is not executable.
    NotExecutable,
    /// The detour is not initialized.
    NotInitialized,
    /// The detour is already initialized.
    AlreadyInitialized,
    /// Memory could not be allocated.
    OutOfMemory,
    /// The target holds an instruction that cannot be moved.
    UnsupportedInstruction,
    /// Memory protection could not be changed.
    RegionFailure,
}

/// The status of a failed creation.
pub open spec fn create_status(error: DetourError) -> MinHookStatus {
    match error {
        DetourError::NotExecutable => MH_ERROR_NOT_EXECUTABLE,
        DetourError::OutOfMemory => MH_ERROR_MEMORY_ALLOC,
        DetourError::RegionFailure => MH_ERROR_MEMORY_PROTECT,
        DetourError::AlreadyInitialized => MH_ERROR_ALREADY_CREATED,
        DetourError::NotInitialized => MH_ERROR_NOT_CREATED,
        _ => MH_ERROR_UNSUPPORTED_FUNCTION,
    }
}

/// Returns the status of a failed creation.
pub fn map_create_error(error: DetourError) -> (status: MinHookStatus)
    ensures
        status == create_status(error),
{
    match error {
        DetourError::NotExecutable => MH_ERROR_NOT_EXECUTABLE,
        DetourError::OutOfMemory => MH_ERROR_MEMORY_ALLOC,
        DetourError::RegionFailure => MH_ERROR_MEMORY_PROTECT,
        DetourError::AlreadyInitialized => MH_ERROR_ALREADY_CREATED,
        DetourError::NotInitialized => MH_ERROR_NOT_CREATED,
        DetourError::SameAddress
        | DetourError::InvalidCode
        | DetourError::NoPatchArea
        | DetourError::UnsupportedInstruction => MH_ERROR_UNSUPPORTED_FUNCTION,
    }
}

/// The status of a failed change.
pub open spec fn toggle_status(error: DetourError) -> MinHookStatus {
    match error {
        DetourError::RegionFailure => MH_ERROR_MEMORY_PROTECT,
        DetourError::OutOfMemory => MH_ERROR_MEMORY_ALLOC,
        DetourError::NotInitialized => MH_ERROR_NOT_CREATED,
        DetourError::AlreadyInitialized => MH_ERROR_ENABLED,
        DetourError::NotExecutable => MH_ERROR_NOT_EXECUTABLE,
        _ => MH_ERROR_UNSUPPORTED_FUNCTION,
    }
}

/// Returns the status of a failed change.
pub fn map_toggle_error(error: DetourError) -> (status: MinHookStatus)
    ensures
        status == toggle_status(error),
{
    match error {
        DetourError::RegionFailure => MH_ERROR_MEMORY_PROTECT,
        DetourError::OutOfMemory => MH_ERROR_MEMORY_ALLOC,
        DetourError::NotInitialized => MH_ERROR_NOT_CREATED,
        DetourError::AlreadyInitialized => MH_ERROR_ENABLED,
        DetourError::NotExecutable => MH_ERROR_NOT_EXECUTABLE,
        DetourError::SameAddress
        | DetourError::InvalidCode
        | DetourError::NoPatchArea
        | DetourError::UnsupportedInstruction => MH_ERROR_UNSUPPORTED_FUNCTION,
    }
}

/// A failure of the detour library is never reported as success.
pub proof fn law_failures_are_never_reported_as_success(error: DetourError)
    ensures
        create_status(error) != MH_OK,
        toggle_status(error) != MH_OK,
{
}

/// Each failure to create a hook has the number under which MinHook's callers
/// know it.
pub proof fn law_create_failures_have_their_numbers(error: DetourError)
    ensures
        create_status(error) == 3 <==> error is AlreadyInitialized,
        create_status(error) == 4 <==> error is NotInitialized,
        create_status(error) == 7 <==> error is NotExecutable,
        create_status(error) == 9 <==> error is OutOfMemory,
        create_status(error) == 10 <==> error is RegionFailure,
        create_status(error) == 8 <==> (error is SameAddress || error is InvalidCode
            || error is NoPatchArea || error is UnsupportedInstruction),
{
}

/// Each failure to switch a hook has the number under which MinHook's callers
/// know it.
pub proof fn law_toggle_failures_have_their_numbers(error: DetourError)
    ensures
        toggle_status(error) == 5 <==> error is AlreadyInitialized,
        toggle_status(error) == 4 <==> error is NotInitialized,
        toggle_status(error) == 7 <==> error is NotExecutable,
        toggle_status(error) == 9 <==> error is OutOfMemory,
        toggle_status(error) == 10 <==> error is RegionFailure,
        toggle_status(error) == 8 <==> (error is SameAddress || error is InvalidCode
            || error is NoPatchArea || error is UnsupportedInstruction),
{
}

/// Creating and switching name a failure alike, but for code that is patched
/// already.
pub proof fn law_creating_and_switching_differ_on_patched_code(error: DetourError)
    ensures
        create_status(error) == toggle_status(error) <==> !(error is AlreadyInitialized),
{
}

} // verus!
