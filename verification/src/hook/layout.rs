//! Interface layouts and named methods.
use vstd::prelude::*;

verus! {

/// Describes the complete vtable visible through one COM interface pointer.
///
/// `SLOT_COUNT` is the exact number of readable function-pointer entries of
/// the interface. Entries zero through two are `IUnknown::QueryInterface`,
/// `AddRef` and `Release`.
pub trait ComInterfaceLayout: Sized {
    /// Human-readable interface name used in diagnostics.
    const NAME: &'static str;

    /// Number of function-pointer entries in the interface vtable.
    const SLOT_COUNT: usize;
}

/// Connects a named COM method to its interface layout and slot.
pub trait ComMethod<L: ComInterfaceLayout>: Sized {
    /// Zero-based vtable index.
    const INDEX: usize;

    /// Human-readable qualified method name used in diagnostics.
    const NAME: &'static str;

    /// Size of the function-pointer type stored in the method's vtable entry.
    const FUNCTION_BYTES: usize;
}

/// Typed marker for `IUnknown::QueryInterface`.
pub struct QueryInterface;

/// Typed marker for `IUnknown::AddRef`.
pub struct AddRef;

/// Typed marker for `IUnknown::Release`.
pub struct Release;

impl<L: ComInterfaceLayout> ComMethod<L> for QueryInterface {
    const INDEX: usize = 0;

    const NAME: &'static str = "IUnknown::QueryInterface";

    const FUNCTION_BYTES: usize = 8;
}

impl<L: ComInterfaceLayout> ComMethod<L> for AddRef {
    const INDEX: usize = 1;

    const NAME: &'static str = "IUnknown::AddRef";

    const FUNCTION_BYTES: usize = 8;
}

impl<L: ComInterfaceLayout> ComMethod<L> for Release {
    const INDEX: usize = 2;

    const NAME: &'static str = "IUnknown::Release";

    const FUNCTION_BYTES: usize = 8;
}

/// Every layout starts with the methods of `IUnknown`.
pub proof fn law_every_layout_starts_with_iunknown<L: ComInterfaceLayout>()
    ensures
        <QueryInterface as ComMethod<L>>::INDEX == 0,
        <QueryInterface as ComMethod<L>>::FUNCTION_BYTES == 8,
        <AddRef as ComMethod<L>>::INDEX == 1,
        <AddRef as ComMethod<L>>::FUNCTION_BYTES == 8,
        <Release as ComMethod<L>>::INDEX == 2,
        <Release as ComMethod<L>>::FUNCTION_BYTES == 8,
{
}

} // verus!
