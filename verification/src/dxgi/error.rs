//! Failures to attach or control DXGI objects.
use vstd::prelude::*;
use crate::hook::error::VtableError;
use crate::text::{owned, Message};

verus! {

/// Failure to attach or control a concrete DXGI object.
#[derive(Clone, Copy, Debug, PartialEq, Eq)]
pub enum DxgiError {
    /// The caller supplied a null COM interface pointer.
    NullInterface,
    /// The supplied IID is not one of the supported factory or swap-chain interfaces.
    UnsupportedInterface,
    /// Shutdown already stopped admission of new native objects.
    ManagerClosed,
    /// A different interception manager already owns this concrete interface.
    HookConflict,
    /// Preparing, publishing, or restoring a typed shadow vtable failed.
    Vtable(VtableError),
}

impl DxgiError {
    /// The text of the failure.
    pub open spec fn text(self) -> Seq<char> {
        match self {
            DxgiError::NullInterface => "null DXGI interface"@,
            DxgiError::UnsupportedInterface => "unsupported DXGI interface"@,
            DxgiError::ManagerClosed => "DXGI interception manager is closed"@,
            DxgiError::HookConflict => "DXGI interface is owned by another hook manager"@,
            DxgiError::Vtable(error) => "DXGI vtable interception failed: "@ + error.text(),
        }
    }

    /// Returns the text of the failure.
    pub fn to_string(&self) -> (text: String)
        ensures
            text@ == self.text(),
    {
        match self {
            DxgiError::NullInterface => owned("null DXGI interface"),
            DxgiError::UnsupportedInterface => owned("unsupported DXGI interface"),
            DxgiError::ManagerClosed => owned("DXGI interception manager is closed"),
            DxgiError::HookConflict => owned("DXGI interface is owned by another hook manager"),
            DxgiError::Vtable(error) => {
                let mut message = Message::new();
                message.text("DXGI vtable interception failed: ");
                let detail = error.to_string();
                message.text(detail.as_str());
                assert(message@ =~= self.text());
                message.finish()
            },
        }
    }
}

impl From<VtableError> for DxgiError {
    fn from(error: VtableError) -> (failure: Self) {
        DxgiError::Vtable(error)
    }
}

impl vstd::std_specs::convert::FromSpecImpl<VtableError> for DxgiError {
    open spec fn obeys_from_spec() -> bool {
        true
    }

    open spec fn from_spec(error: VtableError) -> DxgiError {
        DxgiError::Vtable(error)
    }
}

} // verus!
