//! Failures of vtable shadowing.
use vstd::prelude::*;
use crate::text::{decimal, owned, Message};

verus! {

/// Failure while preparing, installing, accessing, or restoring a shadow vtable.
#[derive(Clone, Copy, Debug, PartialEq, Eq)]
pub enum VtableError {
    /// The supplied COM interface pointer was null.
    NullInterface,
    /// The declared layout cannot describe a COM interface.
    InvalidLayout {
        /// Human-readable interface layout name.
        layout: &'static str,
        /// Number of entries declared by the layout.
        slot_count: usize,
    },
    /// The interface pointer does not have pointer alignment.
    MisalignedInterface {
        /// Human-readable interface layout name.
        layout: &'static str,
    },
    /// The interface contained a null vtable pointer.
    NullVtable {
        /// Human-readable interface layout name.
        layout: &'static str,
    },
    /// The interface contained a vtable pointer without pointer alignment.
    MisalignedVtable {
        /// Human-readable interface layout name.
        layout: &'static str,
    },
    /// A required vtable entry was null.
    NullEntry {
        /// Human-readable interface layout name.
        layout: &'static str,
        /// Zero-based entry index.
        index: usize,
    },
    /// A typed method refers past the declared layout.
    SlotOutOfBounds {
        /// Human-readable interface layout name.
        layout: &'static str,
        /// Human-readable method name.
        method: &'static str,
        /// Zero-based method index.
        index: usize,
        /// Number of entries declared by the layout.
        slot_count: usize,
    },
    /// A method type is not represented by exactly one pointer.
    InvalidMethodRepresentation {
        /// Human-readable method name.
        method: &'static str,
        /// Size of the method type in bytes.
        actual_size: usize,
    },
    /// A replacement method encoded as a null pointer.
    NullReplacement {
        /// Human-readable method name.
        method: &'static str,
    },
    /// The object no longer used the vtable from which the shadow was prepared.
    VtableChanged {
        /// Human-readable interface layout name.
        layout: &'static str,
    },
    /// Another component replaced the installed shadow before restoration.
    VtableDisplaced {
        /// Human-readable interface layout name.
        layout: &'static str,
    },
}

impl VtableError {
    /// The text of the failure.
    pub open spec fn text(self) -> Seq<char> {
        match self {
            VtableError::NullInterface => "the COM interface pointer is null"@,
            VtableError::InvalidLayout { layout, slot_count } => layout@ + " declares an invalid "@
                + decimal(slot_count as nat) + "-entry vtable"@,
            VtableError::MisalignedInterface { layout } => "the "@ + layout@
                + " interface pointer is misaligned"@,
            VtableError::NullVtable { layout } => "the "@ + layout@
                + " interface has a null vtable"@,
            VtableError::MisalignedVtable { layout } => "the "@ + layout@
                + " vtable pointer is misaligned"@,
            VtableError::NullEntry { layout, index } => layout@ + " vtable entry "@ + decimal(
                index as nat,
            ) + " is null"@,
            VtableError::SlotOutOfBounds { layout, method, index, slot_count } => method@
                + " uses slot "@ + decimal(index as nat) + ", outside the "@ + decimal(
                slot_count as nat,
            ) + "-entry "@ + layout@ + " vtable"@,
            VtableError::InvalidMethodRepresentation { method, actual_size } => method@ + " has a "@
                + decimal(actual_size as nat) + "-byte representation instead of one pointer"@,
            VtableError::NullReplacement { method } => "the replacement for "@ + method@
                + " is null"@,
            VtableError::VtableChanged { layout } => "the "@ + layout@
                + " vtable changed before installation"@,
            VtableError::VtableDisplaced { layout } => "the installed "@ + layout@
                + " shadow was displaced"@,
        }
    }

    /// Returns the text of the failure.
    pub fn to_string(&self) -> (text: String)
        ensures
            text@ == self.text(),
    {
        let mut message = Message::new();
        match self {
            VtableError::NullInterface => {
                return owned("the COM interface pointer is null");
            },
            VtableError::InvalidLayout { layout, slot_count } => {
                message.text(layout);
                message.text(" declares an invalid ");
                message.number(*slot_count as u64);
                message.text("-entry vtable");
            },
            VtableError::MisalignedInterface { layout } => {
                message.text("the ");
                message.text(layout);
                message.text(" interface pointer is misaligned");
            },
            VtableError::NullVtable { layout } => {
                message.text("the ");
                message.text(layout);
                message.text(" interface has a null vtable");
            },
            VtableError::MisalignedVtable { layout } => {
                message.text("the ");
                message.text(layout);
                message.text(" vtable pointer is misaligned");
            },
            VtableError::NullEntry { layout, index } => {
                message.text(layout);
                message.text(" vtable entry ");
                message.number(*index as u64);
                message.text(" is null");
            },
            VtableError::SlotOutOfBounds { layout, method, index, slot_count } => {
                message.text(method);
                message.text(" uses slot ");
                message.number(*index as u64);
                message.text(", outside the ");
                message.number(*slot_count as u64);
                message.text("-entry ");
                message.text(layout);
                message.text(" vtable");
            },
            VtableError::InvalidMethodRepresentation { method, actual_size } => {
                message.text(method);
                message.text(" has a ");
                message.number(*actual_size as u64);
                message.text("-byte representation instead of one pointer");
            },
            VtableError::NullReplacement { method } => {
                message.text("the replacement for ");
                message.text(method);
                message.text(" is null");
            },
            VtableError::VtableChanged { layout } => {
                message.text("the ");
                message.text(layout);
                message.text(" vtable changed before installation");
            },
            VtableError::VtableDisplaced { layout } => {
                message.text("the installed ");
                message.text(layout);
                message.text(" shadow was displaced");
            },
        }
        assert(message@ =~= self.text());
        message.finish()
    }
}

} // verus!
