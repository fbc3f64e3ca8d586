//! A prepared vtable copy, its publication and its restoration.
//!
//! The object's first word is exchanged natively. What the exchange found is
//! handed to [`VtableShadow::install`] and [`InstalledVtable::restore`], which
//! decide what it means.
use core::marker::PhantomData;
use vstd::prelude::*;
use crate::hook::error::VtableError;
use crate::hook::layout::{ComInterfaceLayout, ComMethod};

verus! {

/// Size and alignment of a vtable entry on the supported 64-bit target.
pub const POINTER_BYTES: usize = 8;

/// Largest size of one allocation on the supported 64-bit target.
pub const MAX_TABLE_BYTES: u64 = 0x7fff_ffff_ffff_ffff;

/// Whether a layout can describe a COM interface.
pub open spec fn valid_layout<L: ComInterfaceLayout>() -> bool {
    3 <= L::SLOT_COUNT && L::SLOT_COUNT * POINTER_BYTES <= MAX_TABLE_BYTES
}

/// Whether an address has pointer alignment.
pub open spec fn aligned(address: usize) -> bool {
    address as nat % POINTER_BYTES as nat == 0
}

/// What is wrong with an interface pointer, if anything.
pub open spec fn interface_failure<L: ComInterfaceLayout>(interface: usize) -> Option<VtableError> {
    if !valid_layout::<L>() {
        Some(VtableError::InvalidLayout { layout: L::NAME, slot_count: L::SLOT_COUNT })
    } else if interface == 0 {
        Some(VtableError::NullInterface)
    } else if !aligned(interface) {
        Some(VtableError::MisalignedInterface { layout: L::NAME })
    } else {
        None
    }
}

/// What is wrong with a vtable pointer, if anything.
pub open spec fn vtable_failure<L: ComInterfaceLayout>(vtable: usize) -> Option<VtableError> {
    if vtable == 0 {
        Some(VtableError::NullVtable { layout: L::NAME })
    } else if !aligned(vtable) {
        Some(VtableError::MisalignedVtable { layout: L::NAME })
    } else {
        None
    }
}

/// The position of the first null entry, if there is one.
pub open spec fn first_null(entries: Seq<usize>) -> Option<nat>
    decreases entries.len(),
{
    if entries.len() == 0 {
        None
    } else {
        match first_null(entries.drop_last()) {
            Some(index) => Some(index),
            None => if entries.last() == 0 {
                Some((entries.len() - 1) as nat)
            } else {
                None
            },
        }
    }
}

/// What keeps a vtable from being copied, if anything, in the order of the checks.
pub open spec fn copy_failure<L: ComInterfaceLayout>(
    interface: usize,
    vtable: usize,
    entries: Seq<usize>,
) -> Option<VtableError> {
    if interface_failure::<L>(interface) is Some {
        interface_failure::<L>(interface)
    } else if vtable_failure::<L>(vtable) is Some {
        vtable_failure::<L>(vtable)
    } else {
        match first_null(entries) {
            Some(index) => Some(VtableError::NullEntry { layout: L::NAME, index: index as usize }),
            None => None,
        }
    }
}

/// What is wrong with a named method of a layout, if anything.
pub open spec fn method_failure<L: ComInterfaceLayout, M: ComMethod<L>>() -> Option<VtableError> {
    if M::INDEX >= L::SLOT_COUNT {
        Some(
            VtableError::SlotOutOfBounds {
                layout: L::NAME,
                method: M::NAME,
                index: M::INDEX,
                slot_count: L::SLOT_COUNT,
            },
        )
    } else if M::FUNCTION_BYTES != POINTER_BYTES {
        Some(
            VtableError::InvalidMethodRepresentation {
                method: M::NAME,
                actual_size: M::FUNCTION_BYTES,
            },
        )
    } else {
        None
    }
}

/// Checks that a layout can describe a COM interface.
pub fn validate_layout<L: ComInterfaceLayout>() -> (result: Result<(), VtableError>)
    ensures
        result is Ok <==> valid_layout::<L>(),
        result matches Err(error) ==> error == (VtableError::InvalidLayout {
            layout: L::NAME,
            slot_count: L::SLOT_COUNT,
        }),
{
    let valid_size = match (L::SLOT_COUNT as u64).checked_mul(POINTER_BYTES as u64) {
        Some(bytes) => bytes <= MAX_TABLE_BYTES,
        None => false,
    };
    if L::SLOT_COUNT < 3 || !valid_size {
        return Err(VtableError::InvalidLayout { layout: L::NAME, slot_count: L::SLOT_COUNT });
    }
    Ok(())
}

/// Checks an interface pointer before its first word is read.
pub fn validate_interface<L: ComInterfaceLayout>(interface: usize) -> (result: Result<
    (),
    VtableError,
>)
    ensures
        result is Ok <==> interface_failure::<L>(interface) is None,
        result matches Err(error) ==> Some(error) == interface_failure::<L>(interface),
{
    if let Err(error) = validate_layout::<L>() {
        return Err(error);
    }
    if interface == 0 {
        return Err(VtableError::NullInterface);
    }
    if interface % POINTER_BYTES != 0 {
        return Err(VtableError::MisalignedInterface { layout: L::NAME });
    }
    Ok(())
}

/// Checks a vtable pointer before its entries are read.
pub fn validate_vtable<L: ComInterfaceLayout>(vtable: usize) -> (result: Result<(), VtableError>)
    ensures
        result is Ok <==> vtable_failure::<L>(vtable) is None,
        result matches Err(error) ==> Some(error) == vtable_failure::<L>(vtable),
{
    if vtable == 0 {
        return Err(VtableError::NullVtable { layout: L::NAME });
    }
    if vtable % POINTER_BYTES != 0 {
        return Err(VtableError::MisalignedVtable { layout: L::NAME });
    }
    Ok(())
}

/// Checks a named method and returns its slot.
pub fn validate_method<L: ComInterfaceLayout, M: ComMethod<L>>() -> (result: Result<
    usize,
    VtableError,
>)
    ensures
        result is Ok <==> method_failure::<L, M>() is None,
        result matches Ok(index) ==> index == M::INDEX,
        result matches Err(error) ==> Some(error) == method_failure::<L, M>(),
{
    if M::INDEX >= L::SLOT_COUNT {
        return Err(
            VtableError::SlotOutOfBounds {
                layout: L::NAME,
                method: M::NAME,
                index: M::INDEX,
                slot_count: L::SLOT_COUNT,
            },
        );
    }
    if M::FUNCTION_BYTES != POINTER_BYTES {
        return Err(
            VtableError::InvalidMethodRepresentation {
                method: M::NAME,
                actual_size: M::FUNCTION_BYTES,
            },
        );
    }
    Ok(M::INDEX)
}

/// Reports the first null entry of a table.
fn check_entries<L: ComInterfaceLayout>(entries: &[usize]) -> (result: Result<(), VtableError>)
    ensures
        result is Ok <==> first_null(entries@) is None,
        result is Ok ==> forall|i: int| 0 <= i < entries@.len() ==> entries@[i] != 0,
        result matches Err(error) ==> first_null(entries@) is Some && error == (
        VtableError::NullEntry { layout: L::NAME, index: first_null(entries@)->0 as usize }),
{
    let mut index: usize = 0;
    while index < entries.len()
        invariant
            index <= entries@.len(),
            first_null(entries@.subrange(0, index as int)) is None,
            forall|i: int| 0 <= i < index ==> entries@[i] != 0,
        decreases entries.len() - index,
    {
        let ghost checked = entries@.subrange(0, index as int);
        let ghost next = entries@.subrange(0, index + 1);
        assert(next.drop_last() =~= checked);
        if entries[index] == 0 {
            proof {
                assert(first_null(next) == Some(index as nat));
                lemma_first_null_is_kept(entries@, index + 1);
            }
            return Err(VtableError::NullEntry { layout: L::NAME, index });
        }
        index = index + 1;
    }
    assert(entries@.subrange(0, index as int) =~= entries@);
    Ok(())
}

/// A null entry found in a prefix is the first of the whole table.
proof fn lemma_first_null_is_kept(entries: Seq<usize>, length: int)
    requires
        0 <= length <= entries.len(),
        first_null(entries.subrange(0, length)) is Some,
    ensures
        first_null(entries) == first_null(entries.subrange(0, length)),
    decreases entries.len() - length,
{
    if length == entries.len() {
        assert(entries.subrange(0, length) =~= entries);
    } else {
        let next = entries.subrange(0, length + 1);
        assert(next.drop_last() =~= entries.subrange(0, length));
        lemma_first_null_is_kept(entries, length + 1);
    }
}

/// A prepared, owned vtable copy for one COM interface object.
///
/// Replacements can be configured while this value is detached. Calling
/// [`install`](Self::install) publishes the shadow and returns an
/// [`InstalledVtable`] guard.
pub struct VtableShadow<L: ComInterfaceLayout> {
    target: usize,
    original_vtable: usize,
    original_entries: Vec<usize>,
    shadow_entries: Vec<usize>,
    _layout: PhantomData<L>,
}

impl<L: ComInterfaceLayout> VtableShadow<L> {
    /// Address of the interface object.
    pub closed spec fn target(&self) -> usize {
        self.target
    }

    /// Address of the vtable that was copied.
    pub closed spec fn source(&self) -> usize {
        self.original_vtable
    }

    /// Entries as they were found.
    pub closed spec fn originals(&self) -> Seq<usize> {
        self.original_entries@
    }

    /// Entries as they will be published.
    pub closed spec fn prepared(&self) -> Seq<usize> {
        self.shadow_entries@
    }

    /// Both tables are complete and hold no null entry.
    pub open spec fn wf(&self) -> bool {
        &&& valid_layout::<L>()
        &&& self.target() != 0
        &&& self.source() != 0
        &&& self.originals().len() == L::SLOT_COUNT
        &&& self.prepared().len() == L::SLOT_COUNT
        &&& forall|i: int| 0 <= i < L::SLOT_COUNT ==> #[trigger] self.originals()[i] != 0
        &&& forall|i: int| 0 <= i < L::SLOT_COUNT ==> #[trigger] self.prepared()[i] != 0
    }

    /// Copies the complete vtable currently published by `interface`.
    ///
    /// `vtable` is the interface's first word and `entries` are the entries it
    /// points at. They are read natively once [`validate_interface`] and
    /// [`validate_vtable`] have accepted the addresses.
    pub fn copy_from(interface: usize, vtable: usize, entries: &[usize]) -> (result: Result<
        Self,
        VtableError,
    >)
        requires
            (interface_failure::<L>(interface) is None && vtable_failure::<L>(vtable) is None)
                ==> entries@.len() == L::SLOT_COUNT,
        ensures
            result is Ok <==> copy_failure::<L>(interface, vtable, entries@) is None,
            result matches Err(error) ==> Some(error) == copy_failure::<L>(
                interface,
                vtable,
                entries@,
            ),
            result matches Ok(shadow) ==> {
                &&& shadow.wf()
                &&& shadow.target() == interface
                &&& shadow.source() == vtable
                &&& shadow.originals() == entries@
                &&& shadow.prepared() == entries@
            },
    {
        if let Err(error) = validate_interface::<L>(interface) {
            return Err(error);
        }
        if let Err(error) = validate_vtable::<L>(vtable) {
            return Err(error);
        }
        if let Err(error) = check_entries::<L>(entries) {
            return Err(error);
        }
        let original_entries = vstd::slice::slice_to_vec(entries);
        let shadow_entries = vstd::slice::slice_to_vec(entries);
        Ok(
            Self {
                target: interface,
                original_vtable: vtable,
                original_entries,
                shadow_entries,
                _layout: PhantomData,
            },
        )
    }

    /// Returns the original function address of `M`.
    pub fn original<M: ComMethod<L>>(&self) -> (result: Result<usize, VtableError>)
        requires
            self.wf(),
        ensures
            result is Ok <==> method_failure::<L, M>() is None,
            result matches Ok(function) ==> function == self.originals()[M::INDEX as int]
                && function != 0,
            result matches Err(error) ==> Some(error) == method_failure::<L, M>(),
    {
        match validate_method::<L, M>() {
            Ok(index) => Ok(self.original_entries[index]),
            Err(error) => Err(error),
        }
    }

    /// Returns the function address currently prepared for `M`.
    pub fn published<M: ComMethod<L>>(&self) -> (result: Result<usize, VtableError>)
        requires
            self.wf(),
        ensures
            result is Ok <==> method_failure::<L, M>() is None,
            result matches Ok(function) ==> function == self.prepared()[M::INDEX as int]
                && function != 0,
            result matches Err(error) ==> Some(error) == method_failure::<L, M>(),
    {
        match validate_method::<L, M>() {
            Ok(index) => Ok(self.shadow_entries[index]),
            Err(error) => Err(error),
        }
    }

    /// Replaces `M` in the detached shadow and returns the previous function.
    pub fn replace<M: ComMethod<L>>(&mut self, replacement: usize) -> (result: Result<
        usize,
        VtableError,
    >)
        requires
            old(self).wf(),
        ensures
            final(self).wf(),
            final(self).target() == old(self).target(),
            final(self).source() == old(self).source(),
            final(self).originals() == old(self).originals(),
            result is Ok <==> method_failure::<L, M>() is None && replacement != 0,
            result matches Ok(previous) ==> {
                &&& previous == old(self).prepared()[M::INDEX as int]
                &&& final(self).prepared() == old(self).prepared().update(
                    M::INDEX as int,
                    replacement,
                )
            },
            result matches Err(error) ==> {
                &&& final(self).prepared() == old(self).prepared()
                &&& Some(error) == if method_failure::<L, M>() is Some {
                    method_failure::<L, M>()
                } else {
                    Some(VtableError::NullReplacement { method: M::NAME })
                }
            },
    {
        let index: usize = match validate_method::<L, M>() {
            Ok(index) => index,
            Err(error) => {
                return Err(error);
            },
        };
        let previous: usize = self.shadow_entries[index];
        if replacement == 0 {
            return Err(VtableError::NullReplacement { method: M::NAME });
        }
        self.shadow_entries[index] = replacement;
        Ok(previous)
    }

    /// Returns the interface object this per-instance shadow was copied from.
    pub fn interface(&self) -> (interface: usize)
        ensures
            interface == self.target(),
    {
        self.target
    }

    /// Returns the vtable pointer that the object must still hold for an installation.
    pub fn original_vtable(&self) -> (vtable: usize)
        ensures
            vtable == self.source(),
    {
        self.original_vtable
    }

    /// Returns a copy of the entries to publish.
    pub fn entries(&self) -> (entries: Vec<usize>)
        ensures
            entries@ == self.prepared(),
    {
        vstd::slice::slice_to_vec(self.shadow_entries.as_slice())
    }

    /// Completes the publication of the prepared shadow.
    ///
    /// Before this call the original `AddRef` was called once and the object's
    /// first word was compare-exchanged from the original vtable to the table
    /// at `shadow_table`. `observed` is the word that the exchange found. On
    /// failure the shadow was not published, and the reference that was added is
    /// released again.
    pub fn install(self, shadow_table: usize, observed: usize) -> (installation: Installation<L>)
        requires
            self.wf(),
        ensures
            installation.result is Ok <==> observed == self.source(),
            installation.release == install_releases(observed, self.source()),
            installation.result matches Err(error) ==> error == (VtableError::VtableChanged {
                layout: L::NAME,
            }),
            installation.result matches Ok(installed) ==> {
                &&& installed.wf()
                &&& installed.shadow() == self
                &&& installed.table() == shadow_table
                &&& installed.publication() == InstallState::Installed
            },
    {
        if observed != self.original_vtable {
            return Installation {
                result: Err(VtableError::VtableChanged { layout: L::NAME }),
                release: true,
            };
        }
        let installed = InstalledVtable {
            shadow: self,
            shadow_table,
            state: InstallState::Installed,
        };
        Installation { result: Ok(installed), release: false }
    }

    /// Returns the original `AddRef` and `Release` of the object.
    pub fn reference_methods(&self) -> (methods: (usize, usize))
        requires
            self.wf(),
        ensures
            methods.0 == self.originals()[1],
            methods.1 == self.originals()[2],
    {
        (self.original_entries[1], self.original_entries[2])
    }
}

/// Current publication state of an [`InstalledVtable`] guard.
#[derive(Clone, Copy, Debug, PartialEq, Eq, Structural)]
pub enum InstallState {
    /// The object's first word still points at the owned shadow.
    Installed,
    /// The original vtable has been restored.
    Restored,
    /// Another vtable replaced the shadow before restoration.
    Displaced,
}

/// Whether an installation gives the reference it added back, having found
/// `observed` in the object's first word: only if it is refused.
pub open spec fn install_releases(observed: usize, original: usize) -> bool {
    observed != original
}

/// What an installation decided.
pub struct Installation<L: ComInterfaceLayout> {
    /// The guard, or why the shadow was not published.
    pub result: Result<InstalledVtable<L>, VtableError>,
    /// Whether the extra COM reference is to be released now.
    pub release: bool,
}

/// The state after a restoration that found `observed` in the object's first word.
pub open spec fn restored_state(
    state: InstallState,
    observed: usize,
    original: usize,
    table: usize,
) -> InstallState {
    match state {
        InstallState::Installed => if observed == table || observed == original {
            InstallState::Restored
        } else {
            InstallState::Displaced
        },
        _ => state,
    }
}

/// What a restoration decided.
#[derive(Clone, Copy, Debug, PartialEq, Eq)]
pub struct Restoration {
    /// Result of the restoration.
    pub result: Result<(), VtableError>,
    /// Whether the guard's extra COM reference is to be released now.
    pub release: bool,
}

/// Guard for one installed, per-instance COM shadow vtable.
pub struct InstalledVtable<L: ComInterfaceLayout> {
    shadow: VtableShadow<L>,
    shadow_table: usize,
    state: InstallState,
}

impl<L: ComInterfaceLayout> InstalledVtable<L> {
    /// The shadow that was published.
    pub closed spec fn shadow(&self) -> VtableShadow<L> {
        self.shadow
    }

    /// Address of the published table.
    pub closed spec fn table(&self) -> usize {
        self.shadow_table
    }

    /// Publication state.
    pub closed spec fn publication(&self) -> InstallState {
        self.state
    }

    /// The shadow is complete.
    pub open spec fn wf(&self) -> bool {
        self.shadow().wf()
    }

    /// Returns the guard's publication state.
    pub fn state(&self) -> (state: InstallState)
        ensures
            state == self.publication(),
    {
        self.state
    }

    /// Returns the hooked COM interface pointer.
    pub fn interface(&self) -> (interface: usize)
        ensures
            interface == self.shadow().target(),
    {
        self.shadow.target
    }

    /// Returns the function from the original vtable copy.
    pub fn original<M: ComMethod<L>>(&self) -> (result: Result<usize, VtableError>)
        requires
            self.wf(),
        ensures
            result is Ok <==> method_failure::<L, M>() is None,
            result matches Ok(function) ==> function == self.shadow().originals()[M::INDEX as int],
            result matches Err(error) ==> Some(error) == method_failure::<L, M>(),
    {
        self.shadow.original::<M>()
    }

    /// Returns the function published by the shadow.
    pub fn published<M: ComMethod<L>>(&self) -> (result: Result<usize, VtableError>)
        requires
            self.wf(),
        ensures
            result is Ok <==> method_failure::<L, M>() is None,
            result matches Ok(function) ==> function == self.shadow().prepared()[M::INDEX as int],
            result matches Err(error) ==> Some(error) == method_failure::<L, M>(),
    {
        self.shadow.published::<M>()
    }

    /// Returns the words of the exchange that restores the object: the table it
    /// has to hold, and the vtable that is put back.
    pub fn exchange(&self) -> (words: (usize, usize))
        ensures
            words.0 == self.table(),
            words.1 == self.shadow().source(),
    {
        (self.shadow_table, self.shadow.original_vtable)
    }

    /// Completes a restoration without freeing the shadow storage.
    ///
    /// While the guard is installed, the object's first word was
    /// compare-exchanged from the shadow table to the original vtable before
    /// this call, and `observed` is the word that the exchange found. In the
    /// other states nothing is exchanged and `observed` means nothing. If
    /// another component displaced this shadow, its vtable is left untouched.
    /// The guard's extra COM reference is balanced exactly once in every outcome.
    pub fn restore(&mut self, observed: usize) -> (restoration: Restoration)
        requires
            old(self).wf(),
        ensures
            final(self).wf(),
            final(self).shadow() == old(self).shadow(),
            final(self).table() == old(self).table(),
            final(self).publication() == restored_state(
                old(self).publication(),
                observed,
                old(self).shadow().source(),
                old(self).table(),
            ),
            restoration.release == (old(self).publication() == InstallState::Installed),
            restoration.result == if final(self).publication() == InstallState::Displaced {
                Err::<(), VtableError>(VtableError::VtableDisplaced { layout: L::NAME })
            } else {
                Ok(())
            },
    {
        match self.state {
            InstallState::Restored => {
                return Restoration { result: Ok(()), release: false };
            },
            InstallState::Displaced => {
                return Restoration {
                    result: Err(VtableError::VtableDisplaced { layout: L::NAME }),
                    release: false,
                };
            },
            InstallState::Installed => {},
        }
        if observed == self.shadow_table || observed == self.shadow.original_vtable {
            self.state = InstallState::Restored;
            Restoration { result: Ok(()), release: true }
        } else {
            self.state = InstallState::Displaced;
            Restoration {
                result: Err(VtableError::VtableDisplaced { layout: L::NAME }),
                release: true,
            }
        }
    }
}

/// The word that an atomic compare-exchange leaves behind.
pub open spec fn exchanged(word: usize, expected: usize, desired: usize) -> usize {
    if word == expected {
        desired
    } else {
        word
    }
}

/// The exchange of an installation replaces the vtable that was copied, and
/// leaves any other vtable untouched.
pub proof fn law_install_never_overwrites_a_changed_vtable<L: ComInterfaceLayout>(
    shadow: VtableShadow<L>,
    shadow_table: usize,
    word: usize,
)
    requires
        shadow.wf(),
    ensures
        word != shadow.source() ==> exchanged(word, shadow.source(), shadow_table) == word,
        word == shadow.source() ==> exchanged(word, shadow.source(), shadow_table) == shadow_table,
{
}

/// Restoring an installed guard puts the original vtable back, unless another
/// component replaced the shadow, whose vtable then stays.
pub proof fn law_restore_gives_back_the_original<L: ComInterfaceLayout>(
    installed: InstalledVtable<L>,
    word: usize,
)
    requires
        installed.wf(),
        installed.publication() == InstallState::Installed,
    ensures
        ({
            let original = installed.shadow().source();
            let left = exchanged(word, installed.table(), original);
            let state = restored_state(
                installed.publication(),
                word,
                original,
                installed.table(),
            );
            &&& state == InstallState::Restored ==> left == original
            &&& state == InstallState::Displaced ==> left == word
            &&& state != InstallState::Installed
        }),
{
}

/// How often a guard in `state` releases its reference over further restorations.
pub open spec fn releases(
    state: InstallState,
    original: usize,
    table: usize,
    observations: Seq<usize>,
) -> nat
    decreases observations.len(),
{
    if observations.len() == 0 {
        0
    } else {
        let owed: nat = if state == InstallState::Installed {
            1
        } else {
            0
        };
        owed + releases(
            restored_state(state, observations[0], original, table),
            original,
            table,
            observations.drop_first(),
        )
    }
}

/// However often a guard is restored, and whatever each restoration finds, the
/// extra reference is released exactly once.
pub proof fn law_reference_is_released_exactly_once(
    original: usize,
    table: usize,
    observations: Seq<usize>,
)
    requires
        observations.len() > 0,
    ensures
        releases(InstallState::Installed, original, table, observations) == 1,
{
    let next = restored_state(InstallState::Installed, observations[0], original, table);
    lemma_settled_guard_releases_nothing(next, original, table, observations.drop_first());
}

/// How often the reference that an installation adds is released by the
/// installation, which found `found`, and by the restorations of its guard.
pub open spec fn releases_after_install(
    found: usize,
    original: usize,
    table: usize,
    observations: Seq<usize>,
) -> nat {
    if install_releases(found, original) {
        1
    } else {
        releases(InstallState::Installed, original, table, observations)
    }
}

/// The reference that an installation adds is balanced exactly once: at once if
/// the installation is refused, and by the guard otherwise.
pub proof fn law_install_balances_its_reference(
    found: usize,
    original: usize,
    table: usize,
    observations: Seq<usize>,
)
    requires
        observations.len() > 0,
    ensures
        releases_after_install(found, original, table, observations) == 1,
{
    law_reference_is_released_exactly_once(original, table, observations);
}

proof fn lemma_settled_guard_releases_nothing(
    state: InstallState,
    original: usize,
    table: usize,
    observations: Seq<usize>,
)
    requires
        state != InstallState::Installed,
    ensures
        releases(state, original, table, observations) == 0,
    decreases observations.len(),
{
    if observations.len() > 0 {
        lemma_settled_guard_releases_nothing(state, original, table, observations.drop_first());
    }
}

/// Once a guard is restored, restoring it again changes nothing and succeeds.
pub proof fn law_restoration_is_idempotent(
    observed: usize,
    again: usize,
    original: usize,
    table: usize,
)
    ensures
        ({
            let first = restored_state(InstallState::Installed, observed, original, table);
            restored_state(first, again, original, table) == first
        }),
{
}

/// The missing entry that is named is missing, and none before it is.
pub proof fn law_the_first_missing_entry_is_named(entries: Seq<usize>, i: int)
    ensures
        first_null(entries) matches Some(index) ==> index < entries.len() && entries[index as int]
            == 0 && (0 <= i < index ==> entries[i] != 0),
        first_null(entries) is None && 0 <= i < entries.len() ==> entries[i] != 0,
    decreases entries.len(),
{
    if entries.len() > 0 {
        law_the_first_missing_entry_is_named(entries.drop_last(), i);
    }
}

/// A published shadow counts as restored exactly where the object still had the
/// shadow or already had its original table, and as displaced otherwise; what
/// was settled before stays as it is.
pub proof fn law_a_settled_publication_stays(
    state: InstallState,
    observed: usize,
    original: usize,
    table: usize,
)
    ensures
        state is Installed ==> (restored_state(state, observed, original, table) is Restored <==>
            observed == table || observed == original),
        state is Installed ==> (restored_state(state, observed, original, table) is Displaced <==>
            observed != table && observed != original),
        !(state is Installed) ==> restored_state(state, observed, original, table) == state,
        install_releases(observed, original) <==> !(observed == original),
{
}

/// A table can be copied exactly where its layout is valid, its object and
/// itself exist on a pointer boundary, and no entry is missing.
pub proof fn law_tables_are_copied_when_sound<L: ComInterfaceLayout>(
    interface: usize,
    vtable: usize,
    entries: Seq<usize>,
)
    ensures
        copy_failure::<L>(interface, vtable, entries) is None <==> {
            &&& L::SLOT_COUNT >= 3
            &&& L::SLOT_COUNT * 8 <= 0x7fff_ffff_ffff_ffff
            &&& interface != 0 && interface as int % 8 == 0
            &&& vtable != 0 && vtable as int % 8 == 0
            &&& first_null(entries) is None
        },
        valid_layout::<L>() && interface == 0 ==> copy_failure::<L>(interface, vtable, entries)
            == Some(VtableError::NullInterface),
        interface_failure::<L>(interface) is None && vtable == 0 ==> copy_failure::<L>(
            interface,
            vtable,
            entries,
        ) == Some(VtableError::NullVtable { layout: L::NAME }),
{
}

/// A method can be used exactly where its slot lies within the layout and its
/// function is one pointer wide.
pub proof fn law_methods_need_a_slot_and_a_pointer<L: ComInterfaceLayout, M: ComMethod<L>>()
    ensures
        method_failure::<L, M>() is None <==> M::INDEX < L::SLOT_COUNT && M::FUNCTION_BYTES == 8,
        M::INDEX >= L::SLOT_COUNT ==> (method_failure::<L, M>() matches Some(
            VtableError::SlotOutOfBounds { layout, method, index, slot_count },
        ) && layout == L::NAME && method == M::NAME && index == M::INDEX && slot_count
            == L::SLOT_COUNT),
        M::INDEX < L::SLOT_COUNT && M::FUNCTION_BYTES != 8 ==> (method_failure::<L, M>() matches Some(
            VtableError::InvalidMethodRepresentation { method, actual_size },
        ) && method == M::NAME && actual_size == M::FUNCTION_BYTES),
{
}

} // verus!
