//! Opening the named shared memory and copying coherent snapshots out of it.
use vstd::prelude::*;
use crate::gw2::reader::SnapshotError;
use crate::gw2::telemetry::MumbleData;
use crate::text::{decimal, owned, Message};

verus! {

/// Code units of the longest name, its terminating NUL included.
pub const MAX_NAME_UNITS: usize = 32767;

/// Attempts at copying a coherent snapshot.
pub const SNAPSHOT_ATTEMPTS: usize = 4;

/// The named object already existed when it was to be created.
pub const ERROR_ALREADY_EXISTS: u32 = 183;

/// Whether opening a named mapping reused an object or created a zeroed one.
#[derive(Clone, Copy, Debug, PartialEq, Eq, Structural)]
pub enum MappingDisposition {
    /// An existing named mapping was opened without modifying its contents.
    OpenedExisting,
    /// A new page-file-backed mapping was created; Windows supplies zeroed pages.
    CreatedNew,
}

/// Redaction-safe failures while opening a named MumbleLink mapping.
#[derive(Clone, Copy, Debug, PartialEq, Eq, Structural)]
pub enum MappingOpenError {
    /// The caller-supplied name contains an interior nul.
    EmbeddedNul,
    /// The name exceeds the Win32 object-manager limit used by this runtime.
    NameTooLong,
    /// Win32 could neither open nor create the mapping.
    OpenOrCreate {
        /// Win32 error code.
        code: u32,
    },
    /// Win32 could not map a view of the complete ABI object.
    MapView {
        /// Win32 error code.
        code: u32,
    },
}

impl MappingOpenError {
    /// The message of the failure.
    pub open spec fn text(self) -> Seq<char> {
        match self {
            Self::EmbeddedNul => "the shared-memory name contains an embedded nul"@,
            Self::NameTooLong => "the shared-memory name is too long"@,
            Self::OpenOrCreate { code } => {
                "Win32 could not open or create the MumbleLink mapping (error "@ + decimal(
                    code as nat,
                ) + ")"@
            },
            Self::MapView { code } => "Win32 could not map the MumbleLink view (error "@ + decimal(
                code as nat,
            ) + ")"@,
        }
    }

    /// Formats the failure for diagnostics.
    pub fn to_string(&self) -> (text: String)
        ensures
            text@ == self.text(),
    {
        let mut message = Message::new();
        match *self {
            Self::EmbeddedNul => return owned("the shared-memory name contains an embedded nul"),
            Self::NameTooLong => return owned("the shared-memory name is too long"),
            Self::OpenOrCreate { code } => {
                message.text("Win32 could not open or create the MumbleLink mapping (error ");
                message.number(code as u64);
                message.text(")");
            },
            Self::MapView { code } => {
                message.text("Win32 could not map the MumbleLink view (error ");
                message.number(code as u64);
                message.text(")");
            },
        }
        proof {
            assert(message@ =~= self.text());
        }
        message.finish()
    }
}

/// What is wrong with the first units of a name, if anything is. The first
/// unit that is wrong decides.
pub open spec fn name_failure(units: Seq<u16>, count: nat) -> Option<MappingOpenError>
    decreases count,
{
    if count == 0 {
        None
    } else {
        match name_failure(units, (count - 1) as nat) {
            Some(error) => Some(error),
            None => if units[count - 1] == 0 {
                Some(MappingOpenError::EmbeddedNul)
            } else if count > MAX_NAME_UNITS - 1 {
                Some(MappingOpenError::NameTooLong)
            } else {
                None
            },
        }
    }
}

proof fn lemma_name_failure_stays(units: Seq<u16>, from: nat, to: nat)
    requires
        from <= to,
        name_failure(units, from) is Some,
    ensures
        name_failure(units, to) == name_failure(units, from),
    decreases to,
{
    if from < to {
        lemma_name_failure_stays(units, from, (to - 1) as nat);
    }
}

/// Terminates the UTF-16 code units of a name with a NUL.
pub fn wide_name(name: &[u16]) -> (units: Result<Vec<u16>, MappingOpenError>)
    ensures
        match units {
            Ok(units) => name_failure(name@, name@.len()) is None && units@ == name@.push(0),
            Err(error) => name_failure(name@, name@.len()) == Some(error),
        },
{
    let mut units: Vec<u16> = Vec::new();
    let mut i: usize = 0;
    while i < name.len()
        invariant
            i <= name@.len(),
            units@ == name@.take(i as int),
            name_failure(name@, i as nat) is None,
        decreases name@.len() - i,
    {
        let unit = name[i];
        if unit == 0 {
            proof {
                lemma_name_failure_stays(name@, (i + 1) as nat, name@.len());
            }
            return Err(MappingOpenError::EmbeddedNul);
        }
        if units.len() >= MAX_NAME_UNITS - 1 {
            proof {
                lemma_name_failure_stays(name@, (i + 1) as nat, name@.len());
            }
            return Err(MappingOpenError::NameTooLong);
        }
        units.push(unit);
        i = i + 1;
        proof {
            assert(units@ =~= name@.take(i as int));
        }
    }
    units.push(0);
    proof {
        assert(units@ =~= name@.push(0));
    }
    Ok(units)
}

/// What follows the attempt to open an existing mapping.
#[derive(Clone, Copy, Debug, PartialEq, Eq, Structural)]
pub enum AfterOpen {
    /// No mapping of that name exists: one is created.
    Create,
    /// The mapping is mapped into the process.
    MapView(MappingDisposition),
}

/// Decides what follows the attempt to open an existing mapping.
pub fn after_open(handle: usize) -> (step: AfterOpen)
    ensures
        step == AfterOpen::Create <==> handle == 0,
        step == (if handle == 0 {
            AfterOpen::Create
        } else {
            AfterOpen::MapView(MappingDisposition::OpenedExisting)
        }),
{
    if handle == 0 {
        AfterOpen::Create
    } else {
        AfterOpen::MapView(MappingDisposition::OpenedExisting)
    }
}

/// Judges the attempt to create a mapping, given the error code it left. A
/// mapping that appeared in the meantime counts as opened.
pub fn after_create(handle: usize, code: u32) -> (disposition: Result<
    MappingDisposition,
    MappingOpenError,
>)
    ensures
        disposition is Err <==> handle == 0,
        disposition == Ok::<_, MappingOpenError>(MappingDisposition::OpenedExisting) <==> handle != 0
            && code == 183,
        disposition == (if handle == 0 {
            Err::<MappingDisposition, MappingOpenError>(MappingOpenError::OpenOrCreate { code })
        } else if code == ERROR_ALREADY_EXISTS {
            Ok::<MappingDisposition, MappingOpenError>(MappingDisposition::OpenedExisting)
        } else {
            Ok::<MappingDisposition, MappingOpenError>(MappingDisposition::CreatedNew)
        }),
{
    if handle == 0 {
        return Err(MappingOpenError::OpenOrCreate { code });
    }
    if code == ERROR_ALREADY_EXISTS {
        Ok(MappingDisposition::OpenedExisting)
    } else {
        Ok(MappingDisposition::CreatedNew)
    }
}

/// A mapping that could not be used, with what is released again.
#[derive(Clone, Copy, Debug, PartialEq, Eq, Structural)]
pub struct FailedMapping {
    /// Why it could not be used.
    pub error: MappingOpenError,
    /// Handle that is closed, if any.
    pub close: Option<usize>,
    /// Address that is unmapped, if any.
    pub unmap: Option<usize>,
}

/// Why a mapping cannot be used, given its handle, its address, and the error
/// code that mapping it left: the view comes first.
pub open spec fn mapping_failure(handle: usize, address: usize, code: u32) -> Option<FailedMapping> {
    if address == 0 {
        Some(
            FailedMapping {
                error: MappingOpenError::MapView { code },
                close: Some(handle),
                unmap: None,
            },
        )
    } else if handle == 0 {
        Some(
            FailedMapping {
                error: MappingOpenError::OpenOrCreate { code: 0 },
                close: None,
                unmap: Some(address),
            },
        )
    } else {
        None
    }
}

/// Owned lifetime for a writable named MumbleLink mapping.
#[derive(Debug, PartialEq, Eq)]
pub struct MappedMumbleLink {
    handle: usize,
    address: usize,
    disposition: MappingDisposition,
}

impl MappedMumbleLink {
    /// Handle, address, and disposition.
    pub closed spec fn content(self) -> (usize, usize, MappingDisposition) {
        (self.handle, self.address, self.disposition)
    }

    #[verifier::type_invariant]
    spec fn owns_a_view(self) -> bool {
        self.handle != 0 && self.address != 0
    }

    /// Takes an opened or created mapping and the attempt to map it, given the
    /// error code it left.
    pub fn open_or_create(
        handle: usize,
        disposition: MappingDisposition,
        address: usize,
        code: u32,
    ) -> (link: Result<Self, FailedMapping>)
        ensures
            match link {
                Ok(link) => {
                    &&& mapping_failure(handle, address, code) is None
                    &&& link.content() == (handle, address, disposition)
                },
                Err(failed) => mapping_failure(handle, address, code) == Some(failed),
            },
    {
        if address == 0 {
            return Err(
                FailedMapping {
                    error: MappingOpenError::MapView { code },
                    close: Some(handle),
                    unmap: None,
                },
            );
        }
        if handle == 0 {
            return Err(
                FailedMapping {
                    error: MappingOpenError::OpenOrCreate { code: 0 },
                    close: None,
                    unmap: Some(address),
                },
            );
        }
        Ok(Self { handle, address, disposition })
    }

    /// Reports whether this call created the mapping.
    pub fn disposition(&self) -> (disposition: MappingDisposition)
        ensures
            disposition == self.content().2,
    {
        self.disposition
    }

    /// Returns the shared ABI pointer for compatibility publication.
    ///
    /// The pointer becomes invalid when this owner is dropped.
    pub fn as_ptr(&self) -> (pointer: usize)
        ensures
            pointer == self.content().1,
            pointer != 0,
    {
        proof {
            use_type_invariant(self);
        }
        self.address
    }

    /// Gives up the mapping. Returns the address that is unmapped and the
    /// handle that is closed, each exactly once.
    pub fn release(self) -> (tokens: (usize, usize))
        ensures
            tokens == (self.content().1, self.content().0),
            tokens.0 != 0,
            tokens.1 != 0,
    {
        proof {
            use_type_invariant(&self);
        }
        (self.address, self.handle)
    }
}

/// A copy of the shared memory, with the tick read before and after it.
#[derive(Clone, Copy, Debug)]
pub struct MumbleCopy {
    /// Tick before the copy.
    pub before: u32,
    /// The copy.
    pub data: MumbleData,
    /// Tick after the copy.
    pub after: u32,
}

impl MumbleCopy {
    /// Whether the copy is coherent: the tick before it, in it, and after it are one.
    pub open spec fn coherent(self) -> bool {
        self.before == self.after && self.data.ui_tick == self.before
    }
}

/// Whether these are copies that were taken, and none but the last is coherent.
pub open spec fn were_taken<F: Fn() -> MumbleCopy>(copy: F, copies: Seq<MumbleCopy>) -> bool {
    &&& copies.len() <= SNAPSHOT_ATTEMPTS
    &&& forall|i: int| 0 <= i < copies.len() ==> call_ensures(copy, (), #[trigger] copies[i])
    &&& forall|i: int| 0 <= i < copies.len() - 1 ==> !(#[trigger] copies[i]).coherent()
}

/// Copies the shared memory until a copy is coherent, a bounded number of times.
///
/// The producer writes the memory while it is copied. `copy` reads the tick,
/// copies the memory, and reads the tick again.
pub fn copy_snapshot<F: Fn() -> MumbleCopy>(copy: F) -> (result: Result<MumbleData, SnapshotError>)
    requires
        call_requires(copy, ()),
    ensures
        exists|copies: Seq<MumbleCopy>| #[trigger]
            were_taken(copy, copies) && copies.len() > 0 && match result {
                Ok(data) => copies.last().coherent() && copies.last().data == data,
                Err(error) => {
                    &&& error == SnapshotError::Unstable
                    &&& copies.len() == SNAPSHOT_ATTEMPTS
                    &&& copies.len() == 4
                    &&& !copies.last().coherent()
                },
            },
{
    let ghost mut copies: Seq<MumbleCopy> = Seq::empty();
    let mut attempt: usize = 0;
    while attempt < SNAPSHOT_ATTEMPTS
        invariant
            call_requires(copy, ()),
            attempt <= SNAPSHOT_ATTEMPTS,
            copies.len() == attempt,
            were_taken(copy, copies),
            attempt > 0 ==> !copies.last().coherent(),
        decreases SNAPSHOT_ATTEMPTS - attempt,
    {
        let taken = copy();
        proof {
            let before = copies;
            copies = copies.push(taken);
            assert forall|i: int| 0 <= i < copies.len() - 1 implies !(
            #[trigger] copies[i]).coherent() by {
                assert(copies[i] == before[i]);
                if i == before.len() - 1 {
                    assert(before[i] == before.last());
                }
            }
            assert(were_taken(copy, copies));
        }
        if taken.before == taken.after && taken.data.ui_tick == taken.before {
            return Ok(taken.data);
        }
        attempt = attempt + 1;
    }
    Err(SnapshotError::Unstable)
}

/// A name is accepted exactly if it has no NUL in it and fits with its own.
pub proof fn law_names_are_accepted_if_they_fit(units: Seq<u16>)
    ensures
        name_failure(units, units.len()) is None <==> (!units.contains(0) && units.len()
            < MAX_NAME_UNITS),
{
    lemma_name_prefix(units, units.len());
    if units.contains(0) {
        let at = choose|at: int| 0 <= at < units.len() && units[at] == 0;
        assert(units[at] == 0);
    }
}

proof fn lemma_name_prefix(units: Seq<u16>, count: nat)
    requires
        count <= units.len(),
    ensures
        name_failure(units, count) is None <==> (count < MAX_NAME_UNITS && forall|i: int|
            0 <= i < count ==> #[trigger] units[i] != 0),
    decreases count,
{
    if count > 0 {
        lemma_name_prefix(units, (count - 1) as nat);
    }
}

/// A view without an address failed to be mapped and leaves the handle to be
/// closed; an address without a handle is unmapped again; both make a link.
pub proof fn law_failed_mappings_are_given_back(handle: usize, address: usize, code: u32)
    ensures
        mapping_failure(handle, address, code) is None <==> handle != 0 && address != 0,
        address == 0 ==> (mapping_failure(handle, address, code) matches Some(failed) && {
            &&& failed.error == (MappingOpenError::MapView { code })
            &&& failed.close == Some(handle)
            &&& failed.unmap is None
        }),
        address != 0 && handle == 0 ==> (mapping_failure(handle, address, code) matches Some(failed)
            && {
            &&& failed.error == (MappingOpenError::OpenOrCreate { code: 0 })
            &&& failed.close is None
            &&& failed.unmap == Some(address)
        }),
{
}

/// A copy is coherent exactly where the tick was the same before, within, and
/// after it.
pub proof fn law_a_coherent_copy_has_one_tick(copy: MumbleCopy)
    ensures
        copy.coherent() <==> copy.before == copy.data.ui_tick && copy.data.ui_tick == copy.after,
{
}

/// A name is refused for the first thing that is wrong with it.
pub proof fn law_names_are_refused_for_a_reason(units: Seq<u16>, at: int)
    requires
        0 <= at < units.len(),
        forall|i: int| 0 <= i < at ==> #[trigger] units[i] != 0,
    ensures
        at < 32766 && units[at] == 0 ==> name_failure(units, units.len()) == Some(
            MappingOpenError::EmbeddedNul,
        ),
        at == 32766 && units[at] != 0 ==> name_failure(units, units.len()) == Some(
            MappingOpenError::NameTooLong,
        ),
{
    if at <= 32766 {
        lemma_name_prefix(units, at as nat);
        if units[at] == 0 || at == 32766 {
            lemma_name_failure_stays(units, (at + 1) as nat, units.len());
        }
    }
}

} // verus!
