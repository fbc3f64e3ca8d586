//! The registry and state machine of native add-on generations.
use std::collections::HashMap;
use vstd::prelude::*;
use crate::host::api_table::{
    zeroed_table, ApiRevision, ApiTableCatalog, ApiTableError, ApiTableRef,
};
use crate::host::definition::{
    definition_outcome, validate_and_copy_definition, DefinitionError, DefinitionView,
    LiveAddonModule, MetadataLimits, OwnedAddonDefinition,
};
use crate::text::{decimal, hexadecimal, owned, Message};

verus! {

/// One generation of one add-on.
#[derive(Clone, Copy, Debug, PartialEq, Eq, Hash, Structural)]
pub struct OwnerToken {
    /// Stable add-on signature.
    pub signature: u32,
    /// Number of the generation, counted from one.
    pub generation: u64,
}

/// Explicit coordination state for one add-on generation.
///
/// `Loaded` and `Unloaded` are acknowledgements from the native-module adapter.
/// The host itself performs neither operation.
#[derive(Clone, Copy, Debug, PartialEq, Eq, Structural)]
pub enum LifecycleState {
    /// Metadata was validated and copied, but no load callback is acknowledged.
    Discovered,
    /// The platform layer acknowledged successful native activation.
    Loaded,
    /// Unload was requested and new callbacks are rejected.
    UnloadRequested,
    /// In-flight callbacks and registrations are being drained.
    Draining,
    /// The platform layer acknowledged that the native module was released.
    Unloaded,
    /// Activation failed before the generation became loaded.
    Failed,
}

/// Why a definition is being admitted into the host.
#[derive(Clone, Copy, Debug, PartialEq, Eq, Structural)]
pub enum LoadMode {
    /// First activation during process startup.
    Initial,
    /// Runtime replacement of an earlier generation.
    HotReload,
}

/// Why an active generation is being asked to unload.
#[derive(Clone, Copy, Debug, PartialEq, Eq, Structural)]
pub enum UnloadReason {
    /// User- or updater-requested runtime unload.
    Runtime,
    /// Process shutdown, when locked-lifetime add-ons may still be cleaned up.
    Shutdown,
}

/// Ordered cleanup groups run around the callback-gate drain boundary.
#[derive(Clone, Copy, Debug, PartialEq, Eq, Structural)]
pub enum CleanupPhase {
    /// Disable and remove hooks before waiting for native callback drain.
    HookRegistrations,
    /// Remove render, event, window, and input dispatch registrations.
    CallbackRegistrations,
    /// Release host resources only after all in-flight callbacks have left.
    OwnedResources,
}

impl CleanupPhase {
    /// Safety order used for every generation.
    pub const ORDER: [Self; 3] = [
        Self::HookRegistrations,
        Self::CallbackRegistrations,
        Self::OwnedResources,
    ];

    /// Phases that run before in-flight callbacks are waited for.
    pub const PRE_DRAIN_COUNT: usize = 2;
}

/// The phase at a position of the safety order.
pub open spec fn phase_at(cursor: nat) -> CleanupPhase {
    if cursor == 0 {
        CleanupPhase::HookRegistrations
    } else if cursor == 1 {
        CleanupPhase::CallbackRegistrations
    } else {
        CleanupPhase::OwnedResources
    }
}

/// A subsystem cleanup failure without a native pointer payload.
#[derive(Clone, Debug, PartialEq, Eq)]
pub struct CleanupError {
    message: String,
}

impl CleanupError {
    /// The message of the failure.
    pub closed spec fn text(self) -> Seq<char> {
        self.message@
    }

    /// Creates a cleanup failure suitable for propagation through the host.
    pub fn new(message: &str) -> (error: Self)
        ensures
            error.text() == message@,
    {
        Self { message: owned(message) }
    }

    /// Formats the failure for diagnostics.
    pub fn to_string(&self) -> (text: String)
        ensures
            text@ == self.text(),
    {
        owned(self.message.as_str())
    }
}

/// The failure that a cleanup answered with, if it failed.
pub open spec fn failure_of(reply: Result<(), CleanupError>) -> Option<CleanupError> {
    match reply {
        Ok(_) => None,
        Err(error) => Some(error),
    }
}

/// Injected generation-aware registration cleanup.
pub trait RegistrationCleaner: Sized {
    /// What one call can do: how it may answer, and what becomes of the cleaner.
    /// Nothing is ruled out unless an implementation says so.
    open spec fn may_clean(
        before: Self,
        owner: OwnerToken,
        phase: CleanupPhase,
        failure: Option<CleanupError>,
        after: Self,
    ) -> bool {
        true
    }

    /// Cleans one phase for exactly `owner`.
    ///
    /// Implementations must be idempotent for a retried phase. The host advances
    /// its phase cursor only after this method succeeds.
    fn cleanup(&mut self, owner: OwnerToken, phase: CleanupPhase) -> (reply: Result<
        (),
        CleanupError,
    >)
        ensures
            Self::may_clean(*old(self), owner, phase, failure_of(reply), *final(self)),
    ;
}

/// A no-op cleaner for hosts that have not assembled registration services yet.
impl RegistrationCleaner for () {
    open spec fn may_clean(
        before: Self,
        owner: OwnerToken,
        phase: CleanupPhase,
        failure: Option<CleanupError>,
        after: Self,
    ) -> bool {
        failure is None
    }

    fn cleanup(&mut self, owner: OwnerToken, phase: CleanupPhase) -> Result<(), CleanupError> {
        Ok(())
    }
}

/// The phases from one position of the safety order up to another succeed one
/// after the other, each for exactly this owner.
pub open spec fn cleans<C: RegistrationCleaner>(
    before: C,
    owner: OwnerToken,
    from: nat,
    to: nat,
    after: C,
) -> bool
    decreases to - from,
{
    if from >= to {
        before == after
    } else {
        exists|between: C|
            {
                &&& #[trigger] C::may_clean(before, owner, phase_at(from), None, between)
                &&& cleans(between, owner, from + 1, to, after)
            }
    }
}

proof fn lemma_one_more_phase<C: RegistrationCleaner>(
    before: C,
    owner: OwnerToken,
    from: nat,
    to: nat,
    between: C,
    after: C,
)
    requires
        from <= to,
        cleans(before, owner, from, to, between),
        C::may_clean(between, owner, phase_at(to), None, after),
    ensures
        cleans(before, owner, from, to + 1, after),
    decreases to - from,
{
    if from == to {
        assert(cleans(after, owner, to + 1, to + 1, after));
    } else {
        let next = choose|next: C|
            {
                &&& #[trigger] C::may_clean(before, owner, phase_at(from), None, next)
                &&& cleans(next, owner, from + 1, to, between)
            };
        lemma_one_more_phase(next, owner, from + 1, to, between, after);
    }
}

/// Read-only state retained for one add-on generation.
#[derive(Clone, Debug)]
pub struct AddonRecord {
    owner: OwnerToken,
    definition: OwnedAddonDefinition,
    load_mode: LoadMode,
    state: LifecycleState,
    admits_callbacks: bool,
    cleanup_cursor: usize,
}

/// What a record holds.
pub struct RecordView {
    /// Pointer-free definition metadata.
    pub definition: DefinitionView,
    /// Whether this is an initial load or a hot reload.
    pub load_mode: LoadMode,
    /// Lifecycle state.
    pub state: LifecycleState,
    /// Whether new callbacks may enter.
    pub admits_callbacks: bool,
    /// Completed cleanup phases.
    pub cleanup_cursor: nat,
}

impl View for AddonRecord {
    type V = RecordView;

    closed spec fn view(&self) -> RecordView {
        RecordView {
            definition: self.definition@,
            load_mode: self.load_mode,
            state: self.state,
            admits_callbacks: self.admits_callbacks,
            cleanup_cursor: self.cleanup_cursor as nat,
        }
    }
}

impl AddonRecord {
    /// The generation of the record.
    pub closed spec fn token(self) -> OwnerToken {
        self.owner
    }

    /// Returns this exact signature and generation.
    pub fn owner(&self) -> (owner: OwnerToken)
        ensures
            owner == self.token(),
    {
        self.owner
    }

    /// Returns the fully owned, pointer-free definition metadata.
    pub fn definition(&self) -> (definition: &OwnedAddonDefinition)
        ensures
            definition@ == self@.definition,
    {
        &self.definition
    }

    /// Returns whether this is an initial load or a hot reload.
    pub fn load_mode(&self) -> (mode: LoadMode)
        ensures
            mode == self@.load_mode,
    {
        self.load_mode
    }

    /// Returns the current explicit lifecycle state.
    pub fn state(&self) -> (state: LifecycleState)
        ensures
            state == self@.state,
    {
        self.state
    }

    /// Returns whether the callback gate of the generation is open.
    pub fn admits_callbacks(&self) -> (open: bool)
        ensures
            open == self@.admits_callbacks,
    {
        self.admits_callbacks
    }

    /// Returns the number of completed cleanup phases.
    pub fn completed_cleanup_phases(&self) -> (count: usize)
        ensures
            count == self@.cleanup_cursor,
    {
        self.cleanup_cursor
    }
}

/// Failure to validate or advance an add-on generation.
#[derive(Clone, Debug, PartialEq, Eq)]
pub enum HostError {
    /// Definition validation or metadata copying failed.
    Definition(DefinitionError),
    /// API table allocation failed.
    ApiTable(ApiTableError),
    /// Another non-terminal generation already owns the signature.
    DuplicateSignature {
        /// Duplicated signature.
        signature: u32,
        /// Existing active owner.
        existing: OwnerToken,
    },
    /// A per-signature generation counter overflowed.
    GenerationExhausted {
        /// Signature whose counter overflowed.
        signature: u32,
    },
    /// The supplied owner token has never been discovered.
    UnknownOwner {
        /// Unknown owner token.
        owner: OwnerToken,
    },
    /// The operation is not valid in the current state.
    InvalidTransition {
        /// Target generation.
        owner: OwnerToken,
        /// Human-readable accepted states.
        expected: &'static str,
        /// Current state.
        actual: LifecycleState,
    },
    /// Definition flags forbid a runtime replacement.
    HotReloadForbidden {
        /// Locked signature.
        signature: u32,
    },
    /// Definition flags forbid an ordinary runtime unload.
    RuntimeUnloadForbidden {
        /// Locked generation.
        owner: OwnerToken,
    },
    /// Callbacks remained in flight until the caller-provided deadline.
    DrainTimedOut {
        /// Generation that timed out.
        owner: OwnerToken,
    },
    /// One ordered cleanup phase failed.
    Cleanup {
        /// Generation being cleaned.
        owner: OwnerToken,
        /// Phase that failed.
        phase: CleanupPhase,
        /// Subsystem failure.
        source: CleanupError,
    },
    /// Module release was acknowledged before callback and registration drain.
    DrainIncomplete {
        /// Generation that is not ready.
        owner: OwnerToken,
    },
}

/// A generation in diagnostics.
pub open spec fn owner_text(owner: OwnerToken) -> Seq<char> {
    "OwnerToken { signature: "@ + decimal(owner.signature as nat) + ", generation: "@ + decimal(
        owner.generation as nat,
    ) + " }"@
}

/// A lifecycle state in diagnostics.
pub open spec fn state_text(state: LifecycleState) -> Seq<char> {
    match state {
        LifecycleState::Discovered => "Discovered"@,
        LifecycleState::Loaded => "Loaded"@,
        LifecycleState::UnloadRequested => "UnloadRequested"@,
        LifecycleState::Draining => "Draining"@,
        LifecycleState::Unloaded => "Unloaded"@,
        LifecycleState::Failed => "Failed"@,
    }
}

/// A cleanup phase in diagnostics.
pub open spec fn phase_text(phase: CleanupPhase) -> Seq<char> {
    match phase {
        CleanupPhase::HookRegistrations => "HookRegistrations"@,
        CleanupPhase::CallbackRegistrations => "CallbackRegistrations"@,
        CleanupPhase::OwnedResources => "OwnedResources"@,
    }
}

fn write_owner(message: &mut Message, owner: OwnerToken)
    ensures
        final(message)@ == old(message)@ + owner_text(owner),
{
    message.text("OwnerToken { signature: ");
    message.number(owner.signature as u64);
    message.text(", generation: ");
    message.number(owner.generation);
    message.text(" }");
    proof {
        assert(message@ =~= old(message)@ + owner_text(owner));
    }
}

fn state_label(state: LifecycleState) -> (label: &'static str)
    ensures
        label@ == state_text(state),
{
    match state {
        LifecycleState::Discovered => "Discovered",
        LifecycleState::Loaded => "Loaded",
        LifecycleState::UnloadRequested => "UnloadRequested",
        LifecycleState::Draining => "Draining",
        LifecycleState::Unloaded => "Unloaded",
        LifecycleState::Failed => "Failed",
    }
}

fn phase_label(phase: CleanupPhase) -> (label: &'static str)
    ensures
        label@ == phase_text(phase),
{
    match phase {
        CleanupPhase::HookRegistrations => "HookRegistrations",
        CleanupPhase::CallbackRegistrations => "CallbackRegistrations",
        CleanupPhase::OwnedResources => "OwnedResources",
    }
}

impl HostError {
    /// The message of the failure.
    pub open spec fn text(self) -> Seq<char> {
        match self {
            Self::Definition(error) => error.text(),
            Self::ApiTable(error) => error.text(),
            Self::DuplicateSignature { signature, existing } => "add-on signature "@ + hexadecimal(
                signature,
            ) + " is already active as "@ + owner_text(existing),
            Self::GenerationExhausted { signature } => "add-on signature "@ + hexadecimal(signature)
                + " exhausted its generation counter"@,
            Self::UnknownOwner { owner } => "unknown add-on owner "@ + owner_text(owner),
            Self::InvalidTransition { owner, expected, actual } => "owner "@ + owner_text(owner)
                + " must be "@ + expected@ + ", but is "@ + state_text(actual),
            Self::HotReloadForbidden { signature } => "add-on signature "@ + hexadecimal(signature)
                + " forbids hot reload"@,
            Self::RuntimeUnloadForbidden { owner } => "owner "@ + owner_text(owner)
                + " disables runtime unloading"@,
            Self::DrainTimedOut { owner } => "owner "@ + owner_text(owner)
                + " did not drain callbacks before the deadline"@,
            Self::Cleanup { owner, phase, source } => "owner "@ + owner_text(owner)
                + " failed cleanup phase "@ + phase_text(phase) + ": "@ + source.text(),
            Self::DrainIncomplete { owner } => "owner "@ + owner_text(owner)
                + " cannot be released before its drain completes"@,
        }
    }

    /// Formats the failure for diagnostics.
    pub fn to_string(&self) -> (text: String)
        ensures
            text@ == self.text(),
    {
        let mut message = Message::new();
        match self {
            Self::Definition(error) => return error.to_string(),
            Self::ApiTable(error) => return error.to_string(),
            Self::DuplicateSignature { signature, existing } => {
                message.text("add-on signature ");
                message.hexadecimal(*signature);
                message.text(" is already active as ");
                write_owner(&mut message, *existing);
            },
            Self::GenerationExhausted { signature } => {
                message.text("add-on signature ");
                message.hexadecimal(*signature);
                message.text(" exhausted its generation counter");
            },
            Self::UnknownOwner { owner } => {
                message.text("unknown add-on owner ");
                write_owner(&mut message, *owner);
            },
            Self::InvalidTransition { owner, expected, actual } => {
                message.text("owner ");
                write_owner(&mut message, *owner);
                message.text(" must be ");
                message.text(expected);
                message.text(", but is ");
                message.text(state_label(*actual));
            },
            Self::HotReloadForbidden { signature } => {
                message.text("add-on signature ");
                message.hexadecimal(*signature);
                message.text(" forbids hot reload");
            },
            Self::RuntimeUnloadForbidden { owner } => {
                message.text("owner ");
                write_owner(&mut message, *owner);
                message.text(" disables runtime unloading");
            },
            Self::DrainTimedOut { owner } => {
                message.text("owner ");
                write_owner(&mut message, *owner);
                message.text(" did not drain callbacks before the deadline");
            },
            Self::Cleanup { owner, phase, source } => {
                message.text("owner ");
                write_owner(&mut message, *owner);
                message.text(" failed cleanup phase ");
                message.text(phase_label(*phase));
                message.text(": ");
                message.text(source.message.as_str());
            },
            Self::DrainIncomplete { owner } => {
                message.text("owner ");
                write_owner(&mut message, *owner);
                message.text(" cannot be released before its drain completes");
            },
        }
        proof {
            assert(message@ =~= self.text());
        }
        message.finish()
    }
}

/// Whether two maps hold the same under every key but one.
pub open spec fn same_besides<K, V>(left: Map<K, V>, right: Map<K, V>, key: K) -> bool {
    forall|other: K|
        #![trigger left.contains_key(other)]
        #![trigger right.contains_key(other)]
        other != key ==> {
            &&& left.contains_key(other) == right.contains_key(other)
            &&& left.contains_key(other) ==> left[other] == right[other]
        }
}

/// A safe registry and state machine for native add-on generations.
#[derive(Clone, Debug)]
pub struct AddonHost<C> {
    cleaner: C,
    api_tables: ApiTableCatalog,
    records: Vec<AddonRecord>,
    active_by_signature: HashMap<u32, OwnerToken>,
    last_generation: HashMap<u32, u64>,
}

/// Whether a record of the sequence belongs to a generation.
spec fn belongs(records: Seq<AddonRecord>, owner: OwnerToken, i: int) -> bool {
    0 <= i < records.len() && records[i].owner == owner
}

/// No generation has two records.
spec fn distinct(records: Seq<AddonRecord>) -> bool {
    forall|i: int, j: int| #![trigger records[i], records[j]]
        0 <= i < j < records.len() ==> records[i].owner != records[j].owner
}

/// The records by generation.
spec fn by_owner(records: Seq<AddonRecord>) -> Map<OwnerToken, RecordView> {
    Map::new(
        |owner: OwnerToken| exists|i: int| belongs(records, owner, i),
        |owner: OwnerToken| records[choose|i: int| belongs(records, owner, i)]@,
    )
}

proof fn lemma_record(records: Seq<AddonRecord>, i: int)
    requires
        distinct(records),
        0 <= i < records.len(),
    ensures
        by_owner(records).contains_key(records[i].owner),
        by_owner(records)[records[i].owner] == records[i]@,
{
    assert(belongs(records, records[i].owner, i));
    let found = choose|found: int| belongs(records, records[i].owner, found);
    assert(belongs(records, records[i].owner, found));
    assert(found == i);
}

proof fn lemma_absent(records: Seq<AddonRecord>, owner: OwnerToken)
    requires
        forall|i: int| 0 <= i < records.len() ==> #[trigger] records[i].owner != owner,
    ensures
        !by_owner(records).contains_key(owner),
{
    if by_owner(records).contains_key(owner) {
        let found = choose|found: int| belongs(records, owner, found);
        assert(belongs(records, owner, found));
    }
}

proof fn lemma_update(records: Seq<AddonRecord>, i: int, record: AddonRecord)
    requires
        distinct(records),
        0 <= i < records.len(),
        record.owner == records[i].owner,
    ensures
        distinct(records.update(i, record)),
        by_owner(records.update(i, record)) == by_owner(records).insert(record.owner, record@),
{
    let updated = records.update(i, record);
    assert(distinct(updated));
    assert forall|owner: OwnerToken| #[trigger]
        by_owner(updated).contains_key(owner) == by_owner(records).insert(
            record.owner,
            record@,
        ).contains_key(owner) by {
        if by_owner(updated).contains_key(owner) {
            let found = choose|found: int| belongs(updated, owner, found);
            assert(belongs(updated, owner, found));
            assert(belongs(records, owner, found));
        }
        if by_owner(records).contains_key(owner) {
            let found = choose|found: int| belongs(records, owner, found);
            assert(belongs(records, owner, found));
            assert(belongs(updated, owner, found));
        }
        assert(belongs(updated, record.owner, i));
    }
    assert forall|owner: OwnerToken| #[trigger] by_owner(updated).contains_key(owner) implies by_owner(
        updated,
    )[owner] == by_owner(records).insert(record.owner, record@)[owner] by {
        let found = choose|found: int| belongs(updated, owner, found);
        assert(belongs(updated, owner, found));
        lemma_record(updated, found);
        lemma_record(records, found);
        assert(updated[found].owner == records[found].owner);
        if owner == record.owner {
            assert(found == i);
        }
    }
    assert(by_owner(updated) =~= by_owner(records).insert(record.owner, record@));
}

proof fn lemma_push(records: Seq<AddonRecord>, record: AddonRecord)
    requires
        distinct(records),
        !by_owner(records).contains_key(record.owner),
    ensures
        distinct(records.push(record)),
        by_owner(records.push(record)) == by_owner(records).insert(record.owner, record@),
{
    let pushed = records.push(record);
    assert forall|i: int| 0 <= i < records.len() implies #[trigger] records[i].owner
        != record.owner by {
        lemma_record(records, i);
    }
    assert(distinct(pushed));
    lemma_record(pushed, records.len() as int);
    assert forall|owner: OwnerToken| #[trigger]
        by_owner(pushed).contains_key(owner) == by_owner(records).insert(
            record.owner,
            record@,
        ).contains_key(owner) by {
        if by_owner(pushed).contains_key(owner) {
            let found = choose|found: int| belongs(pushed, owner, found);
            assert(belongs(pushed, owner, found));
            if found < records.len() {
                lemma_record(records, found);
            }
        }
        if by_owner(records).contains_key(owner) {
            let found = choose|found: int| belongs(records, owner, found);
            assert(belongs(records, owner, found));
            assert(pushed[found] == records[found]);
            lemma_record(pushed, found);
        }
    }
    assert forall|owner: OwnerToken| #[trigger] by_owner(pushed).contains_key(owner) implies by_owner(
        pushed,
    )[owner] == by_owner(records).insert(record.owner, record@)[owner] by {
        let found = choose|found: int| belongs(pushed, owner, found);
        assert(belongs(pushed, owner, found));
        lemma_record(pushed, found);
        if found < records.len() {
            lemma_record(records, found);
        }
    }
    assert(by_owner(pushed) =~= by_owner(records).insert(record.owner, record@));
}

proof fn lemma_remove(records: Seq<AddonRecord>, at: int)
    requires
        distinct(records),
        0 <= at < records.len(),
    ensures
        distinct(records.remove(at)),
        by_owner(records.remove(at)) == by_owner(records).remove(records[at].owner),
{
    let rest = records.remove(at);
    assert forall|i: int| 0 <= i < rest.len() implies #[trigger] rest[i] == records[if i < at {
        i
    } else {
        i + 1
    }] by {}
    assert(distinct(rest));
    assert forall|owner: OwnerToken| #[trigger]
        by_owner(rest).contains_key(owner) == by_owner(records).remove(
            records[at].owner,
        ).contains_key(owner) by {
        if by_owner(rest).contains_key(owner) {
            let found = choose|found: int| belongs(rest, owner, found);
            assert(belongs(rest, owner, found));
            let origin = if found < at {
                found
            } else {
                found + 1
            };
            assert(records[origin] == rest[found]);
            lemma_record(records, origin);
        }
        if by_owner(records).contains_key(owner) && owner != records[at].owner {
            let found = choose|found: int| belongs(records, owner, found);
            assert(belongs(records, owner, found));
            let target = if found < at {
                found
            } else {
                found - 1
            };
            assert(rest[target] == records[found]);
            lemma_record(rest, target);
        }
    }
    assert forall|owner: OwnerToken| #[trigger] by_owner(rest).contains_key(owner) implies by_owner(
        rest,
    )[owner] == by_owner(records).remove(records[at].owner)[owner] by {
        let found = choose|found: int| belongs(rest, owner, found);
        assert(belongs(rest, owner, found));
        lemma_record(rest, found);
        let origin = if found < at {
            found
        } else {
            found + 1
        };
        assert(records[origin] == rest[found]);
        lemma_record(records, origin);
    }
    assert(by_owner(rest) =~= by_owner(records).remove(records[at].owner));
}

/// Whether a generation in this state owns its signature.
pub open spec fn claims_signature(state: LifecycleState) -> bool {
    match state {
        LifecycleState::Discovered => true,
        LifecycleState::Loaded => true,
        LifecycleState::UnloadRequested => true,
        LifecycleState::Draining => true,
        LifecycleState::Unloaded => false,
        LifecycleState::Failed => false,
    }
}

/// A record agrees with itself: callbacks enter only while the generation is
/// discovered or loaded, cleanup runs only while it drains, and it is released
/// only after every phase.
pub open spec fn consistent(record: RecordView) -> bool {
    &&& record.cleanup_cursor <= 3
    &&& record.admits_callbacks <==> (record.state == LifecycleState::Discovered || record.state
        == LifecycleState::Loaded)
    &&& record.cleanup_cursor > 0 ==> (record.state == LifecycleState::Draining || record.state
        == LifecycleState::Unloaded)
    &&& record.state == LifecycleState::Unloaded ==> record.cleanup_cursor == 3
}

impl<C> AddonHost<C> {
    /// The records by generation, including historical terminal ones.
    pub closed spec fn records(self) -> Map<OwnerToken, RecordView> {
        by_owner(self.records@)
    }

    /// The active generation of each signature.
    pub closed spec fn active(self) -> Map<u32, OwnerToken> {
        self.active_by_signature@
    }

    /// The last generation of each signature that was ever discovered.
    pub closed spec fn generations(self) -> Map<u32, u64> {
        self.last_generation@
    }

    /// The last generation of a signature, zero before the first.
    pub open spec fn last(self, signature: u32) -> u64 {
        if self.generations().contains_key(signature) {
            self.generations()[signature]
        } else {
            0
        }
    }

    /// The API tables.
    pub closed spec fn catalog(self) -> ApiTableCatalog {
        self.api_tables
    }

    /// The injected cleaner.
    pub closed spec fn registration_cleaner(self) -> C {
        self.cleaner
    }

    /// No generation has two records.
    pub closed spec fn represented(self) -> bool {
        distinct(self.records@)
    }

    /// The generation of a record was handed out, its signature is that of its
    /// definition, and it holds its signature exactly while its state is not
    /// terminal.
    pub open spec fn record_agrees(self, owner: OwnerToken) -> bool {
        let record = self.records()[owner];
        &&& consistent(record)
        &&& record.definition.signature == owner.signature
        &&& 1 <= owner.generation <= self.last(owner.signature)
        &&& claims_signature(record.state) <==> self.holds(owner)
    }

    /// Whether a generation is the active one of its signature.
    pub open spec fn holds(self, owner: OwnerToken) -> bool {
        self.active().contains_key(owner.signature) && self.active()[owner.signature] == owner
    }

    /// The active generation of a signature is on record, is the last one of the
    /// signature, and is held by that signature.
    pub open spec fn signature_agrees(self, signature: u32) -> bool {
        let owner = self.active()[signature];
        &&& owner.signature == signature
        &&& self.records().contains_key(owner)
        &&& self.generations().contains_key(signature)
        &&& self.generations()[signature] == owner.generation
    }

    /// Every record agrees with the rest of the host.
    pub open spec fn records_agree(self) -> bool {
        forall|owner: OwnerToken| #[trigger]
            self.records().contains_key(owner) ==> self.record_agrees(owner)
    }

    /// Every active generation agrees with the rest of the host.
    pub open spec fn active_agree(self) -> bool {
        forall|signature: u32| #[trigger]
            self.active().contains_key(signature) ==> self.signature_agrees(signature)
    }

    /// The invariant of the host.
    pub open spec fn wf(self) -> bool {
        &&& self.represented()
        &&& self.catalog().wf()
        &&& self.records_agree()
        &&& self.active_agree()
    }

    /// The host with one record replaced.
    pub open spec fn with_record(self, after: Self, owner: OwnerToken, record: RecordView) -> bool {
        &&& after.records() == self.records().insert(owner, record)
        &&& after.active() == self.active()
        &&& after.generations() == self.generations()
        &&& after.catalog() == self.catalog()
    }

    /// Why an operation on a generation is refused before it starts, if its
    /// state must be one of two.
    pub open spec fn refusal(
        self,
        owner: OwnerToken,
        first: LifecycleState,
        second: LifecycleState,
        expected: &'static str,
    ) -> Option<HostError> {
        if !self.records().contains_key(owner) {
            Some(HostError::UnknownOwner { owner })
        } else {
            let actual = self.records()[owner].state;
            if actual != first && actual != second {
                Some(HostError::InvalidTransition { owner, expected, actual })
            } else {
                None
            }
        }
    }

    /// Why a definition is not admitted, if it is not.
    pub open spec fn admission_failure(self, definition: DefinitionView, mode: LoadMode) -> Option<
        HostError,
    > {
        let signature = definition.signature;
        if self.active().contains_key(signature) {
            Some(
                HostError::DuplicateSignature { signature, existing: self.active()[signature] },
            )
        } else if mode == LoadMode::HotReload && (definition.flags.disable_hot_loading
            || definition.flags.launch_only) {
            Some(HostError::HotReloadForbidden { signature })
        } else if self.last(signature) == u64::MAX {
            Some(HostError::GenerationExhausted { signature })
        } else {
            None
        }
    }

    /// What becomes of the host when a definition is offered to it.
    pub open spec fn admits(
        self,
        after: Self,
        definition: DefinitionView,
        mode: LoadMode,
        result: Result<OwnerToken, HostError>,
    ) -> bool {
        match self.admission_failure(definition, mode) {
            Some(error) => after == self && result == Err::<OwnerToken, HostError>(error),
            None => {
                let signature = definition.signature;
                let generation = (self.last(signature) + 1) as u64;
                let owner = OwnerToken { signature, generation };
                &&& result == Ok::<OwnerToken, HostError>(owner)
                &&& after.records() == self.records().insert(
                    owner,
                    RecordView {
                        definition,
                        load_mode: mode,
                        state: LifecycleState::Discovered,
                        admits_callbacks: true,
                        cleanup_cursor: 0,
                    },
                )
                &&& after.active() == self.active().insert(signature, owner)
                &&& after.generations() == self.generations().insert(signature, generation)
                &&& after.catalog() == self.catalog()
                &&& after.registration_cleaner() == self.registration_cleaner()
            },
        }
    }

    /// The host after a generation has given up its signature for good.
    pub open spec fn retires(
        self,
        after: Self,
        owner: OwnerToken,
        record: RecordView,
    ) -> bool {
        &&& after.records() == self.records().insert(owner, record)
        &&& after.active() == self.active().remove(owner.signature)
        &&& after.generations() == self.generations()
        &&& after.catalog() == self.catalog()
        &&& after.registration_cleaner() == self.registration_cleaner()
    }
}

impl<C: RegistrationCleaner> AddonHost<C> {
    /// Creates a host with an injected registration cleaner.
    pub fn new(cleaner: C) -> (host: Result<Self, HostError>)
        ensures
            host matches Ok(host) && host.wf() && host.records() == Map::<
                OwnerToken,
                RecordView,
            >::empty() && host.active() == Map::<u32, OwnerToken>::empty() && host.generations()
                == Map::<u32, u64>::empty() && host.registration_cleaner() == cleaner
                && !host.catalog().populated() && forall|revision: ApiRevision| #[trigger]
                host.catalog().table(revision) == zeroed_table(revision),
    {
        match ApiTableCatalog::new() {
            Ok(api_tables) => Ok(Self::with_api_tables(cleaner, api_tables)),
            Err(error) => Err(HostError::ApiTable(error)),
        }
    }

    /// Creates a host using a fully assembled API catalog.
    pub fn with_api_tables(cleaner: C, api_tables: ApiTableCatalog) -> (host: Self)
        requires
            api_tables.wf(),
        ensures
            host.wf(),
            host.records() == Map::<OwnerToken, RecordView>::empty(),
            host.active() == Map::<u32, OwnerToken>::empty(),
            host.generations() == Map::<u32, u64>::empty(),
            host.registration_cleaner() == cleaner,
            host.catalog() == api_tables,
    {
        let host = Self {
            cleaner,
            api_tables,
            records: Vec::new(),
            active_by_signature: HashMap::new(),
            last_generation: HashMap::new(),
        };
        proof {
            assert forall|owner: OwnerToken| !host.records().contains_key(owner) by {
                lemma_absent(host.records@, owner);
            }
            assert(host.records() =~= Map::<OwnerToken, RecordView>::empty());
        }
        host
    }

    /// Returns whether activation can expose callable API tables.
    pub fn api_tables_populated(&self) -> (populated: bool)
        ensures
            populated == self.catalog().populated(),
    {
        self.api_tables.is_populated()
    }

    /// Finds the record of a generation.
    fn position(&self, owner: OwnerToken) -> (position: Option<usize>)
        requires
            self.represented(),
        ensures
            match position {
                Some(i) => {
                    &&& i < self.records@.len()
                    &&& self.records@[i as int].owner == owner
                    &&& self.records().contains_key(owner)
                    &&& self.records()[owner] == self.records@[i as int]@
                },
                None => !self.records().contains_key(owner),
            },
    {
        let mut i: usize = 0;
        while i < self.records.len()
            invariant
                self.represented(),
                i <= self.records@.len(),
                forall|j: int| 0 <= j < i ==> #[trigger] self.records@[j].owner != owner,
            decreases self.records@.len() - i,
        {
            if self.records[i].owner == owner {
                proof {
                    lemma_record(self.records@, i as int);
                }
                return Some(i);
            }
            i = i + 1;
        }
        proof {
            lemma_absent(self.records@, owner);
        }
        None
    }

    /// Finds the record of a generation that must be in one of two states.
    fn ready(
        &self,
        owner: OwnerToken,
        first: LifecycleState,
        second: LifecycleState,
        expected: &'static str,
    ) -> (position: Result<usize, HostError>)
        requires
            self.represented(),
        ensures
            match position {
                Ok(i) => {
                    &&& self.refusal(owner, first, second, expected) is None
                    &&& i < self.records@.len()
                    &&& self.records@[i as int].owner == owner
                    &&& self.records().contains_key(owner)
                    &&& self.records()[owner] == self.records@[i as int]@
                },
                Err(error) => self.refusal(owner, first, second, expected) == Some(error),
            },
    {
        match self.position(owner) {
            None => Err(HostError::UnknownOwner { owner }),
            Some(i) => {
                let actual = self.records[i].state;
                if actual != first && actual != second {
                    Err(HostError::InvalidTransition { owner, expected, actual })
                } else {
                    Ok(i)
                }
            },
        }
    }

    /// Admits a definition that was validated and copied.
    pub fn admit_definition(&mut self, definition: OwnedAddonDefinition, mode: LoadMode) -> (result: Result<
        OwnerToken,
        HostError,
    >)
        requires
            old(self).wf(),
        ensures
            final(self).wf(),
            old(self).admits(*final(self), definition@, mode, result),
    {
        let signature = definition.signature();
        if let Some(existing) = self.active_by_signature.get(&signature) {
            return Err(HostError::DuplicateSignature { signature, existing: *existing });
        }
        let flags = definition.flags();
        if mode == LoadMode::HotReload && (flags.disable_hot_loading || flags.launch_only) {
            return Err(HostError::HotReloadForbidden { signature });
        }
        let last: u64 = match self.last_generation.get(&signature) {
            Some(last) => *last,
            None => 0,
        };
        if last == u64::MAX {
            return Err(HostError::GenerationExhausted { signature });
        }
        let generation: u64 = last + 1;
        let owner = OwnerToken { signature, generation };
        let record = AddonRecord {
            owner,
            definition,
            load_mode: mode,
            state: LifecycleState::Discovered,
            admits_callbacks: true,
            cleanup_cursor: 0,
        };
        proof {
            assert(!self.records().contains_key(owner));
            lemma_push(self.records@, record);
        }
        self.last_generation.insert(signature, generation);
        self.active_by_signature.insert(signature, owner);
        self.records.push(record);
        proof {
            assert(self.active() =~= old(self).active().insert(signature, owner));
            assert(self.generations() =~= old(self).generations().insert(signature, generation));
            self.lemma_others_agree(*old(self), owner);
        }
        Ok(owner)
    }

    /// Validates and owns a definition without loading or calling native code.
    pub fn discover<M: LiveAddonModule>(
        &mut self,
        module: &M,
        mode: LoadMode,
        limits: MetadataLimits,
    ) -> (result: Result<OwnerToken, HostError>)
        requires
            old(self).wf(),
        ensures
            final(self).wf(),
            exists|copied: Result<OwnedAddonDefinition, DefinitionError>| #[trigger]
                definition_outcome(*module, limits, copied) && match copied {
                    Ok(definition) => old(self).admits(*final(self), definition@, mode, result),
                    Err(error) => *final(self) == *old(self) && result == Err::<
                        OwnerToken,
                        HostError,
                    >(HostError::Definition(error)),
                },
    {
        let copied = validate_and_copy_definition(module, limits);
        let ghost outcome = copied;
        proof {
            assert(definition_outcome(*module, limits, outcome));
        }
        match copied {
            Ok(definition) => self.admit_definition(definition, mode),
            Err(error) => Err(HostError::Definition(error)),
        }
    }

    /// Acknowledges that an external platform adapter completed activation.
    ///
    /// This method does not invoke the add-on's load callback.
    pub fn acknowledge_loaded(&mut self, owner: OwnerToken) -> (result: Result<(), HostError>)
        requires
            old(self).wf(),
        ensures
            final(self).wf(),
            result is Ok ==> old(self).records()[owner].state is Discovered
                && final(self).records()[owner].state is Loaded,
            match old(self).refusal(
                owner,
                LifecycleState::Discovered,
                LifecycleState::Discovered,
                "Discovered",
            ) {
                Some(error) => *final(self) == *old(self) && result == Err::<(), HostError>(error),
                None => {
                    &&& result is Ok
                    &&& old(self).with_record(
                        *final(self),
                        owner,
                        RecordView {
                            state: LifecycleState::Loaded,
                            ..old(self).records()[owner]
                        },
                    )
                    &&& final(self).registration_cleaner() == old(self).registration_cleaner()
                },
            },
    {
        let index = match self.ready(
            owner,
            LifecycleState::Discovered,
            LifecycleState::Discovered,
            "Discovered",
        ) {
            Ok(index) => index,
            Err(error) => return Err(error),
        };
        self.records[index].state = LifecycleState::Loaded;
        proof {
            self.lemma_replaced(*old(self), index as int);
        }
        Ok(())
    }

    /// Rejects new callbacks and records an unload request.
    ///
    /// This method does not invoke the add-on's unload callback.
    pub fn request_unload(&mut self, owner: OwnerToken, reason: UnloadReason) -> (result: Result<
        (),
        HostError,
    >)
        requires
            old(self).wf(),
        ensures
            final(self).wf(),
            result is Ok ==> {
                &&& old(self).records()[owner].state is Loaded
                &&& final(self).records()[owner].state is UnloadRequested
                &&& !final(self).records()[owner].admits_callbacks
                &&& reason is Shutdown
                    || !old(self).records()[owner].definition.flags.disable_hot_loading
            },
            match old(self).refusal(
                owner,
                LifecycleState::Loaded,
                LifecycleState::Loaded,
                "Loaded",
            ) {
                Some(error) => *final(self) == *old(self) && result == Err::<(), HostError>(error),
                None => if reason == UnloadReason::Runtime
                    && old(self).records()[owner].definition.flags.disable_hot_loading {
                    &&& *final(self) == *old(self)
                    &&& result == Err::<(), HostError>(HostError::RuntimeUnloadForbidden { owner })
                } else {
                    &&& result is Ok
                    &&& old(self).with_record(
                        *final(self),
                        owner,
                        RecordView {
                            state: LifecycleState::UnloadRequested,
                            admits_callbacks: false,
                            ..old(self).records()[owner]
                        },
                    )
                    &&& final(self).registration_cleaner() == old(self).registration_cleaner()
                },
            },
    {
        let index = match self.ready(
            owner,
            LifecycleState::Loaded,
            LifecycleState::Loaded,
            "Loaded",
        ) {
            Ok(index) => index,
            Err(error) => return Err(error),
        };
        if reason == UnloadReason::Runtime
            && self.records[index].definition.flags().disable_hot_loading {
            return Err(HostError::RuntimeUnloadForbidden { owner });
        }
        self.records[index].admits_callbacks = false;
        self.records[index].state = LifecycleState::UnloadRequested;
        proof {
            self.lemma_replaced(*old(self), index as int);
        }
        Ok(())
    }

    /// Where only one generation and its signature differ from a sound host, the
    /// host is sound if that generation and its signature agree.
    proof fn lemma_others_agree(self, before: Self, owner: OwnerToken)
        requires
            before.wf(),
            self.represented(),
            self.catalog().wf(),
            same_besides(self.records(), before.records(), owner),
            same_besides(self.active(), before.active(), owner.signature),
            same_besides(self.generations(), before.generations(), owner.signature),
            before.last(owner.signature) <= self.last(owner.signature),
            forall|other: OwnerToken|
                other != owner && other.signature == owner.signature ==> self.holds(other)
                    == #[trigger] before.holds(other),
            self.records().contains_key(owner) ==> self.record_agrees(owner),
            self.active().contains_key(owner.signature) ==> self.signature_agrees(owner.signature),
        ensures
            self.wf(),
    {
        assert forall|other: OwnerToken| #[trigger]
            self.records().contains_key(other) implies self.record_agrees(other) by {
            if other != owner {
                assert(before.record_agrees(other));
                assert(before.holds(other) == self.holds(other));
            }
        }
        assert forall|signature: u32| #[trigger]
            self.active().contains_key(signature) implies self.signature_agrees(signature) by {
            if signature != owner.signature {
                assert(before.signature_agrees(signature));
                assert(before.records().contains_key(before.active()[signature]));
                assert(before.generations().contains_key(signature));
            }
        }
    }

    /// Replacing a record by one that keeps its generation and its claim keeps
    /// the invariant.
    proof fn lemma_replaced(self, before: Self, index: int)
        requires
            before.wf(),
            0 <= index < before.records@.len(),
            self.records@ =~= before.records@.update(index, self.records@[index]),
            self.active_by_signature == before.active_by_signature,
            self.last_generation == before.last_generation,
            self.api_tables == before.api_tables,
            self.records@[index].owner == before.records@[index].owner,
            self.records@[index]@.definition == before.records@[index]@.definition,
            consistent(self.records@[index]@),
            claims_signature(self.records@[index].state) == claims_signature(
                before.records@[index].state,
            ),
        ensures
            self.wf(),
            before.with_record(self, before.records@[index].owner, self.records@[index]@),
    {
        let owner = before.records@[index].owner;
        lemma_record(before.records@, index);
        lemma_update(before.records@, index, self.records@[index]);
        self.lemma_others_agree(before, owner);
    }

    /// Runs the cleanup phases up to a position of the safety order.
    fn clean_up_to(&mut self, index: usize, target: usize) -> (result: Result<(), HostError>)
        requires
            old(self).wf(),
            index < old(self).records@.len(),
            old(self).records@[index as int].state == LifecycleState::Draining,
            target <= 3,
        ensures
            final(self).wf(),
            ({
                let before = old(self).records@[index as int];
                let after = final(self).records@[index as int];
                let owner = before.owner;
                &&& final(self).records@ == old(self).records@.update(
                    index as int,
                    AddonRecord { cleanup_cursor: after.cleanup_cursor, ..before },
                )
                &&& old(self).with_record(*final(self), owner, after@)
                &&& match result {
                    Ok(_) => {
                        &&& after.cleanup_cursor == (if before.cleanup_cursor < target {
                            target
                        } else {
                            before.cleanup_cursor
                        })
                        &&& cleans(
                            old(self).cleaner,
                            owner,
                            before.cleanup_cursor as nat,
                            after.cleanup_cursor as nat,
                            final(self).cleaner,
                        )
                    },
                    Err(error) => {
                        &&& before.cleanup_cursor <= after.cleanup_cursor < target
                        &&& stopped(
                            old(self).cleaner,
                            owner,
                            before.cleanup_cursor as nat,
                            after.cleanup_cursor as nat,
                            final(self).cleaner,
                            error,
                        )
                    },
                }
            }),
    {
        let owner = self.records[index].owner;
        let ghost start = *self;
        proof {
            lemma_record(start.records@, index as int);
            assert(start.records() =~= start.records().insert(
                owner,
                start.records@[index as int]@,
            ));
        }
        while self.records[index].cleanup_cursor < target
            invariant
                start == *old(self),
                start.wf(),
                self.wf(),
                target <= 3,
                index < start.records@.len(),
                start.records@[index as int].state == LifecycleState::Draining,
                owner == start.records@[index as int].owner,
                self.records@ == start.records@.update(
                    index as int,
                    AddonRecord {
                        cleanup_cursor: self.records@[index as int].cleanup_cursor,
                        ..start.records@[index as int]
                    },
                ),
                self.active_by_signature == start.active_by_signature,
                self.last_generation == start.last_generation,
                self.api_tables == start.api_tables,
                start.with_record(*self, owner, self.records@[index as int]@),
                start.records@[index as int].cleanup_cursor
                    <= self.records@[index as int].cleanup_cursor,
                self.records@[index as int].cleanup_cursor <= (
                if start.records@[index as int].cleanup_cursor < target {
                    target
                } else {
                    start.records@[index as int].cleanup_cursor
                }),
                cleans(
                    start.cleaner,
                    owner,
                    start.records@[index as int].cleanup_cursor as nat,
                    self.records@[index as int].cleanup_cursor as nat,
                    self.cleaner,
                ),
            decreases target - self.records@[index as int].cleanup_cursor,
        {
            let ghost before = *self;
            let cursor: usize = self.records[index].cleanup_cursor;
            let phase = if cursor == 0 {
                CleanupPhase::HookRegistrations
            } else if cursor == 1 {
                CleanupPhase::CallbackRegistrations
            } else {
                CleanupPhase::OwnedResources
            };
            let reply = self.cleaner.cleanup(owner, phase);
            let ghost answer = reply;
            proof {
                assert(phase == phase_at(cursor as nat));
                assert(C::may_clean(before.cleaner, owner, phase_at(cursor as nat), failure_of(answer), self.cleaner));
            }
            if let Err(source) = reply {
                return Err(HostError::Cleanup { owner, phase, source });
            }
            self.records[index].cleanup_cursor = cursor + 1;
            proof {
                lemma_one_more_phase(
                    start.cleaner,
                    owner,
                    start.records@[index as int].cleanup_cursor as nat,
                    cursor as nat,
                    before.cleaner,
                    self.cleaner,
                );
                lemma_record(start.records@, index as int);
                self.lemma_replaced(start, index as int);
            }
        }
        Ok(())
    }

    /// Waits for callbacks and cleans registrations in the fixed safety order:
    /// hooks and callback registrations go before the wait, and resources after
    /// it.
    ///
    /// `wait_for_drain` waits for the in-flight callbacks of the generation and
    /// answers whether they have left. It is shown the cleaner as it is while
    /// the callbacks are waited for. A timeout or failed phase leaves the
    /// record in `Draining` so the caller may retry without repeating earlier
    /// successful phases.
    pub fn drain_registrations<W: FnOnce(&C) -> bool>(
        &mut self,
        owner: OwnerToken,
        wait_for_drain: W,
    ) -> (result: Result<(), HostError>)
        requires
            old(self).wf(),
            forall|between: C| call_requires(wait_for_drain, (&between,)),
        ensures
            final(self).wf(),
            match old(self).refusal(
                owner,
                LifecycleState::UnloadRequested,
                LifecycleState::Draining,
                "UnloadRequested or Draining",
            ) {
                Some(error) => *final(self) == *old(self) && result == Err::<(), HostError>(error),
                None => {
                    let start = old(self).records()[owner];
                    let cursor = final(self).records()[owner].cleanup_cursor;
                    &&& old(self).with_record(
                        *final(self),
                        owner,
                        RecordView {
                            state: LifecycleState::Draining,
                            cleanup_cursor: cursor,
                            ..start
                        },
                    )
                    &&& drains(
                        old(self).registration_cleaner(),
                        owner,
                        start.cleanup_cursor,
                        cursor,
                        final(self).registration_cleaner(),
                        result,
                    )
                    &&& waited(start.cleanup_cursor, cursor) ==> exists|between: C|
                        {
                            &&& cleans(
                                old(self).registration_cleaner(),
                                owner,
                                start.cleanup_cursor,
                                before_waiting(start.cleanup_cursor),
                                between,
                            )
                            &&& #[trigger] call_ensures(
                                wait_for_drain,
                                (&between,),
                                in_time(result),
                            )
                            &&& drains(
                                between,
                                owner,
                                before_waiting(start.cleanup_cursor),
                                cursor,
                                final(self).registration_cleaner(),
                                result,
                            )
                        }
                },
            },
    {
        let index = match self.ready(
            owner,
            LifecycleState::UnloadRequested,
            LifecycleState::Draining,
            "UnloadRequested or Draining",
        ) {
            Ok(index) => index,
            Err(error) => return Err(error),
        };
        let ghost start = self.records@[index as int]@;
        self.records[index].state = LifecycleState::Draining;
        proof {
            self.lemma_replaced(*old(self), index as int);
        }
        let prepared = self.clean_up_to(index, CleanupPhase::PRE_DRAIN_COUNT);
        proof {
            lemma_record(self.records@, index as int);
            assert(self.records() =~= old(self).records().insert(
                owner,
                self.records@[index as int]@,
            ));
        }
        if let Err(error) = prepared {
            proof {
                assert(drains(
                    old(self).cleaner,
                    owner,
                    start.cleanup_cursor,
                    self.records()[owner].cleanup_cursor,
                    self.cleaner,
                    Err(error),
                ));
            }
            return Err(error);
        }
        let ghost between = *self;
        let drained = wait_for_drain(&self.cleaner);
        if !drained {
            proof {
                assert(drains(
                    old(self).cleaner,
                    owner,
                    start.cleanup_cursor,
                    self.records()[owner].cleanup_cursor,
                    self.cleaner,
                    Err(HostError::DrainTimedOut { owner }),
                ));
                assert(call_ensures(
                    wait_for_drain,
                    (&between.cleaner,),
                    in_time(Err(HostError::DrainTimedOut { owner })),
                ));
            }
            return Err(HostError::DrainTimedOut { owner });
        }
        let result = self.clean_up_to(index, 3);
        let ghost ended = result;
        proof {
            lemma_record(self.records@, index as int);
            assert(self.records() =~= old(self).records().insert(
                owner,
                self.records@[index as int]@,
            ));
            let waiting = between.records@[index as int].cleanup_cursor as nat;
            let cursor = self.records()[owner].cleanup_cursor;
            assert(waiting == before_waiting(start.cleanup_cursor));
            assert(cleans(old(self).cleaner, owner, start.cleanup_cursor, waiting, between.cleaner));
            match ended {
                Ok(_) => {
                    lemma_chained(
                        old(self).cleaner,
                        owner,
                        start.cleanup_cursor,
                        waiting,
                        cursor,
                        between.cleaner,
                        self.cleaner,
                    );
                },
                Err(error) => {
                    lemma_stopped_later(
                        old(self).cleaner,
                        owner,
                        start.cleanup_cursor,
                        waiting,
                        cursor,
                        between.cleaner,
                        self.cleaner,
                        error,
                    );
                },
            }
            assert(drains(
                old(self).cleaner,
                owner,
                start.cleanup_cursor,
                cursor,
                self.cleaner,
                result,
            ));
            assert(call_ensures(wait_for_drain, (&between.cleaner,), in_time(result)));
        }
        result
    }

    /// Acknowledges that the platform layer released the native module, while
    /// so many of the generation's callbacks are still in flight.
    pub fn acknowledge_module_released(&mut self, owner: OwnerToken, in_flight: usize) -> (result:
        Result<(), HostError>)
        requires
            old(self).wf(),
        ensures
            final(self).wf(),
            result is Ok ==> {
                &&& in_flight == 0
                &&& old(self).records()[owner].state is Draining
                &&& old(self).records()[owner].cleanup_cursor == 3
                &&& final(self).records()[owner].state is Unloaded
                &&& !final(self).active().contains_key(owner.signature)
            },
            match old(self).refusal(
                owner,
                LifecycleState::Draining,
                LifecycleState::Draining,
                "Draining",
            ) {
                Some(error) => *final(self) == *old(self) && result == Err::<(), HostError>(error),
                None => if old(self).records()[owner].cleanup_cursor != 3 || in_flight != 0 {
                    &&& *final(self) == *old(self)
                    &&& result == Err::<(), HostError>(HostError::DrainIncomplete { owner })
                } else {
                    &&& result is Ok
                    &&& old(self).retires(
                        *final(self),
                        owner,
                        RecordView {
                            state: LifecycleState::Unloaded,
                            ..old(self).records()[owner]
                        },
                    )
                },
            },
    {
        let index = match self.ready(
            owner,
            LifecycleState::Draining,
            LifecycleState::Draining,
            "Draining",
        ) {
            Ok(index) => index,
            Err(error) => return Err(error),
        };
        if self.records[index].cleanup_cursor != 3 || in_flight != 0 {
            return Err(HostError::DrainIncomplete { owner });
        }
        self.records[index].state = LifecycleState::Unloaded;
        self.release_signature(owner);
        proof {
            assert(self.records@ =~= old(self).records@.update(
                index as int,
                self.records@[index as int],
            ));
            lemma_update(old(self).records@, index as int, self.records@[index as int]);
            self.lemma_retired(*old(self), owner, self.records@[index as int]@);
        }
        Ok(())
    }

    /// Records activation failure before native loading was acknowledged.
    pub fn acknowledge_activation_failed(&mut self, owner: OwnerToken) -> (result: Result<
        (),
        HostError,
    >)
        requires
            old(self).wf(),
        ensures
            final(self).wf(),
            result is Ok ==> {
                &&& old(self).records()[owner].state is Discovered
                &&& final(self).records()[owner].state is Failed
                &&& !final(self).records()[owner].admits_callbacks
                &&& !final(self).active().contains_key(owner.signature)
            },
            match old(self).refusal(
                owner,
                LifecycleState::Discovered,
                LifecycleState::Discovered,
                "Discovered",
            ) {
                Some(error) => *final(self) == *old(self) && result == Err::<(), HostError>(error),
                None => {
                    &&& result is Ok
                    &&& old(self).retires(
                        *final(self),
                        owner,
                        RecordView {
                            state: LifecycleState::Failed,
                            admits_callbacks: false,
                            ..old(self).records()[owner]
                        },
                    )
                },
            },
    {
        let index = match self.ready(
            owner,
            LifecycleState::Discovered,
            LifecycleState::Discovered,
            "Discovered",
        ) {
            Ok(index) => index,
            Err(error) => return Err(error),
        };
        self.records[index].admits_callbacks = false;
        self.records[index].state = LifecycleState::Failed;
        self.release_signature(owner);
        proof {
            assert(self.records@ =~= old(self).records@.update(
                index as int,
                self.records@[index as int],
            ));
            lemma_update(old(self).records@, index as int, self.records@[index as int]);
            self.lemma_retired(*old(self), owner, self.records@[index as int]@);
        }
        Ok(())
    }

    /// Gives up the signature of a generation if the generation holds it.
    fn release_signature(&mut self, owner: OwnerToken)
        ensures
            *final(self) == (Self {
                active_by_signature: final(self).active_by_signature,
                ..*old(self)
            }),
            final(self).active() == (if old(self).active().contains_key(owner.signature)
                && old(self).active()[owner.signature] == owner {
                old(self).active().remove(owner.signature)
            } else {
                old(self).active()
            }),
    {
        let held = match self.active_by_signature.get(&owner.signature) {
            Some(holder) => *holder == owner,
            None => false,
        };
        if held {
            let _ = self.active_by_signature.remove(&owner.signature);
        }
        proof {
            assert(self.active() =~= if held {
                old(self).active().remove(owner.signature)
            } else {
                old(self).active()
            });
        }
    }

    /// Retiring an active generation keeps the invariant.
    proof fn lemma_retired(self, before: Self, owner: OwnerToken, record: RecordView)
        requires
            before.wf(),
            self.represented(),
            before.records().contains_key(owner),
            claims_signature(before.records()[owner].state),
            self.records() == before.records().insert(owner, record),
            self.active() == before.active().remove(owner.signature),
            self.generations() == before.generations(),
            self.catalog() == before.catalog(),
            record.definition == before.records()[owner].definition,
            consistent(record),
            !claims_signature(record.state),
        ensures
            self.wf(),
    {
        self.lemma_others_agree(before, owner);
    }

    /// Cancels a discovered generation before its native load callback ran.
    ///
    /// The per-signature generation counter remains monotonic, while the
    /// inactive record and active-signature claim are removed together.
    pub fn cancel_discovery(&mut self, owner: OwnerToken) -> (result: Result<(), HostError>)
        requires
            old(self).wf(),
        ensures
            final(self).wf(),
            result is Ok ==> {
                &&& old(self).records()[owner].state is Discovered
                &&& !final(self).records().contains_key(owner)
                &&& !final(self).active().contains_key(owner.signature)
            },
            match old(self).refusal(
                owner,
                LifecycleState::Discovered,
                LifecycleState::Discovered,
                "Discovered",
            ) {
                Some(error) => *final(self) == *old(self) && result == Err::<(), HostError>(error),
                None => {
                    &&& result is Ok
                    &&& final(self).records() == old(self).records().remove(owner)
                    &&& final(self).active() == old(self).active().remove(owner.signature)
                    &&& final(self).generations() == old(self).generations()
                    &&& final(self).catalog() == old(self).catalog()
                    &&& final(self).registration_cleaner() == old(self).registration_cleaner()
                },
            },
    {
        let index = match self.ready(
            owner,
            LifecycleState::Discovered,
            LifecycleState::Discovered,
            "Discovered",
        ) {
            Ok(index) => index,
            Err(error) => return Err(error),
        };
        self.release_signature(owner);
        let _ = self.records.remove(index);
        proof {
            lemma_remove(old(self).records@, index as int);
            self.lemma_others_agree(*old(self), owner);
        }
        Ok(())
    }

    /// Returns one generation record, including historical terminal records.
    pub fn record(&self, owner: OwnerToken) -> (record: Option<&AddonRecord>)
        requires
            self.wf(),
        ensures
            match record {
                Some(record) => self.records().contains_key(owner) && record@
                    == self.records()[owner] && record.token() == owner,
                None => !self.records().contains_key(owner),
            },
    {
        match self.position(owner) {
            Some(index) => Some(&self.records[index]),
            None => None,
        }
    }

    /// Returns the currently active generation for a signature.
    pub fn active_owner(&self, signature: u32) -> (owner: Option<OwnerToken>)
        requires
            self.wf(),
        ensures
            owner == (if self.active().contains_key(signature) {
                Some(self.active()[signature])
            } else {
                None
            }),
    {
        match self.active_by_signature.get(&signature) {
            Some(owner) => Some(*owner),
            None => None,
        }
    }

    /// Borrows the API table selected by this generation.
    pub fn api_table(&self, owner: OwnerToken) -> (table: Result<ApiTableRef<'_>, HostError>)
        requires
            self.wf(),
        ensures
            match table {
                Ok(table) => {
                    let revision = self.records()[owner].definition.api_revision;
                    &&& self.records().contains_key(owner)
                    &&& table.revision_of() == revision
                    &&& table.content() == self.catalog().table(revision)
                },
                Err(error) => !self.records().contains_key(owner) && error
                    == HostError::UnknownOwner { owner },
            },
    {
        match self.record(owner) {
            Some(record) => Ok(self.api_tables.get(record.definition.api_revision())),
            None => Err(HostError::UnknownOwner { owner }),
        }
    }

    /// Returns whether the callback gate of a generation admits new callbacks.
    pub fn callback_gate(&self, owner: OwnerToken) -> (open: Result<bool, HostError>)
        requires
            self.wf(),
        ensures
            match open {
                Ok(open) => self.records().contains_key(owner) && open
                    == self.records()[owner].admits_callbacks,
                Err(error) => !self.records().contains_key(owner) && error
                    == HostError::UnknownOwner { owner },
            },
    {
        match self.record(owner) {
            Some(record) => Ok(record.admits_callbacks),
            None => Err(HostError::UnknownOwner { owner }),
        }
    }

    /// Borrows the injected cleaner, primarily for diagnostics and tests.
    pub fn cleaner(&self) -> (cleaner: &C)
        ensures
            *cleaner == self.registration_cleaner(),
    {
        &self.cleaner
    }
}

/// Cleanup stops at the phase after the last one that succeeded.
pub open spec fn stopped<C: RegistrationCleaner>(
    before: C,
    owner: OwnerToken,
    from: nat,
    to: nat,
    after: C,
    error: HostError,
) -> bool {
    exists|between: C, source: CleanupError|
        {
            &&& #[trigger] C::may_clean(between, owner, phase_at(to), Some(source), after)
            &&& cleans(before, owner, from, to, between)
            &&& error == HostError::Cleanup { owner, phase: phase_at(to), source }
        }
}

proof fn lemma_chained<C: RegistrationCleaner>(
    before: C,
    owner: OwnerToken,
    from: nat,
    middle: nat,
    to: nat,
    between: C,
    after: C,
)
    requires
        from <= middle <= to,
        cleans(before, owner, from, middle, between),
        cleans(between, owner, middle, to, after),
    ensures
        cleans(before, owner, from, to, after),
    decreases middle - from,
{
    if from < middle {
        let next = choose|next: C|
            {
                &&& #[trigger] C::may_clean(before, owner, phase_at(from), None, next)
                &&& cleans(next, owner, from + 1, middle, between)
            };
        lemma_chained(next, owner, from + 1, middle, to, between, after);
    }
}

proof fn lemma_stopped_later<C: RegistrationCleaner>(
    before: C,
    owner: OwnerToken,
    from: nat,
    middle: nat,
    to: nat,
    between: C,
    after: C,
    error: HostError,
)
    requires
        from <= middle <= to,
        cleans(before, owner, from, middle, between),
        stopped(between, owner, middle, to, after, error),
    ensures
        stopped(before, owner, from, to, after, error),
{
    let (last, source) = choose|last: C, source: CleanupError|
        {
            &&& #[trigger] C::may_clean(last, owner, phase_at(to), Some(source), after)
            &&& cleans(between, owner, middle, to, last)
            &&& error == HostError::Cleanup { owner, phase: phase_at(to), source }
        };
    lemma_chained(before, owner, from, middle, to, between, last);
}

/// The phases that have completed once in-flight callbacks are waited for.
pub open spec fn before_waiting(cursor: nat) -> nat {
    if cursor < CleanupPhase::PRE_DRAIN_COUNT {
        CleanupPhase::PRE_DRAIN_COUNT as nat
    } else {
        cursor
    }
}

/// Whether in-flight callbacks were waited for: every phase that precedes the
/// wait had succeeded.
pub open spec fn waited(start: nat, cursor: nat) -> bool {
    cursor >= before_waiting(start)
}

/// Whether callbacks that were waited for left in time.
pub open spec fn in_time(result: Result<(), HostError>) -> bool {
    match result {
        Err(HostError::DrainTimedOut { .. }) => false,
        _ => true,
    }
}

/// What draining does to the cleaner and the cursor, and how it ends.
pub open spec fn drains<C: RegistrationCleaner>(
    before: C,
    owner: OwnerToken,
    start: nat,
    cursor: nat,
    after: C,
    result: Result<(), HostError>,
) -> bool {
    match result {
        Ok(_) => cursor == 3 && cleans(before, owner, start, 3, after),
        Err(HostError::DrainTimedOut { owner: late }) => {
            &&& late == owner
            &&& cursor == before_waiting(start)
            &&& cleans(before, owner, start, cursor, after)
        },
        Err(error) => {
            &&& start <= cursor < 3
            &&& stopped(before, owner, start, cursor, after, error)
        },
    }
}

/// Discovering a signature again gives a generation that no earlier record of
/// it has: the numbers of a signature only grow.
pub proof fn law_generations_are_never_reused<C>(
    before: AddonHost<C>,
    after: AddonHost<C>,
    definition: DefinitionView,
    mode: LoadMode,
    owner: OwnerToken,
    earlier: OwnerToken,
)
    requires
        before.wf(),
        before.admits(after, definition, mode, Ok(owner)),
        before.records().contains_key(earlier),
        earlier.signature == owner.signature,
    ensures
        earlier.generation < owner.generation,
        after.last(owner.signature) == owner.generation,
        after.records()[earlier] == before.records()[earlier],
{
}

/// Two generations of one signature never hold a state that is not terminal at
/// the same time.
pub proof fn law_one_live_generation_per_signature<C>(
    host: AddonHost<C>,
    first: OwnerToken,
    second: OwnerToken,
)
    requires
        host.wf(),
        host.records().contains_key(first),
        host.records().contains_key(second),
        first.signature == second.signature,
        claims_signature(host.records()[first].state),
        claims_signature(host.records()[second].state),
    ensures
        first == second,
{
}

/// A generation whose callbacks may enter has run no cleanup phase, and one
/// that was released has run all of them.
pub proof fn law_resources_outlive_callbacks<C>(host: AddonHost<C>, owner: OwnerToken)
    requires
        host.wf(),
        host.records().contains_key(owner),
    ensures
        host.records()[owner].admits_callbacks ==> host.records()[owner].cleanup_cursor == 0,
        host.records()[owner].state == LifecycleState::Unloaded ==> host.records()[owner].cleanup_cursor
            == 3,
{
}

/// A drain that the wait for callbacks ended never touches owned resources,
/// and a later drain starts at the phase after the last one that succeeded.
pub proof fn law_timeout_keeps_resources<C: RegistrationCleaner>(
    before: C,
    owner: OwnerToken,
    start: nat,
    cursor: nat,
    after: C,
)
    requires
        start <= 3,
        drains(
            before,
            owner,
            start,
            cursor,
            after,
            Err::<(), HostError>(HostError::DrainTimedOut { owner }),
        ),
    ensures
        start < 3 ==> cursor <= CleanupPhase::PRE_DRAIN_COUNT,
        start <= cursor,
        cleans(before, owner, start, cursor, after),
{
}

/// Cleanup withdraws hooks first, callbacks next, and resources last; waiting
/// comes between callbacks and resources.
pub proof fn law_resources_are_cleaned_last(cursor: nat)
    ensures
        phase_at(cursor) is HookRegistrations <==> cursor == 0,
        phase_at(cursor) is CallbackRegistrations <==> cursor == 1,
        phase_at(cursor) is OwnedResources <==> cursor >= 2,
        cursor < 2 ==> before_waiting(cursor) == 2,
        cursor >= 2 ==> before_waiting(cursor) == cursor,
        cursor < 3 ==> before_waiting(cursor) < 3,
{
}

/// A generation claims its signature until its module is released or its
/// activation failed.
pub proof fn law_a_signature_is_claimed_until_the_end(state: LifecycleState)
    ensures
        claims_signature(state) <==> !(state is Unloaded) && !(state is Failed),
{
}

/// An add-on is admitted exactly where its signature is free, hot reloading is
/// not asked of one that forbids it or is for launch only, and a generation is
/// left; what fails is named in this order.
pub proof fn law_admissions_are_refused_in_order<C>(
    host: AddonHost<C>,
    definition: DefinitionView,
    mode: LoadMode,
)
    ensures
        ({
            let failure = host.admission_failure(definition, mode);
            let signature = definition.signature;
            let taken = host.active().contains_key(signature);
            let forbidden = mode is HotReload && (definition.flags.disable_hot_loading
                || definition.flags.launch_only);
            &&& failure is None <==> !taken && !forbidden && host.last(signature) < u64::MAX
            &&& taken ==> (failure matches Some(HostError::DuplicateSignature {
                signature: named,
                existing,
            }) && named == signature && existing == host.active()[signature])
            &&& !taken && forbidden ==> (failure matches Some(HostError::HotReloadForbidden {
                signature: named,
            }) && named == signature)
            &&& !taken && !forbidden && host.last(signature) == u64::MAX ==> (failure matches Some(
                HostError::GenerationExhausted { signature: named },
            ) && named == signature)
        }),
{
}

/// An admitted add-on is recorded as discovered, in the mode that it was
/// admitted in, with its callbacks open and nothing cleaned, under its own
/// signature and the next generation; every other record stays.
pub proof fn law_an_admitted_add_on_is_discovered<C>(
    before: AddonHost<C>,
    after: AddonHost<C>,
    definition: DefinitionView,
    mode: LoadMode,
    owner: OwnerToken,
    other: OwnerToken,
)
    requires
        before.admits(after, definition, mode, Ok(owner)),
    ensures
        owner.signature == definition.signature,
        owner.generation == before.last(definition.signature) + 1,
        after.records().contains_key(owner),
        after.records()[owner].definition == definition,
        after.records()[owner].load_mode == mode,
        after.records()[owner].state is Discovered,
        after.records()[owner].admits_callbacks,
        after.records()[owner].cleanup_cursor == 0,
        after.active().contains_key(definition.signature),
        after.active()[definition.signature] == owner,
        other != owner ==> (after.records().contains_key(other)
            <==> before.records().contains_key(other)),
        other != owner && before.records().contains_key(other) ==> after.records()[other]
            == before.records()[other],
{
}

/// A refused admission changes nothing.
pub proof fn law_a_refused_admission_changes_nothing<C>(
    before: AddonHost<C>,
    after: AddonHost<C>,
    definition: DefinitionView,
    mode: LoadMode,
    error: HostError,
)
    requires
        before.admits(after, definition, mode, Err(error)),
    ensures
        after == before,
        before.admission_failure(definition, mode) == Some(error),
{
}

/// An owner is refused where it is not known, and where it is in neither of the
/// states that a step asks for, with the state that it is in.
pub proof fn law_refusals_name_the_actual_state<C>(
    host: AddonHost<C>,
    owner: OwnerToken,
    first: LifecycleState,
    second: LifecycleState,
    expected: &'static str,
)
    ensures
        ({
            let refusal = host.refusal(owner, first, second, expected);
            let known = host.records().contains_key(owner);
            let state = host.records()[owner].state;
            &&& refusal is None <==> known && (state == first || state == second)
            &&& !known ==> (refusal matches Some(HostError::UnknownOwner { owner: named }) && named
                == owner)
            &&& known && refusal is Some ==> (refusal matches Some(HostError::InvalidTransition {
                owner: named,
                expected: asked,
                actual,
            }) && named == owner && asked == expected && actual == state)
        }),
{
}

/// A retired generation frees its signature and keeps its record; other records
/// and other signatures stay.
pub proof fn law_a_retired_generation_frees_its_signature<C>(
    before: AddonHost<C>,
    after: AddonHost<C>,
    owner: OwnerToken,
    record: RecordView,
    other: OwnerToken,
)
    requires
        before.retires(after, owner, record),
    ensures
        !after.active().contains_key(owner.signature),
        after.records()[owner] == record,
        other.signature != owner.signature ==> (after.active().contains_key(other.signature)
            <==> before.active().contains_key(other.signature)),
        other != owner && before.records().contains_key(other) ==> after.records()[other]
            == before.records()[other],
        after.last(owner.signature) == before.last(owner.signature),
{
}

/// A drain ends with every phase cleaned, at the wait where it timed out, or in
/// the phase that failed, which the error names.
pub proof fn law_a_drain_ends_where_it_stopped<C: RegistrationCleaner>(
    before: C,
    owner: OwnerToken,
    start: nat,
    cursor: nat,
    after: C,
    result: Result<(), HostError>,
)
    requires
        start <= 3,
        drains(before, owner, start, cursor, after, result),
    ensures
        result is Ok ==> cursor == 3,
        result matches Err(HostError::DrainTimedOut { owner: late }) ==> late == owner && cursor
            >= 2,
        result matches Err(HostError::Cleanup { owner: failed, phase, .. }) ==> failed == owner
            && phase == phase_at(cursor) && start <= cursor < 3,
        result matches Err(error) ==> error is DrainTimedOut || error is Cleanup,
        start <= cursor <= 3,
{
}

/// Each state is known by its own name, and no two share one.
pub proof fn law_each_state_has_its_name(state: LifecycleState)
    ensures
        state_text(state) == "Discovered"@ <==> state is Discovered,
        state_text(state) == "Loaded"@ <==> state is Loaded,
        state_text(state) == "UnloadRequested"@ <==> state is UnloadRequested,
        state_text(state) == "Draining"@ <==> state is Draining,
        state_text(state) == "Unloaded"@ <==> state is Unloaded,
        state_text(state) == "Failed"@ <==> state is Failed,
{
    reveal_strlit("Discovered");
    assert("Discovered"@.len() == 10);
    reveal_strlit("Loaded");
    assert("Loaded"@.len() == 6);
    reveal_strlit("UnloadRequested");
    assert("UnloadRequested"@.len() == 15);
    reveal_strlit("Draining");
    assert("Draining"@.len() == 8);
    reveal_strlit("Unloaded");
    assert("Unloaded"@.len() == 8);
    reveal_strlit("Failed");
    assert("Failed"@.len() == 6);
    assert("Loaded"@[0] != "Failed"@[0]);
    assert("Draining"@[0] != "Unloaded"@[0]);
}

/// Each phase is known by its own name, and no two share one.
pub proof fn law_each_phase_has_its_name(phase: CleanupPhase)
    ensures
        phase_text(phase) == "HookRegistrations"@ <==> phase is HookRegistrations,
        phase_text(phase) == "CallbackRegistrations"@ <==> phase is CallbackRegistrations,
        phase_text(phase) == "OwnedResources"@ <==> phase is OwnedResources,
{
    reveal_strlit("HookRegistrations");
    assert("HookRegistrations"@.len() == 17);
    reveal_strlit("CallbackRegistrations");
    assert("CallbackRegistrations"@.len() == 21);
    reveal_strlit("OwnedResources");
    assert("OwnedResources"@.len() == 14);
}

} // verus!
