use std::cell::Cell;
use std::collections::HashMap;

use nexus::host::api_table::{ApiRevision, ApiTableCatalog, ApiTableError, ApiTables};
use nexus::host::definition::{
    validate_and_copy_definition, validate_header, AddonDefinition, AddonDefinitionFlags,
    DefinitionError, DefinitionLease, LiveAddonModule, MetadataField, MetadataLimits,
    ModuleAccessError, ModuleMemory, ModuleReadError, UpdateProvider, Version,
};
use nexus::host::lifecycle::{
    AddonHost, CleanupError, CleanupPhase, HostError, LifecycleState, LoadMode, OwnerToken,
    RegistrationCleaner, UnloadReason,
};

const NO_FLAGS: AddonDefinitionFlags = AddonDefinitionFlags {
    disable_hot_loading: false,
    launch_only: false,
    other_bits: 0,
};

const DISABLE_HOT_LOADING: AddonDefinitionFlags = AddonDefinitionFlags {
    disable_hot_loading: true,
    launch_only: false,
    other_bits: 0,
};

const LAUNCH_ONLY: AddonDefinitionFlags = AddonDefinitionFlags {
    disable_hot_loading: false,
    launch_only: true,
    other_bits: 0,
};

fn load_stub() {}

fn unload_stub() {}

fn load_address() -> usize {
    load_stub as fn() as usize
}

fn unload_address() -> usize {
    unload_stub as fn() as usize
}

fn empty_tables() -> ApiTables {
    ApiTables {
        v1: vec![0; 32],
        v2: vec![0; 42],
        v3: vec![0; 45],
        v4: vec![0; 51],
        v5: vec![0; 53],
        v6: vec![0; 62],
    }
}

#[derive(Default)]
struct FakeMemory {
    entries: HashMap<usize, Box<[u8]>>,
    ignore_bound: bool,
    next: usize,
}

impl FakeMemory {
    fn insert(&mut self, bytes: &[u8]) -> usize {
        let bytes: Box<[u8]> = bytes.into();
        let address = bytes.as_ptr() as usize;
        self.next += 1;
        self.entries.insert(address, bytes);
        address
    }
}

impl ModuleMemory for FakeMemory {
    fn read_bounded(&self, address: usize, maximum_bytes: usize) -> Result<&[u8], ModuleReadError> {
        let bytes = self
            .entries
            .get(&address)
            .ok_or_else(|| ModuleReadError::new("address is outside the fake module"))?;
        if self.ignore_bound {
            return Ok(bytes);
        }
        Ok(&bytes[..bytes.len().min(maximum_bytes)])
    }
}

struct FakeModule {
    definition: AddonDefinition,
    memory: FakeMemory,
    live: Cell<bool>,
}

impl FakeModule {
    fn valid() -> Self {
        let mut memory = FakeMemory::default();
        let name = memory.insert(b"Example\0");
        let author = memory.insert(b"Author\0");
        let description = memory.insert(b"Description\0");
        let update_link = memory.insert(b"https://example.invalid/addon\0");
        Self {
            definition: AddonDefinition {
                signature: 0x1234,
                api_version: 6,
                name,
                version: Version { major: 1, minor: 2, build: 3, revision: 4 },
                author,
                description,
                load: load_address(),
                unload: unload_address(),
                flags: NO_FLAGS,
                provider: UpdateProvider { value: 3 },
                update_link,
            },
            memory,
            live: Cell::new(true),
        }
    }

    fn new(signature: u32, flags: AddonDefinitionFlags) -> Self {
        let mut module = Self::valid();
        module.definition.signature = signature;
        module.definition.version = Version { major: 1, minor: 0, build: 0, revision: 0 };
        module.definition.flags = flags;
        module.definition.provider = UpdateProvider { value: 0 };
        module.definition.update_link = 0;
        module
    }
}

impl Drop for FakeModule {
    fn drop(&mut self) {
        self.live.set(false);
        for bytes in self.memory.entries.values_mut() {
            bytes.fill(0xDD);
        }
    }
}

impl LiveAddonModule for FakeModule {
    type Memory = FakeMemory;

    fn definition(&self) -> Result<DefinitionLease<'_, FakeMemory>, ModuleAccessError> {
        if !self.live.get() {
            return Err(ModuleAccessError::new("module is no longer live"));
        }
        Ok(DefinitionLease::new(&self.definition, &self.memory))
    }
}

#[derive(Default)]
struct RecordingCleaner {
    calls: Vec<(OwnerToken, CleanupPhase)>,
    failing: Option<CleanupPhase>,
}

impl RegistrationCleaner for RecordingCleaner {
    fn cleanup(&mut self, owner: OwnerToken, phase: CleanupPhase) -> Result<(), CleanupError> {
        self.calls.push((owner, phase));
        if self.failing == Some(phase) {
            return Err(CleanupError::new("registry is busy"));
        }
        Ok(())
    }
}

fn phases(host: &AddonHost<RecordingCleaner>) -> Vec<CleanupPhase> {
    host.cleaner().calls.iter().map(|(_, phase)| *phase).collect()
}

#[test]
fn all_revision_layouts_match_the_x64_abi() {
    let expected_sizes = [32 * 8, 42 * 8, 45 * 8, 51 * 8, 53 * 8, 62 * 8];

    for (revision, expected_size) in ApiRevision::ALL.into_iter().zip(expected_sizes) {
        assert_eq!(revision.layout().size(), expected_size);
        assert_eq!(revision.layout().align(), 8);
    }
}

#[test]
fn each_revision_has_one_stable_zeroed_allocation() {
    let catalog = ApiTableCatalog::new().expect("x64 layouts should allocate");
    assert!(!catalog.is_populated());

    for revision in ApiRevision::ALL {
        let first = catalog.get(revision);
        let second = catalog.get(revision);
        assert_eq!(first.words().as_ptr(), second.words().as_ptr());
        assert_eq!(first.words().as_ptr().align_offset(std::mem::align_of::<usize>()), 0);
        assert!(first.words().iter().all(|word| *word == 0));
        assert_eq!(first.words().len() * 8, revision.layout().size());
    }

    for pair in ApiRevision::ALL.windows(2) {
        assert_ne!(
            catalog.get(pair[0]).words().as_ptr(),
            catalog.get(pair[1]).words().as_ptr()
        );
    }
}

#[test]
fn typed_tables_are_copied_into_pinned_storage() {
    let mut tables = empty_tables();
    let marker = 0x1234_u64;
    tables.v1[0] = marker;
    tables.v6[1] = marker;
    let catalog = ApiTableCatalog::from_tables(tables).expect("x64 layouts should copy");

    assert!(catalog.is_populated());
    assert_eq!(catalog.get(ApiRevision::V1).words()[0], marker);
    assert_eq!(catalog.get(ApiRevision::V6).words()[1], marker);
    assert_eq!(catalog.get(ApiRevision::V1).words()[1], 0);
    assert_eq!(catalog.get(ApiRevision::V6).revision(), ApiRevision::V6);
}

#[test]
fn rejects_unknown_revisions() {
    assert!(ApiRevision::try_from(0).is_err());
    assert!(ApiRevision::try_from(7).is_err());
}

#[test]
fn revisions_are_selected_by_their_number() {
    for (number, revision) in (1_u32..=6).zip(ApiRevision::ALL) {
        assert_eq!(ApiRevision::try_from(number), Ok(revision));
    }
    let refused = ApiRevision::try_from(7).expect_err("seven is unknown");
    assert_eq!(refused, ApiTableError::UnsupportedRevision { requested: 7 });
    assert_eq!(refused.to_string(), "unsupported add-on API revision 7; supported revisions are 1 through 6");
}

#[test]
fn metadata_is_owned_before_the_module_lease_ends() {
    let owned = {
        let module = FakeModule::valid();
        validate_and_copy_definition(&module, MetadataLimits::default())
            .expect("valid metadata should copy")
    };

    assert_eq!(owned.name(), "Example");
    assert_eq!(owned.author(), "Author");
    assert_eq!(owned.description(), "Description");
    assert_eq!(owned.update_link(), Some("https://example.invalid/addon"));
    assert_eq!(owned.signature(), 0x1234);
    assert_eq!(owned.api_revision(), ApiRevision::V6);
    assert_eq!(owned.version(), Version { major: 1, minor: 2, build: 3, revision: 4 });
    assert_eq!(owned.provider(), UpdateProvider { value: 3 });
    assert!(owned.has_unload_callback());
}

#[test]
fn rejects_null_required_metadata() {
    let mut module = FakeModule::valid();
    module.definition.author = 0;

    let error = validate_and_copy_definition(&module, MetadataLimits::default())
        .expect_err("null author must fail");
    assert_eq!(error, DefinitionError::NullMetadata { field: MetadataField::Author });
}

#[test]
fn rejects_invalid_utf8() {
    let mut module = FakeModule::valid();
    module.definition.name = module.memory.insert(&[0xFF, 0]);

    let error = validate_and_copy_definition(&module, MetadataLimits::default())
        .expect_err("invalid UTF-8 must fail");
    assert_eq!(error, DefinitionError::InvalidUtf8 { field: MetadataField::Name });
}

#[test]
fn rejects_metadata_without_a_bounded_terminator() {
    let mut module = FakeModule::valid();
    module.definition.description = module.memory.insert(&[b'x'; 9]);
    let limits = MetadataLimits::new(8, 8, 8, 8).expect("small limits are valid");

    let error = validate_and_copy_definition(&module, limits)
        .expect_err("unterminated metadata must fail");
    assert_eq!(
        error,
        DefinitionError::UnterminatedMetadata { field: MetadataField::Description, maximum: 8 }
    );
}

#[test]
fn rejects_a_reader_that_ignores_the_requested_bound() {
    let mut module = FakeModule::valid();
    module.memory.ignore_bound = true;
    let limits = MetadataLimits::new(4, 32, 32, 64).expect("small limits are valid");

    let error = validate_and_copy_definition(&module, limits)
        .expect_err("oversized reader result must fail");
    assert!(matches!(
        error,
        DefinitionError::ReaderExceededBound { field: MetadataField::Name, requested: 5, .. }
    ));
}

#[test]
fn rejects_unsafe_limit_configurations() {
    assert!(MetadataLimits::new(usize::MAX, 1, 1, 1).is_err());
}

#[test]
fn permits_missing_unload_only_for_locked_lifetimes() {
    let mut module = FakeModule::valid();
    module.definition.unload = 0;
    assert!(matches!(
        validate_and_copy_definition(&module, MetadataLimits::default()),
        Err(DefinitionError::MissingUnloadCallback)
    ));

    module.definition.flags = DISABLE_HOT_LOADING;
    let owned = validate_and_copy_definition(&module, MetadataLimits::default())
        .expect("locked lifetime may omit unload callback");
    assert!(!owned.has_unload_callback());
}

#[test]
fn text_of_the_largest_accepted_size_is_copied() {
    let mut module = FakeModule::valid();
    module.definition.description = module.memory.insert(b"12345678\0");
    module.definition.name = module.memory.insert("G\u{fc}n\0".as_bytes());
    module.definition.update_link = module.memory.insert(b"\0");
    let limits = MetadataLimits::new(8, 8, 8, 8).expect("small limits are valid");

    let owned = validate_and_copy_definition(&module, limits).expect("the text fits exactly");
    assert_eq!(owned.description(), "12345678");
    assert_eq!(owned.name(), "G\u{fc}n");
    assert_eq!(owned.update_link(), None);
    assert_eq!(limits.for_field(MetadataField::UpdateLink), 8);
}

#[test]
fn definition_failures_are_told_apart() {
    let mut module = FakeModule::valid();
    module.definition.signature = 0;
    assert_eq!(validate_header(&module.definition), Err(DefinitionError::ZeroSignature));

    let mut module = FakeModule::valid();
    module.definition.load = 0;
    assert_eq!(validate_header(&module.definition), Err(DefinitionError::MissingLoadCallback));

    let mut module = FakeModule::valid();
    module.definition.api_version = 9;
    assert_eq!(
        validate_header(&module.definition),
        Err(DefinitionError::ApiRevision(ApiTableError::UnsupportedRevision { requested: 9 }))
    );

    let mut module = FakeModule::valid();
    module.definition.name = 1;
    let error = validate_and_copy_definition(&module, MetadataLimits::default())
        .expect_err("the address is unknown");
    assert_eq!(
        error,
        DefinitionError::MemoryRead {
            field: MetadataField::Name,
            source: ModuleReadError::new("address is outside the fake module"),
        }
    );

    let module = FakeModule::valid();
    module.live.set(false);
    let error = validate_and_copy_definition(&module, MetadataLimits::default())
        .expect_err("the module is gone");
    assert_eq!(
        error,
        DefinitionError::ModuleAccess(ModuleAccessError::new("module is no longer live"))
    );
    assert!(error.to_string().contains("module is no longer live"));
}

#[test]
fn lifecycle_drains_registrations_in_safety_order() {
    let module = FakeModule::new(7, NO_FLAGS);
    let mut host = AddonHost::new(RecordingCleaner::default()).expect("host should allocate");
    let owner = host
        .discover(&module, LoadMode::Initial, MetadataLimits::default())
        .expect("definition should be discovered");

    assert_eq!(
        host.record(owner).map(|record| record.state()),
        Some(LifecycleState::Discovered)
    );
    host.acknowledge_loaded(owner).expect("activation acknowledgement should work");
    host.request_unload(owner, UnloadReason::Runtime).expect("runtime unload should be accepted");
    assert_eq!(
        host.record(owner).map(|record| record.state()),
        Some(LifecycleState::UnloadRequested)
    );
    host.drain_registrations(owner, |_| true).expect("empty gate should drain");
    assert_eq!(
        host.record(owner).map(|record| record.state()),
        Some(LifecycleState::Draining)
    );

    assert!(host.cleaner().calls.iter().all(|(called_owner, _)| *called_owner == owner));
    assert_eq!(phases(&host), CleanupPhase::ORDER);

    host.acknowledge_module_released(owner, 0)
        .expect("release acknowledgement should work after drain");
    assert_eq!(
        host.record(owner).map(|record| record.state()),
        Some(LifecycleState::Unloaded)
    );
    assert_eq!(host.active_owner(owner.signature), None);
}

#[test]
fn timeout_keeps_resources_and_successful_phases_safe_for_retry() {
    let module = FakeModule::new(14, NO_FLAGS);
    let mut host = AddonHost::new(RecordingCleaner::default()).expect("host should allocate");
    let owner = host
        .discover(&module, LoadMode::Initial, MetadataLimits::default())
        .expect("definition should be discovered");
    host.acknowledge_loaded(owner).expect("activation acknowledgement should work");
    assert_eq!(host.callback_gate(owner), Ok(true));

    host.request_unload(owner, UnloadReason::Runtime).expect("unload should close ingress");
    assert_eq!(host.callback_gate(owner), Ok(false));
    assert_eq!(
        host.drain_registrations(owner, |cleaner| {
            let waiting: Vec<CleanupPhase> =
                cleaner.calls.iter().map(|(_, phase)| *phase).collect();
            assert_eq!(
                waiting,
                [CleanupPhase::HookRegistrations, CleanupPhase::CallbackRegistrations]
            );
            false
        }),
        Err(HostError::DrainTimedOut { owner })
    );
    assert_eq!(
        phases(&host),
        [CleanupPhase::HookRegistrations, CleanupPhase::CallbackRegistrations]
    );
    assert_eq!(
        host.acknowledge_module_released(owner, 1),
        Err(HostError::DrainIncomplete { owner })
    );

    host.drain_registrations(owner, |cleaner| cleaner.calls.len() == 2)
        .expect("retry should finish after the callback leaves");
    assert_eq!(phases(&host), CleanupPhase::ORDER);
}

#[test]
fn a_failed_phase_is_the_one_that_is_retried() {
    let module = FakeModule::new(15, NO_FLAGS);
    let cleaner = RecordingCleaner {
        calls: Vec::new(),
        failing: Some(CleanupPhase::CallbackRegistrations),
    };
    let mut host = AddonHost::new(cleaner).expect("host should allocate");
    let owner = host
        .discover(&module, LoadMode::Initial, MetadataLimits::default())
        .expect("definition should be discovered");
    host.acknowledge_loaded(owner).expect("activation acknowledgement should work");
    host.request_unload(owner, UnloadReason::Shutdown).expect("shutdown is always accepted");

    let error = host.drain_registrations(owner, |_| true).expect_err("the second phase fails");
    assert_eq!(
        error,
        HostError::Cleanup {
            owner,
            phase: CleanupPhase::CallbackRegistrations,
            source: CleanupError::new("registry is busy"),
        }
    );
    assert_eq!(
        error.to_string(),
        "owner OwnerToken { signature: 15, generation: 1 } failed cleanup phase \
         CallbackRegistrations: registry is busy"
    );
    assert_eq!(
        host.record(owner).map(|record| record.completed_cleanup_phases()),
        Some(1)
    );
    let _ = host.drain_registrations(owner, |_| true);
    assert_eq!(
        phases(&host),
        [
            CleanupPhase::HookRegistrations,
            CleanupPhase::CallbackRegistrations,
            CleanupPhase::CallbackRegistrations
        ]
    );
}

#[test]
fn disable_hot_loading_blocks_runtime_but_not_shutdown_cleanup() {
    let module = FakeModule::new(8, DISABLE_HOT_LOADING);
    let mut host = AddonHost::new(()).expect("host should allocate");
    let owner = host
        .discover(&module, LoadMode::Initial, MetadataLimits::default())
        .expect("initial discovery should work");
    host.acknowledge_loaded(owner).expect("activation acknowledgement should work");

    assert_eq!(
        host.request_unload(owner, UnloadReason::Runtime),
        Err(HostError::RuntimeUnloadForbidden { owner })
    );
    host.request_unload(owner, UnloadReason::Shutdown)
        .expect("shutdown cleanup must remain possible");
}

#[test]
fn launch_only_and_locked_addons_cannot_hot_reload() {
    for (signature, flags) in [(9, LAUNCH_ONLY), (10, DISABLE_HOT_LOADING)] {
        let module = FakeModule::new(signature, flags);
        let mut host = AddonHost::new(()).expect("host should allocate");
        assert_eq!(
            host.discover(&module, LoadMode::HotReload, MetadataLimits::default()),
            Err(HostError::HotReloadForbidden { signature })
        );
    }
}

#[test]
fn generations_are_isolated_after_release() {
    let module = FakeModule::new(11, NO_FLAGS);
    let mut host = AddonHost::new(RecordingCleaner::default()).expect("host should allocate");
    let first = host
        .discover(&module, LoadMode::Initial, MetadataLimits::default())
        .expect("first generation should discover");
    host.acknowledge_loaded(first).expect("first should activate");
    host.request_unload(first, UnloadReason::Runtime).expect("first should request unload");
    host.drain_registrations(first, |_| true).expect("first should drain");
    host.acknowledge_module_released(first, 0).expect("first should finish");

    let second = host
        .discover(&module, LoadMode::HotReload, MetadataLimits::default())
        .expect("second generation should discover");
    assert_eq!(second.signature, first.signature);
    assert_eq!(second.generation, first.generation + 1);
    assert_eq!(host.active_owner(second.signature), Some(second));
    assert_eq!(
        host.record(first).map(|record| record.state()),
        Some(LifecycleState::Unloaded)
    );
    assert_eq!(
        host.record(second).map(|record| record.state()),
        Some(LifecycleState::Discovered)
    );
    assert!(matches!(
        host.acknowledge_loaded(first),
        Err(HostError::InvalidTransition { owner, .. }) if owner == first
    ));
    assert!(host
        .cleaner()
        .calls
        .iter()
        .all(|(cleaned_owner, _)| *cleaned_owner == first));
}

#[test]
fn failed_discovery_acknowledgement_releases_the_signature_only() {
    let module = FakeModule::new(12, NO_FLAGS);
    let mut host = AddonHost::new(()).expect("host should allocate");
    let failed = host
        .discover(&module, LoadMode::Initial, MetadataLimits::default())
        .expect("generation should discover");
    host.acknowledge_activation_failed(failed).expect("pre-load failure should be accepted");
    assert_eq!(
        host.record(failed).map(|record| record.state()),
        Some(LifecycleState::Failed)
    );

    let next = host
        .discover(&module, LoadMode::Initial, MetadataLimits::default())
        .expect("signature should be available after acknowledged failure");
    assert_eq!(next.generation, failed.generation + 1);
    host.cancel_discovery(next).expect("an unactivated discovery can be cancelled");
    assert!(host.record(next).is_none());

    let after_cancel = host
        .discover(&module, LoadMode::Initial, MetadataLimits::default())
        .expect("signature should be available after cancelled discovery");
    assert_eq!(after_cancel.generation, next.generation + 1);
}

#[test]
fn api_table_is_selected_without_per_generation_allocation() {
    let module = FakeModule::new(13, NO_FLAGS);
    let mut host = AddonHost::new(()).expect("host should allocate");
    let owner = host
        .discover(&module, LoadMode::Initial, MetadataLimits::default())
        .expect("generation should discover");
    let first = host.api_table(owner).expect("table should exist");
    let second = host.api_table(owner).expect("table should remain available");

    assert_eq!(first.revision(), ApiRevision::V6);
    assert_eq!(first.words().as_ptr(), second.words().as_ptr());
}

#[test]
fn a_live_generation_keeps_its_signature() {
    let module = FakeModule::new(16, NO_FLAGS);
    let mut host = AddonHost::new(()).expect("host should allocate");
    let owner = host
        .discover(&module, LoadMode::Initial, MetadataLimits::default())
        .expect("generation should discover");
    let refused = host
        .discover(&module, LoadMode::Initial, MetadataLimits::default())
        .expect_err("the signature is taken");
    assert_eq!(refused, HostError::DuplicateSignature { signature: 16, existing: owner });
    assert_eq!(
        refused.to_string(),
        "add-on signature 0x00000010 is already active as OwnerToken { signature: 16, \
         generation: 1 }"
    );
    let unknown = OwnerToken { signature: 17, generation: 1 };
    assert_eq!(
        host.acknowledge_loaded(unknown),
        Err(HostError::UnknownOwner { owner: unknown })
    );
    assert!(!host.api_tables_populated());
    let populated = ApiTableCatalog::from_tables(empty_tables()).expect("tables are complete");
    assert!(AddonHost::with_api_tables((), populated).api_tables_populated());
}
