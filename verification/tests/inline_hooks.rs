use std::collections::HashMap;

use nexus::host::lifecycle::OwnerToken;
use nexus::inline_hooks::quiescence::{
    after_resume, enumeration_ended, flush_window, judge_thread, rip_in_patch_window,
    suspends_thread, AfterAttempt, AfterResume, Attempts, QuiescenceError, ERROR_NO_MORE_FILES,
};
use nexus::inline_hooks::scan::{ListedThread, PeerScan, ScanReply, ScanStep};
use nexus::inline_hooks::service::{is_executable, InlineHookService, Patching, Selection};
use nexus::inline_hooks::status::{
    map_create_error, map_toggle_error, DetourError, MH_ERROR_ALREADY_CREATED,
    MH_ERROR_ALREADY_INITIALIZED, MH_ERROR_DISABLED, MH_ERROR_ENABLED, MH_ERROR_MEMORY_ALLOC,
    MH_ERROR_MEMORY_PROTECT, MH_ERROR_NOT_CREATED, MH_ERROR_NOT_EXECUTABLE,
    MH_ERROR_NOT_INITIALIZED, MH_ERROR_UNSUPPORTED_FUNCTION, MH_OK, MH_UNKNOWN, MinHookStatus,
};
use nexus::inline_hooks::unsupported::InlineHookService as UnsupportedService;

const DONE: Patching = Patching { quiesced: true, completed: 0, failure: None };

/// A process with patchable functions.
struct Machine {
    service: InlineHookService,
    functions: HashMap<usize, i32>,
    detours: HashMap<usize, i32>,
    patched: HashMap<usize, bool>,
}

impl Machine {
    fn new() -> Self {
        Self {
            service: InlineHookService::new(),
            functions: HashMap::new(),
            detours: HashMap::new(),
            patched: HashMap::new(),
        }
    }

    fn create(
        &mut self,
        owner: OwnerToken,
        target: usize,
        detour: usize,
    ) -> Result<usize, MinHookStatus> {
        let target_executable = self.functions.contains_key(&target);
        let detour_executable = self.functions.contains_key(&detour);
        let created =
            if target == detour { Err(DetourError::SameAddress) } else { Ok(target + 0x10_000) };
        let trampoline = self.service.create_hook(
            owner,
            target,
            target_executable,
            detour_executable,
            true,
            created,
        )?;
        self.detours.insert(target, self.functions[&detour]);
        self.patched.insert(target, false);
        Ok(trampoline)
    }

    fn change(&mut self, target: usize, enable: bool) -> MinHookStatus {
        let completed = match self.service.plan_change(target, enable) {
            Ok(targets) => {
                for planned in &targets {
                    self.patched.insert(*planned, enable);
                }
                targets.len()
            }
            Err(_) => 0,
        };
        let patching = Patching { quiesced: true, completed, failure: None };
        if enable {
            self.service.enable_hook(target, patching)
        } else {
            self.service.disable_hook(target, patching)
        }
    }

    fn remove(&mut self, target: usize) -> MinHookStatus {
        let status = self.service.remove_hook(target, true, Ok(()));
        if status == MH_OK {
            self.patched.insert(target, false);
        }
        status
    }

    fn retire_all(&mut self) -> MinHookStatus {
        let targets = self.service.collect_keys(Selection::All);
        for target in &targets {
            self.patched.insert(*target, false);
        }
        let patching = Patching { quiesced: true, completed: targets.len(), failure: None };
        self.service.uninitialize(patching)
    }

    fn invoke(&self, target: usize, value: i32) -> i32 {
        if self.patched.get(&target) == Some(&true) {
            self.detours[&target] + value
        } else {
            self.functions[&target] + value
        }
    }
}

fn owner(generation: u64) -> OwnerToken {
    OwnerToken { signature: 42, generation }
}

#[test]
fn patch_window_is_bounded_and_saturating() {
    let target = 16;
    assert!(rip_in_patch_window(0, &[target]));
    assert!(rip_in_patch_window(79, &[target]));
    assert!(!rip_in_patch_window(80, &[target]));
}

#[test]
fn a_patch_window_holds_its_target_and_does_not_wrap() {
    assert!(rip_in_patch_window(0x5000, &[0x100, 0x5000]));
    assert!(rip_in_patch_window(0x4fe0, &[0x5000]));
    assert!(!rip_in_patch_window(0x4fdf, &[0x5000]));
    assert!(!rip_in_patch_window(0, &[usize::MAX - 1]));
    assert!(rip_in_patch_window(usize::MAX - 1, &[usize::MAX - 1]));
    assert_eq!(flush_window(0x5000), (0x4fe0, 96));
    assert_eq!(flush_window(16), (0, 96));
}

#[test]
fn quiescence_is_tried_a_bounded_number_of_times() {
    let mut attempts = Attempts::begin();
    for _ in 0..7 {
        assert_eq!(
            attempts.after(Err(QuiescenceError::TargetBusy)),
            AfterAttempt::Retry
        );
    }
    assert_eq!(
        attempts.after(Err(QuiescenceError::Snapshot)),
        AfterAttempt::GiveUp(QuiescenceError::Snapshot)
    );
    assert_eq!(Attempts::begin().after(Ok(())), AfterAttempt::Acquired);

    assert!(suspends_thread(7, 11, 7, 12));
    assert!(!suspends_thread(7, 12, 7, 12));
    assert!(!suspends_thread(8, 11, 7, 12));
    assert_eq!(judge_thread(Ok(0x5000), &[0x5000]), Err(QuiescenceError::TargetBusy));
    assert_eq!(judge_thread(Ok(0x9000), &[0x5000]), Ok(()));
    assert_eq!(judge_thread(Err(5), &[0x5000]), Err(QuiescenceError::ThreadContext(5)));
    assert_eq!(enumeration_ended(18), Ok(()));
    assert_eq!(enumeration_ended(5), Err(QuiescenceError::Enumeration));
    assert_eq!(after_resume(0, u32::MAX, false), AfterResume::Retry);
    assert_eq!(after_resume(63, u32::MAX, false), AfterResume::Abort);
    assert_eq!(after_resume(63, u32::MAX, true), AfterResume::Done);
    assert_eq!(after_resume(0, 1, false), AfterResume::Done);
}

#[test]
fn every_operation_is_deterministically_unsupported() {
    let service = UnsupportedService::new();
    let owner = OwnerToken { signature: 1, generation: 2 };
    let target = 1;

    assert_eq!(service.initialize(), MH_ERROR_UNSUPPORTED_FUNCTION);
    assert_eq!(
        service.create_hook(owner, target, target),
        Err(MH_ERROR_UNSUPPORTED_FUNCTION)
    );
    assert_eq!(service.enable_hook(target), MH_ERROR_UNSUPPORTED_FUNCTION);
    assert_eq!(service.disable_hook(target), MH_ERROR_UNSUPPORTED_FUNCTION);
    assert_eq!(service.remove_hook(target), MH_ERROR_UNSUPPORTED_FUNCTION);
    assert_eq!(service.uninitialize(), MH_ERROR_UNSUPPORTED_FUNCTION);
    assert_eq!(service.hook_count(), 0);
    assert_eq!(service.owned_hook_count(owner), 0);

    let cleanup = match service.cleanup_owner(owner) {
        Ok(report) => panic!("unexpected cleanup report: {report:?}"),
        Err(error) => error,
    };
    assert_eq!(cleanup.status(), MH_ERROR_UNSUPPORTED_FUNCTION);
    assert_eq!(cleanup.retired(), 0);
    assert_eq!(cleanup.remaining(), 0);

    assert_eq!(
        service.create_hook_transaction(owner, target, target, |_| panic!("never published")),
        MH_ERROR_UNSUPPORTED_FUNCTION
    );
    assert_eq!(service.remove_owned_hook(owner, 0), MH_ERROR_NOT_CREATED);
    assert_eq!(service.remove_owned_hook(owner, target), MH_ERROR_UNSUPPORTED_FUNCTION);
    assert_eq!(service.enable_owned_hook(owner, target), MH_ERROR_UNSUPPORTED_FUNCTION);
    assert_eq!(service.disable_owned_hook(owner, target), MH_ERROR_UNSUPPORTED_FUNCTION);
    assert_eq!(service.preflight_create(target, target), MH_ERROR_UNSUPPORTED_FUNCTION);
    assert_eq!(service.preflight_remove(target), MH_ERROR_UNSUPPORTED_FUNCTION);
    assert_eq!(service.preflight_change(), MH_ERROR_UNSUPPORTED_FUNCTION);
}

#[test]
fn exact_statuses_trampoline_and_single_hook_lifecycle() {
    let mut machine = Machine::new();
    let target = 0x400;
    let detour = 0x900;
    machine.functions.insert(target, 11);
    machine.functions.insert(detour, 101);

    assert_eq!(machine.remove(target), MH_ERROR_NOT_INITIALIZED);
    assert_eq!(machine.change(0, true), MH_ERROR_NOT_INITIALIZED);
    assert_eq!(machine.service.initialize(), MH_OK);
    assert_eq!(machine.service.initialize(), MH_ERROR_ALREADY_INITIALIZED);

    let original = machine.create(owner(1), target, detour).expect("the hook is created");
    assert_eq!(original, target + 0x10_000);
    assert_eq!(machine.service.hook_count(), 1);
    assert_eq!(machine.invoke(target, 5), 16);

    assert_eq!(machine.create(owner(1), target, detour), Err(MH_ERROR_ALREADY_CREATED));

    assert_eq!(machine.change(target, true), MH_OK);
    assert_eq!(machine.invoke(target, 5), 106);
    assert_eq!(machine.change(target, true), MH_ERROR_ENABLED);

    assert_eq!(machine.change(target, false), MH_OK);
    assert_eq!(machine.invoke(target, 5), 16);
    assert_eq!(machine.change(target, false), MH_ERROR_DISABLED);
    assert_eq!(machine.remove(0), MH_ERROR_NOT_CREATED);
    assert_eq!(machine.remove(target), MH_OK);
    assert_eq!(machine.remove(target), MH_ERROR_NOT_CREATED);
    assert_eq!(machine.service.uninitialize(DONE), MH_OK);
    assert_eq!(machine.service.uninitialize(DONE), MH_ERROR_NOT_INITIALIZED);
}

#[test]
fn all_hooks_and_generation_exact_cleanup_are_idempotent() {
    let mut machine = Machine::new();
    let (target_b, target_c) = (0x500, 0x600);
    machine.functions.insert(target_b, 22);
    machine.functions.insert(target_c, 33);
    machine.functions.insert(0x902, 202);
    machine.functions.insert(0x903, 303);
    let first_owner = OwnerToken { signature: 77, generation: 1 };
    let second_owner = OwnerToken { signature: 77, generation: 2 };
    assert_eq!(machine.service.initialize(), MH_OK);
    machine.create(first_owner, target_b, 0x902).expect("the first hook is created");
    machine.create(second_owner, target_c, 0x903).expect("the second hook is created");

    assert_eq!(machine.change(0, true), MH_OK);
    assert_eq!(machine.invoke(target_b, 1), 203);
    assert_eq!(machine.invoke(target_c, 1), 304);
    assert_eq!(machine.change(0, true), MH_OK);
    assert_eq!(machine.change(0, false), MH_OK);
    assert_eq!(machine.invoke(target_b, 1), 23);
    assert_eq!(machine.invoke(target_c, 1), 34);
    assert_eq!(machine.change(0, false), MH_OK);
    assert_eq!(machine.change(0, true), MH_OK);

    let retiring = Patching { quiesced: true, completed: 1, failure: None };
    let report = match machine.service.cleanup_owner(first_owner, retiring) {
        Ok(report) => report,
        Err(error) => panic!("unexpected cleanup error: {}", error.to_string()),
    };
    machine.patched.insert(target_b, false);
    assert_eq!(report.owner(), first_owner);
    assert_eq!(report.retired(), 1);
    assert_eq!(report.remaining(), 0);
    assert_eq!(machine.service.owned_hook_count(first_owner), 0);
    assert_eq!(machine.service.owned_hook_count(second_owner), 1);
    assert_eq!(machine.invoke(target_b, 1), 23);
    assert_eq!(machine.invoke(target_c, 1), 304);

    let retry = match machine.service.cleanup_owner(first_owner, DONE) {
        Ok(report) => report,
        Err(error) => panic!("unexpected retry error: {}", error.to_string()),
    };
    assert_eq!(retry.retired(), 0);
    assert_eq!(machine.remove(target_b), MH_ERROR_NOT_CREATED);

    let second = match machine.service.cleanup_owner(second_owner, retiring) {
        Ok(report) => report,
        Err(error) => panic!("unexpected cleanup error: {}", error.to_string()),
    };
    machine.patched.insert(target_c, false);
    assert_eq!(second.retired(), 1);
    assert_eq!(machine.invoke(target_c, 1), 34);
    assert_eq!(machine.service.hook_count(), 0);
    assert_eq!(machine.service.uninitialize(DONE), MH_OK);
}

#[test]
fn only_enabled_targets_are_suspended() {
    let mut machine = Machine::new();
    for (address, result) in [(0x100, 10), (0x200, 20), (0x300, 30), (0x400, 40)] {
        machine.functions.insert(address, result);
    }
    assert_eq!(machine.service.initialize(), MH_OK);
    assert!(machine.service.enabled_targets(Selection::All).is_empty());
    assert!(machine.create(owner(1), 0x300, 0x400).is_ok());
    assert!(machine.create(owner(2), 0x200, 0x400).is_ok());
    assert!(machine.create(owner(1), 0x100, 0x400).is_ok());
    assert!(machine.service.enabled_targets(Selection::All).is_empty());
    assert_eq!(machine.change(0x300, true), MH_OK);
    assert_eq!(machine.change(0x200, true), MH_OK);
    assert_eq!(machine.service.collect_keys(Selection::All), [0x100, 0x200, 0x300]);
    assert_eq!(machine.service.enabled_targets(Selection::All), [0x200, 0x300]);
    assert_eq!(machine.service.enabled_targets(Selection::Owner(owner(1))), [0x300]);
    assert_eq!(machine.change(0x300, false), MH_OK);
    assert!(machine.service.enabled_targets(Selection::Owner(owner(1))).is_empty());

    let retiring = Patching { quiesced: true, completed: 2, failure: None };
    let report = machine.service.cleanup_owner(owner(1), retiring).expect("both hooks retire");
    assert_eq!(report.retired(), 2);
    assert_eq!(machine.service.enabled_targets(Selection::All), [0x200]);
}

#[test]
fn errors_recover_debug_is_redacted_and_drop_disables() {
    let mut machine = Machine::new();
    let (target, detour) = (0x700, 0x904);
    machine.functions.insert(target, 44);
    machine.functions.insert(detour, 404);
    assert_eq!(machine.service.initialize(), MH_OK);

    assert_eq!(machine.create(owner(9), 0, detour), Err(MH_ERROR_NOT_EXECUTABLE));
    assert_eq!(machine.create(owner(9), target, 0), Err(MH_ERROR_NOT_EXECUTABLE));
    assert_eq!(machine.create(owner(9), 1, detour), Err(MH_ERROR_NOT_EXECUTABLE));
    assert_eq!(machine.create(owner(9), target, target), Err(MH_ERROR_UNSUPPORTED_FUNCTION));
    assert_eq!(machine.service.hook_count(), 0);

    machine.create(owner(9), target, detour).expect("the hook is created");
    assert_eq!(machine.create(owner(9), target, 1), Err(MH_ERROR_NOT_EXECUTABLE));
    let debug = machine.service.describe();
    assert!(debug.contains("hook_count: 1"));
    assert!(!debug.contains("trampoline"));
    assert!(!debug.contains(&format!("{target:x}")));

    assert_eq!(machine.change(target, true), MH_OK);
    assert_eq!(machine.invoke(target, 2), 406);
    assert_eq!(machine.retire_all(), MH_OK);
    assert_eq!(machine.invoke(target, 2), 46);

    let mut second = Machine::new();
    let (target_e, target_f) = (0x710, 0x720);
    second.functions.insert(target_e, 55);
    second.functions.insert(target_f, 66);
    second.functions.insert(0x905, 505);
    second.functions.insert(0x906, 606);
    assert_eq!(second.service.initialize(), MH_OK);
    second.create(owner(10), target_e, 0x905).expect("the first hook is created");
    second.create(owner(10), target_f, 0x906).expect("the second hook is created");
    assert_eq!(second.change(0, true), MH_OK);
    assert_eq!(second.invoke(target_e, 2), 507);
    assert_eq!(second.invoke(target_f, 2), 608);
    assert_eq!(second.retire_all(), MH_OK);
    assert_eq!(second.invoke(target_e, 2), 57);
    assert_eq!(second.invoke(target_f, 2), 68);
}

#[test]
fn failed_transitions_keep_the_registry_for_a_retry() {
    let mut machine = Machine::new();
    machine.functions.insert(0x100, 1);
    machine.functions.insert(0x200, 2);
    machine.functions.insert(0x910, 3);
    assert_eq!(machine.service.initialize(), MH_OK);
    machine.create(owner(3), 0x100, 0x910).expect("the first hook is created");
    machine.create(owner(3), 0x200, 0x910).expect("the second hook is created");
    assert_eq!(
        machine.service.create_hook(owner(3), 0x300, true, true, false, Ok(1)),
        Err(MH_ERROR_MEMORY_ALLOC)
    );

    let busy = Patching { quiesced: false, completed: 0, failure: None };
    assert_eq!(machine.service.enable_hook(0, busy), MH_ERROR_MEMORY_PROTECT);
    let halfway =
        Patching { quiesced: true, completed: 1, failure: Some(DetourError::RegionFailure) };
    assert_eq!(machine.service.enable_hook(0, halfway), MH_ERROR_MEMORY_PROTECT);
    assert_eq!(machine.service.plan_change(0, true), Ok(vec![0x200]));

    let failed = match machine.service.cleanup_owner(owner(3), busy) {
        Ok(report) => panic!("unexpected cleanup report: {report:?}"),
        Err(error) => error,
    };
    assert_eq!(failed.status(), MH_ERROR_MEMORY_PROTECT);
    assert_eq!(failed.owner(), owner(3));
    assert_eq!(failed.remaining(), 2);
    assert_eq!(machine.service.hook_count(), 2);
    let interrupted = machine.service.interrupted_cleanup(owner(3), 5);
    assert_eq!(interrupted.status(), MH_UNKNOWN);
    assert_eq!((interrupted.retired(), interrupted.remaining()), (3, 2));

    assert!(is_executable(0x100, 48, 0x1000, 0x20));
    assert!(!is_executable(0x100, 48, 0x1000, 0x04));
    assert!(!is_executable(0x100, 0, 0x1000, 0x20));
    assert!(!is_executable(0, 48, 0x1000, 0x20));
    assert_eq!(map_create_error(DetourError::OutOfMemory), MH_ERROR_MEMORY_ALLOC);
    assert_eq!(map_toggle_error(DetourError::AlreadyInitialized), MH_ERROR_ENABLED);
}

const PROCESS: u32 = 70;
const THIS_THREAD: u32 = 1;

fn listed(owner: u32, thread: u32) -> ListedThread {
    ListedThread { owner, thread }
}

/// Runs a scan over the listed threads, each of which stands at an address.
fn scan_threads(
    threads: &[(ListedThread, usize)],
    targets: &[usize],
) -> (PeerScan, Result<(), QuiescenceError>) {
    let mut scan = PeerScan::begin(PROCESS, THIS_THREAD, targets);
    let mut position = 0;
    loop {
        let reply = match scan.step() {
            ScanStep::Snapshot => ScanReply::Snapshot(true),
            ScanStep::First => ScanReply::First(threads.first().map(|entry| entry.0)),
            ScanStep::Open(_) => ScanReply::Opened { allocated: true, opened: true },
            ScanStep::Suspend(_) => ScanReply::Suspended(0),
            ScanStep::ReadContext(_) => ScanReply::Context(Ok(threads[position].1)),
            ScanStep::Next => {
                position += 1;
                ScanReply::Next(match threads.get(position) {
                    Some(entry) => Ok(entry.0),
                    None => Err(ERROR_NO_MORE_FILES),
                })
            }
            ScanStep::Finished => return (scan, Ok(())),
        };
        if let Err(error) = scan.accept(reply) {
            return (scan, Err(error));
        }
    }
}

#[test]
fn scans_suspend_every_other_thread_of_the_process() {
    let threads = [
        (listed(PROCESS, 2), 0x5000),
        (listed(99, 3), 0x1000),
        (listed(PROCESS, THIS_THREAD), 0x1000),
        (listed(PROCESS, 4), 0x6000),
    ];
    let (scan, outcome) = scan_threads(&threads, &[0x1000]);
    assert_eq!(outcome, Ok(()));
    assert_eq!(scan.release(), [4, 2]);
}

#[test]
fn unwind_resumes_every_suspended_peer() {
    let threads = [
        (listed(PROCESS, 2), 0x5000),
        (listed(PROCESS, 3), 0x5000),
        (listed(PROCESS, 4), 0x1010),
        (listed(PROCESS, 5), 0x5000),
    ];
    let (scan, outcome) = scan_threads(&threads, &[0x1000]);
    assert_eq!(outcome, Err(QuiescenceError::TargetBusy));
    assert_eq!(scan.release(), [4, 2, 3]);
}

#[test]
fn every_failed_step_of_a_scan_has_its_error() {
    let mut scan = PeerScan::begin(PROCESS, THIS_THREAD, &[0x1000]);
    assert_eq!(scan.accept(ScanReply::Snapshot(false)), Err(QuiescenceError::Snapshot));
    assert_eq!(scan.accept(ScanReply::Snapshot(true)), Ok(()));
    assert_eq!(scan.accept(ScanReply::First(None)), Err(QuiescenceError::Enumeration));
    assert_eq!(scan.accept(ScanReply::First(Some(listed(PROCESS, 2)))), Ok(()));
    assert_eq!(
        scan.accept(ScanReply::Opened { allocated: false, opened: false }),
        Err(QuiescenceError::OutOfMemory)
    );
    assert_eq!(
        scan.accept(ScanReply::Opened { allocated: true, opened: false }),
        Err(QuiescenceError::OpenThread)
    );
    assert_eq!(scan.accept(ScanReply::Opened { allocated: true, opened: true }), Ok(()));
    assert_eq!(
        scan.accept(ScanReply::Suspended(u32::MAX)),
        Err(QuiescenceError::SuspendThread)
    );
    assert_eq!(scan.accept(ScanReply::Suspended(0)), Ok(()));
    assert_eq!(
        scan.accept(ScanReply::Context(Err(5))),
        Err(QuiescenceError::ThreadContext(5))
    );
    assert_eq!(scan.accept(ScanReply::Context(Ok(0))), Ok(()));
    assert_eq!(scan.step(), ScanStep::Next);
    assert_eq!(scan.accept(ScanReply::Next(Err(5))), Err(QuiescenceError::Enumeration));
    assert_eq!(scan.release(), [2]);
}

#[test]
fn service_is_send_and_sync_without_local_unsafe_impls() {
    fn assert_send_sync<T: Send + Sync>() {}
    assert_send_sync::<InlineHookService>();
}
