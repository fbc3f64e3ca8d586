//! The registry of inline hooks.
//!
//! Patching code is done outside, while every other thread is suspended. An
//! operation that patches is planned first, which names the targets in the
//! order in which they are patched, and is then told how far patching came.
use std::collections::BTreeMap;
use vstd::prelude::*;
use crate::host::lifecycle::OwnerToken;
use crate::inline_hooks::report::{CleanupError, CleanupFailure, CleanupReport};
use crate::inline_hooks::status::{
    create_status, map_create_error, map_toggle_error, toggle_status, DetourError, MinHookStatus,
    MH_ERROR_ALREADY_CREATED, MH_ERROR_ALREADY_INITIALIZED, MH_ERROR_DISABLED, MH_ERROR_ENABLED,
    MH_ERROR_MEMORY_ALLOC, MH_ERROR_MEMORY_PROTECT, MH_ERROR_NOT_CREATED, MH_ERROR_NOT_EXECUTABLE,
    MH_ERROR_NOT_INITIALIZED, MH_OK, MH_UNKNOWN,
};
use crate::ordered::{ascending_entries, entries_of, lemma_entry, lemma_keys, lemma_position};
use crate::text::{decimal, Message};

verus! {

/// Committed pages.
pub const MEM_COMMIT: u32 = 0x1000;

/// Every protection under which pages are executable.
pub const EXECUTABLE: u32 = 0xf0;

/// Returns whether an address is executable, given what a query for its pages
/// returned.
pub fn is_executable(address: usize, queried: usize, state: u32, protect: u32) -> (executable: bool)
    ensures
        executable == (address != 0 && queried != 0 && state == MEM_COMMIT && protect & EXECUTABLE
            != 0),
        executable ==> address != 0 && queried != 0 && state == 0x1000,
        executable ==> protect & 0xf0u32 != 0,
        address != 0 && queried != 0 && state == 0x1000 && protect & 0xf0u32 != 0 ==> executable,
{
    address != 0 && queried != 0 && state == MEM_COMMIT && protect & EXECUTABLE != 0
}

/// One registered hook.
#[derive(Clone, Copy, PartialEq, Eq, Structural)]
pub struct HookEntry {
    /// Generation that owns the hook.
    pub owner: OwnerToken,
    /// Whether the target is patched.
    pub enabled: bool,
}

/// Some of the hooks.
#[derive(Clone, Copy, Debug, PartialEq, Eq, Structural)]
pub enum Selection {
    /// Every hook.
    All,
    /// The hooks of exactly one generation.
    Owner(OwnerToken),
    /// The hooks that a change to this state would patch.
    Changing(bool),
}

/// Whether a hook is selected.
pub open spec fn selects(selection: Selection, entry: HookEntry) -> bool {
    match selection {
        Selection::All => true,
        Selection::Owner(owner) => entry.owner == owner,
        Selection::Changing(enable) => entry.enabled != enable,
    }
}

fn is_selected(selection: Selection, entry: HookEntry) -> (selected: bool)
    ensures
        selected == selects(selection, entry),
{
    match selection {
        Selection::All => true,
        Selection::Owner(owner) => entry.owner == owner,
        Selection::Changing(enable) => entry.enabled != enable,
    }
}

/// The targets of the selected hooks, in ascending order.
pub open spec fn selected(entries: Seq<(usize, HookEntry)>, selection: Selection) -> Seq<usize>
    decreases entries.len(),
{
    if entries.len() == 0 {
        Seq::empty()
    } else if selects(selection, entries.last().1) {
        selected(entries.drop_last(), selection).push(entries.last().0)
    } else {
        selected(entries.drop_last(), selection)
    }
}

proof fn lemma_selected(entries: Seq<(usize, HookEntry)>, selection: Selection)
    requires
        forall|i: int, j: int| #![trigger entries[i], entries[j]]
            0 <= i < j < entries.len() ==> entries[i].0 < entries[j].0,
    ensures
        selected(entries, selection).len() <= entries.len(),
        forall|key: usize| #[trigger]
            selected(entries, selection).contains(key) <==> exists|i: int|
                0 <= i < entries.len() && (#[trigger] entries[i]).0 == key && selects(
                    selection,
                    entries[i].1,
                ),
        selected(entries, selection).no_duplicates(),
    decreases entries.len(),
{
    if entries.len() > 0 {
        let front = entries.drop_last();
        let keys = selected(front, selection);
        lemma_selected(front, selection);
        let all = selected(entries, selection);
        let last = entries.last();
        assert forall|key: usize| #[trigger] all.contains(key) <==> exists|i: int|
            0 <= i < entries.len() && (#[trigger] entries[i]).0 == key && selects(
                selection,
                entries[i].1,
            ) by {
            if all.contains(key) {
                if selects(selection, last.1) && key == last.0 {
                    assert(entries[entries.len() - 1].0 == key);
                } else {
                    let at = choose|at: int| 0 <= at < all.len() && all[at] == key;
                    assert(keys.contains(key)) by {
                        assert(at < keys.len());
                        assert(keys[at] == key);
                    }
                    let i = choose|i: int|
                        0 <= i < front.len() && (#[trigger] front[i]).0 == key && selects(
                            selection,
                            front[i].1,
                        );
                    assert(entries[i] == front[i]);
                }
            }
            if exists|i: int|
                0 <= i < entries.len() && (#[trigger] entries[i]).0 == key && selects(
                    selection,
                    entries[i].1,
                ) {
                let i = choose|i: int|
                    0 <= i < entries.len() && (#[trigger] entries[i]).0 == key && selects(
                        selection,
                        entries[i].1,
                    );
                if i < front.len() {
                    assert(front[i] == entries[i]);
                    assert(keys.contains(key));
                    let at = choose|at: int| 0 <= at < keys.len() && keys[at] == key;
                    assert(all[at] == key);
                } else {
                    assert(all[all.len() - 1] == key);
                }
            }
        }
        if selects(selection, last.1) {
            assert(!keys.contains(last.0)) by {
                if keys.contains(last.0) {
                    let i = choose|i: int|
                        0 <= i < front.len() && (#[trigger] front[i]).0 == last.0 && selects(
                            selection,
                            front[i].1,
                        );
                    assert(entries[i].0 < entries[entries.len() - 1].0);
                }
            }
            assert forall|i: int, j: int|
                0 <= i < all.len() && 0 <= j < all.len() && i != j implies all[i] != all[j] by {
                if i < keys.len() && j < keys.len() {
                    assert(keys[i] != keys[j]);
                } else if i < keys.len() {
                    assert(keys.contains(keys[i]));
                } else {
                    assert(keys.contains(keys[j]));
                }
            }
        }
    }
}

proof fn lemma_selected_in_map(hooks: Map<usize, HookEntry>, selection: Selection)
    requires
        hooks.dom().finite(),
    ensures
        forall|key: usize| #[trigger]
            selected(entries_of(hooks), selection).contains(key) <==> hooks.contains_key(key)
                && selects(selection, hooks[key]),
        selected(entries_of(hooks), selection).no_duplicates(),
        selected(entries_of(hooks), selection).len() <= entries_of(hooks).len(),
{
    let entries = entries_of(hooks);
    lemma_keys(hooks);
    assert forall|i: int, j: int| #![trigger entries[i], entries[j]]
        0 <= i < j < entries.len() implies entries[i].0 < entries[j].0 by {
        lemma_entry(hooks, i);
        lemma_entry(hooks, j);
    }
    lemma_selected(entries, selection);
    assert forall|key: usize| #[trigger]
        selected(entries, selection).contains(key) <==> hooks.contains_key(key) && selects(
            selection,
            hooks[key],
        ) by {
        if selected(entries, selection).contains(key) {
            let i = choose|i: int|
                0 <= i < entries.len() && (#[trigger] entries[i]).0 == key && selects(
                    selection,
                    entries[i].1,
                );
            lemma_entry(hooks, i);
        }
        if hooks.contains_key(key) && selects(selection, hooks[key]) {
            let i = lemma_position(hooks, key);
            assert(entries[i].0 == key);
        }
    }
}

/// The hooks after the first of the targets were brought to a state.
pub open spec fn toggled(
    hooks: Map<usize, HookEntry>,
    targets: Seq<usize>,
    count: nat,
    enable: bool,
) -> Map<usize, HookEntry>
    decreases count,
{
    if count == 0 {
        hooks
    } else {
        let before = toggled(hooks, targets, (count - 1) as nat, enable);
        let target = targets[count - 1];
        before.insert(target, HookEntry { enabled: enable, ..before[target] })
    }
}

proof fn lemma_toggled_domain(
    hooks: Map<usize, HookEntry>,
    targets: Seq<usize>,
    count: nat,
    enable: bool,
)
    requires
        count <= targets.len(),
        forall|i: int| 0 <= i < targets.len() ==> hooks.contains_key(#[trigger] targets[i]),
    ensures
        toggled(hooks, targets, count, enable).dom() == hooks.dom(),
        forall|key: usize| #[trigger]
            hooks.contains_key(key) ==> toggled(hooks, targets, count, enable)[key].owner
                == hooks[key].owner,
    decreases count,
{
    if count > 0 {
        lemma_toggled_domain(hooks, targets, (count - 1) as nat, enable);
        assert(hooks.contains_key(targets[count - 1]));
        assert(toggled(hooks, targets, count, enable).dom() =~= hooks.dom());
    }
}

/// How far patching the planned targets came.
#[derive(Clone, Copy, Debug, PartialEq, Eq, Structural)]
pub struct Patching {
    /// Whether every other thread was suspended. Nothing is patched otherwise.
    pub quiesced: bool,
    /// Targets that were patched, from the first on.
    pub completed: usize,
    /// Failure at the next target.
    pub failure: Option<DetourError>,
}

/// Whether patching can have come so far with this many targets.
pub open spec fn possible(patching: Patching, targets: nat) -> bool {
    if !patching.quiesced {
        patching.completed == 0 && patching.failure is None
    } else {
        match patching.failure {
            Some(_) => patching.completed < targets,
            None => patching.completed == targets,
        }
    }
}

/// A serialized, owner-aware MinHook-compatible inline-hook registry.
pub struct InlineHookService {
    initialized: bool,
    hooks: BTreeMap<usize, HookEntry>,
}

impl InlineHookService {
    /// Whether the service is initialized.
    pub closed spec fn ready(self) -> bool {
        self.initialized
    }

    /// The hooks by target.
    pub closed spec fn hooks(self) -> Map<usize, HookEntry> {
        self.hooks@
    }

    /// The hooks in ascending order of their targets.
    pub open spec fn listed(self) -> Seq<(usize, HookEntry)> {
        entries_of(self.hooks())
    }

    /// The targets of the selected hooks.
    pub open spec fn targets(self, selection: Selection) -> Seq<usize> {
        selected(self.listed(), selection)
    }

    /// No hook has a null target, and a service that is not initialized has no
    /// hooks.
    pub open spec fn wf(self) -> bool {
        &&& self.hooks().dom().finite()
        &&& !self.hooks().contains_key(0)
        &&& !self.ready() ==> self.hooks() == Map::<usize, HookEntry>::empty()
    }

    /// Only the hooks differ.
    pub open spec fn with_hooks(self, after: Self, hooks: Map<usize, HookEntry>) -> bool {
        after.ready() == self.ready() && after.hooks() == hooks
    }

    /// Creates an uninitialized hook service.
    pub fn new() -> (service: Self)
        ensures
            service.wf(),
            !service.ready(),
            service.hooks() == Map::<usize, HookEntry>::empty(),
    {
        Self { initialized: false, hooks: BTreeMap::new() }
    }

    /// Initializes the registry.
    pub fn initialize(&mut self) -> (status: MinHookStatus)
        requires
            old(self).wf(),
        ensures
            final(self).wf(),
            final(self).ready(),
            final(self).hooks() == old(self).hooks(),
            status == (if old(self).ready() {
                MH_ERROR_ALREADY_INITIALIZED
            } else {
                MH_OK
            }),
            status == 1 <==> old(self).ready(),
            status == 0 <==> !old(self).ready(),
    {
        if self.initialized {
            MH_ERROR_ALREADY_INITIALIZED
        } else {
            self.initialized = true;
            MH_OK
        }
    }

    /// The status with which a creation is refused before anything is created,
    /// `MH_OK` if it is not.
    pub open spec fn create_refusal(
        self,
        target: usize,
        target_executable: bool,
        detour_executable: bool,
    ) -> MinHookStatus {
        if !self.ready() {
            MH_ERROR_NOT_INITIALIZED
        } else if target == 0 || !target_executable || !detour_executable {
            MH_ERROR_NOT_EXECUTABLE
        } else if self.hooks().contains_key(target) {
            MH_ERROR_ALREADY_CREATED
        } else {
            MH_OK
        }
    }

    /// Checks a creation before anything is created.
    pub fn preflight_create(
        &self,
        target: usize,
        target_executable: bool,
        detour_executable: bool,
    ) -> (status: MinHookStatus)
        requires
            self.wf(),
        ensures
            status == self.create_refusal(target, target_executable, detour_executable),
    {
        if !self.initialized {
            return MH_ERROR_NOT_INITIALIZED;
        }
        if target == 0 {
            return MH_ERROR_NOT_EXECUTABLE;
        }
        if !target_executable || !detour_executable {
            return MH_ERROR_NOT_EXECUTABLE;
        }
        if self.hooks.contains_key(&target) {
            return MH_ERROR_ALREADY_CREATED;
        }
        MH_OK
    }

    /// Creates a disabled hook owned by one exact add-on generation, given
    /// whether there was memory for it and what the detour library made of it.
    /// Returns the trampoline; a failed call leaves the registry unchanged.
    pub fn create_hook(
        &mut self,
        owner: OwnerToken,
        target: usize,
        target_executable: bool,
        detour_executable: bool,
        reserved: bool,
        created: Result<usize, DetourError>,
    ) -> (trampoline: Result<usize, MinHookStatus>)
        requires
            old(self).wf(),
        ensures
            final(self).wf(),
            ({
                let refusal = old(self).create_refusal(
                    target,
                    target_executable,
                    detour_executable,
                );
                if refusal != MH_OK {
                    trampoline == Err::<usize, MinHookStatus>(refusal) && *final(self) == *old(self)
                } else if !reserved {
                    trampoline == Err::<usize, MinHookStatus>(MH_ERROR_MEMORY_ALLOC) && *final(self)
                        == *old(self)
                } else {
                    match created {
                        Err(error) => trampoline == Err::<usize, MinHookStatus>(
                            create_status(error),
                        ) && *final(self) == *old(self),
                        Ok(made) => trampoline == Ok::<usize, MinHookStatus>(made) && old(self).with_hooks(
                            *final(self),
                            old(self).hooks().insert(target, HookEntry { owner, enabled: false }),
                        ),
                    }
                }
            }),
            trampoline is Ok ==> created == Ok::<usize, DetourError>(trampoline->Ok_0),
            trampoline is Ok ==> reserved && target_executable && detour_executable,
            trampoline is Ok ==> final(self).hooks().contains_key(target) && final(self).hooks()[target].owner == owner && !final(self).hooks()[target].enabled,
            trampoline is Ok ==> !old(self).hooks().contains_key(target),
            final(self).hooks().len() == old(self).hooks().len() + (if trampoline is Ok {
                1int
            } else {
                0
            }),
    {
        let refusal = self.preflight_create(target, target_executable, detour_executable);
        if refusal != MH_OK {
            return Err(refusal);
        }
        if !reserved {
            return Err(MH_ERROR_MEMORY_ALLOC);
        }
        match created {
            Err(error) => Err(map_create_error(error)),
            Ok(made) => {
                self.hooks.insert(target, HookEntry { owner, enabled: false });
                Ok(made)
            },
        }
    }

    /// Returns whether the target of a removal is patched now, so that every
    /// other thread has to be suspended.
    pub fn plan_remove(&self, target: usize) -> (patched: Result<bool, MinHookStatus>)
        requires
            self.wf(),
        ensures
            patched == (if !self.ready() {
                Err::<bool, MinHookStatus>(MH_ERROR_NOT_INITIALIZED)
            } else if !self.hooks().contains_key(target) {
                Err::<bool, MinHookStatus>(MH_ERROR_NOT_CREATED)
            } else {
                Ok::<bool, MinHookStatus>(self.hooks()[target].enabled)
            }),
            patched is Ok <==> self.ready() && self.hooks().contains_key(target),
            patched == Err::<bool, MinHookStatus>(2) <==> !self.ready(),
    {
        if !self.initialized {
            return Err(MH_ERROR_NOT_INITIALIZED);
        }
        if target == 0 {
            return Err(MH_ERROR_NOT_CREATED);
        }
        match self.hooks.get(&target) {
            Some(hook) => Ok(hook.enabled),
            None => Err(MH_ERROR_NOT_CREATED),
        }
    }

    /// Removes one hook. A null target is not treated as all hooks.
    pub fn remove_hook(
        &mut self,
        target: usize,
        quiesced: bool,
        disabled: Result<(), DetourError>,
    ) -> (status: MinHookStatus)
        requires
            old(self).wf(),
        ensures
            final(self).wf(),
            if !old(self).ready() {
                status == MH_ERROR_NOT_INITIALIZED && *final(self) == *old(self)
            } else if !old(self).hooks().contains_key(target) {
                status == MH_ERROR_NOT_CREATED && *final(self) == *old(self)
            } else if old(self).hooks()[target].enabled && !quiesced {
                status == MH_ERROR_MEMORY_PROTECT && *final(self) == *old(self)
            } else {
                match disabled {
                    Err(error) => status == toggle_status(error) && *final(self) == *old(self),
                    Ok(_) => status == MH_OK && old(self).with_hooks(
                        *final(self),
                        old(self).hooks().remove(target),
                    ),
                }
            },
            status == 0 ==> old(self).hooks().contains_key(target) && !final(self).hooks().contains_key(target),
            status == 0 ==> final(self).hooks().len() + 1 == old(self).hooks().len(),
            status != 0 ==> *final(self) == *old(self),
            status == 2 <==> !old(self).ready(),
    {
        let patched = match self.plan_remove(target) {
            Ok(patched) => patched,
            Err(status) => return status,
        };
        if patched && !quiesced {
            return MH_ERROR_MEMORY_PROTECT;
        }
        if let Err(error) = disabled {
            return map_toggle_error(error);
        }
        let _ = self.hooks.remove(&target);
        MH_OK
    }

    /// The targets that a change patches, or the status with which it ends
    /// before anything is patched. A null target stands for all hooks.
    pub open spec fn change_plan(self, target: usize, enable: bool) -> Result<
        Seq<usize>,
        MinHookStatus,
    > {
        if !self.ready() {
            Err(MH_ERROR_NOT_INITIALIZED)
        } else if target == 0 {
            Ok(self.targets(Selection::Changing(enable)))
        } else if !self.hooks().contains_key(target) {
            Err(MH_ERROR_NOT_CREATED)
        } else if self.hooks()[target].enabled == enable {
            Err(
                if enable {
                    MH_ERROR_ENABLED
                } else {
                    MH_ERROR_DISABLED
                },
            )
        } else {
            Ok(seq![target])
        }
    }

    /// Plans a change.
    pub fn plan_change(&self, target: usize, enable: bool) -> (plan: Result<Vec<usize>, MinHookStatus>)
        requires
            self.wf(),
        ensures
            match plan {
                Ok(targets) => self.change_plan(target, enable) == Ok::<Seq<usize>, MinHookStatus>(
                    targets@,
                ),
                Err(status) => self.change_plan(target, enable) == Err::<
                    Seq<usize>,
                    MinHookStatus,
                >(status),
            },
    {
        if !self.initialized {
            return Err(MH_ERROR_NOT_INITIALIZED);
        }
        if target == 0 {
            return Ok(self.collect_keys(Selection::Changing(enable)));
        }
        match self.hooks.get(&target) {
            None => Err(MH_ERROR_NOT_CREATED),
            Some(hook) => {
                if hook.enabled == enable {
                    return Err(
                        if enable {
                            MH_ERROR_ENABLED
                        } else {
                            MH_ERROR_DISABLED
                        },
                    );
                }
                let mut targets: Vec<usize> = Vec::new();
                targets.push(target);
                proof {
                    assert(targets@ =~= seq![target]);
                }
                Ok(targets)
            },
        }
    }

    /// Enables one hook, or every hook when `target` is null.
    pub fn enable_hook(&mut self, target: usize, patching: Patching) -> (status: MinHookStatus)
        requires
            old(self).wf(),
            old(self).change_plan(target, true) matches Ok(targets) ==> possible(
                patching,
                targets.len(),
            ),
        ensures
            final(self).wf(),
            old(self).changes(*final(self), target, true, patching, status),
    {
        self.change_hook(target, true, patching)
    }

    /// Disables one hook, or every hook when `target` is null.
    pub fn disable_hook(&mut self, target: usize, patching: Patching) -> (status: MinHookStatus)
        requires
            old(self).wf(),
            old(self).change_plan(target, false) matches Ok(targets) ==> possible(
                patching,
                targets.len(),
            ),
        ensures
            final(self).wf(),
            old(self).changes(*final(self), target, false, patching, status),
    {
        self.change_hook(target, false, patching)
    }

    /// What a change does: exactly the targets that were patched are in the
    /// new state.
    pub open spec fn changes(
        self,
        after: Self,
        target: usize,
        enable: bool,
        patching: Patching,
        status: MinHookStatus,
    ) -> bool {
        match self.change_plan(target, enable) {
            Err(refusal) => status == refusal && after == self,
            Ok(targets) => if targets.len() == 0 {
                status == MH_OK && after == self
            } else if !patching.quiesced {
                status == MH_ERROR_MEMORY_PROTECT && after == self
            } else {
                &&& self.with_hooks(
                    after,
                    toggled(self.hooks(), targets, patching.completed as nat, enable),
                )
                &&& status == (match patching.failure {
                    Some(error) => toggle_status(error),
                    None => MH_OK,
                })
            },
        }
    }

    fn change_hook(&mut self, target: usize, enable: bool, patching: Patching) -> (status:
        MinHookStatus)
        requires
            old(self).wf(),
            old(self).change_plan(target, enable) matches Ok(targets) ==> possible(
                patching,
                targets.len(),
            ),
        ensures
            final(self).wf(),
            old(self).changes(*final(self), target, enable, patching, status),
    {
        let targets = match self.plan_change(target, enable) {
            Ok(targets) => targets,
            Err(status) => return status,
        };
        if targets.len() == 0 {
            return MH_OK;
        }
        if !patching.quiesced {
            return MH_ERROR_MEMORY_PROTECT;
        }
        proof {
            lemma_selected_in_map(self.hooks(), Selection::Changing(enable));
            assert forall|i: int| 0 <= i < targets@.len() implies self.hooks().contains_key(
                #[trigger] targets@[i],
            ) by {
                if target == 0 {
                    assert(self.targets(Selection::Changing(enable)).contains(targets@[i]));
                }
            }
        }
        self.toggle(&targets, patching.completed, enable);
        match patching.failure {
            Some(error) => map_toggle_error(error),
            None => MH_OK,
        }
    }

    /// Brings the first of the targets to a state.
    fn toggle(&mut self, targets: &Vec<usize>, count: usize, enable: bool)
        requires
            old(self).wf(),
            old(self).ready(),
            count <= targets@.len(),
            forall|i: int|
                0 <= i < targets@.len() ==> old(self).hooks().contains_key(#[trigger] targets@[i]),
        ensures
            final(self).wf(),
            final(self).ready(),
            final(self).hooks() == toggled(old(self).hooks(), targets@, count as nat, enable),
    {
        let ghost before = self.hooks();
        let mut i: usize = 0;
        while i < count
            invariant
                i <= count <= targets@.len(),
                self.wf(),
                self.ready(),
                self.hooks() == toggled(before, targets@, i as nat, enable),
                forall|j: int|
                    0 <= j < targets@.len() ==> before.contains_key(#[trigger] targets@[j]),
            decreases count - i,
        {
            let target = targets[i];
            proof {
                lemma_toggled_domain(before, targets@, i as nat, enable);
                assert(before.contains_key(targets@[i as int]));
                assert(before.dom().contains(target));
                assert(self.hooks().dom().contains(target));
                assert(!before.dom().contains(0) ==> target != 0);
            }
            if let Some(hook) = self.hooks.get(&target) {
                let entry = HookEntry { owner: hook.owner, enabled: enable };
                self.hooks.insert(target, entry);
            }
            i = i + 1;
        }
    }

    /// Returns the targets of the selected hooks, in ascending order.
    pub fn collect_keys(&self, selection: Selection) -> (keys: Vec<usize>)
        requires
            self.wf(),
        ensures
            keys@ == self.targets(selection),
    {
        let entries = ascending_entries(&self.hooks);
        let mut keys: Vec<usize> = Vec::new();
        let mut i: usize = 0;
        while i < entries.len()
            invariant
                entries@ == self.listed(),
                i <= self.listed().len(),
                keys@ == selected(self.listed().take(i as int), selection),
            decreases self.listed().len() - i,
        {
            proof {
                assert(self.listed().take(i + 1).drop_last() =~= self.listed().take(i as int));
            }
            let (key, entry) = entries[i];
            if is_selected(selection, entry) {
                keys.push(key);
            }
            i = i + 1;
        }
        proof {
            assert(self.listed().take(self.listed().len() as int) =~= self.listed());
        }
        keys
    }

    /// The targets of those selected hooks that are enabled: they are patched
    /// back while the selected hooks are retired.
    pub open spec fn enabled(self, selection: Selection) -> Seq<usize> {
        self.targets(selection).filter(|target: usize| self.hooks()[target].enabled)
    }

    /// Returns the targets of those selected hooks that are enabled, in
    /// ascending order. While the selected hooks are retired, every other thread
    /// has to stay suspended outside of these targets, and of no others.
    pub fn enabled_targets(&self, selection: Selection) -> (targets: Vec<usize>)
        requires
            self.wf(),
        ensures
            targets@ == self.targets(selection).filter(
                |target: usize| self.hooks()[target].enabled,
            ),
    {
        let keys = self.collect_keys(selection);
        let ghost enabled = |target: usize| self.hooks()[target].enabled;
        proof {
            lemma_selected_in_map(self.hooks(), selection);
            reveal(Seq::filter);
        }
        let mut targets: Vec<usize> = Vec::new();
        let mut i: usize = 0;
        while i < keys.len()
            invariant
                self.wf(),
                i <= keys@.len(),
                keys@ == self.targets(selection),
                forall|key: usize| #[trigger]
                    self.targets(selection).contains(key) ==> self.hooks().contains_key(key),
                enabled == (|target: usize| self.hooks()[target].enabled),
                targets@ == keys@.take(i as int).filter(enabled),
            decreases keys@.len() - i,
        {
            proof {
                assert(self.targets(selection).contains(keys@[i as int]));
                assert(keys@.take(i + 1).drop_last() =~= keys@.take(i as int));
                reveal(Seq::filter);
            }
            if let Some(hook) = self.hooks.get(&keys[i]) {
                if hook.enabled {
                    targets.push(keys[i]);
                }
            }
            i = i + 1;
        }
        proof {
            assert(keys@.take(keys@.len() as int) =~= keys@);
        }
        targets
    }

    /// What retiring the selected hooks does: all of them go, or none of them
    /// does and those that were patched back stay disabled.
    pub open spec fn retires(
        self,
        after: Self,
        selection: Selection,
        patching: Patching,
        status: MinHookStatus,
    ) -> bool {
        let targets = self.targets(selection);
        if self.enabled(selection).len() > 0 && !patching.quiesced {
            status == MH_ERROR_MEMORY_PROTECT && after == self
        } else {
            match patching.failure {
                Some(error) => status == toggle_status(error) && self.with_hooks(
                    after,
                    toggled(self.hooks(), targets, patching.completed as nat, false),
                ),
                None => {
                    &&& status == MH_OK
                    &&& after.ready() == self.ready()
                    &&& forall|target: usize| #[trigger]
                        after.hooks().contains_key(target) <==> self.hooks().contains_key(target)
                            && !selects(selection, self.hooks()[target])
                    &&& forall|target: usize| #[trigger]
                        after.hooks().contains_key(target) ==> after.hooks()[target]
                            == self.hooks()[target]
                },
            }
        }
    }

    /// Whether patching can have come so far while the selected hooks are
    /// retired. Nothing has to be suspended where nothing is patched.
    pub open spec fn retirement_possible(self, selection: Selection, patching: Patching) -> bool {
        &&& possible(patching, self.targets(selection).len())
        &&& self.enabled(selection).len() == 0 ==> patching.quiesced
    }

    fn retire(&mut self, selection: Selection, patching: Patching) -> (status: MinHookStatus)
        requires
            old(self).wf(),
            old(self).ready(),
            old(self).retirement_possible(selection, patching),
        ensures
            final(self).wf(),
            old(self).retires(*final(self), selection, patching, status),
    {
        if self.enabled_targets(selection).len() > 0 && !patching.quiesced {
            return MH_ERROR_MEMORY_PROTECT;
        }
        let keys = self.collect_keys(selection);
        let ghost before = self.hooks();
        proof {
            lemma_selected_in_map(self.hooks(), selection);
            assert forall|i: int| 0 <= i < keys@.len() implies before.contains_key(
                #[trigger] keys@[i],
            ) by {
                assert(self.targets(selection).contains(keys@[i]));
            }
        }
        if let Some(error) = patching.failure {
            self.toggle(&keys, patching.completed, false);
            return map_toggle_error(error);
        }
        let mut i: usize = 0;
        while i < keys.len()
            invariant
                i <= keys@.len(),
                self.wf(),
                self.ready(),
                forall|target: usize| #[trigger]
                    self.hooks().contains_key(target) <==> before.contains_key(target)
                        && !keys@.take(i as int).contains(target),
                forall|target: usize| #[trigger]
                    self.hooks().contains_key(target) ==> self.hooks()[target] == before[target],
                !before.contains_key(0),
            decreases keys@.len() - i,
        {
            let ghost previous = self.hooks();
            let _ = self.hooks.remove(&keys[i]);
            proof {
                let shorter = keys@.take(i as int);
                let longer = keys@.take(i + 1);
                assert(longer =~= shorter.push(keys@[i as int]));
                assert forall|target: usize| #[trigger]
                    self.hooks().contains_key(target) <==> before.contains_key(target)
                        && !longer.contains(target) by {
                    assert(self.hooks().contains_key(target) <==> previous.contains_key(target)
                        && target != keys@[i as int]);
                    if shorter.contains(target) {
                        let at = choose|at: int| 0 <= at < shorter.len() && shorter[at] == target;
                        assert(longer[at] == target);
                    }
                    if longer.contains(target) && target != keys@[i as int] {
                        let at = choose|at: int| 0 <= at < longer.len() && longer[at] == target;
                        assert(shorter[at] == target);
                    }
                    assert(longer[i as int] == keys@[i as int]);
                }
                assert forall|target: usize| #[trigger]
                    self.hooks().contains_key(target) implies self.hooks()[target]
                    == before[target] by {
                    assert(previous.contains_key(target));
                }
            }
            i = i + 1;
        }
        proof {
            assert(keys@.take(keys@.len() as int) =~= keys@);
            assert forall|target: usize| #[trigger]
                self.hooks().contains_key(target) <==> before.contains_key(target) && !selects(
                    selection,
                    before[target],
                ) by {
                assert(old(self).targets(selection).contains(target) <==> before.contains_key(
                    target,
                ) && selects(selection, before[target]));
            }
        }
        MH_OK
    }

    /// Disables and retires every hook, then uninitializes the registry.
    ///
    /// If any transition fails, the registry remains initialized and all
    /// still-registered entries remain available for a retry.
    pub fn uninitialize(&mut self, patching: Patching) -> (status: MinHookStatus)
        requires
            old(self).wf(),
            old(self).ready() ==> old(self).retirement_possible(Selection::All, patching),
        ensures
            final(self).wf(),
            if !old(self).ready() {
                status == MH_ERROR_NOT_INITIALIZED && *final(self) == *old(self)
            } else if old(self).enabled(Selection::All).len() > 0 && !patching.quiesced {
                status == MH_ERROR_MEMORY_PROTECT && *final(self) == *old(self)
            } else {
                match patching.failure {
                    Some(error) => status == toggle_status(error) && old(self).with_hooks(
                        *final(self),
                        toggled(
                            old(self).hooks(),
                            old(self).targets(Selection::All),
                            patching.completed as nat,
                            false,
                        ),
                    ),
                    None => status == MH_OK && !final(self).ready() && final(self).hooks() == Map::<
                        usize,
                        HookEntry,
                    >::empty(),
                }
            },
            status == 0 ==> final(self).hooks().len() == 0,
            status == 0 <==> old(self).ready() && !final(self).ready(),
            status != 0 ==> final(self).hooks().dom() == old(self).hooks().dom(),
    {
        if !self.initialized {
            return MH_ERROR_NOT_INITIALIZED;
        }
        let status = self.retire(Selection::All, patching);
        if status != MH_OK {
            proof {
                assert(patching.failure is None ==> !patching.quiesced);
                assert forall|target: usize| #[trigger]
                    self.hooks().dom().contains(target) <==> old(self).hooks().dom().contains(
                        target,
                    ) by {
                    law_a_retirement_removes_what_is_selected(
                        *old(self),
                        *self,
                        Selection::All,
                        patching,
                        status,
                        target,
                    );
                    assert(self.hooks().contains_key(target) <==> old(self).hooks().contains_key(
                        target,
                    ));
                }
                assert(self.hooks().dom() =~= old(self).hooks().dom());
            }
            return status;
        }
        proof {
            assert(self.hooks() =~= Map::<usize, HookEntry>::empty());
        }
        self.initialized = false;
        MH_OK
    }

    /// Retires hooks belonging to exactly `owner`, including its generation.
    ///
    /// The operation is idempotent. On failure, the error reports how many
    /// exact-owner entries remain so a lifecycle cleaner can retry safely.
    pub fn cleanup_owner(&mut self, owner: OwnerToken, patching: Patching) -> (result: Result<
        CleanupReport,
        CleanupError,
    >)
        requires
            old(self).wf(),
            old(self).ready() ==> old(self).retirement_possible(Selection::Owner(owner), patching),
        ensures
            final(self).wf(),
            ({
                let count = old(self).targets(Selection::Owner(owner)).len();
                if count == 0 {
                    &&& *final(self) == *old(self)
                    &&& result matches Ok(report) && report.content() == (owner, 0usize)
                } else {
                    exists|status: MinHookStatus|
                        {
                            &&& #[trigger] old(self).retires(
                                *final(self),
                                Selection::Owner(owner),
                                patching,
                                status,
                            )
                            &&& match result {
                                Ok(report) => status == MH_OK && report.content().0 == owner
                                    && report.content().1 == count,
                                Err(error) => status != MH_OK && error.content() == (
                                CleanupFailure {
                                    owner,
                                    status,
                                    retired: 0,
                                    remaining: count as usize,
                                }),
                            }
                        }
                }
            }),
    {
        let initial = self.owned_hook_count(owner);
        if initial == 0 {
            return Ok(CleanupReport::new(owner, 0));
        }
        proof {
            lemma_selected_in_map(self.hooks(), Selection::Owner(owner));
            assert(self.targets(Selection::Owner(owner)).contains(
                self.targets(Selection::Owner(owner))[0],
            ));
        }
        let status = self.retire(Selection::Owner(owner), patching);
        if status != MH_OK {
            return Err(CleanupError::new(owner, status, 0, initial));
        }
        Ok(CleanupReport::new(owner, initial))
    }

    /// Reports a cleanup that was interrupted before it could report for itself,
    /// given how many hooks the generation had at its start.
    pub fn interrupted_cleanup(&self, owner: OwnerToken, initial: usize) -> (error: CleanupError)
        requires
            self.wf(),
        ensures
            ({
                let remaining = self.targets(Selection::Owner(owner)).len();
                error.content() == (CleanupFailure {
                    owner,
                    status: MH_UNKNOWN,
                    retired: if remaining <= initial {
                        (initial - remaining) as usize
                    } else {
                        0
                    },
                    remaining: remaining as usize,
                })
            }),
    {
        let remaining = self.owned_hook_count(owner);
        let retired: usize = if remaining <= initial {
            initial - remaining
        } else {
            0
        };
        CleanupError::new(owner, MH_UNKNOWN, retired, remaining)
    }

    /// Returns the total registered-hook count without exposing targets.
    pub fn hook_count(&self) -> (count: usize)
        ensures
            count == self.hooks().len(),
    {
        self.hooks.len()
    }

    /// Returns the registered-hook count for one exact add-on generation.
    pub fn owned_hook_count(&self, owner: OwnerToken) -> (count: usize)
        requires
            self.wf(),
        ensures
            count == self.targets(Selection::Owner(owner)).len(),
    {
        self.collect_keys(Selection::Owner(owner)).len()
    }

    /// Describes the service without exposing targets or trampolines.
    pub fn describe(&self) -> (text: String)
        ensures
            text@ == "InlineHookService { initialized: "@ + (if self.ready() {
                "true"@
            } else {
                "false"@
            }) + ", hook_count: "@ + decimal(self.hooks().len()) + " }"@,
    {
        let mut message = Message::new();
        message.text("InlineHookService { initialized: ");
        message.text(
            if self.initialized {
                "true"
            } else {
                "false"
            },
        );
        message.text(", hook_count: ");
        message.number(self.hooks.len() as u64);
        message.text(" }");
        proof {
            assert(message@ =~= "InlineHookService { initialized: "@ + (if self.ready() {
                "true"@
            } else {
                "false"@
            }) + ", hook_count: "@ + decimal(self.hooks().len()) + " }"@);
        }
        message.finish()
    }
}

/// Threads are suspended for exactly those of the selected hooks that are
/// enabled.
pub proof fn law_suspension_covers_the_enabled_hooks(
    service: InlineHookService,
    selection: Selection,
    target: usize,
)
    requires
        service.wf(),
    ensures
        service.enabled(selection).contains(target) <==> service.hooks().contains_key(target)
            && selects(selection, service.hooks()[target]) && service.hooks()[target].enabled,
{
    let enabled = |target: usize| service.hooks()[target].enabled;
    lemma_selected_in_map(service.hooks(), selection);
    let targets = service.targets(selection);
    if targets.filter(enabled).contains(target) {
        let at = targets.filter(enabled).index_of(target);
        targets.lemma_filter_contains_rev(enabled, target);
        targets.lemma_filter_pred(enabled, at);
    } else if targets.contains(target) && enabled(target) {
        targets.lemma_filter_contains(enabled, targets.index_of(target));
    }
}

/// Cleaning up one generation touches no hook of another one, whether it
/// succeeds or not.
pub proof fn law_cleanup_spares_other_generations(
    before: InlineHookService,
    after: InlineHookService,
    owner: OwnerToken,
    patching: Patching,
    status: MinHookStatus,
    target: usize,
)
    requires
        before.wf(),
        before.retirement_possible(Selection::Owner(owner), patching),
        before.retires(after, Selection::Owner(owner), patching, status),
        before.hooks().contains_key(target),
        before.hooks()[target].owner != owner,
    ensures
        after.hooks().contains_key(target),
        after.hooks()[target] == before.hooks()[target],
{
    let targets = before.targets(Selection::Owner(owner));
    lemma_selected_in_map(before.hooks(), Selection::Owner(owner));
    assert(!targets.contains(target));
    if before.enabled(Selection::Owner(owner)).len() > 0 && !patching.quiesced {
    } else if patching.failure is None {
        assert(after.hooks().contains_key(target));
    } else {
        lemma_toggled_elsewhere(
            before.hooks(),
            targets,
            patching.completed as nat,
            false,
            target,
        );
    }
}

proof fn lemma_toggled_elsewhere(
    hooks: Map<usize, HookEntry>,
    targets: Seq<usize>,
    count: nat,
    enable: bool,
    target: usize,
)
    requires
        count <= targets.len(),
        !targets.contains(target),
        hooks.contains_key(target),
    ensures
        toggled(hooks, targets, count, enable).contains_key(target),
        toggled(hooks, targets, count, enable)[target] == hooks[target],
    decreases count,
{
    if count > 0 {
        lemma_toggled_elsewhere(hooks, targets, (count - 1) as nat, enable, target);
        assert(targets.contains(targets[count - 1]));
    }
}

/// Cleaning up a generation a second time finds nothing to do.
pub proof fn law_cleanup_is_idempotent(
    before: InlineHookService,
    after: InlineHookService,
    owner: OwnerToken,
    patching: Patching,
)
    requires
        before.wf(),
        after.wf(),
        before.retires(after, Selection::Owner(owner), patching, MH_OK),
    ensures
        after.targets(Selection::Owner(owner)).len() == 0,
{
    lemma_selected_in_map(after.hooks(), Selection::Owner(owner));
    let left = after.targets(Selection::Owner(owner));
    if left.len() > 0 {
        assert(left.contains(left[0]));
        if patching.failure is Some {
            crate::inline_hooks::status::law_failures_are_never_reported_as_success(
                patching.failure->0,
            );
        }
        assert(after.hooks().contains_key(left[0]));
    }
}

/// A change of all hooks that succeeds brings every hook to the new state, so
/// that repeating it patches nothing.
pub proof fn law_changing_all_reaches_every_hook(
    before: InlineHookService,
    after: InlineHookService,
    enable: bool,
    patching: Patching,
    target: usize,
)
    requires
        before.wf(),
        after.wf(),
        before.ready(),
        before.change_plan(0, enable) matches Ok(targets) && possible(patching, targets.len()),
        before.changes(after, 0, enable, patching, MH_OK),
        after.hooks().contains_key(target),
    ensures
        after.hooks()[target].enabled == enable,
        after.targets(Selection::Changing(enable)).len() == 0,
{
    let targets = before.targets(Selection::Changing(enable));
    lemma_selected_in_map(before.hooks(), Selection::Changing(enable));
    lemma_selected_in_map(after.hooks(), Selection::Changing(enable));
    if patching.failure is Some {
        crate::inline_hooks::status::law_failures_are_never_reported_as_success(
            patching.failure->0,
        );
    }
    assert forall|key: usize| #[trigger] after.hooks().contains_key(key) implies after.hooks()[key].enabled
        == enable by {
        if targets.len() > 0 {
            assert forall|i: int| 0 <= i < targets.len() implies before.hooks().contains_key(
                #[trigger] targets[i],
            ) by {
                assert(targets.contains(targets[i]));
            }
            lemma_toggled_domain(before.hooks(), targets, targets.len(), enable);
            assert(before.hooks().dom().contains(key));
            if targets.contains(key) {
                assert(targets.take(targets.len() as int) =~= targets);
                lemma_toggled_state(before.hooks(), targets, targets.len(), enable, key);
            } else {
                lemma_toggled_elsewhere(before.hooks(), targets, targets.len(), enable, key);
            }
        } else {
            assert(!targets.contains(key));
        }
    }
    let left = after.targets(Selection::Changing(enable));
    if left.len() > 0 {
        assert(left.contains(left[0]));
        assert(after.hooks().contains_key(left[0]));
    }
}

proof fn lemma_toggled_state(
    hooks: Map<usize, HookEntry>,
    targets: Seq<usize>,
    count: nat,
    enable: bool,
    target: usize,
)
    requires
        count <= targets.len(),
        targets.take(count as int).contains(target),
    ensures
        toggled(hooks, targets, count, enable)[target].enabled == enable,
    decreases count,
{
    if count > 0 {
        if targets[count - 1] != target {
            let patched = targets.take(count as int);
            let at = choose|at: int| 0 <= at < patched.len() && patched[at] == target;
            assert(targets.take(count - 1)[at] == target);
            lemma_toggled_state(hooks, targets, (count - 1) as nat, enable, target);
        }
    }
}

/// A selection of all hooks takes each, one by owner those of the owner, and
/// one by change those that are not yet as asked.
pub proof fn law_a_selection_takes_what_it_names(entry: HookEntry, owner: OwnerToken, enable: bool)
    ensures
        selects(Selection::All, entry),
        selects(Selection::Owner(entry.owner), entry),
        entry.owner != owner ==> !selects(Selection::Owner(owner), entry),
        selects(Selection::Changing(!entry.enabled), entry),
        !selects(Selection::Changing(entry.enabled), entry),
{
}

/// The targets of a selection are the registered hooks that it takes, each
/// once.
pub proof fn law_targets_are_the_selected_hooks(
    service: InlineHookService,
    selection: Selection,
    target: usize,
)
    requires
        service.wf(),
    ensures
        service.targets(selection).contains(target) <==> service.hooks().contains_key(target)
            && selects(selection, service.hooks()[target]),
        service.targets(selection).no_duplicates(),
        service.targets(Selection::All).contains(target) <==> service.hooks().contains_key(target),
{
    lemma_selected_in_map(service.hooks(), selection);
    lemma_selected_in_map(service.hooks(), Selection::All);
}

/// What stands against a new hook is told in order: a service that is not
/// ready, code that cannot run, a hook that exists.
pub proof fn law_a_new_hook_is_refused_in_order(
    service: InlineHookService,
    target: usize,
    target_executable: bool,
    detour_executable: bool,
)
    ensures
        ({
            let refusal = service.create_refusal(target, target_executable, detour_executable);
            let sound = target != 0 && target_executable && detour_executable;
            &&& refusal == 2 <==> !service.ready()
            &&& refusal == 7 <==> service.ready() && !sound
            &&& refusal == 3 <==> service.ready() && sound && service.hooks().contains_key(target)
            &&& refusal == 0 <==> service.ready() && sound && !service.hooks().contains_key(target)
        }),
{
}

/// A change of one hook patches that hook alone, and is refused where there is
/// no such hook or nothing to change.
pub proof fn law_a_change_of_one_hook_is_planned_alone(
    service: InlineHookService,
    target: usize,
    enable: bool,
)
    requires
        target != 0,
    ensures
        ({
            let plan = service.change_plan(target, enable);
            let known = service.hooks().contains_key(target);
            let already = service.hooks()[target].enabled == enable;
            &&& plan is Ok <==> service.ready() && known && !already
            &&& plan matches Ok(targets) ==> targets.len() == 1 && targets[0] == target
            &&& plan == Err::<Seq<usize>, MinHookStatus>(2) <==> !service.ready()
            &&& plan == Err::<Seq<usize>, MinHookStatus>(4) <==> service.ready() && !known
            &&& plan == Err::<Seq<usize>, MinHookStatus>(5) <==> service.ready() && known && already
                && enable
            &&& plan == Err::<Seq<usize>, MinHookStatus>(6) <==> service.ready() && known && already
                && !enable
        }),
{
}

/// A change of all hooks patches those that are not yet as asked, and is
/// refused only by a service that is not ready.
pub proof fn law_a_change_of_all_hooks_is_planned_for_the_others(
    service: InlineHookService,
    enable: bool,
    target: usize,
)
    requires
        service.wf(),
    ensures
        service.change_plan(0, enable) is Ok <==> service.ready(),
        service.change_plan(0, enable) matches Ok(targets) ==> (targets.contains(target)
            <==> service.hooks().contains_key(target) && service.hooks()[target].enabled != enable),
{
    lemma_selected_in_map(service.hooks(), Selection::Changing(enable));
}

/// Patching switches the targets that it reached and no other hook; it neither
/// registers, removes nor hands on a hook.
pub proof fn law_patching_switches_what_it_reached(
    hooks: Map<usize, HookEntry>,
    targets: Seq<usize>,
    count: nat,
    enable: bool,
    target: usize,
)
    requires
        count <= targets.len(),
        forall|i: int| 0 <= i < targets.len() ==> hooks.contains_key(#[trigger] targets[i]),
    ensures
        toggled(hooks, targets, count, enable).dom() == hooks.dom(),
        hooks.contains_key(target) ==> toggled(hooks, targets, count, enable)[target].owner
            == hooks[target].owner,
        targets.take(count as int).contains(target) ==> toggled(
            hooks,
            targets,
            count,
            enable,
        )[target].enabled == enable,
        hooks.contains_key(target) && !targets.take(count as int).contains(target) ==> toggled(
            hooks,
            targets,
            count,
            enable,
        )[target] == hooks[target],
    decreases count,
{
    lemma_toggled_domain(hooks, targets, count, enable);
    if count > 0 {
        let shorter = targets.take(count - 1);
        let longer = targets.take(count as int);
        law_patching_switches_what_it_reached(hooks, targets, (count - 1) as nat, enable, target);
        lemma_toggled_domain(hooks, targets, (count - 1) as nat, enable);
        assert(longer =~= shorter.push(targets[count - 1]));
        assert(longer[count - 1] == targets[count - 1]);
        if shorter.contains(target) {
            let at = choose|at: int| 0 <= at < shorter.len() && shorter[at] == target;
            assert(longer[at] == target);
        }
        if longer.contains(target) && target != targets[count - 1] {
            let at = choose|at: int| 0 <= at < longer.len() && longer[at] == target;
            assert(shorter[at] == target);
        }
    }
}

/// A change of one hook that succeeds leaves the hook as asked, with its owner,
/// and every other hook as it was.
pub proof fn law_a_changed_hook_is_as_asked(
    before: InlineHookService,
    after: InlineHookService,
    target: usize,
    enable: bool,
    patching: Patching,
    other: usize,
)
    requires
        before.wf(),
        target != 0,
        before.change_plan(target, enable) matches Ok(targets) && possible(patching, targets.len()),
        before.changes(after, target, enable, patching, 0),
    ensures
        after.hooks().contains_key(target),
        after.hooks()[target].enabled == enable,
        after.hooks()[target].owner == before.hooks()[target].owner,
        after.hooks().contains_key(other) <==> before.hooks().contains_key(other),
        other != target && before.hooks().contains_key(other) ==> after.hooks()[other]
            == before.hooks()[other],
        after.ready() == before.ready(),
{
    let targets = before.change_plan(target, enable)->Ok_0;
    assert(targets =~= seq![target]);
    if patching.failure is Some {
        crate::inline_hooks::status::law_toggle_failures_have_their_numbers(patching.failure->0);
        crate::inline_hooks::status::law_failures_are_never_reported_as_success(
            patching.failure->0,
        );
    }
    assert(patching.completed == 1);
    assert(targets.take(1) =~= targets);
    assert(targets[0] == target);
    law_patching_switches_what_it_reached(before.hooks(), targets, 1, enable, target);
    law_patching_switches_what_it_reached(before.hooks(), targets, 1, enable, other);
    if targets.contains(other) {
        assert(other == target);
    }
    assert(after.hooks().dom().contains(other) <==> before.hooks().dom().contains(other));
}

/// A change that does not succeed says why: as it was refused, because the
/// other threads were not held, or because a target could not be patched.
pub proof fn law_a_failed_change_says_why(
    before: InlineHookService,
    after: InlineHookService,
    target: usize,
    enable: bool,
    patching: Patching,
    status: MinHookStatus,
)
    requires
        before.changes(after, target, enable, patching, status),
    ensures
        before.change_plan(target, enable) matches Err(refusal) ==> status == refusal && after
            == before,
        before.change_plan(target, enable) matches Ok(targets) ==> (targets.len() == 0 ==> status
            == 0 && after == before),
        before.change_plan(target, enable) matches Ok(targets) ==> (targets.len() > 0
            && !patching.quiesced ==> status == 10 && after == before),
        after.ready() == before.ready(),
{
}

/// A retirement leaves a hook exactly when it is not selected, and as it was;
/// one that fails keeps every hook registered.
pub proof fn law_a_retirement_removes_what_is_selected(
    before: InlineHookService,
    after: InlineHookService,
    selection: Selection,
    patching: Patching,
    status: MinHookStatus,
    target: usize,
)
    requires
        before.wf(),
        before.retirement_possible(selection, patching),
        before.retires(after, selection, patching, status),
    ensures
        status == 0 ==> (after.hooks().contains_key(target) <==> before.hooks().contains_key(target)
            && !selects(selection, before.hooks()[target])),
        status != 0 ==> (after.hooks().contains_key(target) <==> before.hooks().contains_key(
            target,
        )),
        status != 0 && before.hooks().contains_key(target) ==> after.hooks()[target].owner
            == before.hooks()[target].owner,
        status != 0 && before.hooks().contains_key(target) && !before.hooks()[target].enabled
            ==> !after.hooks()[target].enabled,
        after.hooks().contains_key(target) && !selects(selection, before.hooks()[target])
            ==> after.hooks()[target] == before.hooks()[target],
        status == 0 <==> patching.quiesced && patching.failure is None,
        !patching.quiesced ==> status == 10,
        after.ready() == before.ready(),
{
    let targets = before.targets(selection);
    lemma_selected_in_map(before.hooks(), selection);
    if patching.failure is Some {
        crate::inline_hooks::status::law_failures_are_never_reported_as_success(
            patching.failure->0,
        );
        assert forall|i: int| 0 <= i < targets.len() implies before.hooks().contains_key(
            #[trigger] targets[i],
        ) by {
            assert(targets.contains(targets[i]));
        }
        law_patching_switches_what_it_reached(
            before.hooks(),
            targets,
            patching.completed as nat,
            false,
            target,
        );
        let reached = targets.take(patching.completed as int);
        if reached.contains(target) {
            let at = choose|at: int| 0 <= at < reached.len() && reached[at] == target;
            assert(targets[at] == target);
            assert(targets.contains(target));
        }
        assert(after.hooks().dom().contains(target) <==> before.hooks().dom().contains(target));
    }
}

} // verus!
