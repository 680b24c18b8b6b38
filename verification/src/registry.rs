//! The detour registry: the table of installed patches, keyed by hook
//! identity.

use crate::record::Signature;
use crate::table::{id_entries, ids_get, ids_insert, ids_new, ids_remove, IdTable};
use vstd::prelude::*;

verus! {

/// Why a patch could not be installed.
#[derive(Clone, Copy, Debug, PartialEq, Eq, Structural)]
pub enum InstallError {
    /// The target is null or lies outside the module's mapped image.
    InvalidTarget,
    /// Fewer bytes are left from the target to the end of the image than the
    /// redirect needs.
    InsufficientRoom,
    /// A patch of another hook already sits at the target.
    AlreadyInstalled,
}

/// Why an operation on the registry failed.
#[derive(Clone, Copy, Debug, PartialEq, Eq, Structural)]
pub enum HookError {
    /// The registry already has an entry for the hook identity.
    AlreadyRegistered,
    /// The registry has no entry for the hook identity.
    UnknownHook,
    /// The call signature asked for is not the one the hook was added with.
    SignatureMismatch,
    /// The patch cannot be installed.
    Install(InstallError),
}

/// What the caller has to do to the bytes at the target after the registry
/// changed an entry's state.
#[derive(Clone, Copy, Debug, PartialEq, Eq, Structural)]
pub enum PatchAction {
    /// Nothing: the bytes already are what the new state asks for.
    Keep,
    /// Write the redirect to the replacement.
    Apply,
    /// Write the saved original bytes back.
    Restore,
}

/// One installed patch.
#[derive(Clone, Copy, Debug, PartialEq, Eq, Structural)]
pub struct PatchRecord {
    /// The address of the intercepted function.
    pub target: usize,
    /// The address that the patched target transfers control to.
    pub replacement: usize,
    /// The address of the callable that behaves as the unpatched target.
    pub trampoline: usize,
    /// The call signature of the intercepted function.
    pub signature: Signature,
    /// Whether the redirect is in place.
    pub enabled: bool,
}

impl PatchRecord {
    /// What the caller has to do to the bytes at the target when the record
    /// is dropped: write the original bytes back if the redirect is in
    /// place, and nothing otherwise.
    pub fn removal_action(&self) -> (action: PatchAction)
        ensures
            action == (if self.enabled {
                PatchAction::Restore
            } else {
                PatchAction::Keep
            }),
    {
        if self.enabled {
            PatchAction::Restore
        } else {
            PatchAction::Keep
        }
    }
}

/// The callable original of a hook, with the signature it has to be called
/// with.
#[derive(Clone, Copy, Debug, PartialEq, Eq, Structural)]
pub struct Trampoline {
    pub address: usize,
    pub signature: Signature,
}

/// The entries with the redirect of `id` switched on or off.
pub open spec fn with_enabled(entries: Map<u64, PatchRecord>, id: u64, on: bool) -> Map<
    u64,
    PatchRecord,
> {
    entries.insert(id, PatchRecord { enabled: on, ..entries[id] })
}

/// What has to happen to the bytes at the target of `id` when its redirect
/// is switched on or off.
pub open spec fn toggle_action(entries: Map<u64, PatchRecord>, id: u64, on: bool) -> PatchAction {
    if entries[id].enabled == on {
        PatchAction::Keep
    } else if on {
        PatchAction::Apply
    } else {
        PatchAction::Restore
    }
}

/// Some entry patches `target`.
pub open spec fn target_in_use(entries: Map<u64, PatchRecord>, target: usize) -> bool {
    exists|id: u64| entries.contains_key(id) && (#[trigger] entries[id]).target == target
}

/// Whether a hook `id` at `target` may be added to `entries`, and if not,
/// why.
pub open spec fn admission(entries: Map<u64, PatchRecord>, id: u64, target: usize) -> Result<
    (),
    HookError,
> {
    if entries.contains_key(id) {
        Err(HookError::AlreadyRegistered)
    } else if target == 0 {
        Err(HookError::Install(InstallError::InvalidTarget))
    } else if target_in_use(entries, target) {
        Err(HookError::Install(InstallError::AlreadyInstalled))
    } else {
        Ok(())
    }
}

/// Whether a redirect of `needed` bytes fits at `target` inside the image
/// that is mapped at `base` and is `len` bytes long.
pub open spec fn site_check(base: usize, len: usize, target: usize, needed: usize) -> Result<
    (),
    InstallError,
> {
    if target == 0 || target < base || target - base >= len {
        Err(InstallError::InvalidTarget)
    } else if len - (target - base) < needed {
        Err(InstallError::InsufficientRoom)
    } else {
        Ok(())
    }
}

/// Checks that a redirect of `needed` bytes fits at `target` inside the
/// image that is mapped at `base` and is `len` bytes long.
pub fn check_patch_site(base: usize, len: usize, target: usize, needed: usize) -> (r: Result<
    (),
    InstallError,
>)
    ensures
        r == site_check(base, len, target, needed),
{
    if target == 0 || target < base || target - base >= len {
        Err(InstallError::InvalidTarget)
    } else if len - (target - base) < needed {
        Err(InstallError::InsufficientRoom)
    } else {
        Ok(())
    }
}

/// One entry of the registry: a hook identity and its patch.
#[derive(Clone, Copy, Debug, PartialEq, Eq, Structural)]
pub struct Entry {
    pub id: u64,
    pub record: PatchRecord,
}

/// The table of installed patches. At most one entry exists per hook
/// identity.
///
/// The entries stand in a list; a hash table leads from each hook identity
/// to the place of its entry.
pub struct Detours {
    index: IdTable,
    entries: Vec<Entry>,
}

/// The hash table `index` leads from the identity of each entry of
/// `entries` to the entry's place, and to nothing else.
pub open spec fn indexed(index: Map<u64, u64>, entries: Seq<Entry>) -> bool {
    &&& forall|p: int|
        0 <= p < entries.len() ==> index.contains_key((#[trigger] entries[p]).id)
            && index[entries[p].id] == p
    &&& forall|id: u64| #[trigger]
        index.contains_key(id) ==> index[id] < entries.len() && entries[index[id] as int].id
            == id
}

/// The patch of each hook identity, as the index and the entries give it.
pub open spec fn patches(index: Map<u64, u64>, entries: Seq<Entry>) -> Map<u64, PatchRecord> {
    Map::new(|id: u64| index.contains_key(id), |id: u64| entries[index[id] as int].record)
}

impl View for Detours {
    type V = Map<u64, PatchRecord>;

    closed spec fn view(&self) -> Map<u64, PatchRecord> {
        patches(id_entries(self.index), self.entries@)
    }
}

impl Default for Detours {
    /// An empty registry.
    fn default() -> (d: Detours)
        ensures
            d@ == Map::<u64, PatchRecord>::empty(),
    {
        Detours::new()
    }
}

impl Detours {
    #[verifier::type_invariant]
    spec fn wf(&self) -> bool {
        indexed(id_entries(self.index), self.entries@)
    }

    /// An empty registry.
    pub fn new() -> (d: Detours)
        ensures
            d@ == Map::<u64, PatchRecord>::empty(),
    {
        let d = Detours { index: ids_new(), entries: Vec::new() };
        assert(d@ =~= Map::<u64, PatchRecord>::empty());
        d
    }

    /// The place of the entry of hook `id`, if the registry has one.
    fn find(&self, id: u64) -> (r: Option<usize>)
        ensures
            self.wf(),
            match r {
                Some(p) => self@.contains_key(id) && p < self.entries@.len() && id_entries(
                    self.index,
                )[id] == p && self.entries@[p as int].id == id && self.entries@[p as int].record
                    == self@[id],
                None => !self@.contains_key(id),
            },
    {
        proof {
            use_type_invariant(self);
        }
        let len = self.entries.len();
        match ids_get(&self.index, id) {
            Some(p) => {
                assert(id_entries(self.index).contains_key(id));
                assert(p < len);
                Some(p as usize)
            },
            None => None,
        }
    }

    /// Whether some entry patches `target`.
    pub fn is_patched(&self, target: usize) -> (r: bool)
        ensures
            r == target_in_use(self@, target),
    {
        proof {
            use_type_invariant(self);
        }
        let mut p: usize = 0;
        while p < self.entries.len()
            invariant
                self.wf(),
                p <= self.entries@.len(),
                forall|q: int| 0 <= q < p ==> (#[trigger] self.entries@[q]).record.target != target,
            decreases self.entries@.len() - p,
        {
            if self.entries[p].record.target == target {
                assert(self@.contains_key(self.entries@[p as int].id));
                assert(self@[self.entries@[p as int].id].target == target);
                return true;
            }
            p = p + 1;
        }
        proof {
            if target_in_use(self@, target) {
                let id = choose|id: u64|
                    self@.contains_key(id) && (#[trigger] self@[id]).target == target;
                let q = id_entries(self.index)[id] as int;
                assert(self.entries@[q].record.target != target);
            }
        }
        false
    }

    /// Whether a hook `id` at `target` may be added, and if not, why: the
    /// identity is taken, the target is null, or another hook patches the
    /// target.
    pub fn can_add(&self, id: u64, target: usize) -> (r: Result<(), HookError>)
        ensures
            r == admission(self@, id, target),
    {
        if self.find(id).is_some() {
            Err(HookError::AlreadyRegistered)
        } else if target == 0 {
            Err(HookError::Install(InstallError::InvalidTarget))
        } else if self.is_patched(target) {
            Err(HookError::Install(InstallError::AlreadyInstalled))
        } else {
            Ok(())
        }
    }

    /// Stores the patch of hook `id`, disabled. Fails, and changes nothing,
    /// where [`Detours::can_add`] refuses the hook.
    pub fn add_detour(
        &mut self,
        id: u64,
        target: usize,
        replacement: usize,
        trampoline: usize,
        signature: Signature,
    ) -> (r: Result<(), HookError>)
        ensures
            r == admission(old(self)@, id, target),
            final(self)@ == (if r is Ok {
                old(self)@.insert(
                    id,
                    PatchRecord { target, replacement, trampoline, signature, enabled: false },
                )
            } else {
                old(self)@
            }),
    {
        match self.can_add(id, target) {
            Ok(()) => {
                let record = PatchRecord {
                    target,
                    replacement,
                    trampoline,
                    signature,
                    enabled: false,
                };
                let mut taken = Detours::new();
                core::mem::swap(self, &mut taken);
                proof {
                    use_type_invariant(&taken);
                }
                let Detours { index, entries } = taken;
                let mut index = index;
                let mut entries = entries;
                let place = entries.len();
                entries.push(Entry { id, record });
                ids_insert(&mut index, id, place as u64);
                proof {
                    let before = old(self).entries@;
                    assert forall|p: int| 0 <= p < entries@.len() implies id_entries(
                        index,
                    ).contains_key((#[trigger] entries@[p]).id) && id_entries(index)[entries@[p].id]
                        == p by {
                        if p < before.len() {
                            assert(entries@[p] == before[p]);
                        }
                    }
                    assert(patches(id_entries(index), entries@) =~= old(self)@.insert(id, record));
                }
                *self = Detours { index, entries };
                Ok(())
            },
            Err(e) => Err(e),
        }
    }

    fn toggle(&mut self, id: u64, on: bool) -> (r: Result<PatchAction, HookError>)
        ensures
            toggled(old(self)@, id, on, final(self)@, r),
    {
        match self.find(id) {
            None => Err(HookError::UnknownHook),
            Some(place) => {
                let record = self.entries[place].record;
                let action = if record.enabled == on {
                    PatchAction::Keep
                } else if on {
                    PatchAction::Apply
                } else {
                    PatchAction::Restore
                };
                let updated = PatchRecord {
                    target: record.target,
                    replacement: record.replacement,
                    trampoline: record.trampoline,
                    signature: record.signature,
                    enabled: on,
                };
                let mut taken = Detours::new();
                core::mem::swap(self, &mut taken);
                let Detours { index, entries } = taken;
                let mut entries = entries;
                entries.set(place, Entry { id, record: updated });
                proof {
                    assert(patches(id_entries(index), entries@) =~= with_enabled(
                        old(self)@,
                        id,
                        on,
                    ));
                }
                *self = Detours { index, entries };
                Ok(action)
            },
        }
    }

    /// Switches the redirect of hook `id` on. Where it is on already the
    /// entry stays as it is and nothing has to be written. Fails with
    /// `UnknownHook` where the registry has no such entry.
    pub fn enable_detour(&mut self, id: u64) -> (r: Result<PatchAction, HookError>)
        ensures
            toggled(old(self)@, id, true, final(self)@, r),
    {
        self.toggle(id, true)
    }

    /// Switches the redirect of hook `id` off. Where it is off already the
    /// entry stays as it is and nothing has to be written. Fails with
    /// `UnknownHook` where the registry has no such entry.
    pub fn disable_detour(&mut self, id: u64) -> (r: Result<PatchAction, HookError>)
        ensures
            toggled(old(self)@, id, false, final(self)@, r),
    {
        self.toggle(id, false)
    }

    /// The record of hook `id`, if the registry has one.
    pub fn get_detour(&self, id: u64) -> (r: Option<PatchRecord>)
        ensures
            r == (if self@.contains_key(id) {
                Some(self@[id])
            } else {
                None
            }),
    {
        match self.find(id) {
            Some(place) => Some(self.entries[place].record),
            None => None,
        }
    }

    /// The callable original of hook `id`, to be called with `signature`.
    /// Fails with `UnknownHook` where the registry has no such entry, and
    /// with `SignatureMismatch` where the hook was added with another
    /// signature.
    pub fn get_detour_original(&self, id: u64, signature: Signature) -> (r: Result<
        Trampoline,
        HookError,
    >)
        ensures
            r == (if !self@.contains_key(id) {
                Err(HookError::UnknownHook)
            } else if self@[id].signature != signature {
                Err(HookError::SignatureMismatch)
            } else {
                Ok(Trampoline { address: self@[id].trampoline, signature })
            }),
    {
        match self.get_detour(id) {
            None => Err(HookError::UnknownHook),
            Some(record) => {
                if record.signature == signature {
                    Ok(Trampoline { address: record.trampoline, signature })
                } else {
                    Err(HookError::SignatureMismatch)
                }
            },
        }
    }

    /// Drops the entry of hook `id` and returns its record; where the record
    /// says that the redirect was on, the caller has to write the original
    /// bytes back. Fails with `UnknownHook` where the registry has no such
    /// entry.
    pub fn remove_detour(&mut self, id: u64) -> (r: Result<PatchRecord, HookError>)
        ensures
            final(self)@ == old(self)@.remove(id),
            r == (if old(self)@.contains_key(id) {
                Ok(old(self)@[id])
            } else {
                Err(HookError::UnknownHook)
            }),
    {
        let place = match self.find(id) {
            Some(place) => place,
            None => {
                assert(self@ =~= old(self)@.remove(id));
                return Err(HookError::UnknownHook);
            },
        };
        let mut taken = Detours::new();
        core::mem::swap(self, &mut taken);
        let Detours { index, entries } = taken;
        let mut index = index;
        let mut entries = entries;
        let ghost before = entries@;
        let ghost links = id_entries(index);
        let removed = entries.swap_remove(place);
        ids_remove(&mut index, id);
        if place < entries.len() {
            let moved = entries[place].id;
            assert(moved == before[before.len() - 1].id);
            assert(links[moved] == before.len() - 1);
            ids_insert(&mut index, moved, place as u64);
        }
        proof {
            let after = id_entries(index);
            assert forall|p: int| 0 <= p < entries@.len() implies after.contains_key(
                (#[trigger] entries@[p]).id,
            ) && after[entries@[p].id] == p by {
                if p != place {
                    assert(entries@[p] == before[p]);
                    assert(links[before[p].id] == p);
                }
            }
            assert forall|k: u64| #[trigger] after.contains_key(k) implies after[k]
                < entries@.len() && entries@[after[k] as int].id == k by {
                if !(place < entries@.len() && k == before[before.len() - 1].id) {
                    assert(links.contains_key(k));
                    let q = links[k] as int;
                    assert(before[q].id == k);
                    if q == before.len() - 1 {
                        assert(k == before[before.len() - 1].id);
                    }
                }
            }
            assert(patches(after, entries@) =~= old(self)@.remove(id)) by {
                assert forall|k: u64| #[trigger] after.contains_key(k) implies entries@[after[k] as int].record
                    == old(self)@[k] by {
                    if !(place < entries@.len() && k == before[before.len() - 1].id) {
                        let q = links[k] as int;
                        assert(before[q].id == k);
                    }
                }
            }
        }
        *self = Detours { index, entries };
        Ok(removed.record)
    }

    /// Drops every entry and returns them, each once, in no particular
    /// order.
    pub fn remove_all_detours(&mut self) -> (removed: Vec<(u64, PatchRecord)>)
        ensures
            final(self)@ == Map::<u64, PatchRecord>::empty(),
            forall|i: int|
                0 <= i < removed@.len() ==> old(self)@.contains_key((#[trigger] removed@[i]).0)
                    && old(self)@[removed@[i].0] == removed@[i].1,
            forall|i: int, j: int|
                0 <= i < j < removed@.len() ==> removed@[i].0 != removed@[j].0,
            forall|id: u64|
                old(self)@.contains_key(id) ==> exists|i: int|
                    0 <= i < removed@.len() && (#[trigger] removed@[i]).0 == id,
    {
        let mut taken = Detours::new();
        core::mem::swap(self, &mut taken);
        proof {
            use_type_invariant(&taken);
        }
        let mut removed: Vec<(u64, PatchRecord)> = Vec::new();
        let mut p: usize = 0;
        while p < taken.entries.len()
            invariant
                taken.wf(),
                p <= taken.entries@.len(),
                removed@.len() == p,
                forall|q: int|
                    0 <= q < p ==> (#[trigger] removed@[q]).0 == taken.entries@[q].id
                        && removed@[q].1 == taken.entries@[q].record,
            decreases taken.entries@.len() - p,
        {
            removed.push((taken.entries[p].id, taken.entries[p].record));
            p = p + 1;
        }
        proof {
            let links = id_entries(taken.index);
            assert forall|id: u64| old(self)@.contains_key(id) implies exists|i: int|
                0 <= i < removed@.len() && (#[trigger] removed@[i]).0 == id by {
                let q = links[id] as int;
                assert(removed@[q].0 == id);
            }
            assert forall|i: int, j: int| 0 <= i < j < removed@.len() implies removed@[i].0
                != removed@[j].0 by {
                assert(links[taken.entries@[i].id] == i);
                assert(links[taken.entries@[j].id] == j);
            }
            assert forall|i: int| 0 <= i < removed@.len() implies old(self)@.contains_key(
                (#[trigger] removed@[i]).0,
            ) && old(self)@[removed@[i].0] == removed@[i].1 by {
                assert(links[taken.entries@[i].id] == i);
            }
        }
        removed
    }
}

/// What switching the redirect of `id` on or off does to the entries
/// `before`, giving `after` and the result `r`.
pub open spec fn toggled(
    before: Map<u64, PatchRecord>,
    id: u64,
    on: bool,
    after: Map<u64, PatchRecord>,
    r: Result<PatchAction, HookError>,
) -> bool {
    if before.contains_key(id) {
        &&& r == Ok::<PatchAction, HookError>(toggle_action(before, id, on))
        &&& after == with_enabled(before, id, on)
    } else {
        &&& r == Err::<PatchAction, HookError>(HookError::UnknownHook)
        &&& after == before
    }
}

/// Enabling twice is enabling once, and disabling twice is disabling once:
/// the second call succeeds, leaves every entry as the first call left it,
/// and asks for nothing to be written.
pub proof fn lemma_toggle_is_idempotent(
    start: Map<u64, PatchRecord>,
    id: u64,
    on: bool,
    once: Map<u64, PatchRecord>,
    first: Result<PatchAction, HookError>,
    twice: Map<u64, PatchRecord>,
    second: Result<PatchAction, HookError>,
)
    requires
        start.contains_key(id),
        toggled(start, id, on, once, first),
        toggled(once, id, on, twice, second),
    ensures
        first is Ok,
        second == Ok::<PatchAction, HookError>(PatchAction::Keep),
        twice == once,
{
    assert(twice =~= once);
}

/// The bytes that stand at a patched target: the redirect while the patch
/// is enabled, the original bytes while it is not.
pub open spec fn site_bytes(enabled: bool, original: Seq<u8>, redirect: Seq<u8>) -> Seq<u8> {
    if enabled {
        redirect
    } else {
        original
    }
}

/// The bytes at a target after the caller has done what `action` asks.
pub open spec fn after_action(
    bytes: Seq<u8>,
    action: PatchAction,
    original: Seq<u8>,
    redirect: Seq<u8>,
) -> Seq<u8> {
    match action {
        PatchAction::Keep => bytes,
        PatchAction::Apply => redirect,
        PatchAction::Restore => original,
    }
}

/// A caller that does what the registry asks keeps the bytes at a target in
/// step with the entry: if they were the redirect exactly while the patch
/// was enabled, then after enabling or disabling and writing as asked they
/// are so again; in particular a disabled patch has its original bytes
/// back, byte for byte.
pub proof fn lemma_actions_keep_the_site_in_step(
    before: Map<u64, PatchRecord>,
    id: u64,
    on: bool,
    after: Map<u64, PatchRecord>,
    action: PatchAction,
    bytes: Seq<u8>,
    original: Seq<u8>,
    redirect: Seq<u8>,
)
    requires
        before.contains_key(id),
        toggled(before, id, on, after, Ok(action)),
        bytes == site_bytes(before[id].enabled, original, redirect),
    ensures
        after.contains_key(id),
        after[id].enabled == on,
        after_action(bytes, action, original, redirect) == site_bytes(
            after[id].enabled,
            original,
            redirect,
        ),
{
}

/// Dropping an entry and writing as its record asks leaves the original
/// bytes at the target.
pub proof fn lemma_removal_restores_the_site(
    record: PatchRecord,
    bytes: Seq<u8>,
    original: Seq<u8>,
    redirect: Seq<u8>,
)
    requires
        bytes == site_bytes(record.enabled, original, redirect),
    ensures
        after_action(
            bytes,
            (if record.enabled {
                PatchAction::Restore
            } else {
                PatchAction::Keep
            }),
            original,
            redirect,
        ) == original,
{
}

/// Adding a hook that the registry admits keeps the targets of the entries
/// distinct: no address is ever patched for two hooks.
pub proof fn lemma_add_keeps_targets_distinct(
    entries: Map<u64, PatchRecord>,
    id: u64,
    record: PatchRecord,
)
    requires
        targets_distinct(entries),
        admission(entries, id, record.target) is Ok,
    ensures
        targets_distinct(entries.insert(id, record)),
{
    let after = entries.insert(id, record);
    assert forall|a: u64, b: u64|
        after.contains_key(a) && after.contains_key(b) && a != b implies (#[trigger] after[a]).target
        != (#[trigger] after[b]).target by {
        if a == id {
            assert(entries.contains_key(b));
            assert(entries[b].target != record.target);
        } else if b == id {
            assert(entries.contains_key(a));
            assert(entries[a].target != record.target);
        }
    }
}

/// No two entries patch the same target.
pub open spec fn targets_distinct(entries: Map<u64, PatchRecord>) -> bool {
    forall|a: u64, b: u64|
        entries.contains_key(a) && entries.contains_key(b) && a != b ==> (#[trigger] entries[a]).target
            != (#[trigger] entries[b]).target
}

} // verus!
