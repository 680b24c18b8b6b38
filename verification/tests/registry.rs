use schedule_hook::record::{Params, Signature, ValueKind};
use schedule_hook::registry::{
    check_patch_site, Detours, HookError, InstallError, PatchAction, PatchRecord, Trampoline,
};

fn bool_to_i32() -> Signature {
    Signature { params: Params::A(ValueKind::Bool), ret: ValueKind::I32 }
}

fn record(target: usize, enabled: bool) -> PatchRecord {
    PatchRecord {
        target,
        replacement: 0x2000,
        trampoline: 0x3000,
        signature: bool_to_i32(),
        enabled,
    }
}

#[test]
fn a_hook_is_added_disabled() {
    let mut detours = Detours::new();
    assert_eq!(detours.get_detour(1), None);
    assert_eq!(detours.add_detour(1, 0x1000, 0x2000, 0x3000, bool_to_i32()), Ok(()));
    assert_eq!(detours.get_detour(1), Some(record(0x1000, false)));
}

#[test]
fn enable_twice_and_disable_twice_change_nothing_the_second_time() {
    let mut detours = Detours::new();
    detours.add_detour(1, 0x1000, 0x2000, 0x3000, bool_to_i32()).unwrap();
    assert_eq!(detours.disable_detour(1), Ok(PatchAction::Keep));
    assert_eq!(detours.get_detour(1), Some(record(0x1000, false)));
    assert_eq!(detours.enable_detour(1), Ok(PatchAction::Apply));
    assert_eq!(detours.get_detour(1), Some(record(0x1000, true)));
    assert_eq!(detours.enable_detour(1), Ok(PatchAction::Keep));
    assert_eq!(detours.get_detour(1), Some(record(0x1000, true)));
    assert_eq!(detours.disable_detour(1), Ok(PatchAction::Restore));
    assert_eq!(detours.get_detour(1), Some(record(0x1000, false)));
    assert_eq!(detours.disable_detour(1), Ok(PatchAction::Keep));
    assert_eq!(detours.get_detour(1), Some(record(0x1000, false)));
}

#[test]
fn an_identity_has_one_entry_at_most() {
    let mut detours = Detours::new();
    detours.add_detour(1, 0x1000, 0x2000, 0x3000, bool_to_i32()).unwrap();
    assert_eq!(
        detours.add_detour(1, 0x5000, 0x6000, 0x7000, bool_to_i32()),
        Err(HookError::AlreadyRegistered)
    );
    assert_eq!(detours.get_detour(1), Some(record(0x1000, false)));
    assert_eq!(detours.can_add(1, 0x5000), Err(HookError::AlreadyRegistered));
    assert_eq!(detours.can_add(2, 0x5000), Ok(()));
}

#[test]
fn an_address_is_patched_for_one_hook_at_most() {
    let mut detours = Detours::new();
    detours.add_detour(1, 0x1000, 0x2000, 0x3000, bool_to_i32()).unwrap();
    assert!(detours.is_patched(0x1000));
    assert!(!detours.is_patched(0x1001));
    assert_eq!(
        detours.add_detour(2, 0x1000, 0x2000, 0x3000, bool_to_i32()),
        Err(HookError::Install(InstallError::AlreadyInstalled))
    );
    assert_eq!(detours.get_detour(2), None);
    detours.remove_detour(1).unwrap();
    assert!(!detours.is_patched(0x1000));
    assert_eq!(detours.add_detour(2, 0x1000, 0x2000, 0x3000, bool_to_i32()), Ok(()));
}

#[test]
fn a_null_target_is_invalid() {
    let mut detours = Detours::new();
    assert_eq!(
        detours.add_detour(1, 0, 0x2000, 0x3000, bool_to_i32()),
        Err(HookError::Install(InstallError::InvalidTarget))
    );
    assert_eq!(detours.get_detour(1), None);
}

#[test]
fn operations_on_an_unknown_hook_fail() {
    let mut detours = Detours::new();
    detours.add_detour(1, 0x1000, 0x2000, 0x3000, bool_to_i32()).unwrap();
    assert_eq!(detours.enable_detour(2), Err(HookError::UnknownHook));
    assert_eq!(detours.disable_detour(2), Err(HookError::UnknownHook));
    assert_eq!(detours.remove_detour(2), Err(HookError::UnknownHook));
    assert_eq!(detours.get_detour_original(2, bool_to_i32()), Err(HookError::UnknownHook));
    assert_eq!(detours.get_detour(1), Some(record(0x1000, false)));
}

#[test]
fn the_original_is_handed_out_for_the_signature_it_was_added_with() {
    let mut detours = Detours::new();
    detours.add_detour(1, 0x1000, 0x2000, 0x3000, bool_to_i32()).unwrap();
    assert_eq!(
        detours.get_detour_original(1, bool_to_i32()),
        Ok(Trampoline { address: 0x3000, signature: bool_to_i32() })
    );
    let other = Signature { params: Params::A(ValueKind::U32), ret: ValueKind::I32 };
    assert_eq!(detours.get_detour_original(1, other), Err(HookError::SignatureMismatch));
    let wider = Signature {
        params: Params::AB(ValueKind::Bool, ValueKind::Bool),
        ret: ValueKind::I32,
    };
    assert_eq!(detours.get_detour_original(1, wider), Err(HookError::SignatureMismatch));
    let other_ret = Signature { params: Params::A(ValueKind::Bool), ret: ValueKind::U32 };
    assert_eq!(detours.get_detour_original(1, other_ret), Err(HookError::SignatureMismatch));
}

#[test]
fn remove_hands_back_the_record_and_drops_the_entry() {
    let mut detours = Detours::new();
    detours.add_detour(1, 0x1000, 0x2000, 0x3000, bool_to_i32()).unwrap();
    detours.add_detour(2, 0x1100, 0x2000, 0x3000, bool_to_i32()).unwrap();
    detours.enable_detour(1).unwrap();
    assert_eq!(detours.remove_detour(1), Ok(record(0x1000, true)));
    assert_eq!(detours.get_detour(1), None);
    assert_eq!(detours.remove_detour(1), Err(HookError::UnknownHook));
    assert_eq!(detours.get_detour(2), Some(record(0x1100, false)));
}

#[test]
fn remove_all_hands_back_every_entry_once() {
    let mut detours = Detours::new();
    for id in 1..=20u64 {
        detours.add_detour(id, 0x1000 * id as usize, 0x2000, 0x3000, bool_to_i32()).unwrap();
        if id % 2 == 0 {
            detours.enable_detour(id).unwrap();
        }
    }
    let mut removed = detours.remove_all_detours();
    removed.sort_by_key(|entry| entry.0);
    assert_eq!(removed.len(), 20);
    for (i, (id, entry)) in removed.iter().enumerate() {
        assert_eq!(*id, i as u64 + 1);
        assert_eq!(*entry, record(0x1000 * *id as usize, id % 2 == 0));
    }
    for id in 1..=20u64 {
        assert_eq!(detours.get_detour(id), None);
    }
    assert_eq!(detours.remove_all_detours(), Vec::new());
}

#[test]
fn a_patch_site_needs_room_inside_the_image() {
    assert_eq!(check_patch_site(0x1000, 0x100, 0x1000, 5), Ok(()));
    assert_eq!(check_patch_site(0x1000, 0x100, 0x10fb, 5), Ok(()));
    assert_eq!(check_patch_site(0x1000, 0x100, 0x10fc, 5), Err(InstallError::InsufficientRoom));
    assert_eq!(check_patch_site(0x1000, 0x100, 0x10ff, 5), Err(InstallError::InsufficientRoom));
    assert_eq!(check_patch_site(0x1000, 0x100, 0x1100, 5), Err(InstallError::InvalidTarget));
    assert_eq!(check_patch_site(0x1000, 0x100, 0x0fff, 5), Err(InstallError::InvalidTarget));
    assert_eq!(check_patch_site(0x1000, 0x100, 0, 5), Err(InstallError::InvalidTarget));
    assert_eq!(check_patch_site(0, 0x100, 0, 5), Err(InstallError::InvalidTarget));
    assert_eq!(check_patch_site(0x1000, 0, 0x1000, 0), Err(InstallError::InvalidTarget));
    assert_eq!(check_patch_site(usize::MAX - 1, usize::MAX, usize::MAX, 1), Ok(()));
}

#[test]
fn the_registry_agrees_with_a_plain_map_under_any_mix_of_operations() {
    let mut detours = Detours::new();
    let mut model: std::collections::HashMap<u64, PatchRecord> = std::collections::HashMap::new();
    let mut state: u64 = 0x2545_f491_4f6c_dd1d;
    for _ in 0..4000 {
        state ^= state << 13;
        state ^= state >> 7;
        state ^= state << 17;
        let id = (state >> 8) % 12;
        let target = 0x1000 + ((state >> 16) % 16) as usize;
        match state % 5 {
            0 => {
                let taken = model.values().any(|entry| entry.target == target);
                let expected = if model.contains_key(&id) {
                    Err(HookError::AlreadyRegistered)
                } else if taken {
                    Err(HookError::Install(InstallError::AlreadyInstalled))
                } else {
                    Ok(())
                };
                assert_eq!(detours.add_detour(id, target, 0x2000, 0x3000, bool_to_i32()), expected);
                if expected.is_ok() {
                    model.insert(id, record(target, false));
                }
            }
            1 => {
                let expected = match model.get_mut(&id) {
                    Some(entry) if entry.enabled => Ok(PatchAction::Keep),
                    Some(entry) => {
                        entry.enabled = true;
                        Ok(PatchAction::Apply)
                    }
                    None => Err(HookError::UnknownHook),
                };
                assert_eq!(detours.enable_detour(id), expected);
            }
            2 => {
                let expected = match model.get_mut(&id) {
                    Some(entry) if !entry.enabled => Ok(PatchAction::Keep),
                    Some(entry) => {
                        entry.enabled = false;
                        Ok(PatchAction::Restore)
                    }
                    None => Err(HookError::UnknownHook),
                };
                assert_eq!(detours.disable_detour(id), expected);
            }
            3 => {
                let expected = model.remove(&id).ok_or(HookError::UnknownHook);
                assert_eq!(detours.remove_detour(id), expected);
            }
            _ => {
                assert_eq!(detours.is_patched(target), model.values().any(|e| e.target == target));
            }
        }
        for probe in 0..12 {
            assert_eq!(detours.get_detour(probe), model.get(&probe).copied());
        }
    }
    let mut removed = detours.remove_all_detours();
    removed.sort_by_key(|entry| entry.0);
    let mut expected: Vec<_> = model.into_iter().collect();
    expected.sort_by_key(|entry| entry.0);
    assert_eq!(removed, expected);
}
