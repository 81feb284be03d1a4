use active_lock::monitors::{plan_monitors, MonitorPlan};
use active_lock::pixels::pack_pixels;
use active_lock::platform::{
    cmd_key_swallowed, create_platform_lock, keyboard_hook_blocks, DisengageEvent, EngageEvent,
    DisengageOp, EngageOp, HostOs, MacosLock, PlatformLockKind, WindowsLock, LOCKDOWN_OPTIONS,
};

#[test]
fn windows_hook_blocks_switching_keys() {
    assert!(keyboard_hook_blocks(0, 0x5B, 0, false));
    assert!(keyboard_hook_blocks(0, 0x5C, 0, false));
    assert!(keyboard_hook_blocks(0, 0x09, 0x20, false));
    assert!(!keyboard_hook_blocks(0, 0x09, 0, false));
    assert!(keyboard_hook_blocks(0, 0x73, 0x20, false));
    assert!(!keyboard_hook_blocks(0, 0x73, 0, true));
    assert!(keyboard_hook_blocks(0, 0x1B, 0, true));
    assert!(!keyboard_hook_blocks(0, 0x1B, 0x20, false));
    assert!(!keyboard_hook_blocks(0, 0x41, 0x20, true));
    assert!(!keyboard_hook_blocks(-1, 0x5B, 0, false));
    // only the low 16 bits of the virtual-key code count
    assert!(keyboard_hook_blocks(3, 0x1_005B, 0, false));
}

#[test]
fn macos_monitor_swallows_command_shortcuts() {
    let cmd = 1usize << 20;
    for b in [b'q', b'w', b'h', b'm'] {
        assert!(cmd_key_swallowed(cmd, Some(b)));
        assert!(!cmd_key_swallowed(0, Some(b)));
    }
    assert!(!cmd_key_swallowed(cmd, Some(b'a')));
    assert!(!cmd_key_swallowed(cmd, None));
    assert!(cmd_key_swallowed(cmd | 1, Some(b'q')));
}

fn run_engage(lock: &mut WindowsLock, prior: Option<u32>) -> Result<(), String> {
    let mut ev = EngageEvent::Start;
    loop {
        match lock.engage_step(ev) {
            EngageOp::InstallKeyboardHook => ev = EngageEvent::HookInstalled(Ok(())),
            EngageOp::ReadTaskManagerPolicy => ev = EngageEvent::PolicyRead(prior),
            EngageOp::WriteTaskManagerPolicy => ev = EngageEvent::PolicyWritten(Ok(())),
            EngageOp::Finish(r) => return r,
        }
    }
}

fn run_disengage(lock: &mut WindowsLock) -> bool {
    let mut deleted = false;
    let mut ev = DisengageEvent::Start;
    loop {
        match lock.disengage_step(ev) {
            DisengageOp::RemoveKeyboardHook => ev = DisengageEvent::HookRemoved,
            DisengageOp::DeleteTaskManagerPolicy => {
                deleted = true;
                ev = DisengageEvent::PolicyDeleted
            }
            DisengageOp::Finish => return deleted,
        }
    }
}

#[test]
fn windows_lock_restores_task_manager() {
    let mut lock = WindowsLock::new();
    assert_eq!(run_engage(&mut lock, None), Ok(()));
    assert!(lock.hook_installed());
    assert!(!lock.taskmgr_was_disabled());
    assert!(run_disengage(&mut lock));
    assert!(!lock.hook_installed());

    let mut lock = WindowsLock::new();
    assert_eq!(run_engage(&mut lock, Some(1)), Ok(()));
    assert!(lock.taskmgr_was_disabled());
    assert!(!run_disengage(&mut lock));

    let mut lock = WindowsLock::new();
    assert_eq!(run_engage(&mut lock, Some(0)), Ok(()));
    assert!(run_disengage(&mut lock));
}

#[test]
fn windows_lock_stops_on_hook_failure() {
    let mut lock = WindowsLock::new();
    assert!(matches!(lock.engage_step(EngageEvent::Start), EngageOp::InstallKeyboardHook));
    match lock.engage_step(EngageEvent::HookInstalled(Err("SetWindowsHookExW: denied".to_string())))
    {
        EngageOp::Finish(Err(e)) => assert_eq!(e, "SetWindowsHookExW: denied"),
        other => panic!("unexpected {:?}", other),
    }
    assert!(!lock.hook_installed());
    match lock.engage_step(EngageEvent::PolicyWritten(Err("RegSetValueExW: error 5".to_string())))
    {
        EngageOp::Finish(Err(e)) => assert_eq!(e, "RegSetValueExW: error 5"),
        other => panic!("unexpected {:?}", other),
    }
}

#[test]
fn macos_lock_restores_options() {
    let mut lock = MacosLock::new();
    assert_eq!(lock.engage(Some(0x4)), Ok(LOCKDOWN_OPTIONS));
    lock.record_key_blocker(true);
    let release = lock.disengage(true);
    assert!(release.remove_key_blocker);
    assert_eq!(release.restore_options, Some(0x4));
    let again = lock.disengage(true);
    assert!(!again.remove_key_blocker);
    assert_eq!(again.restore_options, Some(0));
}

#[test]
fn macos_lock_off_main_thread() {
    let mut lock = MacosLock::new();
    assert_eq!(lock.engage(None), Err("not on main thread".to_string()));
    assert_eq!(lock.engage(Some(9)), Ok(LOCKDOWN_OPTIONS));
    let off = lock.disengage(false);
    assert_eq!(off.restore_options, None);
    assert_eq!(lock.disengage(true).restore_options, Some(9));
}

#[test]
fn lockdown_options_value() {
    assert_eq!(LOCKDOWN_OPTIONS, 0b1_1111_1010);
}

#[test]
fn platform_lock_per_os() {
    assert!(matches!(create_platform_lock(HostOs::MacOs), PlatformLockKind::Macos(_)));
    match create_platform_lock(HostOs::Windows) {
        PlatformLockKind::Windows(l) => assert!(!l.hook_installed() && !l.taskmgr_was_disabled()),
        _ => panic!("wrong lock"),
    }
}

#[test]
fn monitor_plans() {
    let names = vec![Some("A".to_string()), Some("B".to_string()), None];
    match plan_monitors(&names, &Some(Some("B".to_string()))) {
        MonitorPlan::Listed(f) => assert_eq!(f, vec![false, true, false]),
        other => panic!("{:?}", other),
    }
    match plan_monitors(&names, &None) {
        MonitorPlan::Listed(f) => assert_eq!(f, vec![true, false, false]),
        other => panic!("{:?}", other),
    }
    match plan_monitors(&names, &Some(None)) {
        MonitorPlan::Listed(f) => assert_eq!(f, vec![false, false, true]),
        other => panic!("{:?}", other),
    }
    assert!(matches!(plan_monitors(&vec![], &Some(None)), MonitorPlan::PrimaryOnly));
    assert!(matches!(plan_monitors(&vec![], &None), MonitorPlan::NoMonitors));
}

#[test]
fn pixels_pack_rgb() {
    let data = [1u8, 2, 3, 255, 0xff, 0x80, 0x00, 7, 9, 9];
    assert_eq!(pack_pixels(&data, 2), vec![0x010203, 0xff8000]);
    assert_eq!(pack_pixels(&data, 0), Vec::<u32>::new());
}
