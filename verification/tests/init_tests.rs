use iodine::init::{
    boot_decision, reboot_cmd, signal_action, stage_arg, stage_path, startup_ok, BootDecision,
    InitAction, ShutdownType, Stage, BOOT_SUCCESS_CODE, LINUX_REBOOT_CMD_POWER_OFF,
    LINUX_REBOOT_CMD_RESTART, SIGALRM, SIGCHLD, SIGINT, SIGUSR1, SIGUSR2,
};

#[test]
fn boot_failure_powers_off_before_services() {
    assert_eq!(boot_decision(Some(0)), BootDecision::PowerOffNow);
    assert_eq!(reboot_cmd(ShutdownType::PowerOff), LINUX_REBOOT_CMD_POWER_OFF);
}

#[test]
fn boot_success_code_supervises() {
    assert_eq!(boot_decision(Some(BOOT_SUCCESS_CODE)), BootDecision::Supervise);
    assert_eq!(boot_decision(Some(1)), BootDecision::PowerOffNow);
    assert_eq!(boot_decision(None), BootDecision::PowerOffNow);
}

#[test]
fn startup_ok_only_on_111() {
    assert!(startup_ok(Some(111)));
    assert!(!startup_ok(Some(0)));
    assert!(!startup_ok(Some(-1)));
    assert!(!startup_ok(None));
}

#[test]
fn cad_redirect_runs_shutdown_stage_then_restarts() {
    let action = signal_action(SIGINT);
    assert_eq!(action, InitAction::Shutdown(ShutdownType::CtrlAltDelete));
    let stage = Stage::Shutdown(ShutdownType::CtrlAltDelete);
    assert_eq!(stage_path(&stage), "/etc/iodine/shutdown");
    assert_eq!(stage_arg(&stage), Some("ctrlaltdelete"));
    assert_eq!(reboot_cmd(ShutdownType::CtrlAltDelete), LINUX_REBOOT_CMD_RESTART);
}

#[test]
fn signal_dispatch_table() {
    assert_eq!(signal_action(SIGUSR1), InitAction::Shutdown(ShutdownType::PowerOff));
    assert_eq!(signal_action(SIGUSR2), InitAction::Shutdown(ShutdownType::Reboot));
    assert_eq!(signal_action(SIGCHLD), InitAction::Reap);
    assert_eq!(signal_action(SIGALRM), InitAction::Reap);
    assert_eq!(signal_action(1), InitAction::Ignore);
}

#[test]
fn stage_paths_and_args() {
    assert_eq!(stage_path(&Stage::Start), "/etc/iodine/start");
    assert_eq!(stage_path(&Stage::System), "/etc/iodine/service");
    assert_eq!(stage_arg(&Stage::Start), None);
    assert_eq!(stage_arg(&Stage::System), None);
    assert_eq!(stage_arg(&Stage::Shutdown(ShutdownType::PowerOff)), Some("poweroff"));
    assert_eq!(stage_arg(&Stage::Shutdown(ShutdownType::Reboot)), Some("reboot"));
}
