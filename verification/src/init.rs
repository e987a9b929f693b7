//! The PID-1 lifecycle decisions. Init boots by running the start stage with
//! all signals masked, supervises by consuming an ordered stream of signals,
//! and shuts the machine down through the Linux reboot syscall. The syscalls,
//! the signal mask and the process spawns happen outside the library; every
//! choice they act on is computed and proved here.

use vstd::prelude::*;

verus! {

// Linux signal numbers, as delivered to PID 1.
pub const SIGINT: i32 = 2;
pub const SIGUSR1: i32 = 10;
pub const SIGUSR2: i32 = 12;
pub const SIGALRM: i32 = 14;
pub const SIGCHLD: i32 = 17;

/// The magic numbers and commands of the Linux reboot syscall.
pub const LINUX_REBOOT_MAGIC1: u32 = 0xfee1dead;
pub const LINUX_REBOOT_MAGIC2: u32 = 0x28121969;
pub const LINUX_REBOOT_CMD_RESTART: u32 = 0x01234567;
pub const LINUX_REBOOT_CMD_POWER_OFF: u32 = 0x4321fedc;
pub const LINUX_REBOOT_CMD_CAD_OFF: u32 = 0;

/// The exit code by which the start stage reports a successful boot.
pub const BOOT_SUCCESS_CODE: i32 = 111;

/// How many seconds after a reap the fallback alarm is armed, so that a lost
/// child-exit signal is cleaned up eventually.
pub const REAP_ALARM_SECS: u32 = 30;

/// How the machine is to go down.
#[derive(Clone, Copy, Debug, PartialEq, Eq, Structural)]
pub enum ShutdownType {
    PowerOff,
    Reboot,
    CtrlAltDelete,
}

/// One of the three stage scripts init runs.
#[derive(Clone, Copy, Debug, PartialEq, Eq, Structural)]
pub enum Stage {
    Start,
    System,
    Shutdown(ShutdownType),
}

/// The file a stage is spawned from.
pub fn stage_path(stage: &Stage) -> (p: &'static str)
    ensures
        stage is Start ==> p@ == "/etc/iodine/start"@,
        stage is System ==> p@ == "/etc/iodine/service"@,
        stage is Shutdown ==> p@ == "/etc/iodine/shutdown"@,
{
    match stage {
        Stage::Start => "/etc/iodine/start",
        Stage::System => "/etc/iodine/service",
        Stage::Shutdown(_) => "/etc/iodine/shutdown",
    }
}

/// The single argument a stage is spawned with: only the shutdown stage
/// takes one, naming how the machine goes down.
pub fn stage_arg(stage: &Stage) -> (a: Option<&'static str>)
    ensures
        stage matches Stage::Shutdown(t) ==> a matches Some(w) && (match t {
            ShutdownType::PowerOff => w@ == "poweroff"@,
            ShutdownType::Reboot => w@ == "reboot"@,
            ShutdownType::CtrlAltDelete => w@ == "ctrlaltdelete"@,
        }),
        !(stage is Shutdown) ==> a is None,
{
    match stage {
        Stage::Start => None,
        Stage::System => None,
        Stage::Shutdown(ShutdownType::PowerOff) => Some("poweroff"),
        Stage::Shutdown(ShutdownType::Reboot) => Some("reboot"),
        Stage::Shutdown(ShutdownType::CtrlAltDelete) => Some("ctrlaltdelete"),
    }
}

/// Whether the start stage reported a successful boot: it must have exited,
/// and with the one code that means success. Signal death is failure.
pub fn startup_ok(code: Option<i32>) -> (ok: bool)
    ensures
        ok == (code == Some(BOOT_SUCCESS_CODE)),
{
    match code {
        Some(c) => c == BOOT_SUCCESS_CODE,
        None => false,
    }
}

/// The reboot syscall command a shutdown ends in: power-off for a power-off,
/// restart both for an ordered reboot and for Ctrl-Alt-Delete.
pub fn reboot_cmd(t: ShutdownType) -> (c: u32)
    ensures
        t is PowerOff ==> c == LINUX_REBOOT_CMD_POWER_OFF,
        !(t is PowerOff) ==> c == LINUX_REBOOT_CMD_RESTART,
{
    match t {
        ShutdownType::PowerOff => LINUX_REBOOT_CMD_POWER_OFF,
        ShutdownType::Reboot => LINUX_REBOOT_CMD_RESTART,
        ShutdownType::CtrlAltDelete => LINUX_REBOOT_CMD_RESTART,
    }
}

/// What the supervise loop does on one delivered signal.
#[derive(Clone, Copy, Debug, PartialEq, Eq, Structural)]
pub enum InitAction {
    /// Run the shutdown stage and issue the reboot syscall.
    Shutdown(ShutdownType),
    /// Reap exited children without blocking, then re-arm the alarm.
    Reap,
    /// A signal the loop is not interested in.
    Ignore,
}

/// The action one signal asks of PID 1: the two user signals and the
/// redirected Ctrl-Alt-Delete each name a way down; child exits and the
/// fallback alarm both mean a reap.
pub fn signal_action(sig: i32) -> (a: InitAction)
    ensures
        sig == SIGUSR1 ==> a == InitAction::Shutdown(ShutdownType::PowerOff),
        sig == SIGUSR2 ==> a == InitAction::Shutdown(ShutdownType::Reboot),
        sig == SIGINT ==> a == InitAction::Shutdown(ShutdownType::CtrlAltDelete),
        sig == SIGCHLD || sig == SIGALRM ==> a == InitAction::Reap,
        sig != SIGUSR1 && sig != SIGUSR2 && sig != SIGINT && sig != SIGCHLD && sig != SIGALRM
            ==> a == InitAction::Ignore,
{
    if sig == SIGUSR1 {
        InitAction::Shutdown(ShutdownType::PowerOff)
    } else if sig == SIGUSR2 {
        InitAction::Shutdown(ShutdownType::Reboot)
    } else if sig == SIGINT {
        InitAction::Shutdown(ShutdownType::CtrlAltDelete)
    } else if sig == SIGCHLD || sig == SIGALRM {
        InitAction::Reap
    } else {
        InitAction::Ignore
    }
}

/// What happens right after the start stage exits: on the success code init
/// goes on to supervise; on anything else the machine powers off without the
/// service stage ever being spawned.
#[derive(Clone, Copy, Debug, PartialEq, Eq, Structural)]
pub enum BootDecision {
    Supervise,
    PowerOffNow,
}

pub fn boot_decision(code: Option<i32>) -> (d: BootDecision)
    ensures
        d == (if code == Some(BOOT_SUCCESS_CODE) {
            BootDecision::Supervise
        } else {
            BootDecision::PowerOffNow
        }),
{
    if startup_ok(code) {
        BootDecision::Supervise
    } else {
        BootDecision::PowerOffNow
    }
}

} // verus!
