//! The per-service worker state machine. A worker owns one service: while the
//! service is wanted up it spawns the start command, publishes `Running`,
//! waits for the exit, publishes `Crashed`, and polls its command channel;
//! while the service is down it blocks on the channel. The loop itself runs
//! outside the library; each observation is handed to one of the step methods
//! here, whose contracts pin the published status and the next intent.

use vstd::prelude::*;
use crate::protocol::{ServiceCommands, ExitStatus, ServiceStatus};

verus! {

/// The exit code published when the start command could not be spawned.
pub const SPAWN_FAILURE_CODE: u8 = 255;

/// One worker's state: whether the service is wanted up, whether it runs as
/// a oneshot, and the status it has published for the supervisor to read.
#[derive(Clone, Copy, Debug, PartialEq, Eq, Structural)]
pub struct Worker {
    pub oneshot: bool,
    pub want_up: bool,
    pub status: ServiceStatus,
}

/// The state after a spawn attempt: `Running` is published on success, a
/// sentinel `Crashed` code on failure, and a oneshot no longer wants up.
pub open spec fn spec_after_spawn(w: Worker, spawned: Option<u32>) -> Worker {
    Worker {
        want_up: !w.oneshot,
        status: match spawned {
            Some(pid) => ServiceStatus::Running(pid),
            None => ServiceStatus::Crashed(ExitStatus::Code(SPAWN_FAILURE_CODE)),
        },
        ..w
    }
}

/// The state after the child exited: the exit is published, the intent keeps.
pub open spec fn spec_after_exit(w: Worker, e: ExitStatus) -> Worker {
    Worker { status: ServiceStatus::Crashed(e), ..w }
}

/// The state after the post-exit poll of the command channel: `Down` and
/// `Kill` settle the service down; `Up` and `Restart` keep the intent; an
/// empty channel changes nothing.
pub open spec fn spec_after_poll(w: Worker, c: Option<ServiceCommands>) -> Worker {
    match c {
        Some(ServiceCommands::Down) | Some(ServiceCommands::Kill) => Worker {
            want_up: false,
            status: ServiceStatus::Down,
            ..w
        },
        _ => w,
    }
}

/// The state after a command received while down: `Up` and `Restart` raise
/// the intent; `Down` and `Kill` leave the service down.
pub open spec fn spec_after_recv(w: Worker, c: ServiceCommands) -> Worker {
    match c {
        ServiceCommands::Up | ServiceCommands::Restart => Worker { want_up: true, ..w },
        _ => w,
    }
}

impl Worker {
    /// A fresh worker wants its service up and has published nothing yet.
    pub fn new(oneshot: bool) -> (w: Worker)
        ensures
            w == (Worker { oneshot, want_up: true, status: ServiceStatus::Down }),
    {
        Worker { oneshot, want_up: true, status: ServiceStatus::Down }
    }

    /// Record a spawn attempt; `spawned` carries the child's pid on success.
    pub fn on_spawn(&mut self, spawned: Option<u32>)
        requires
            old(self).want_up,
        ensures
            *final(self) == spec_after_spawn(*old(self), spawned),
    {
        self.want_up = !self.oneshot;
        self.status = match spawned {
            Some(pid) => ServiceStatus::Running(pid),
            None => ServiceStatus::Crashed(ExitStatus::Code(SPAWN_FAILURE_CODE)),
        };
    }

    /// Record the supervised child's exit.
    pub fn on_exit(&mut self, e: ExitStatus)
        requires
            old(self).status is Running,
        ensures
            *final(self) == spec_after_exit(*old(self), e),
    {
        self.status = ServiceStatus::Crashed(e);
    }

    /// Record the non-blocking poll made after an exit. `Status` commands are
    /// never delivered to a worker.
    pub fn on_poll(&mut self, c: Option<ServiceCommands>)
        requires
            old(self).status is Crashed,
            c matches Some(cmd) ==> cmd != ServiceCommands::Status,
        ensures
            *final(self) == spec_after_poll(*old(self), c),
    {
        match c {
            Some(ServiceCommands::Down) | Some(ServiceCommands::Kill) => {
                self.want_up = false;
                self.status = ServiceStatus::Down;
            },
            _ => {},
        }
    }

    /// Record a command received while the service is down. `Status` commands
    /// are never delivered to a worker.
    pub fn on_recv(&mut self, c: ServiceCommands)
        requires
            !old(self).want_up,
            c != ServiceCommands::Status,
        ensures
            *final(self) == spec_after_recv(*old(self), c),
    {
        match c {
            ServiceCommands::Up | ServiceCommands::Restart => {
                self.want_up = true;
            },
            _ => {},
        }
    }
}

/// The state after a whole run of commands received while down, first one
/// first.
pub open spec fn spec_after_recv_all(w: Worker, cs: Seq<ServiceCommands>) -> Worker
    decreases cs.len(),
{
    if cs.len() == 0 {
        w
    } else {
        spec_after_recv_all(spec_after_recv(w, cs[0]), cs.drop_first())
    }
}

/// A service that is down stays down, with its status untouched, under every
/// sequence of commands that holds no `Up` and no `Restart`.
pub proof fn lemma_down_stays_without_up(w: Worker, cs: Seq<ServiceCommands>)
    requires
        !w.want_up,
        forall|i: int|
            0 <= i < cs.len() ==> #[trigger] cs[i] != ServiceCommands::Up && cs[i]
                != ServiceCommands::Restart,
    ensures
        !spec_after_recv_all(w, cs).want_up,
        spec_after_recv_all(w, cs).status == w.status,
    decreases cs.len(),
{
    if cs.len() > 0 {
        lemma_down_stays_without_up(spec_after_recv(w, cs[0]), cs.drop_first());
    }
}

/// After an `Up` received while down, a service that is not a oneshot is
/// running one spawn later: the next iteration publishes `Running(pid)` and
/// still wants the service up.
pub proof fn lemma_up_converges_to_running(w: Worker, pid: u32)
    requires
        !w.want_up,
        !w.oneshot,
    ensures
        spec_after_recv(w, ServiceCommands::Up).want_up,
        spec_after_spawn(spec_after_recv(w, ServiceCommands::Up), Some(pid)).status
            == ServiceStatus::Running(pid),
        spec_after_spawn(spec_after_recv(w, ServiceCommands::Up), Some(pid)).want_up,
{
}

/// After a `Down` or `Kill`, the worker settles on `Down`: once the child's
/// exit is observed, the polled command ends the iteration down and the
/// service is no longer wanted up.
pub proof fn lemma_down_converges_to_down(w: Worker, e: ExitStatus, c: ServiceCommands)
    requires
        c == ServiceCommands::Down || c == ServiceCommands::Kill,
    ensures
        spec_after_poll(spec_after_exit(w, e), Some(c)).status == ServiceStatus::Down,
        !spec_after_poll(spec_after_exit(w, e), Some(c)).want_up,
{
}

/// A oneshot service runs once: whatever its exit and whatever the post-exit
/// poll finds, the worker no longer wants it up, and only an `Up` or
/// `Restart` received later raises the intent again.
pub proof fn lemma_oneshot_not_respawned(w: Worker, pid: u32, e: ExitStatus, c: Option<
    ServiceCommands,
>)
    requires
        w.oneshot,
        w.want_up,
        c matches Some(cmd) ==> cmd != ServiceCommands::Status,
    ensures
        !spec_after_poll(spec_after_exit(spec_after_spawn(w, Some(pid)), e), c).want_up,
        spec_after_recv(
            spec_after_poll(spec_after_exit(spec_after_spawn(w, Some(pid)), e), c),
            ServiceCommands::Up,
        ).want_up,
{
}

} // verus!
