//! The records exchanged on the control socket: commands addressed to a
//! service, the status a service publishes, and the request envelope.

use vstd::prelude::*;

verus! {

/// A control command addressed to one service. `Down` and `Restart` are
/// delivered together with SIGTERM, `Kill` with SIGKILL; `Status` is answered
/// by the supervisor without involving the worker.
#[derive(Clone, Copy, Debug, PartialEq, Eq, Structural)]
pub enum ServiceCommands {
    Down,
    Kill,
    Up,
    Restart,
    Status,
}

/// How a supervised child ended: a normal exit code, or the signal that
/// terminated it.
#[derive(Clone, Copy, Debug, PartialEq, Eq, Structural)]
pub enum ExitStatus {
    Code(u8),
    Signal(i32),
}

/// The published state of one service, read by the supervisor and written
/// only by the service's own worker.
#[derive(Clone, Copy, Debug, PartialEq, Eq, Structural)]
pub enum ServiceStatus {
    Down,
    Running(u32),
    Crashed(ExitStatus),
}

/// One request on the control socket: a service name and a command.
#[derive(Clone, Debug)]
pub struct SockMessage {
    pub service: String,
    pub command: ServiceCommands,
}

/// The mathematical content of a `SockMessage`: the name as a character
/// sequence, and the command.
pub struct SockMessageView {
    pub service: Seq<char>,
    pub command: ServiceCommands,
}

impl View for SockMessage {
    type V = SockMessageView;

    open spec fn view(&self) -> SockMessageView {
        SockMessageView { service: self.service@, command: self.command }
    }
}

} // verus!
