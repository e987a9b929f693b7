//! A minimal Linux init and service-supervision stack: the PID-1 lifecycle
//! decisions, the per-service worker state machine, the control-socket wire
//! protocol, and the unit-file data model, all stated and proved here.
//! Process spawning, signals and socket I/O live outside the library and
//! only act on the plans these functions compute.

pub mod protocol;
pub mod wire;
pub mod worker;
pub mod unit;
pub mod init;
pub mod supervisor;
pub mod client;

pub use supervisor::SOCK_LOCATION;

pub use unit::{ServiceFile, Info, Service, Command};

pub use protocol::{ServiceCommands, ExitStatus, ServiceStatus, SockMessage};
