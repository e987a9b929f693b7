use iodine::worker::{Worker, SPAWN_FAILURE_CODE};
use iodine::{ExitStatus, ServiceCommands, ServiceStatus};

#[test]
fn up_status_down_happy_path() {
    let mut w = Worker::new(false);
    assert!(w.want_up);
    assert_eq!(w.status, ServiceStatus::Down);
    w.on_spawn(Some(4242));
    assert_eq!(w.status, ServiceStatus::Running(4242));
    assert!(w.want_up);
    w.on_exit(ExitStatus::Signal(15));
    w.on_poll(Some(ServiceCommands::Down));
    assert_eq!(w.status, ServiceStatus::Down);
    assert!(!w.want_up);
}

#[test]
fn oneshot_runs_once_then_stays_down() {
    let mut w = Worker::new(true);
    w.on_spawn(Some(99));
    assert!(!w.want_up);
    w.on_exit(ExitStatus::Code(0));
    assert_eq!(w.status, ServiceStatus::Crashed(ExitStatus::Code(0)));
    w.on_poll(None);
    assert!(!w.want_up);
    w.on_recv(ServiceCommands::Up);
    assert!(w.want_up);
    w.on_spawn(Some(100));
    assert_eq!(w.status, ServiceStatus::Running(100));
    assert!(!w.want_up);
}

#[test]
fn kill_settles_down_like_down() {
    let mut w = Worker::new(false);
    w.on_spawn(Some(7));
    w.on_exit(ExitStatus::Signal(9));
    w.on_poll(Some(ServiceCommands::Kill));
    assert_eq!(w.status, ServiceStatus::Down);
    assert!(!w.want_up);
}

#[test]
fn restart_respawns_with_new_pid() {
    let mut w = Worker::new(false);
    w.on_spawn(Some(1000));
    assert_eq!(w.status, ServiceStatus::Running(1000));
    w.on_exit(ExitStatus::Signal(15));
    w.on_poll(Some(ServiceCommands::Restart));
    assert!(w.want_up);
    w.on_spawn(Some(1001));
    assert_eq!(w.status, ServiceStatus::Running(1001));
}

#[test]
fn crash_without_command_respawns() {
    let mut w = Worker::new(false);
    w.on_spawn(Some(50));
    w.on_exit(ExitStatus::Code(1));
    assert_eq!(w.status, ServiceStatus::Crashed(ExitStatus::Code(1)));
    w.on_poll(None);
    assert!(w.want_up);
    w.on_spawn(Some(51));
    assert_eq!(w.status, ServiceStatus::Running(51));
}

#[test]
fn spawn_failure_publishes_sentinel() {
    let mut w = Worker::new(false);
    w.on_spawn(None);
    assert_eq!(
        w.status,
        ServiceStatus::Crashed(ExitStatus::Code(SPAWN_FAILURE_CODE))
    );
    w.on_poll(Some(ServiceCommands::Down));
    assert_eq!(w.status, ServiceStatus::Down);
}

#[test]
fn down_commands_while_down_keep_it_down() {
    let mut w = Worker::new(false);
    w.on_spawn(Some(1));
    w.on_exit(ExitStatus::Code(0));
    w.on_poll(Some(ServiceCommands::Down));
    w.on_recv(ServiceCommands::Down);
    assert!(!w.want_up);
    w.on_recv(ServiceCommands::Kill);
    assert!(!w.want_up);
    assert_eq!(w.status, ServiceStatus::Down);
    w.on_recv(ServiceCommands::Restart);
    assert!(w.want_up);
}
