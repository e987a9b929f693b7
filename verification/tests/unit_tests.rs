use iodine::client::command_from_word;
use iodine::unit::{SpawnError, SpawnPlan};
use iodine::{Command, Service, ServiceCommands, ServiceFile};

fn command(line: &str, user: Option<&str>, group: Option<&str>, dir: Option<&str>) -> Command {
    Command {
        command: String::from(line),
        user: user.map(String::from),
        group: group.map(String::from),
        directory: dir.map(String::from),
    }
}

fn argv_of(plan: &SpawnPlan) -> Vec<&str> {
    plan.argv.iter().map(|s| s.as_str()).collect()
}

#[test]
fn plain_spawn_runs_under_a_shell() {
    let c = command("sleep 60", None, None, None);
    let plan = c.spawn_plan(None, None).expect("plan");
    assert_eq!(argv_of(&plan), vec!["sh", "-c", "sleep 60"]);
    assert_eq!(plan.uid, None);
    assert_eq!(plan.gid, None);
    assert_eq!(plan.dir, None);
}

#[test]
fn user_sets_both_ids() {
    let c = command("true", Some("daemon"), None, None);
    let plan = c.spawn_plan(Some((2, 7)), None).expect("plan");
    assert_eq!(plan.uid, Some(2));
    assert_eq!(plan.gid, Some(7));
}

#[test]
fn group_overrides_gid() {
    let c = command("true", Some("daemon"), Some("adm"), None);
    let plan = c.spawn_plan(Some((2, 7)), Some(4)).expect("plan");
    assert_eq!(plan.uid, Some(2));
    assert_eq!(plan.gid, Some(4));
}

#[test]
fn unknown_user_is_refused() {
    let c = command("true", Some("nobody-here"), None, None);
    assert_eq!(c.spawn_plan(None, None).err(), Some(SpawnError::UserNotFound));
}

#[test]
fn unknown_group_is_refused() {
    let c = command("true", None, Some("nobody-here"), None);
    assert_eq!(c.spawn_plan(None, None).err(), Some(SpawnError::GroupNotFound));
}

#[test]
fn directory_is_carried() {
    let c = command("true", None, None, Some("/srv/www"));
    let plan = c.spawn_plan(None, None).expect("plan");
    assert_eq!(plan.dir.as_deref(), Some("/srv/www"));
}

#[test]
fn command_lookup_finds_first_match() {
    let f = ServiceFile {
        info: None,
        service: Service::default(),
        commands: vec![
            (String::from("start"), command("run-a", None, None, None)),
            (String::from("stop"), command("halt-a", None, None, None)),
            (String::from("start"), command("run-b", None, None, None)),
        ],
    };
    let c = f.command(&String::from("start")).expect("found");
    assert_eq!(c.command, "run-a");
    assert!(f.command(&String::from("reload")).is_none());
    assert!(f.has_start());
}

#[test]
fn service_defaults() {
    let s = Service::default();
    assert!(s.name.is_none());
    assert!(s.provides.is_none());
    assert!(s.depends.is_empty());
    assert!(!s.oneshot);
}

#[test]
fn command_words() {
    assert_eq!(command_from_word(&String::from("down")), Some(ServiceCommands::Down));
    assert_eq!(command_from_word(&String::from("kill")), Some(ServiceCommands::Kill));
    assert_eq!(command_from_word(&String::from("up")), Some(ServiceCommands::Up));
    assert_eq!(command_from_word(&String::from("restart")), Some(ServiceCommands::Restart));
    assert_eq!(command_from_word(&String::from("status")), Some(ServiceCommands::Status));
    assert_eq!(command_from_word(&String::from("reload")), None);
    assert_eq!(command_from_word(&String::from("")), None);
}
