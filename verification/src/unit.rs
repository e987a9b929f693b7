//! The unit-file data model: the parsed description of one service, and the
//! plan for spawning its start command. Reading and parsing unit files is
//! outside work; the library receives the parsed values and decides what a
//! spawn must do: the argv, the identity drop, and the working directory.

use vstd::prelude::*;
use vstd::string::StringExecFns;

verus! {

/// Free-form metadata of a unit file.
#[derive(Clone, Debug)]
pub struct Info {
    pub description: String,
    pub homepage: Option<String>,
}

/// The `service` section of a unit file. Every field is optional in the
/// file; the defaults are an absent name, an absent provides tag, no
/// dependencies and a restarting (not oneshot) service.
#[derive(Clone, Debug)]
pub struct Service {
    pub name: Option<String>,
    pub provides: Option<String>,
    pub depends: Vec<String>,
    pub oneshot: bool,
}

impl Default for Service {
    fn default() -> (s: Service)
        ensures
            s.name is None,
            s.provides is None,
            s.depends@.len() == 0,
            !s.oneshot,
    {
        Service { name: None, provides: None, depends: Vec::new(), oneshot: false }
    }
}

/// One runnable line of a unit file: the shell command and the optional
/// user, group and working directory it runs under.
#[derive(Clone, Debug)]
pub struct Command {
    pub command: String,
    pub user: Option<String>,
    pub group: Option<String>,
    pub directory: Option<String>,
}

/// A parsed unit file: metadata, the service section, and the named
/// commands. At least a `start` command must be present for the supervisor
/// to accept the unit.
#[derive(Clone, Debug)]
pub struct ServiceFile {
    pub info: Option<Info>,
    pub service: Service,
    pub commands: Vec<(String, Command)>,
}

/// The first command stored under the given name, if any.
pub open spec fn spec_lookup_command(cmds: Seq<(String, Command)>, name: Seq<char>) -> Option<
    Command,
>
    decreases cmds.len(),
{
    if cmds.len() == 0 {
        None
    } else if cmds[0].0@ == name {
        Some(cmds[0].1)
    } else {
        spec_lookup_command(cmds.drop_first(), name)
    }
}

/// Skipping a prefix without a match leaves the lookup unchanged.
proof fn lemma_lookup_skip(cmds: Seq<(String, Command)>, name: Seq<char>, i: int)
    requires
        0 <= i <= cmds.len(),
        forall|j: int| 0 <= j < i ==> cmds[j].0@ != name,
    ensures
        spec_lookup_command(cmds, name) == spec_lookup_command(
            cmds.subrange(i, cmds.len() as int),
            name,
        ),
    decreases i,
{
    if i > 0 {
        lemma_lookup_skip(cmds, name, i - 1);
        let rest = cmds.subrange(i - 1, cmds.len() as int);
        assert(rest.drop_first() =~= cmds.subrange(i, cmds.len() as int));
    } else {
        assert(cmds.subrange(0, cmds.len() as int) =~= cmds);
    }
}

impl ServiceFile {
    /// Find a command by name.
    pub fn command<'a>(&'a self, name: &String) -> (r: Option<&'a Command>)
        ensures
            match r {
                Some(c) => spec_lookup_command(self.commands@, name@) == Some(*c),
                None => spec_lookup_command(self.commands@, name@) is None,
            },
    {
        let n = self.commands.len();
        let mut i: usize = 0;
        while i < n
            invariant
                i <= n,
                n == self.commands@.len(),
                forall|j: int| 0 <= j < i ==> self.commands@[j].0@ != name@,
            decreases n - i,
        {
            if self.commands[i].0 == *name {
                proof {
                    lemma_lookup_skip(self.commands@, name@, i as int);
                    assert(self.commands@.subrange(i as int, n as int)[0] == self.commands@[
                        i as int
                    ]);
                }
                return Some(&self.commands[i].1);
            }
            i += 1;
        }
        proof {
            lemma_lookup_skip(self.commands@, name@, n as int);
        }
        None
    }

    /// Whether the unit has a `start` command.
    pub fn has_start(&self) -> (r: bool)
        ensures
            r == (spec_lookup_command(self.commands@, "start"@) is Some),
    {
        let key = String::from_str("start");
        self.command(&key).is_some()
    }
}

/// Why a spawn plan could not be made: the configured user or group does not
/// exist on the system.
#[derive(Clone, Copy, Debug, PartialEq, Eq, Structural)]
pub enum SpawnError {
    UserNotFound,
    GroupNotFound,
}

/// Everything a spawn of one command must do: run `sh -c <command>` as the
/// given numeric identities in the given directory.
#[derive(Clone, Debug)]
pub struct SpawnPlan {
    pub argv: Vec<String>,
    pub uid: Option<u32>,
    pub gid: Option<u32>,
    pub dir: Option<String>,
}

impl Command {
    /// Decide what a spawn of this command must do. `user_ids` is the
    /// resolution of the configured user name to its uid and gid, `group_gid`
    /// the resolution of the configured group name; `None` means the lookup
    /// found nothing. Both are ignored where the field is not configured.
    pub fn spawn_plan(&self, user_ids: Option<(u32, u32)>, group_gid: Option<u32>) -> (r: Result<
        SpawnPlan,
        SpawnError,
    >)
        ensures
            r is Err <==> (self.user is Some && user_ids is None) || (self.group is Some
                && group_gid is None),
            self.user is Some && user_ids is None ==> r == Err::<SpawnPlan, SpawnError>(
                SpawnError::UserNotFound,
            ),
            !(self.user is Some && user_ids is None) && self.group is Some && group_gid is None
                ==> r == Err::<SpawnPlan, SpawnError>(SpawnError::GroupNotFound),
            r matches Ok(p) ==> {
                &&& p.argv@.len() == 3
                &&& p.argv@[0]@ == "sh"@
                &&& p.argv@[1]@ == "-c"@
                &&& p.argv@[2] == self.command
                &&& p.uid == (if self.user is Some {
                    Some((user_ids->0).0)
                } else {
                    None::<u32>
                })
                &&& p.gid == (if self.group is Some {
                    group_gid
                } else if self.user is Some {
                    Some((user_ids->0).1)
                } else {
                    None::<u32>
                })
                &&& p.dir == self.directory
            },
    {
        let uid_gid: Option<(u32, u32)> = if self.user.is_some() {
            match user_ids {
                Some(ids) => Some(ids),
                None => {
                    return Err(SpawnError::UserNotFound);
                },
            }
        } else {
            None
        };
        let gid: Option<u32> = if self.group.is_some() {
            match group_gid {
                Some(g) => Some(g),
                None => {
                    return Err(SpawnError::GroupNotFound);
                },
            }
        } else {
            match uid_gid {
                Some(ids) => Some(ids.1),
                None => None,
            }
        };
        let uid: Option<u32> = match uid_gid {
            Some(ids) => Some(ids.0),
            None => None,
        };
        let mut argv: Vec<String> = Vec::new();
        argv.push(String::from_str("sh"));
        argv.push(String::from_str("-c"));
        argv.push(self.command.clone());
        let dir: Option<String> = match &self.directory {
            Some(d) => Some(d.clone()),
            None => None,
        };
        Ok(SpawnPlan { argv, uid, gid, dir })
    }
}

} // verus!
