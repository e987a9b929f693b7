//! The supervisor's decisions: turning a directory of parsed unit files into
//! a registry of uniquely named services with a provides index, and deciding
//! what one control connection asks for. Reading the directory, the threads
//! and the socket live outside the library and act on what is decided here.

use vstd::prelude::*;
use crate::protocol::{ServiceCommands, ServiceStatus};
use crate::unit::{ServiceFile, spec_lookup_command};

verus! {

/// The well-known path of the control socket, relative to the supervisor's
/// working directory.
pub const SOCK_LOCATION: &'static str = "iodine.sock";

// The signals the supervisor sends to a running child.
pub const SIGKILL: i32 = 9;
pub const SIGTERM: i32 = 15;

/// The name a unit goes by: the explicit `service.name` when present, else
/// the unit file's stem.
pub open spec fn spec_unit_name(stem: String, f: ServiceFile) -> String {
    match f.service.name {
        Some(n) => n,
        None => stem,
    }
}

/// Whether a unit declares a `start` command.
pub open spec fn spec_has_start(f: ServiceFile) -> bool {
    spec_lookup_command(f.commands@, "start"@) is Some
}

/// The names of the units that declare the given provides tag, in unit order.
pub open spec fn spec_names_with_tag(units: Seq<(String, ServiceFile)>, tag: Seq<char>) -> Seq<
    String,
>
    decreases units.len(),
{
    if units.len() == 0 {
        Seq::empty()
    } else {
        let rest = spec_names_with_tag(units.drop_last(), tag);
        let u = units.last();
        match u.1.service.provides {
            Some(p) => if p@ == tag {
                rest.push(spec_unit_name(u.0, u.1))
            } else {
                rest
            },
            None => rest,
        }
    }
}

/// Extending the unit list by one unit appends that unit's name to its own
/// tag's list and leaves every other tag's list unchanged.
proof fn lemma_names_with_tag_step(units: Seq<(String, ServiceFile)>, k: int, tag: Seq<char>)
    requires
        0 <= k < units.len(),
    ensures
        spec_names_with_tag(units.subrange(0, k + 1), tag) == (match units[k].1.service.provides {
            Some(p) => if p@ == tag {
                spec_names_with_tag(units.subrange(0, k), tag).push(
                    spec_unit_name(units[k].0, units[k].1),
                )
            } else {
                spec_names_with_tag(units.subrange(0, k), tag)
            },
            None => spec_names_with_tag(units.subrange(0, k), tag),
        }),
{
    let s2 = units.subrange(0, k + 1);
    assert(s2.drop_last() =~= units.subrange(0, k));
    assert(s2.last() == units[k]);
}

/// A tag no unit declares has an empty list.
proof fn lemma_names_with_tag_empty(units: Seq<(String, ServiceFile)>, tag: Seq<char>)
    requires
        forall|i: int|
            0 <= i < units.len() ==> !(#[trigger] units[i].1.service.provides matches Some(p)
                && p@ == tag),
    ensures
        spec_names_with_tag(units, tag) == Seq::<String>::empty(),
    decreases units.len(),
{
    if units.len() > 0 {
        lemma_names_with_tag_empty(units.drop_last(), tag);
        assert(units.last() == units[units.len() - 1]);
    }
}

/// Why the supervisor refuses to start: two units share a derived name, or a
/// unit has no `start` command.
#[derive(Clone, Debug)]
pub enum ConfigError {
    DuplicateName(String),
    MissingStart(String),
}

/// The supervisor's startup registry: each unit under its derived name, and
/// the provides index from tag to the names that declare it.
#[derive(Clone, Debug)]
pub struct Registry {
    pub entries: Vec<(String, ServiceFile)>,
    pub provides: Vec<(String, Vec<String>)>,
}

impl Registry {
    /// Well-formed: service names are unique, and so are provides tags.
    pub open spec fn wf(self) -> bool {
        &&& forall|i: int, j: int|
            0 <= i < j < self.entries@.len() ==> self.entries@[i].0@ != self.entries@[j].0@
        &&& forall|i: int, j: int|
            0 <= i < j < self.provides@.len() ==> self.provides@[i].0@ != self.provides@[j].0@
    }
}

/// Whether some unit in the list declares the given provides tag.
pub open spec fn spec_tag_declared(units: Seq<(String, ServiceFile)>, tag: Seq<char>) -> bool {
    exists|i: int|
        0 <= i < units.len() && (#[trigger] units[i].1.service.provides matches Some(p) && p@
            == tag)
}

/// Whether a unit list can be installed: derived names are pairwise distinct
/// and every unit declares a `start` command.
pub open spec fn spec_units_ok(units: Seq<(String, ServiceFile)>) -> bool {
    &&& forall|i: int, j: int|
        0 <= i < j < units.len() ==> spec_unit_name(units[i].0, units[i].1)@ != spec_unit_name(
            units[j].0,
            units[j].1,
        )@
    &&& forall|i: int| 0 <= i < units.len() ==> spec_has_start(#[trigger] units[i].1)
}

/// Install a scanned unit directory: derive each unit's name, refuse
/// duplicates and units without a `start` command, and build the provides
/// index. Startup succeeds exactly on unit lists that are installable.
pub fn build_registry(units: Vec<(String, ServiceFile)>) -> (r: Result<Registry, ConfigError>)
    ensures
        r is Ok <==> spec_units_ok(units@),
        r matches Ok(reg) ==> {
            &&& reg.wf()
            &&& reg.entries@.len() == units@.len()
            &&& forall|i: int|
                0 <= i < units@.len() ==> #[trigger] reg.entries@[i].0 == spec_unit_name(
                    units@[i].0,
                    units@[i].1,
                ) && reg.entries@[i].1 == units@[i].1
            &&& forall|m: int|
                0 <= m < reg.provides@.len() ==> #[trigger] reg.provides@[m].1@
                    == spec_names_with_tag(units@, reg.provides@[m].0@)
            &&& forall|m: int|
                0 <= m < reg.provides@.len() ==> spec_tag_declared(
                    units@,
                    #[trigger] reg.provides@[m].0@,
                )
            &&& forall|i: int|
                0 <= i < units@.len() ==> (#[trigger] units@[i].1.service.provides matches Some(p)
                    ==> exists|m: int|
                    0 <= m < reg.provides@.len() && #[trigger] reg.provides@[m].0@ == p@)
        },
        r matches Err(ConfigError::DuplicateName(n)) ==> exists|i: int, j: int|
            0 <= i < j < units@.len() && #[trigger] spec_unit_name(units@[i].0, units@[i].1)@ == n@
                && #[trigger] spec_unit_name(units@[j].0, units@[j].1)@ == n@,
        r matches Err(ConfigError::MissingStart(n)) ==> exists|i: int|
            0 <= i < units@.len() && #[trigger] spec_unit_name(units@[i].0, units@[i].1)@ == n@
                && !spec_has_start(units@[i].1),
{
    let ghost orig: Seq<(String, ServiceFile)> = units@;
    let mut remaining = units;
    let mut entries: Vec<(String, ServiceFile)> = Vec::new();
    let mut provides: Vec<(String, Vec<String>)> = Vec::new();
    while remaining.len() > 0
        invariant
            orig == units@,
            entries@.len() + remaining@.len() == orig.len(),
            remaining@ =~= orig.subrange(entries@.len() as int, orig.len() as int),
            forall|i: int|
                0 <= i < entries@.len() ==> #[trigger] entries@[i].0 == spec_unit_name(
                    orig[i].0,
                    orig[i].1,
                ) && entries@[i].1 == orig[i].1,
            forall|i: int, j: int| 0 <= i < j < entries@.len() ==> entries@[i].0@ != entries@[j].0@,
            forall|i: int| 0 <= i < entries@.len() ==> spec_has_start(#[trigger] orig[i].1),
            forall|m: int|
                0 <= m < provides@.len() ==> #[trigger] provides@[m].1@ == spec_names_with_tag(
                    orig.subrange(0, entries@.len() as int),
                    provides@[m].0@,
                ),
            forall|m: int, m2: int|
                0 <= m < m2 < provides@.len() ==> provides@[m].0@ != provides@[m2].0@,
            forall|m: int|
                0 <= m < provides@.len() ==> spec_tag_declared(orig, #[trigger] provides@[m].0@),
            forall|i: int|
                0 <= i < entries@.len() ==> (#[trigger] orig[i].1.service.provides matches Some(p)
                    ==> exists|m: int|
                    0 <= m < provides@.len() && #[trigger] provides@[m].0@ == p@),
        decreases remaining@.len(),
    {
        let ghost k: int = entries@.len() as int;
        let ghost old_remaining = remaining@;
        let su = remaining.remove(0);
        proof {
            assert(old_remaining[0] == orig[k]);
            assert(su == orig[k]);
            assert(remaining@ =~= orig.subrange(k + 1, orig.len() as int));
        }
        let stem = su.0;
        let file = su.1;
        let name: String = match &file.service.name {
            Some(n) => n.clone(),
            None => stem,
        };
        proof {
            assert(name == spec_unit_name(orig[k].0, orig[k].1));
        }
        if !file.has_start() {
            proof {
                assert(!spec_has_start(orig[k].1));
                assert(spec_unit_name(orig[k].0, orig[k].1)@ == name@);
                assert(exists|i: int|
                    0 <= i < orig.len() && #[trigger] spec_unit_name(orig[i].0, orig[i].1)@
                        == name@ && !spec_has_start(orig[i].1));
                assert(!spec_units_ok(orig));
            }
            return Err(ConfigError::MissingStart(name));
        }
        let mut j: usize = 0;
        let elen = entries.len();
        while j < elen
            invariant
                orig == units@,
                j <= elen,
                elen == entries@.len(),
                k == elen as int,
                0 <= k < orig.len(),
                name == spec_unit_name(orig[k].0, orig[k].1),
                forall|i: int|
                    0 <= i < entries@.len() ==> #[trigger] entries@[i].0 == spec_unit_name(
                        orig[i].0,
                        orig[i].1,
                    ),
                forall|q: int| 0 <= q < j ==> entries@[q].0@ != name@,
            decreases elen - j,
        {
            if entries[j].0 == name {
                proof {
                    assert(spec_unit_name(orig[j as int].0, orig[j as int].1)@ == name@);
                    assert(spec_unit_name(orig[k].0, orig[k].1)@ == name@);
                    assert(exists|i2: int, j2: int|
                        0 <= i2 < j2 < orig.len() && #[trigger] spec_unit_name(
                            orig[i2].0,
                            orig[i2].1,
                        )@ == name@ && #[trigger] spec_unit_name(orig[j2].0, orig[j2].1)@ == name@);
                    assert(!spec_units_ok(orig));
                }
                return Err(ConfigError::DuplicateName(name));
            }
            j += 1;
        }
        let prov: Option<String> = match &file.service.provides {
            Some(p) => Some(p.clone()),
            None => None,
        };
        proof {
            assert(match orig[k].1.service.provides {
                Some(p) => prov matches Some(q) && q == p,
                None => prov is None,
            });
        }
        entries.push((name.clone(), file));
        match prov {
            Some(p) => {
                let mut m: usize = 0;
                let plen = provides.len();
                let mut found: Option<usize> = None;
                while m < plen
                    invariant
                        m <= plen,
                        plen == provides@.len(),
                        found matches Some(f) ==> f < provides@.len() && provides@[
                            f as int
                        ].0@ == p@,
                        found is None ==> forall|q: int| 0 <= q < m ==> provides@[q].0@ != p@,
                    decreases plen - m,
                {
                    if found.is_none() && provides[m].0 == p {
                        found = Some(m);
                    }
                    m += 1;
                }
                match found {
                    Some(f) => {
                        let ghost before = provides@;
                        let mut entry = provides.remove(f);
                        entry.1.push(name);
                        provides.insert(f, entry);
                        proof {
                            assert forall|m2: int| 0 <= m2 < provides@.len() implies #[trigger] provides@[m2].1@
                                == spec_names_with_tag(
                                orig.subrange(0, k + 1),
                                provides@[m2].0@,
                            ) by {
                                lemma_names_with_tag_step(orig, k, provides@[m2].0@);
                                if m2 == f {
                                    assert(provides@[m2] == entry);
                                    assert(entry.0 == before[f as int].0);
                                    assert(entry.1@ == before[f as int].1@.push(name));
                                } else {
                                    assert(provides@[m2] == before[m2]);
                                    assert(provides@[m2].0@ != p@);
                                }
                            }
                            assert forall|m2: int, m3: int| 0 <= m2 < m3 < provides@.len() implies provides@[
                                m2
                            ].0@ != provides@[m3].0@ by {
                                assert(provides@[m2].0 == before[m2].0);
                                assert(provides@[m3].0 == before[m3].0);
                            }
                            assert forall|i: int|
                                0 <= i < entries@.len() implies (#[trigger] orig[i].1.service.provides
                                matches Some(q) ==> exists|m2: int|
                                0 <= m2 < provides@.len() && #[trigger] provides@[m2].0@ == q@) by {
                                let pv = orig[i].1.service.provides;
                                if pv is Some {
                                    if i < k {
                                        let m2 = choose|m2: int|
                                            0 <= m2 < before.len() && #[trigger] before[m2].0@
                                                == pv->0@;
                                        assert(provides@[m2].0 == before[m2].0);
                                        assert(provides@[m2].0@ == pv->0@);
                                    } else {
                                        assert(provides@[f as int].0 == before[f as int].0);
                                        assert(provides@[f as int].0@ == pv->0@);
                                    }
                                }
                            }
                        }
                    },
                    None => {
                        let ghost before = provides@;
                        let ghost tagv = p@;
                        let mut names: Vec<String> = Vec::new();
                        names.push(name);
                        provides.push((p, names));
                        proof {
                            assert forall|i: int|
                                0 <= i < k implies !(#[trigger] orig[i].1.service.provides
                                matches Some(q) && q@ == p@) by {
                                let pv = orig[i].1.service.provides;
                                if pv is Some && pv->0@ == p@ {
                                    assert(exists|m2: int|
                                        0 <= m2 < before.len() && #[trigger] before[m2].0@
                                            == pv->0@);
                                }
                            }
                            lemma_names_with_tag_empty(orig.subrange(0, k), p@);
                            assert(0 <= k < orig.len() && (orig[k].1.service.provides matches Some(
                                q,
                            ) && q@ == p@));
                            assert(spec_tag_declared(orig, p@));
                            assert forall|m2: int| 0 <= m2 < provides@.len() implies #[trigger] provides@[m2].1@
                                == spec_names_with_tag(
                                orig.subrange(0, k + 1),
                                provides@[m2].0@,
                            ) by {
                                lemma_names_with_tag_step(orig, k, provides@[m2].0@);
                                if m2 < before.len() {
                                    assert(provides@[m2] == before[m2]);
                                    assert(provides@[m2].0@ != p@);
                                } else {
                                    assert(provides@[m2].1@ =~= Seq::<String>::empty().push(name));
                                }
                            }
                            assert forall|i: int|
                                0 <= i < entries@.len() implies (#[trigger] orig[i].1.service.provides
                                matches Some(q) ==> exists|m2: int|
                                0 <= m2 < provides@.len() && #[trigger] provides@[m2].0@ == q@) by {
                                let pv = orig[i].1.service.provides;
                                if pv is Some {
                                    if i < k {
                                        let m2 = choose|m2: int|
                                            0 <= m2 < before.len() && #[trigger] before[m2].0@
                                                == pv->0@;
                                        assert(provides@[m2].0@ == pv->0@);
                                    } else {
                                        assert(provides@[before.len() as int].0@ == tagv);
                                        assert(provides@[before.len() as int].0@ == pv->0@);
                                    }
                                }
                            }
                        }
                    },
                }
            },
            None => {
                proof {
                    assert forall|m2: int| 0 <= m2 < provides@.len() implies #[trigger] provides@[m2].1@
                        == spec_names_with_tag(orig.subrange(0, k + 1), provides@[m2].0@) by {
                        lemma_names_with_tag_step(orig, k, provides@[m2].0@);
                    }
                }
            },
        }
    }
    proof {
        assert(orig.subrange(0, orig.len() as int) =~= orig);
        assert(entries@.len() == orig.len());
        assert forall|i: int|
            0 <= i < units@.len() implies (#[trigger] units@[i].1.service.provides matches Some(p)
            ==> exists|m: int| 0 <= m < provides@.len() && #[trigger] provides@[m].0@ == p@) by {
            assert(orig[i].1.service.provides == units@[i].1.service.provides);
            let pv = orig[i].1.service.provides;
            if pv is Some {
                assert(exists|m: int| 0 <= m < provides@.len() && #[trigger] provides@[m].0@
                    == pv->0@);
            }
        }
        assert(spec_units_ok(orig)) by {
            assert forall|i: int, j: int| 0 <= i < j < orig.len() implies spec_unit_name(
                orig[i].0,
                orig[i].1,
            )@ != spec_unit_name(orig[j].0, orig[j].1)@ by {
                assert(entries@[i].0 == spec_unit_name(orig[i].0, orig[i].1));
                assert(entries@[j].0 == spec_unit_name(orig[j].0, orig[j].1));
            }
        }
    }
    let ghost provs = provides@;
    let reg = Registry { entries, provides };
    proof {
        assert(reg.provides@ == provs);
        assert forall|i: int|
            0 <= i < units@.len() implies (#[trigger] units@[i].1.service.provides matches Some(p)
            ==> exists|m: int| 0 <= m < reg.provides@.len() && #[trigger] reg.provides@[m].0@
            == p@) by {
            let pv = units@[i].1.service.provides;
            if pv is Some {
                let w = choose|m: int| 0 <= m < provs.len() && #[trigger] provs[m].0@ == pv->0@;
                assert(reg.provides@[w].0@ == pv->0@);
            }
        }
    }
    Ok(reg)
}

/// What one control connection asks the supervisor to do: the command to put
/// on the worker's channel, and the signal to send to the running child.
#[derive(Clone, Copy, Debug, PartialEq, Eq)]
pub struct ClientPlan {
    pub enqueue: Option<ServiceCommands>,
    pub signal: Option<(u32, i32)>,
}

/// The plan for one decoded request against the service's current status:
/// `Status` only reads; every other command is enqueued and, when a child
/// runs under a non-zero pid, `Kill` sends SIGKILL and the rest SIGTERM.
pub open spec fn spec_client_plan(command: ServiceCommands, status: ServiceStatus) -> ClientPlan {
    if command is Status {
        ClientPlan { enqueue: None, signal: None }
    } else {
        ClientPlan {
            enqueue: Some(command),
            signal: match status {
                ServiceStatus::Running(pid) => if pid != 0 {
                    Some(
                        (
                            pid,
                            if command is Kill {
                                SIGKILL
                            } else {
                                SIGTERM
                            },
                        ),
                    )
                } else {
                    None
                },
                _ => None,
            },
        }
    }
}

pub fn client_plan(command: ServiceCommands, status: ServiceStatus) -> (p: ClientPlan)
    ensures
        p == spec_client_plan(command, status),
{
    if command == ServiceCommands::Status {
        ClientPlan { enqueue: None, signal: None }
    } else {
        let sig: i32 = if command == ServiceCommands::Kill {
            SIGKILL
        } else {
            SIGTERM
        };
        let signal: Option<(u32, i32)> = match status {
            ServiceStatus::Running(pid) => if pid != 0 {
                Some((pid, sig))
            } else {
                None
            },
            _ => None,
        };
        ClientPlan { enqueue: Some(command), signal }
    }
}

} // verus!
