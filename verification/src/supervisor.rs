//! The registry of supervised processes: which name has a live process, and the
//! handle that stands for it.

use crate::command::{sweep_command, sweep_for, CommandPlan};
use crate::descriptor::GameView;
use crate::error::{kind_of, Error, ErrorKind, ErrorView};
use crate::keyed::{
    as_map, distinct_keys, key_index, lemma_as_map_len, lemma_as_map_push, lemma_as_map_remove,
    lemma_as_map_update, lemma_key_index, lemma_key_index_is,
};
use crate::launch::{
    launch_decision, launched_message, launched_text, HostProbeView, LaunchPlan,
};
use crate::monitor::{monitor_step, registry_after_poll, ExitMonitor, Liveness, MonitorStatus};
use vstd::prelude::*;

verus! {

/// The registry of supervised processes. It owns each handle; a handle leaves it
/// only by value, so no two owners ever hold one.
///
/// `H` is whatever stands for a running process. The registry never looks inside.
///
/// The entries are kept in the order of their registration and found by
/// comparing names, which needs nothing of a name but that two of them can be
/// told apart. No name occurs twice; the order is of no account to any caller.
pub struct Supervisor<H> {
    names: Vec<String>,
    handles: Vec<H>,
}

/// What a launch that succeeded leaves with the caller.
pub struct Launched<H> {
    /// The status text for the front end.
    pub message: String,
    /// The monitor of the new launch, watching.
    pub monitor: ExitMonitor,
    /// The handle that the name stood for until now, if the name was in use.
    /// Its process goes on, unsupervised.
    pub displaced: Option<H>,
}

/// What a kill leaves for the caller to carry out.
pub struct KillPlan<H> {
    /// The handle of the process to end, if the name was registered.
    pub terminate: Option<H>,
    /// The command that sweeps the session processes of the prefix, if a
    /// prefix was named. Start it and do not wait for it.
    pub sweep: Option<CommandPlan>,
}

/// The handle registered under `name`, if any.
pub open spec fn registered<H>(registry: Map<Seq<char>, H>, name: Seq<char>) -> Option<H> {
    if registry.contains_key(name) {
        Some(registry[name])
    } else {
        None
    }
}

/// The registry after the attempt to spawn the process of a planned launch:
/// a new entry under `name` where a process came to be, and no change where not.
pub open spec fn registry_after_spawn<H>(
    registry: Map<Seq<char>, H>,
    name: Seq<char>,
    spawned: Result<H, Seq<char>>,
) -> Map<Seq<char>, H> {
    match spawned {
        Ok(handle) => registry.insert(name, handle),
        Err(_) => registry,
    }
}

/// The registry after a kill of `name`.
pub open spec fn registry_after_kill<H>(registry: Map<Seq<char>, H>, name: Seq<char>) -> Map<
    Seq<char>,
    H,
> {
    registry.remove(name)
}

/// The registry after a launch request ran its course: the request was decided
/// on, and where it was not refused the process was spawned, or not.
pub open spec fn registry_after_launch<H>(
    registry: Map<Seq<char>, H>,
    game: GameView,
    use_gamemode: bool,
    host: HostProbeView,
    spawned: Result<H, Seq<char>>,
) -> Map<Seq<char>, H> {
    match launch_decision(game, use_gamemode, host) {
        Ok(plan) => registry_after_spawn(registry, plan.name, spawned),
        Err(_) => registry,
    }
}

/// A launch whose runtime or executable does not exist is refused with a
/// validation error, and the registry stays as it was, whatever a spawn would
/// have come to.
pub proof fn law_refused_launch_changes_nothing<H>(
    registry: Map<Seq<char>, H>,
    game: GameView,
    use_gamemode: bool,
    host: HostProbeView,
    spawned: Result<H, Seq<char>>,
)
    requires
        !host.proton_exists || !host.exe_exists,
    ensures
        launch_decision(game, use_gamemode, host) matches Err(e) && kind_of(e)
            == ErrorKind::Validation,
        registry_after_launch(registry, game, use_gamemode, host, spawned) == registry,
{
}

/// A launch whose runtime and executable exist and whose process came to be
/// leaves the registry with exactly its handle under its name, and with every
/// other entry as it was. A launch whose process did not come to be leaves the
/// registry as it was.
pub proof fn law_launch_registers_one_entry<H>(
    registry: Map<Seq<char>, H>,
    game: GameView,
    use_gamemode: bool,
    host: HostProbeView,
    handle: H,
    reason: Seq<char>,
    other: Seq<char>,
)
    requires
        host.proton_exists,
        host.exe_exists,
        other != game.name,
    ensures
        registered(registry_after_launch(registry, game, use_gamemode, host, Ok(handle)), game.name)
            == Some(handle),
        registered(registry_after_launch(registry, game, use_gamemode, host, Ok(handle)), other)
            == registered(registry, other),
        registry_after_launch(registry, game, use_gamemode, host, Err(reason)) == registry,
{
}

/// A kill takes the entry of the name out, and a second kill of the same name
/// finds nothing to end and changes nothing.
pub proof fn law_kill_is_idempotent<H>(registry: Map<Seq<char>, H>, name: Seq<char>)
    ensures
        registered(registry_after_kill(registry, name), name) is None,
        registry_after_kill(registry_after_kill(registry, name), name) == registry_after_kill(
            registry,
            name,
        ),
{
    assert(registry.remove(name).remove(name) =~= registry.remove(name));
}

/// Launches under different names do not touch each other: a launch, a kill or
/// a poll of the monitor of one name leaves the entry of the other as it was,
/// so the monitor of the other decides as it would have without it.
pub proof fn law_names_are_independent<H>(
    registry: Map<Seq<char>, H>,
    name: Seq<char>,
    other: Seq<char>,
    spawned: Result<H, Seq<char>>,
    status: MonitorStatus,
    seen: Liveness,
)
    requires
        name != other,
    ensures
        registered(registry_after_spawn(registry, name, spawned), other) == registered(
            registry,
            other,
        ),
        registered(registry_after_kill(registry, name), other) == registered(registry, other),
        registered(registry_after_poll(registry, name, status, seen), other) == registered(
            registry,
            other,
        ),
        monitor_step(status, registry_after_spawn(registry, name, spawned).contains_key(other), seen)
            == monitor_step(status, registry.contains_key(other), seen),
        monitor_step(status, registry_after_kill(registry, name).contains_key(other), seen)
            == monitor_step(status, registry.contains_key(other), seen),
{
}

/// The entries as pairs of name and handle.
spec fn pairs<H>(names: Seq<String>, handles: Seq<H>) -> Seq<(Seq<char>, H)> {
    Seq::new(names.len(), |i: int| (names[i]@, handles[i]))
}

/// Whether no name occurs twice.
spec fn distinct_names(names: Seq<String>) -> bool {
    forall|i: int, j: int| 0 <= i < j < names.len() ==> (#[trigger] names[i])@ != (#[trigger] names[j])@
}

/// Entries whose names differ have keys that differ.
proof fn lemma_pairs_distinct<H>(names: Seq<String>, handles: Seq<H>)
    requires
        distinct_names(names),
    ensures
        distinct_keys(pairs(names, handles)),
{
    let list = pairs(names, handles);
    assert forall|i: int, j: int| 0 <= i < j < list.len() implies (#[trigger] list[i]).0 != (
    #[trigger] list[j]).0 by {
        assert(names[i]@ != names[j]@);
    }
}

/// Names under keys that differ are names that differ.
proof fn lemma_names_distinct<H>(names: Seq<String>, handles: Seq<H>)
    requires
        distinct_keys(pairs(names, handles)),
    ensures
        distinct_names(names),
{
    let list = pairs(names, handles);
    assert forall|i: int, j: int| 0 <= i < j < names.len() implies (#[trigger] names[i])@ != (
    #[trigger] names[j])@ by {
        assert(list[i].0 != list[j].0);
    }
}

impl<H> View for Supervisor<H> {
    type V = Map<Seq<char>, H>;

    /// The handle registered under each name.
    closed spec fn view(&self) -> Map<Seq<char>, H> {
        as_map(pairs(self.names@, self.handles@))
    }
}

impl<H> Supervisor<H> {
    /// Each name has its handle, and no name is registered twice.
    #[verifier::type_invariant]
    spec fn well_formed(self) -> bool {
        &&& self.names@.len() == self.handles@.len()
        &&& distinct_names(self.names@)
    }

    /// A registry without entries.
    pub fn new() -> (registry: Self)
        ensures
            registry@ == Map::<Seq<char>, H>::empty(),
    {
        let registry = Supervisor { names: Vec::new(), handles: Vec::new() };
        assert(registry@ =~= Map::<Seq<char>, H>::empty());
        registry
    }

    /// Position of the entry for `name`, or the number of entries if there is none.
    fn position(&self, name: &String) -> (at: usize)
        ensures
            at == key_index(pairs(self.names@, self.handles@), name@),
            at <= self.names.len() == self.handles.len(),
            at < self.names.len() <==> self@.contains_key(name@),
            at < self.names.len() ==> self.names[at as int]@ == name@ && self@[name@]
                == self.handles[at as int],
    {
        proof {
            use_type_invariant(self);
        }
        let ghost list = pairs(self.names@, self.handles@);
        let mut at: usize = 0;
        while at < self.names.len() && !(self.names[at] == *name)
            invariant
                at <= self.names.len() == self.handles.len(),
                list == pairs(self.names@, self.handles@),
                forall|i: int| 0 <= i < at ==> (#[trigger] list[i]).0 != name@,
            decreases self.names.len() - at,
        {
            at += 1;
        }
        proof {
            lemma_key_index_is(list, name@, at as int);
            lemma_key_index(list, name@);
        }
        at
    }

    /// The number of supervised processes.
    pub fn len(&self) -> (n: usize)
        ensures
            self@.dom().finite(),
            n == self@.dom().len(),
    {
        proof {
            use_type_invariant(self);
            lemma_pairs_distinct(self.names@, self.handles@);
            lemma_as_map_len(pairs(self.names@, self.handles@));
        }
        self.names.len()
    }

    /// Whether a process is registered under `name`.
    pub fn contains(&self, name: &str) -> (present: bool)
        ensures
            present == self@.contains_key(name@),
    {
        let key = name.to_owned();
        self.position(&key) < self.names.len()
    }

    /// Registers `handle` under `name`. A handle that was registered under that
    /// name before is handed back; the registry no longer tracks it.
    pub fn register(&mut self, name: String, handle: H) -> (displaced: Option<H>)
        ensures
            final(self)@ == old(self)@.insert(name@, handle),
            displaced == registered(old(self)@, name@),
    {
        proof {
            use_type_invariant(&*self);
        }
        let at = self.position(&name);
        let ghost before = pairs(self.names@, self.handles@);
        proof {
            lemma_pairs_distinct(self.names@, self.handles@);
        }
        if at < self.names.len() {
            let mut handle = handle;
            std::mem::swap(&mut handle, &mut self.handles[at]);
            proof {
                lemma_as_map_update(before, at as int, self.handles[at as int]);
                assert(pairs(self.names@, self.handles@) =~= before.update(
                    at as int,
                    (name@, self.handles[at as int]),
                ));
            }
            Some(handle)
        } else {
            let mut taken = Supervisor::new();
            std::mem::swap(self, &mut taken);
            let Supervisor { mut names, mut handles } = taken;
            proof {
                lemma_key_index(before, name@);
                lemma_as_map_push(before, (name@, handle));
                assert(pairs(names@.push(name), handles@.push(handle)) =~= before.push(
                    (name@, handle),
                ));
                lemma_names_distinct(names@.push(name), handles@.push(handle));
            }
            names.push(name);
            handles.push(handle);
            *self = Supervisor { names, handles };
            None
        }
    }

    /// Takes the entry for `name` out of the registry and hands its handle back.
    /// Without such an entry nothing changes.
    pub fn remove(&mut self, name: &str) -> (handle: Option<H>)
        ensures
            final(self)@ == old(self)@.remove(name@),
            handle == registered(old(self)@, name@),
    {
        proof {
            use_type_invariant(&*self);
        }
        let key = name.to_owned();
        let at = self.position(&key);
        let ghost before = pairs(self.names@, self.handles@);
        proof {
            lemma_pairs_distinct(self.names@, self.handles@);
        }
        if at < self.names.len() {
            let mut taken = Supervisor::new();
            std::mem::swap(self, &mut taken);
            let Supervisor { mut names, mut handles } = taken;
            let _ = names.remove(at);
            let handle = handles.remove(at);
            proof {
                lemma_as_map_remove(before, at as int);
                assert(pairs(names@, handles@) =~= before.remove(at as int));
                lemma_names_distinct(names@, handles@);
            }
            *self = Supervisor { names, handles };
            Some(handle)
        } else {
            proof {
                assert(self@ =~= self@.remove(name@));
            }
            None
        }
    }

    /// Ends the launch protocol for `plan` with the outcome of the spawn. A
    /// process that came to be is registered under the plan's name, and its
    /// monitor is handed out; a refusal of the system is reported with its
    /// reason and leaves the registry as it was.
    pub fn complete_launch(&mut self, plan: &LaunchPlan, spawned: Result<H, String>) -> (r: Result<
        Launched<H>,
        Error,
    >)
        ensures
            final(self)@ == registry_after_spawn(
                old(self)@,
                plan.name@,
                match spawned {
                    Ok(handle) => Ok(handle),
                    Err(reason) => Err(reason@),
                },
            ),
            match spawned {
                Ok(handle) => r matches Ok(launched) && launched.message@ == launched_text(
                    plan.name@,
                    plan.steam_path@,
                ) && launched.monitor.name_view() == plan.name@ && launched.monitor.status_view()
                    == MonitorStatus::Watching && launched.displaced == registered(
                    old(self)@,
                    plan.name@,
                ),
                Err(reason) => r matches Err(e) && e@ == (ErrorView::Spawn { reason: reason@ }),
            },
    {
        match spawned {
            Ok(handle) => {
                let displaced = self.register(plan.name.clone(), handle);
                Ok(
                    Launched {
                        message: launched_message(plan.name.as_str(), plan.steam_path.as_str()),
                        monitor: ExitMonitor::new(plan.name.clone()),
                        displaced,
                    },
                )
            },
            Err(reason) => Err(Error::Spawn { reason }),
        }
    }

    /// Ends the supervision of `name`. The entry, if there is one, leaves the
    /// registry and its handle is handed out to be terminated. Whether or not
    /// there was an entry, the session processes of the prefix are to be swept.
    /// This never fails.
    pub fn kill(&mut self, name: &str, prefix_path: &str) -> (plan: KillPlan<H>)
        ensures
            final(self)@ == registry_after_kill(old(self)@, name@),
            plan.terminate == registered(old(self)@, name@),
            match plan.sweep {
                Some(command) => sweep_for(prefix_path@) == Some(command@),
                None => sweep_for(prefix_path@) is None,
            },
    {
        let terminate = self.remove(name);
        KillPlan { terminate, sweep: sweep_command(prefix_path) }
    }

    /// The handle registered under `name`, to query or signal the process. What
    /// is written through it is what the registry holds under `name` afterwards.
    pub fn handle_mut(&mut self, name: &str) -> (handle: Option<&mut H>)
        ensures
            old(self)@.contains_key(name@) <==> handle is Some,
            match handle {
                Some(h) => *h == old(self)@[name@] && final(self)@ == old(self)@.insert(
                    name@,
                    *final(h),
                ),
                None => final(self)@ == old(self)@,
            },
    {
        proof {
            use_type_invariant(&*self);
        }
        let key = name.to_owned();
        let at = self.position(&key);
        let ghost before = pairs(self.names@, self.handles@);
        proof {
            lemma_pairs_distinct(self.names@, self.handles@);
        }
        if at < self.names.len() {
            let h = &mut self.handles[at];
            proof {
                lemma_as_map_update(before, at as int, *final(h));
                assert(pairs(old(self).names@, old(self).handles@.update(at as int, *final(h)))
                    =~= before.update(at as int, (name@, *final(h))));
            }
            Some(h)
        } else {
            None
        }
    }
}

} // verus!
