//! The watcher of one launch: it polls whether the process is still alive and
//! announces the end of the launch, once.

use crate::supervisor::{registry_after_kill, Supervisor};
use vstd::prelude::*;

verus! {

/// Seconds to sleep between two polls of one monitor.
pub const POLL_INTERVAL_SECS: u64 = 2;

/// Name of the event on which the end of a launch is announced.
pub const STATUS_EVENT: &'static str = "process-status";

/// The label announced at the end of a launch: the name is free again.
pub const READY_LABEL: &'static str = "ready";

/// What a query of the process said.
#[derive(Clone, Copy, Debug, PartialEq, Eq, Structural)]
pub enum Liveness {
    /// The process has not ended.
    Running,
    /// The process has ended.
    Exited,
    /// The query failed; nothing is known.
    Unknown,
}

/// Where a monitor stands.
#[derive(Clone, Copy, Debug, PartialEq, Eq, Structural)]
pub enum MonitorStatus {
    /// It polls; the launch has not ended as far as it knows.
    Watching,
    /// It has announced the end of the launch and is done.
    Notified,
    /// A query failed. It is done and has announced nothing; the entry stays in
    /// the registry until the launch is killed.
    Degraded,
}

/// What one poll comes to.
#[derive(Clone, Copy, Debug, PartialEq, Eq, Structural)]
pub enum Effect {
    /// The process runs: sleep, then poll again.
    Wait,
    /// The entry was gone, so the launch was killed: announce its end.
    AnnounceKilled,
    /// The process has ended: take the entry out and announce its end.
    AnnounceExited,
    /// The query failed: give up, touch nothing, announce nothing.
    Abandon,
    /// The monitor was done before: nothing happens.
    Idle,
}

/// The announcement of the end of a launch.
#[derive(Clone, Debug, PartialEq, Eq)]
pub struct Notification {
    /// The name the launch was supervised under.
    pub name: String,
    /// The status label.
    pub label: String,
}

impl View for Notification {
    type V = (Seq<char>, Seq<char>);

    open spec fn view(&self) -> (Seq<char>, Seq<char>) {
        (self.name@, self.label@)
    }
}

/// What the caller has to do after a poll.
pub enum MonitorAction<H> {
    /// Sleep for the polling interval, then poll again.
    Wait,
    /// Deliver the notification and end the task. `released` is the handle of
    /// the process that ended, taken out of the registry.
    Notify { notification: Notification, released: Option<H> },
    /// End the task without a notification.
    Stop,
}

/// The rule of the monitor: its next status and the effect of a poll, from its
/// status, from whether the registry holds an entry for its name, and from what
/// the query of the process said.
pub open spec fn monitor_step(status: MonitorStatus, present: bool, seen: Liveness) -> (
    MonitorStatus,
    Effect,
) {
    if status != MonitorStatus::Watching {
        (status, Effect::Idle)
    } else if !present {
        (MonitorStatus::Notified, Effect::AnnounceKilled)
    } else {
        match seen {
            Liveness::Running => (MonitorStatus::Watching, Effect::Wait),
            Liveness::Exited => (MonitorStatus::Notified, Effect::AnnounceExited),
            Liveness::Unknown => (MonitorStatus::Degraded, Effect::Abandon),
        }
    }
}

/// The registry after a poll of the monitor of `name`: without the entry of
/// `name` when the process was seen to have ended, and else as it was.
pub open spec fn registry_after_poll<H>(
    registry: Map<Seq<char>, H>,
    name: Seq<char>,
    status: MonitorStatus,
    seen: Liveness,
) -> Map<Seq<char>, H> {
    if monitor_step(status, registry.contains_key(name), seen).1 == Effect::AnnounceExited {
        registry.remove(name)
    } else {
        registry
    }
}

/// What can happen to a launch once it is registered.
pub enum Event {
    /// The launch is killed: its entry leaves the registry.
    Kill,
    /// The monitor polls, and the query of the process says this.
    Poll(Liveness),
}

/// One launch as its monitor and the registry see it.
pub struct Watch {
    /// Whether the registry holds the entry of the launch.
    pub present: bool,
    /// Where the monitor stands.
    pub status: MonitorStatus,
    /// How often the end of the launch was announced.
    pub announced: nat,
}

/// A launch right after it was registered: the entry is there, the monitor
/// watches, nothing was announced.
pub open spec fn launched() -> Watch {
    Watch { present: true, status: MonitorStatus::Watching, announced: 0 }
}

/// A launch after one more event. A kill takes the entry out. A poll follows
/// `monitor_step`: it takes the entry out when the process was seen to have
/// ended, and it counts each announcement.
pub open spec fn advance(watch: Watch, event: Event) -> Watch {
    match event {
        Event::Kill => Watch { present: false, ..watch },
        Event::Poll(seen) => {
            let step = monitor_step(watch.status, watch.present, seen);
            Watch {
                present: watch.present && step.1 != Effect::AnnounceExited,
                status: step.0,
                announced: watch.announced + if step.1 == Effect::AnnounceKilled || step.1
                    == Effect::AnnounceExited {
                    1nat
                } else {
                    0nat
                },
            }
        },
    }
}

/// A launch after a series of events.
pub open spec fn after(watch: Watch, events: Seq<Event>) -> Watch
    decreases events.len(),
{
    if events.len() == 0 {
        watch
    } else {
        advance(after(watch, events.drop_last()), events.last())
    }
}

/// The life of a launch, whatever happens to it: its end is announced at most
/// once; it has been announced exactly when the monitor stands at `Notified`,
/// and by then the entry has left the registry; and the entry is still there,
/// with the monitor watching, as long as the launch was not killed and every
/// query of the process said that it runs.
pub proof fn law_end_is_announced_once(events: Seq<Event>)
    ensures
        after(launched(), events).announced <= 1,
        after(launched(), events).announced == 1 <==> after(launched(), events).status
            == MonitorStatus::Notified,
        after(launched(), events).status == MonitorStatus::Notified ==> !after(
            launched(),
            events,
        ).present,
        (forall|i: int| 0 <= i < events.len() ==> #[trigger] events[i] == Event::Poll(
            Liveness::Running,
        )) ==> after(launched(), events) == launched(),
    decreases events.len(),
{
    if events.len() > 0 {
        let front = events.drop_last();
        law_end_is_announced_once(front);
        if forall|i: int| 0 <= i < events.len() ==> #[trigger] events[i] == Event::Poll(
            Liveness::Running,
        ) {
            assert forall|i: int| 0 <= i < front.len() implies #[trigger] front[i] == Event::Poll(
                Liveness::Running,
            ) by {
                assert(front[i] == events[i]);
            }
            assert(events[events.len() - 1] == Event::Poll(Liveness::Running));
        }
    }
}

/// Where the system answers every query, a launch that is killed or whose
/// process ends is announced by the next poll: one more event of that kind
/// after any series of polls that saw the process run brings the count to one.
pub proof fn law_end_is_announced(running: Seq<Event>, seen: Liveness)
    requires
        forall|i: int| 0 <= i < running.len() ==> #[trigger] running[i] == Event::Poll(
            Liveness::Running,
        ),
    ensures
        after(launched(), running.push(Event::Poll(Liveness::Exited))).announced == 1,
        !after(launched(), running.push(Event::Poll(Liveness::Exited))).present,
        after(launched(), running.push(Event::Kill).push(Event::Poll(seen))).announced == 1,
        !after(launched(), running.push(Event::Kill).push(Event::Poll(seen))).present,
{
    law_end_is_announced_once(running);
    let exited = running.push(Event::Poll(Liveness::Exited));
    assert(exited.drop_last() =~= running);
    let killed = running.push(Event::Kill);
    assert(killed.drop_last() =~= running);
    assert(after(launched(), killed) == advance(launched(), Event::Kill));
    let polled = killed.push(Event::Poll(seen));
    assert(polled.drop_last() =~= killed);
}

/// `Watch` is the registry and the monitor seen from one name: whether the
/// entry is there after a kill or a poll, and where the monitor stands after a
/// poll, are what `advance` says.
pub proof fn law_watch_mirrors_registry<H>(
    registry: Map<Seq<char>, H>,
    name: Seq<char>,
    status: MonitorStatus,
    seen: Liveness,
    announced: nat,
)
    ensures
        advance(
            Watch { present: registry.contains_key(name), status, announced },
            Event::Kill,
        ).present == registry_after_kill(registry, name).contains_key(name),
        advance(
            Watch { present: registry.contains_key(name), status, announced },
            Event::Poll(seen),
        ).present == registry_after_poll(registry, name, status, seen).contains_key(name),
        advance(
            Watch { present: registry.contains_key(name), status, announced },
            Event::Poll(seen),
        ).status == monitor_step(status, registry.contains_key(name), seen).0,
{
}

/// The watcher of one launch.
pub struct ExitMonitor {
    name: String,
    status: MonitorStatus,
}

impl ExitMonitor {
    /// The name of the launch that this monitor watches.
    pub closed spec fn name_view(&self) -> Seq<char> {
        self.name@
    }

    /// Where this monitor stands.
    pub closed spec fn status_view(&self) -> MonitorStatus {
        self.status
    }

    /// A monitor for the launch under `name`, watching.
    pub fn new(name: String) -> (monitor: ExitMonitor)
        ensures
            monitor.name_view() == name@,
            monitor.status_view() == MonitorStatus::Watching,
    {
        ExitMonitor { name, status: MonitorStatus::Watching }
    }

    /// The name of the launch that this monitor watches.
    pub fn name(&self) -> (name: &str)
        ensures
            name@ == self.name_view(),
    {
        self.name.as_str()
    }

    /// Where this monitor stands.
    pub fn status(&self) -> (status: MonitorStatus)
        ensures
            status == self.status_view(),
    {
        self.status
    }

    /// Whether this monitor has ended its task.
    pub fn is_done(&self) -> (done: bool)
        ensures
            done == (self.status_view() != MonitorStatus::Watching),
    {
        match self.status {
            MonitorStatus::Watching => false,
            _ => true,
        }
    }

    /// One poll. `seen` is what the query of the process under this monitor's
    /// name said; it counts only while the registry holds an entry for the name.
    /// The monitor follows `monitor_step`; the registry loses the entry exactly
    /// when the process was seen to have ended, and is otherwise left alone.
    pub fn poll<H>(&mut self, registry: &mut Supervisor<H>, seen: Liveness) -> (action:
        MonitorAction<H>)
        ensures
            final(self).name_view() == old(self).name_view(),
            final(self).status_view() == monitor_step(
                old(self).status_view(),
                old(registry)@.contains_key(old(self).name_view()),
                seen,
            ).0,
            final(registry)@ == registry_after_poll(
                old(registry)@,
                old(self).name_view(),
                old(self).status_view(),
                seen,
            ),
            match monitor_step(
                old(self).status_view(),
                old(registry)@.contains_key(old(self).name_view()),
                seen,
            ).1 {
                Effect::Wait => action is Wait,
                Effect::AnnounceKilled => action matches MonitorAction::Notify {
                    notification,
                    released,
                } && notification@ == (old(self).name_view(), READY_LABEL@) && released is None,
                Effect::AnnounceExited => action matches MonitorAction::Notify {
                    notification,
                    released,
                } && notification@ == (old(self).name_view(), READY_LABEL@) && released == Some(
                    old(registry)@[old(self).name_view()],
                ),
                Effect::Abandon => action is Stop,
                Effect::Idle => action is Stop,
            },
    {
        match self.status {
            MonitorStatus::Watching => {},
            _ => {
                return MonitorAction::Stop;
            },
        }
        if !registry.contains(self.name.as_str()) {
            self.status = MonitorStatus::Notified;
            return MonitorAction::Notify { notification: self.notification(), released: None };
        }
        match seen {
            Liveness::Running => MonitorAction::Wait,
            Liveness::Exited => {
                let released = registry.remove(self.name.as_str());
                self.status = MonitorStatus::Notified;
                MonitorAction::Notify { notification: self.notification(), released }
            },
            Liveness::Unknown => {
                self.status = MonitorStatus::Degraded;
                MonitorAction::Stop
            },
        }
    }

    /// The announcement that the launch under this monitor's name has ended.
    fn notification(&self) -> (notification: Notification)
        ensures
            notification@ == (self.name_view(), READY_LABEL@),
    {
        Notification { name: self.name.clone(), label: READY_LABEL.to_owned() }
    }
}

} // verus!
