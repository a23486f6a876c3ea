//! Realm events: what is announced to listeners when realms start, stop,
//! appear, disappear or become current, and which machine manager signals
//! lead to them.
use vstd::prelude::*;

use crate::text::{push_str, str_eq, to_owned_string};

verus! {

/// An event about a realm, named by the realm.
#[derive(Debug, Clone, PartialEq, Eq)]
pub enum RealmEvent {
    Started(String),
    Stopped(String),
    New(String),
    Removed(String),
    Current(Option<String>),
}

/// The text of an event.
pub open spec fn spec_event_text(e: RealmEvent) -> Seq<char> {
    match e {
        RealmEvent::Started(n) => "RealmStarted("@ + n@ + ")"@,
        RealmEvent::Stopped(n) => "RealmStopped("@ + n@ + ")"@,
        RealmEvent::New(n) => "RealmNew("@ + n@ + ")"@,
        RealmEvent::Removed(n) => "RealmRemoved("@ + n@ + ")"@,
        RealmEvent::Current(Some(n)) => "RealmCurrent("@ + n@ + ")"@,
        RealmEvent::Current(None) => "RealmCurrent(None)"@,
    }
}

impl RealmEvent {
    /// The text of the event, such as `RealmStarted(main)`.
    pub fn to_string(&self) -> (r: String)
        ensures
            r@ == spec_event_text(*self),
    {
        let (label, name): (&str, Option<&String>) = match self {
            RealmEvent::Started(n) => ("RealmStarted(", Some(n)),
            RealmEvent::Stopped(n) => ("RealmStopped(", Some(n)),
            RealmEvent::New(n) => ("RealmNew(", Some(n)),
            RealmEvent::Removed(n) => ("RealmRemoved(", Some(n)),
            RealmEvent::Current(Some(n)) => ("RealmCurrent(", Some(n)),
            RealmEvent::Current(None) => ("RealmCurrent(", None),
        };
        let mut s = to_owned_string(label);
        match name {
            Some(n) => push_str(&mut s, n.as_str()),
            None => push_str(&mut s, "None"),
        }
        push_str(&mut s, ")");
        proof {
            reveal_strlit("RealmCurrent(");
            reveal_strlit("None");
            reveal_strlit(")");
            reveal_strlit("RealmCurrent(None)");
        }
        assert(s@ =~= spec_event_text(*self));
        s
    }
}

/// A signal of the machine manager that concerns realms.
#[derive(Debug, Clone, Copy, PartialEq, Eq, Structural)]
pub enum MachineSignal {
    /// A machine started: its realm is now active.
    MachineNew,
    /// A machine stopped.
    MachineRemoved,
}

/// The machine manager signal called `member`, if it is one that
/// concerns realms.
pub fn machine_signal(member: &str) -> (r: Option<MachineSignal>)
    ensures
        r == (if member@ == "MachineNew"@ {
            Some(MachineSignal::MachineNew)
        } else if member@ == "MachineRemoved"@ {
            Some(MachineSignal::MachineRemoved)
        } else {
            None
        }),
{
    if str_eq(member, "MachineNew") {
        Some(MachineSignal::MachineNew)
    } else if str_eq(member, "MachineRemoved") {
        Some(MachineSignal::MachineRemoved)
    } else {
        None
    }
}

/// Whether a signal comes from the machine manager's interface.
pub fn is_machine_manager_interface(interface: &str) -> (r: bool)
    ensures
        r == (interface@ == "org.freedesktop.machine1.Manager"@),
{
    str_eq(interface, "org.freedesktop.machine1.Manager")
}

/// The events of a rescan of the realms directory: a `New` event for each
/// added realm, then a `Removed` event for each removed realm.
pub fn rescan_events(added: Vec<String>, removed: Vec<String>) -> (r: Vec<RealmEvent>)
    ensures
        r@.len() == added@.len() + removed@.len(),
        forall|i: int| 0 <= i < added@.len() ==> r@[i] == RealmEvent::New(#[trigger] added@[i]),
        forall|i: int| 0 <= i < removed@.len() ==> r@[added@.len() + i] == RealmEvent::Removed(#[trigger] removed@[i]),
{
    let ghost a = added@;
    let ghost b = removed@;
    let mut out: Vec<RealmEvent> = Vec::new();
    let mut added = added;
    let mut k: usize = 0;
    let n = added.len();
    while added.len() > 0
        invariant
            k + added@.len() == a.len(),
            n == a.len(),
            added@ == a.skip(k as int),
            out@.len() == k,
            forall|i: int| 0 <= i < k ==> out@[i] == RealmEvent::New(#[trigger] a[i]),
        decreases added@.len(),
    {
        let x = added.remove(0);
        assert(x == a[k as int]);
        assert(added@ =~= a.skip(k + 1));
        out.push(RealmEvent::New(x));
        k += 1;
    }
    let mut removed = removed;
    let mut j: usize = 0;
    let m = removed.len();
    while removed.len() > 0
        invariant
            j + removed@.len() == b.len(),
            m == b.len(),
            removed@ == b.skip(j as int),
            out@.len() == a.len() + j,
            forall|i: int| 0 <= i < a.len() ==> out@[i] == RealmEvent::New(#[trigger] a[i]),
            forall|i: int| 0 <= i < j ==> out@[a.len() + i] == RealmEvent::Removed(#[trigger] b[i]),
        decreases removed@.len(),
    {
        let x = removed.remove(0);
        assert(x == b[j as int]);
        assert(removed@ =~= b.skip(j + 1));
        out.push(RealmEvent::Removed(x));
        j += 1;
    }
    out
}

/// The state of the event listening tasks: whether they run, and whether
/// they have been asked to quit.
#[derive(Debug, Clone, Copy, PartialEq, Eq, Structural)]
pub struct ListenerState {
    pub running: bool,
    pub quit: bool,
}

/// No task running, no quit request.
pub open spec fn idle() -> ListenerState {
    ListenerState { running: false, quit: false }
}

/// A start request: whether the tasks are to be spawned, and the state after.
pub open spec fn spec_start(s: ListenerState) -> (bool, ListenerState) {
    (!s.running, ListenerState { running: true, quit: s.quit })
}

/// A stop request: whether the running tasks are told to quit, and the
/// state after.
pub open spec fn spec_notify_stop(s: ListenerState) -> (bool, ListenerState) {
    if s.running && !s.quit {
        (true, ListenerState { running: true, quit: true })
    } else {
        (false, s)
    }
}

impl ListenerState {
    /// The state before any task was started.
    pub fn new() -> (r: ListenerState)
        ensures
            r == idle(),
    {
        ListenerState { running: false, quit: false }
    }

    /// A request to start the event tasks: `true` when they are to be
    /// spawned, `false` when they already run.
    pub fn start(&mut self) -> (r: bool)
        ensures
            (r, *final(self)) == spec_start(*old(self)),
    {
        let spawn = !self.running;
        self.running = true;
        spawn
    }

    /// A task could not be created: nothing runs.
    pub fn start_failed(&mut self)
        ensures
            final(self).running == false,
            final(self).quit == old(self).quit,
    {
        self.running = false;
    }

    /// A request to stop the event tasks: `true` when running tasks are
    /// told to quit (and must be woken and joined), `false` when nothing
    /// runs or they were told already.
    pub fn notify_stop(&mut self) -> (r: bool)
        ensures
            (r, *final(self)) == spec_notify_stop(*old(self)),
    {
        let can_stop = self.running && !self.quit;
        if can_stop {
            self.quit = true;
        }
        can_stop
    }

    /// The tasks have ended.
    pub fn stopped(&mut self)
        ensures
            *final(self) == idle(),
    {
        self.running = false;
        self.quit = false;
    }

    /// Whether the tasks are to leave their loops.
    pub fn quit_requested(&self) -> (r: bool)
        ensures
            r == self.quit,
    {
        self.quit
    }
}

/// Law: a second start request, before a stop, spawns nothing.
pub proof fn law_start_once(s: ListenerState)
    ensures
        !spec_start(spec_start(s).1).0,
{
}

/// Law: a second stop request, before the tasks ended, does nothing more.
pub proof fn law_stop_once(s: ListenerState)
    ensures
        !spec_notify_stop(spec_notify_stop(s).1).0,
        spec_notify_stop(spec_notify_stop(s).1).1 == spec_notify_stop(s).1,
{
}

/// Law: from idle, a start spawns the tasks, and a stop then tells the
/// running tasks to quit.
pub proof fn law_start_stop_cycle()
    ensures
        spec_start(idle()) == (true, ListenerState { running: true, quit: false }),
        spec_notify_stop(spec_start(idle()).1) == (true, ListenerState { running: true, quit: true }),
{
}

} // verus!
