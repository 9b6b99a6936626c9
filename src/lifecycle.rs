use vstd::prelude::*;
use crate::plugin::{Plugin, PLUGIN_COUNT, registration_order, plugin_at};

verus! {

/// Where the application stands in its startup.
#[derive(Clone, Copy, Debug, PartialEq, Eq, Structural)]
pub enum Phase {
    /// Plugins are being attached; the launch has not been attempted.
    Composing,
    /// The launch succeeded: the host event loop owns the process.
    Running,
    /// The launch failed: the process must end with the fatal message.
    Terminated,
}

/// What the driver must do next.
#[derive(Clone, Copy, Debug, PartialEq, Eq, Structural)]
pub enum Action {
    /// Attach this plugin to the builder.
    Attach(Plugin),
    /// Consume the builder and launch the application.
    Launch,
    /// Nothing: control stays with the event loop.
    Serve,
    /// End the process at once with the fatal message.
    Abort,
}

/// What the driver reports back after performing an action.
#[derive(Clone, Copy, Debug, PartialEq, Eq, Structural)]
pub enum Event {
    /// The requested plugin was attached.
    Attached,
    /// The launch succeeded and the event loop is open.
    LaunchSucceeded,
    /// The launch failed.
    LaunchFailed,
}

/// Abstract state of a bootstrap: the plugins attached so far and the phase.
pub struct BootstrapView {
    pub attached: Seq<Plugin>,
    pub phase: Phase,
}

/// The message carried by a launch failure.
pub open spec fn fatal_message_spec() -> Seq<char> {
    "error while running tauri application"@
}

/// The message with which the process ends when the launch fails.
pub fn fatal_message() -> (m: String)
    ensures
        m@ == fatal_message_spec(),
{
    String::from_str("error while running tauri application")
}

/// The state before anything is attached.
pub open spec fn initial_view() -> BootstrapView {
    BootstrapView { attached: Seq::empty(), phase: Phase::Composing }
}

/// A reachable state: the attached plugins are a prefix of the fixed order,
/// and the launch is attempted only once all of them are attached.
pub open spec fn view_wf(s: BootstrapView) -> bool {
    &&& s.attached.len() <= PLUGIN_COUNT
    &&& s.attached == registration_order().take(s.attached.len() as int)
    &&& s.phase != Phase::Composing ==> s.attached.len() == PLUGIN_COUNT
}

/// The action that a state asks for.
pub open spec fn next_action_spec(s: BootstrapView) -> Action {
    match s.phase {
        Phase::Composing => if s.attached.len() < PLUGIN_COUNT {
            Action::Attach(registration_order()[s.attached.len() as int])
        } else {
            Action::Launch
        },
        Phase::Running => Action::Serve,
        Phase::Terminated => Action::Abort,
    }
}

/// Whether `e` is a report on having performed `a`.
pub open spec fn answers(a: Action, e: Event) -> bool {
    match a {
        Action::Attach(_) => e == Event::Attached,
        Action::Launch => e == Event::LaunchSucceeded || e == Event::LaunchFailed,
        _ => false,
    }
}

/// The state after event `e`. An event that does not answer the pending
/// action leaves the state as it was.
pub open spec fn on_event_spec(s: BootstrapView, e: Event) -> BootstrapView {
    let a = next_action_spec(s);
    if !answers(a, e) {
        s
    } else {
        match a {
            Action::Attach(p) => BootstrapView { attached: s.attached.push(p), phase: s.phase },
            _ => BootstrapView {
                attached: s.attached,
                phase: if e == Event::LaunchSucceeded { Phase::Running } else { Phase::Terminated },
            },
        }
    }
}

/// The startup of one application: a single-use builder that accumulates
/// plugins in a fixed order and is launched exactly once.
pub struct Bootstrap {
    attached: Vec<Plugin>,
    phase: Phase,
}

impl View for Bootstrap {
    type V = BootstrapView;

    closed spec fn view(&self) -> BootstrapView {
        BootstrapView { attached: self.attached@, phase: self.phase }
    }
}

impl Bootstrap {
    pub open spec fn wf(&self) -> bool {
        view_wf(self@)
    }

    /// A bootstrap with no plugin attached yet.
    pub fn new() -> (b: Bootstrap)
        ensures
            b@ == initial_view(),
            b.wf(),
    {
        let b = Bootstrap { attached: Vec::new(), phase: Phase::Composing };
        assert(registration_order().take(0) =~= Seq::<Plugin>::empty());
        b
    }

    /// The plugins attached so far, in the order of attachment.
    pub fn attached(&self) -> (r: Vec<Plugin>)
        ensures
            r@ == self@.attached,
    {
        self.attached.clone()
    }

    /// The current phase.
    pub fn phase(&self) -> (r: Phase)
        ensures
            r == self@.phase,
    {
        self.phase
    }

    /// The action that the driver must perform next.
    pub fn next_action(&self) -> (a: Action)
        requires
            self.wf(),
        ensures
            a == next_action_spec(self@),
    {
        match self.phase {
            Phase::Composing => {
                let n = self.attached.len();
                if n < PLUGIN_COUNT {
                    Action::Attach(plugin_at(n))
                } else {
                    Action::Launch
                }
            },
            Phase::Running => Action::Serve,
            Phase::Terminated => Action::Abort,
        }
    }

    /// Takes the driver's report on the pending action, and returns the next one.
    pub fn on_event(&mut self, e: Event) -> (a: Action)
        requires
            old(self).wf(),
        ensures
            final(self).wf(),
            final(self)@ == on_event_spec(old(self)@, e),
            a == next_action_spec(final(self)@),
    {
        let pending = self.next_action();
        match pending {
            Action::Attach(p) => {
                if e == Event::Attached {
                    let ghost before = self@.attached;
                    self.attached.push(p);
                    assert(registration_order().take(before.len() as int + 1) =~= before.push(p));
                }
            },
            Action::Launch => {
                match e {
                    Event::LaunchSucceeded => {
                        self.phase = Phase::Running;
                    },
                    Event::LaunchFailed => {
                        self.phase = Phase::Terminated;
                    },
                    Event::Attached => {},
                }
            },
            _ => {},
        }
        self.next_action()
    }
}

} // verus!

verus! {

/// The actions that a startup performs, in order: every plugin attached in
/// the fixed order, then the one launch.
pub open spec fn startup_script() -> Seq<Action> {
    registration_order().map_values(|p: Plugin| Action::Attach(p)).push(Action::Launch)
}

/// How far a state has gone through `startup_script`.
pub open spec fn progress(s: BootstrapView) -> nat {
    s.attached.len() + if s.phase == Phase::Composing { 0nat } else { 1nat }
}

/// The state after feeding `es` one by one.
pub open spec fn after(s: BootstrapView, es: Seq<Event>) -> BootstrapView
    decreases es.len(),
{
    if es.len() == 0 {
        s
    } else {
        after(on_event_spec(s, es[0]), es.drop_first())
    }
}

/// The actions that were carried out while feeding `es`: those that an event
/// of `es` reported on.
pub open spec fn performed(s: BootstrapView, es: Seq<Event>) -> Seq<Action>
    decreases es.len(),
{
    if es.len() == 0 {
        Seq::empty()
    } else {
        let rest = performed(on_event_spec(s, es[0]), es.drop_first());
        if answers(next_action_spec(s), es[0]) {
            seq![next_action_spec(s)] + rest
        } else {
            rest
        }
    }
}

/// Whether each event of `es` reports on the action pending when it arrives:
/// a driver that does what it is asked.
pub open spec fn answered(s: BootstrapView, es: Seq<Event>) -> bool
    decreases es.len(),
{
    es.len() == 0 || (answers(next_action_spec(s), es[0]) && answered(
        on_event_spec(s, es[0]),
        es.drop_first(),
    ))
}

} // verus!
