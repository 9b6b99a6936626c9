use app_bootstrap::{
    fatal_message, plugin_at, registration_plan, Action, Bootstrap, Event, Phase, Plugin,
    PLUGIN_COUNT,
};

const ORDER: [Plugin; 5] = [
    Plugin::NetworkTransport,
    Plugin::ShellAccess,
    Plugin::AutoUpdate,
    Plugin::ProcessControl,
    Plugin::WindowState,
];

/// Performs every action asked for, answering the launch with `launch_ok`,
/// and returns the actions carried out and the final state.
fn drive(launch_ok: bool) -> (Vec<Action>, Bootstrap, Action) {
    let mut b = Bootstrap::new();
    let mut done = Vec::new();
    let mut a = b.next_action();
    loop {
        match a {
            Action::Attach(_) => {
                done.push(a);
                a = b.on_event(Event::Attached);
            }
            Action::Launch => {
                done.push(a);
                let e = if launch_ok { Event::LaunchSucceeded } else { Event::LaunchFailed };
                a = b.on_event(e);
            }
            Action::Serve | Action::Abort => return (done, b, a),
        }
    }
}

#[test]
fn plan_is_the_fixed_order() {
    assert_eq!(registration_plan(), ORDER.to_vec());
    assert_eq!(PLUGIN_COUNT, 5);
    for (i, p) in ORDER.iter().enumerate() {
        assert_eq!(plugin_at(i), *p);
    }
}

#[test]
fn new_bootstrap_asks_for_first_plugin() {
    let b = Bootstrap::new();
    assert_eq!(b.phase(), Phase::Composing);
    assert!(b.attached().is_empty());
    assert_eq!(b.next_action(), Action::Attach(Plugin::NetworkTransport));
}

#[test]
fn attaches_in_order_then_launches_once() {
    let (done, _, _) = drive(true);
    let mut expected: Vec<Action> = ORDER.iter().map(|p| Action::Attach(*p)).collect();
    expected.push(Action::Launch);
    assert_eq!(done, expected);
    assert_eq!(done.iter().filter(|a| **a == Action::Launch).count(), 1);
}

#[test]
fn successful_launch_enters_event_loop() {
    let (_, b, last) = drive(true);
    assert_eq!(last, Action::Serve);
    assert_eq!(b.phase(), Phase::Running);
    assert_eq!(b.attached(), ORDER.to_vec());
}

#[test]
fn failed_launch_aborts_with_fatal_message() {
    let (done, b, last) = drive(false);
    assert_eq!(done.len(), 6);
    assert_eq!(last, Action::Abort);
    assert_eq!(b.phase(), Phase::Terminated);
    assert_eq!(fatal_message(), "error while running tauri application");
}

#[test]
fn each_attachment_is_recorded() {
    let mut b = Bootstrap::new();
    for i in 0..5 {
        assert_eq!(b.attached(), ORDER[..i].to_vec());
        assert_eq!(b.next_action(), Action::Attach(ORDER[i]));
        b.on_event(Event::Attached);
    }
    assert_eq!(b.attached(), ORDER.to_vec());
    assert_eq!(b.next_action(), Action::Launch);
}

#[test]
fn launch_report_while_composing_is_ignored() {
    let mut b = Bootstrap::new();
    b.on_event(Event::Attached);
    assert_eq!(b.on_event(Event::LaunchSucceeded), Action::Attach(Plugin::ShellAccess));
    assert_eq!(b.on_event(Event::LaunchFailed), Action::Attach(Plugin::ShellAccess));
    assert_eq!(b.phase(), Phase::Composing);
    assert_eq!(b.attached(), vec![Plugin::NetworkTransport]);
}

#[test]
fn attach_report_while_launch_pending_does_not_skip_it() {
    let mut b = Bootstrap::new();
    for _ in 0..5 {
        b.on_event(Event::Attached);
    }
    assert_eq!(b.on_event(Event::Attached), Action::Launch);
    assert_eq!(b.attached().len(), 5);
    assert_eq!(b.phase(), Phase::Composing);
}

#[test]
fn terminated_state_is_final() {
    let (_, mut b, _) = drive(false);
    for e in [Event::Attached, Event::LaunchSucceeded, Event::LaunchFailed] {
        assert_eq!(b.on_event(e), Action::Abort);
        assert_eq!(b.phase(), Phase::Terminated);
    }
}

#[test]
fn running_state_never_launches_again() {
    let (_, mut b, _) = drive(true);
    for e in [Event::Attached, Event::LaunchSucceeded, Event::LaunchFailed] {
        assert_eq!(b.on_event(e), Action::Serve);
        assert_eq!(b.phase(), Phase::Running);
    }
    assert_eq!(b.attached(), ORDER.to_vec());
}
