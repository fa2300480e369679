use rustkit::http::host::{Action, Event, Host, Listener, Outcome, Phase, Side};
use rustkit::http::shutdown::ShutdownToken;

fn run(mut h: Host, events: &[Event]) -> (Host, Vec<Action>) {
    let mut actions = Vec::new();
    for e in events {
        let (next, a) = h.step(*e);
        h = next;
        actions.push(a);
    }
    (h, actions)
}

#[test]
fn both_listeners_run_and_drain_on_interrupt() {
    let (h, actions) = run(
        Host::new(true),
        &[
            Event::Start,
            Event::Bound(Listener::App),
            Event::Bound(Listener::Aux),
            Event::Interrupt,
            Event::Drained(Listener::App),
            Event::Drained(Listener::Aux),
        ],
    );
    assert_eq!(
        actions,
        vec![
            Action::Bind { aux: true },
            Action::Nothing,
            Action::Serve,
            Action::StopAccepting,
            Action::Nothing,
            Action::Finish(Outcome::Clean),
        ]
    );
    assert_eq!(h.phase, Phase::Stopped);
    assert_eq!(h.app, Side::Closed);
    assert_eq!(h.aux, Side::Closed);
}

#[test]
fn interrupt_stops_accepting_on_both() {
    let (h, _) = run(
        Host::new(true),
        &[Event::Start, Event::Bound(Listener::Aux), Event::Bound(Listener::App)],
    );
    assert_eq!(h.phase, Phase::Running);
    assert_eq!(h.app, Side::Accepting);
    assert_eq!(h.aux, Side::Accepting);
    let (h, a) = h.step(Event::Interrupt);
    assert_eq!(a, Action::StopAccepting);
    assert_eq!(h.phase, Phase::Draining);
    assert_eq!(h.app, Side::Draining);
    assert_eq!(h.aux, Side::Draining);
    let (again, a) = h.step(Event::Interrupt);
    assert_eq!(a, Action::Nothing);
    assert_eq!(again, h);
}

#[test]
fn no_secondary_address_means_no_auxiliary_listener() {
    let h = Host::new(false);
    assert_eq!(h.aux, Side::Absent);
    let (h, actions) = run(
        h,
        &[
            Event::Start,
            Event::Bound(Listener::App),
            Event::Bound(Listener::Aux),
            Event::Interrupt,
            Event::Drained(Listener::App),
        ],
    );
    assert_eq!(
        actions,
        vec![
            Action::Bind { aux: false },
            Action::Serve,
            Action::Nothing,
            Action::StopAccepting,
            Action::Finish(Outcome::Clean),
        ]
    );
    assert_eq!(h.aux, Side::Absent);
    assert_eq!(h.side(Listener::Aux), Side::Absent);
}

#[test]
fn bind_failure_names_the_listener() {
    let (h, actions) = run(
        Host::new(true),
        &[Event::Start, Event::Bound(Listener::App), Event::BindFailed(Listener::Aux)],
    );
    assert_eq!(actions[2], Action::Finish(Outcome::BindFailed(Listener::Aux)));
    assert_eq!(h.phase, Phase::Errored);
    assert_eq!(h.app, Side::Closed);
    let (_, a) = h.step(Event::Interrupt);
    assert_eq!(a, Action::Nothing);
}

#[test]
fn runtime_failure_drains_the_sibling() {
    let (h, actions) = run(
        Host::new(true),
        &[
            Event::Start,
            Event::Bound(Listener::App),
            Event::Bound(Listener::Aux),
            Event::ListenerFailed(Listener::Aux),
        ],
    );
    assert_eq!(actions[3], Action::StopAccepting);
    assert_eq!(h.phase, Phase::Draining);
    assert_eq!(h.app, Side::Draining);
    assert_eq!(h.aux, Side::Closed);
    let (h, a) = h.step(Event::Drained(Listener::App));
    assert_eq!(a, Action::Finish(Outcome::ListenerFailed(Listener::Aux)));
    assert_eq!(h.phase, Phase::Stopped);
}

#[test]
fn runtime_failure_of_a_lone_listener_ends_at_once() {
    let (h, actions) = run(
        Host::new(false),
        &[Event::Start, Event::Bound(Listener::App), Event::ListenerFailed(Listener::App)],
    );
    assert_eq!(actions[2], Action::Finish(Outcome::ListenerFailed(Listener::App)));
    assert_eq!(h.phase, Phase::Stopped);
}

#[test]
fn events_out_of_turn_change_nothing() {
    let h = Host::new(true);
    let (same, a) = h.step(Event::Drained(Listener::App));
    assert_eq!(a, Action::Nothing);
    assert_eq!(same, h);
    let (h, _) = h.step(Event::Start);
    let (h, _) = h.step(Event::Bound(Listener::App));
    let (same, a) = h.step(Event::Bound(Listener::App));
    assert_eq!(a, Action::Nothing);
    assert_eq!(same, h);
}

#[test]
fn interrupt_while_binding_ends_cleanly() {
    let (h, actions) = run(
        Host::new(true),
        &[Event::Start, Event::Bound(Listener::App), Event::Interrupt],
    );
    assert_eq!(actions[2], Action::Finish(Outcome::Clean));
    assert_eq!(h.phase, Phase::Stopped);
}

#[test]
fn shutdown_token_fires_once() {
    let mut t = ShutdownToken::new();
    assert!(!t.is_fired());
    assert!(t.fire());
    assert!(t.is_fired());
    assert!(!t.fire());
    assert!(t.is_fired());
}

#[test]
fn failed_signal_registration_is_fatal() {
    let (h, actions) = run(Host::new(true), &[Event::SignalFailed, Event::Start]);
    assert_eq!(actions, vec![Action::Finish(Outcome::SignalFailed), Action::Nothing]);
    assert_eq!(h.phase, Phase::Errored);
    assert_eq!(h.app, Side::Closed);
    let (h, a) = Host::new(false).step(Event::Start).0.step(Event::SignalFailed);
    assert_eq!(a, Action::Finish(Outcome::SignalFailed));
    assert_eq!(h.aux, Side::Absent);
}

#[test]
fn drain_timeout_abandons_the_rest() {
    let (h, actions) = run(
        Host::new(true),
        &[
            Event::Start,
            Event::Bound(Listener::App),
            Event::Bound(Listener::Aux),
            Event::Interrupt,
            Event::Drained(Listener::Aux),
            Event::DrainTimeout,
        ],
    );
    assert_eq!(actions[5], Action::Finish(Outcome::DrainTimedOut));
    assert_eq!(h.phase, Phase::Stopped);
    assert_eq!(h.app, Side::Closed);
    assert_eq!(h.aux, Side::Closed);
    let (_, a) = h.step(Event::DrainTimeout);
    assert_eq!(a, Action::Nothing);
}

#[test]
fn drain_timeout_while_running_changes_nothing() {
    let (h, _) = run(Host::new(false), &[Event::Start, Event::Bound(Listener::App)]);
    let (same, a) = h.step(Event::DrainTimeout);
    assert_eq!(a, Action::Nothing);
    assert_eq!(same, h);
}
