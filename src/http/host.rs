//! Lifecycle of the service host: the application listener and, when a
//! secondary address is configured, the auxiliary listener.
//!
//! The host is a state machine from events (a bind finished, the interrupt
//! fired, a listener drained) to the next state and one action for the
//! runtime to perform. A listener that fails after binding is fatal: its
//! sibling stops accepting and drains, and the host ends with that failure.
use vstd::prelude::*;

verus! {

/// One of the two listeners.
#[derive(Clone, Copy, Debug, PartialEq, Eq, Structural)]
pub enum Listener {
    App,
    Aux,
}

/// Where one listener stands.
#[derive(Clone, Copy, Debug, PartialEq, Eq, Structural)]
pub enum Side {
    /// Not configured: no socket is ever opened for it.
    Absent,
    /// Configured, not bound yet.
    Unbound,
    /// Bound, waiting for its sibling before serving.
    Bound,
    /// Serving and accepting new connections.
    Accepting,
    /// No longer accepting; finishing the requests in flight.
    Draining,
    /// Done.
    Closed,
}

/// The phase of the host as a whole.
#[derive(Clone, Copy, Debug, PartialEq, Eq, Structural)]
pub enum Phase {
    Idle,
    Binding,
    Running,
    Draining,
    Stopped,
    Errored,
}

/// What happened, as reported by the runtime.
#[derive(Clone, Copy, Debug, PartialEq, Eq, Structural)]
pub enum Event {
    Start,
    Bound(Listener),
    BindFailed(Listener),
    Interrupt,
    ListenerFailed(Listener),
    Drained(Listener),
    /// The interrupt handler could not be registered. It is registered
    /// before binding: the host never serves without a way to drain.
    SignalFailed,
    /// The grace period for draining ran out.
    DrainTimeout,
}

/// How the host ended.
#[derive(Clone, Copy, Debug, PartialEq, Eq, Structural)]
pub enum Outcome {
    /// Shut down by the interrupt, every request in flight finished.
    Clean,
    /// A listener could not bind; nothing was served.
    BindFailed(Listener),
    /// A listener failed while serving; the other was drained.
    ListenerFailed(Listener),
    /// The interrupt handler could not be registered; nothing was served.
    SignalFailed,
    /// Draining outlasted the grace period; requests still in flight were abandoned.
    DrainTimedOut,
}

/// What the runtime is to do next.
#[derive(Clone, Copy, Debug, PartialEq, Eq, Structural)]
pub enum Action {
    Nothing,
    /// Bind the application listener, and the auxiliary one where `aux`.
    Bind { aux: bool },
    /// Start serving on every bound listener.
    Serve,
    /// Stop accepting on every listener still open and let it drain.
    StopAccepting,
    /// Return from serving with this outcome.
    Finish(Outcome),
}

/// The state of the host.
#[derive(Clone, Copy, Debug, PartialEq, Eq, Structural)]
pub struct Host {
    pub phase: Phase,
    pub app: Side,
    pub aux: Side,
    /// Whether a listener failed while serving, and which.
    pub failed: bool,
    pub failed_listener: Listener,
}

/// The side of a listener.
pub open spec fn side_of(h: Host, l: Listener) -> Side {
    match l {
        Listener::App => h.app,
        Listener::Aux => h.aux,
    }
}

/// `h` with the side of `l` replaced.
pub open spec fn with_side(h: Host, l: Listener, s: Side) -> Host {
    match l {
        Listener::App => Host { app: s, ..h },
        Listener::Aux => Host { aux: s, ..h },
    }
}

/// A side after the host stopped accepting: an open listener drains.
pub open spec fn stop_side(s: Side) -> Side {
    match s {
        Side::Accepting => Side::Draining,
        Side::Absent => Side::Absent,
        Side::Draining => Side::Draining,
        _ => Side::Closed,
    }
}

/// A side once the host is done: an absent one stays absent.
pub open spec fn close_side(s: Side) -> Side {
    match s {
        Side::Absent => Side::Absent,
        _ => Side::Closed,
    }
}

/// A side that is ready to serve: bound, or not configured.
pub open spec fn ready(s: Side) -> bool {
    s == Side::Bound || s == Side::Absent
}

/// A side that serves once the host runs.
pub open spec fn start_side(s: Side) -> Side {
    match s {
        Side::Bound => Side::Accepting,
        _ => s,
    }
}

/// The outcome once every listener is closed.
pub open spec fn final_outcome(h: Host) -> Outcome {
    if h.failed {
        Outcome::ListenerFailed(h.failed_listener)
    } else {
        Outcome::Clean
    }
}

/// `h` after the side of `l` closed while draining: it stops once no side drains.
pub open spec fn after_close(h: Host, l: Listener) -> (Host, Action) {
    let c = with_side(h, l, Side::Closed);
    if c.app != Side::Draining && c.aux != Side::Draining {
        (Host { phase: Phase::Stopped, ..c }, Action::Finish(final_outcome(c)))
    } else {
        (c, Action::Nothing)
    }
}

/// The transition table of the host.
pub open spec fn transition(h: Host, e: Event) -> (Host, Action) {
    match (h.phase, e) {
        (Phase::Idle, Event::Start) => (
            Host { phase: Phase::Binding, ..h },
            Action::Bind { aux: h.aux != Side::Absent },
        ),
        (Phase::Binding, Event::Bound(l)) => if side_of(h, l) == Side::Unbound {
            let b = with_side(h, l, Side::Bound);
            if ready(b.app) && ready(b.aux) {
                (
                    Host {
                        phase: Phase::Running,
                        app: start_side(b.app),
                        aux: start_side(b.aux),
                        ..b
                    },
                    Action::Serve,
                )
            } else {
                (b, Action::Nothing)
            }
        } else {
            (h, Action::Nothing)
        },
        (Phase::Binding, Event::BindFailed(l)) => if side_of(h, l) == Side::Unbound {
            (
                Host {
                    phase: Phase::Errored,
                    app: close_side(h.app),
                    aux: close_side(h.aux),
                    ..h
                },
                Action::Finish(Outcome::BindFailed(l)),
            )
        } else {
            (h, Action::Nothing)
        },
        (Phase::Idle, Event::SignalFailed) | (Phase::Binding, Event::SignalFailed) => (
            Host { phase: Phase::Errored, app: close_side(h.app), aux: close_side(h.aux), ..h },
            Action::Finish(Outcome::SignalFailed),
        ),
        (Phase::Draining, Event::DrainTimeout) => (
            Host { phase: Phase::Stopped, app: close_side(h.app), aux: close_side(h.aux), ..h },
            Action::Finish(Outcome::DrainTimedOut),
        ),
        (Phase::Binding, Event::Interrupt) => (
            Host { phase: Phase::Stopped, app: close_side(h.app), aux: close_side(h.aux), ..h },
            Action::Finish(Outcome::Clean),
        ),
        (Phase::Running, Event::Interrupt) => (
            Host { phase: Phase::Draining, app: stop_side(h.app), aux: stop_side(h.aux), ..h },
            Action::StopAccepting,
        ),
        (Phase::Running, Event::ListenerFailed(l)) => if side_of(h, l) == Side::Accepting {
            let f = with_side(
                Host {
                    app: stop_side(h.app),
                    aux: stop_side(h.aux),
                    failed: true,
                    failed_listener: l,
                    ..h
                },
                l,
                Side::Closed,
            );
            if f.app != Side::Draining && f.aux != Side::Draining {
                (Host { phase: Phase::Stopped, ..f }, Action::Finish(Outcome::ListenerFailed(l)))
            } else {
                (Host { phase: Phase::Draining, ..f }, Action::StopAccepting)
            }
        } else {
            (h, Action::Nothing)
        },
        (Phase::Draining, Event::Drained(l)) => if side_of(h, l) == Side::Draining {
            after_close(h, l)
        } else {
            (h, Action::Nothing)
        },
        (Phase::Draining, Event::ListenerFailed(l)) => if side_of(h, l) == Side::Draining {
            if h.failed {
                after_close(h, l)
            } else {
                after_close(Host { failed: true, failed_listener: l, ..h }, l)
            }
        } else {
            (h, Action::Nothing)
        },
        _ => (h, Action::Nothing),
    }
}

/// The states the host can be in.
pub open spec fn host_wf(h: Host) -> bool {
    &&& h.app != Side::Absent
    &&& match h.phase {
        Phase::Idle => h.app == Side::Unbound && (h.aux == Side::Unbound || h.aux == Side::Absent),
        Phase::Binding => (h.app == Side::Unbound || h.app == Side::Bound) && (h.aux
            == Side::Unbound || h.aux == Side::Bound || h.aux == Side::Absent) && !(ready(h.app)
            && ready(h.aux)),
        Phase::Running => h.app == Side::Accepting && (h.aux == Side::Accepting || h.aux
            == Side::Absent),
        Phase::Draining => (h.app == Side::Draining || h.app == Side::Closed) && (h.aux
            == Side::Draining || h.aux == Side::Closed || h.aux == Side::Absent) && (h.app
            == Side::Draining || h.aux == Side::Draining),
        Phase::Stopped | Phase::Errored => h.app == Side::Closed && (h.aux == Side::Closed
            || h.aux == Side::Absent),
    }
    &&& h.failed ==> (h.phase == Phase::Draining || h.phase == Phase::Stopped)
}

fn stop(s: Side) -> (r: Side)
    ensures
        r == stop_side(s),
{
    match s {
        Side::Accepting => Side::Draining,
        Side::Absent => Side::Absent,
        Side::Draining => Side::Draining,
        _ => Side::Closed,
    }
}

fn close(s: Side) -> (r: Side)
    ensures
        r == close_side(s),
{
    match s {
        Side::Absent => Side::Absent,
        _ => Side::Closed,
    }
}

fn start(s: Side) -> (r: Side)
    ensures
        r == start_side(s),
{
    match s {
        Side::Bound => Side::Accepting,
        _ => s,
    }
}

fn is_ready(s: Side) -> (r: bool)
    ensures
        r == ready(s),
{
    match s {
        Side::Bound | Side::Absent => true,
        _ => false,
    }
}

impl Host {
    /// A host before start; the auxiliary listener exists only where a
    /// secondary address is configured.
    pub fn new(aux_configured: bool) -> (h: Host)
        ensures
            host_wf(h),
            h.phase == Phase::Idle,
            h.app == Side::Unbound,
            h.aux == if aux_configured {
                Side::Unbound
            } else {
                Side::Absent
            },
            !h.failed,
    {
        Host {
            phase: Phase::Idle,
            app: Side::Unbound,
            aux: if aux_configured {
                Side::Unbound
            } else {
                Side::Absent
            },
            failed: false,
            failed_listener: Listener::App,
        }
    }

    /// The side of a listener.
    pub fn side(&self, l: Listener) -> (s: Side)
        ensures
            s == side_of(*self, l),
    {
        match l {
            Listener::App => self.app,
            Listener::Aux => self.aux,
        }
    }

    fn set_side(&mut self, l: Listener, s: Side)
        ensures
            *final(self) == with_side(*old(self), l, s),
    {
        match l {
            Listener::App => self.app = s,
            Listener::Aux => self.aux = s,
        }
    }

    fn close_listener(self, l: Listener) -> (r: (Host, Action))
        ensures
            r == after_close(self, l),
    {
        let mut c = self;
        c.set_side(l, Side::Closed);
        if c.app != Side::Draining && c.aux != Side::Draining {
            let outcome = if c.failed {
                Outcome::ListenerFailed(c.failed_listener)
            } else {
                Outcome::Clean
            };
            (Host { phase: Phase::Stopped, ..c }, Action::Finish(outcome))
        } else {
            (c, Action::Nothing)
        }
    }

    /// The next state and the action to perform after `e`.
    pub fn step(self, e: Event) -> (r: (Host, Action))
        ensures
            r == transition(self, e),
    {
        match (self.phase, e) {
            (Phase::Idle, Event::Start) => (
                Host { phase: Phase::Binding, ..self },
                Action::Bind { aux: self.aux != Side::Absent },
            ),
            (Phase::Binding, Event::Bound(l)) => {
                if self.side(l) == Side::Unbound {
                    let mut b = self;
                    b.set_side(l, Side::Bound);
                    if is_ready(b.app) && is_ready(b.aux) {
                        (
                            Host {
                                phase: Phase::Running,
                                app: start(b.app),
                                aux: start(b.aux),
                                ..b
                            },
                            Action::Serve,
                        )
                    } else {
                        (b, Action::Nothing)
                    }
                } else {
                    (self, Action::Nothing)
                }
            },
            (Phase::Binding, Event::BindFailed(l)) => {
                if self.side(l) == Side::Unbound {
                    (
                        Host {
                            phase: Phase::Errored,
                            app: close(self.app),
                            aux: close(self.aux),
                            ..self
                        },
                        Action::Finish(Outcome::BindFailed(l)),
                    )
                } else {
                    (self, Action::Nothing)
                }
            },
            (Phase::Idle, Event::SignalFailed) | (Phase::Binding, Event::SignalFailed) => (
                Host {
                    phase: Phase::Errored,
                    app: close(self.app),
                    aux: close(self.aux),
                    ..self
                },
                Action::Finish(Outcome::SignalFailed),
            ),
            (Phase::Draining, Event::DrainTimeout) => (
                Host {
                    phase: Phase::Stopped,
                    app: close(self.app),
                    aux: close(self.aux),
                    ..self
                },
                Action::Finish(Outcome::DrainTimedOut),
            ),
            (Phase::Binding, Event::Interrupt) => (
                Host {
                    phase: Phase::Stopped,
                    app: close(self.app),
                    aux: close(self.aux),
                    ..self
                },
                Action::Finish(Outcome::Clean),
            ),
            (Phase::Running, Event::Interrupt) => (
                Host {
                    phase: Phase::Draining,
                    app: stop(self.app),
                    aux: stop(self.aux),
                    ..self
                },
                Action::StopAccepting,
            ),
            (Phase::Running, Event::ListenerFailed(l)) => {
                if self.side(l) == Side::Accepting {
                    let mut f = Host {
                        app: stop(self.app),
                        aux: stop(self.aux),
                        failed: true,
                        failed_listener: l,
                        ..self
                    };
                    f.set_side(l, Side::Closed);
                    if f.app != Side::Draining && f.aux != Side::Draining {
                        (
                            Host { phase: Phase::Stopped, ..f },
                            Action::Finish(Outcome::ListenerFailed(l)),
                        )
                    } else {
                        (Host { phase: Phase::Draining, ..f }, Action::StopAccepting)
                    }
                } else {
                    (self, Action::Nothing)
                }
            },
            (Phase::Draining, Event::Drained(l)) => {
                if self.side(l) == Side::Draining {
                    self.close_listener(l)
                } else {
                    (self, Action::Nothing)
                }
            },
            (Phase::Draining, Event::ListenerFailed(l)) => {
                if self.side(l) == Side::Draining {
                    if self.failed {
                        self.close_listener(l)
                    } else {
                        Host { failed: true, failed_listener: l, ..self }.close_listener(l)
                    }
                } else {
                    (self, Action::Nothing)
                }
            },
            _ => (self, Action::Nothing),
        }
    }
}

/// Every transition keeps the host in one of its states; a host ends
/// (`Finish`) only once each listener is closed, and is then stopped or errored.
pub proof fn lemma_transition_wf(h: Host, e: Event)
    requires
        host_wf(h),
    ensures
        host_wf(transition(h, e).0),
        transition(h, e).1 is Finish ==> (transition(h, e).0.phase == Phase::Stopped
            || transition(h, e).0.phase == Phase::Errored),
{
}

/// Without a secondary address the auxiliary listener stays absent through
/// every transition, and no transition asks to bind it.
pub proof fn lemma_no_aux_listener(h: Host, e: Event)
    requires
        host_wf(h),
        h.aux == Side::Absent,
    ensures
        transition(h, e).0.aux == Side::Absent,
        transition(h, e).1 != (Action::Bind { aux: true }),
{
}

/// The interrupt, while serving, stops both listeners from accepting and
/// lets every request in flight finish: each open listener drains.
pub proof fn lemma_interrupt_drains(h: Host)
    requires
        host_wf(h),
        h.phase == Phase::Running,
    ensures
        transition(h, Event::Interrupt).0.phase == Phase::Draining,
        transition(h, Event::Interrupt).0.app == Side::Draining,
        h.aux == Side::Accepting ==> transition(h, Event::Interrupt).0.aux == Side::Draining,
        transition(h, Event::Interrupt).1 == Action::StopAccepting,
{
}

/// Once the host stopped accepting it never accepts again: a second
/// interrupt changes nothing, and no event brings a listener back.
pub proof fn lemma_no_accept_after_stop(h: Host, e: Event)
    requires
        host_wf(h),
        h.phase == Phase::Draining || h.phase == Phase::Stopped || h.phase == Phase::Errored,
    ensures
        transition(h, e).0.phase == Phase::Draining || transition(h, e).0.phase
            == Phase::Stopped || transition(h, e).0.phase == Phase::Errored,
        transition(h, e).0.app != Side::Accepting,
        transition(h, e).0.aux != Side::Accepting,
        transition(h, Event::Interrupt) == (h, Action::Nothing),
{
}

/// After the interrupt, with no listener failure, the host ends cleanly, and
/// only when the last draining listener has finished.
pub proof fn lemma_clean_finish(h: Host, e: Event)
    requires
        host_wf(h),
        h.phase == Phase::Draining,
        !h.failed,
        e is Drained,
    ensures
        transition(h, e).1 is Finish ==> transition(h, e).1 == Action::Finish(Outcome::Clean),
        transition(h, e).1 is Finish <==> (side_of(h, e->Drained_0) == Side::Draining && ({
            let c = with_side(h, e->Drained_0, Side::Closed);
            c.app != Side::Draining && c.aux != Side::Draining
        })),
{
}

/// Failing to register the interrupt handler before serving is fatal: the
/// host ends in error and no listener ever accepts.
pub proof fn lemma_signal_failure_fatal(h: Host)
    requires
        host_wf(h),
        h.phase == Phase::Idle || h.phase == Phase::Binding,
    ensures
        transition(h, Event::SignalFailed).0.phase == Phase::Errored,
        transition(h, Event::SignalFailed).0.app == Side::Closed,
        transition(h, Event::SignalFailed).0.aux != Side::Accepting,
        transition(h, Event::SignalFailed).1 == Action::Finish(Outcome::SignalFailed),
{
}

/// When the grace period runs out while draining, the host stops at once
/// and closes every listener.
pub proof fn lemma_drain_timeout_stops(h: Host)
    requires
        host_wf(h),
        h.phase == Phase::Draining,
    ensures
        transition(h, Event::DrainTimeout).0.phase == Phase::Stopped,
        transition(h, Event::DrainTimeout).0.app == Side::Closed,
        transition(h, Event::DrainTimeout).0.aux == Side::Closed || transition(
            h,
            Event::DrainTimeout,
        ).0.aux == Side::Absent,
        transition(h, Event::DrainTimeout).1 == Action::Finish(Outcome::DrainTimedOut),
{
}

} // verus!
