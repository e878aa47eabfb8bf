//! The backend reactor's decisions: what one iteration does in response to a
//! keystroke from the UI, a readable socket, or channel shutdown, and which
//! activation edges are forwarded to the UI thread.
//!
//! The caller owns the loop: it waits for whichever wakeup comes first,
//! hands it to `step`, performs the requests and bind actions the step
//! decided on, sends the notification if one was emitted, and flushes the
//! socket once per iteration.

use vstd::prelude::*;
use crate::client::{
    BindAction, ClientModel, ProtocolClient, ProtocolEvent, client_is_active, client_run,
    events_serial_ok, run_actions,
};
use crate::injector::{Request, RequestModel, inject, injection_plan, request_views};
use crate::session::{SessionEvent, actives};

verus! {

/// What woke the reactor for this iteration.
pub enum WakeEvent {
    /// A keystroke token arrived on the inbound channel.
    Keystroke(String),
    /// The socket became readable; these are the events the read yielded.
    /// An empty batch is a drained socket and changes nothing.
    Readable(Vec<ProtocolEvent>),
    /// All senders of the inbound channel are gone: normal shutdown.
    InputClosed,
}

/// The outside work one iteration decided on.
pub struct IterationPlan {
    /// Requests to perform against the bound session object, in order.
    pub requests: Vec<Request>,
    /// Bind requests to perform against the registry and manager, in order.
    pub binds: Vec<BindAction>,
    /// The activation edge to send to the UI thread, if the flag changed.
    pub notify: Option<bool>,
    /// Whether the loop should exit cleanly.
    pub exit: bool,
}

/// Mathematical model of the bridge: the client state and the last
/// activation value sent to the UI.
pub ghost struct BridgeModel {
    pub client: ClientModel,
    pub last_sent: bool,
}

/// The edge filter: a value is emitted exactly when it differs from the last
/// one sent.
pub open spec fn edge_emit(last_sent: bool, now: bool) -> Option<bool> {
    if now != last_sent {
        Some(now)
    } else {
        None
    }
}

/// Everything the filter emits over a sampled history, threading the
/// last-sent value through: the filter's memory moves only when it emits.
pub open spec fn emissions(last_sent: bool, samples: Seq<bool>) -> Seq<bool>
    decreases samples.len(),
{
    if samples.len() == 0 {
        Seq::empty()
    } else {
        match edge_emit(last_sent, samples[0]) {
            Some(b) => seq![b] + emissions(samples[0], samples.drop_first()),
            None => emissions(last_sent, samples.drop_first()),
        }
    }
}

/// The value changes of a history: each element that differs from its
/// predecessor, the predecessor of the first being `prev`.
pub open spec fn change_points(prev: bool, hist: Seq<bool>) -> Seq<bool>
    decreases hist.len(),
{
    if hist.len() == 0 {
        Seq::empty()
    } else if hist[0] != prev {
        seq![hist[0]] + change_points(hist[0], hist.drop_first())
    } else {
        change_points(hist[0], hist.drop_first())
    }
}

/// The requests a keystroke turns into, given the client state.
pub open spec fn keystroke_requests(c: ClientModel, token: Seq<char>) -> Seq<RequestModel> {
    match c.session {
        Some(s) => injection_plan(token, s.serial),
        None => Seq::empty(),
    }
}

/// The bridge: the protocol client plus the edge filter's memory.
pub struct EventBridge {
    client: ProtocolClient,
    last_sent: bool,
}

impl View for EventBridge {
    type V = BridgeModel;

    closed spec fn view(&self) -> BridgeModel {
        BridgeModel { client: self.client@, last_sent: self.last_sent }
    }
}

impl EventBridge {
    /// Wrap a client; the filter's memory starts at the current activation
    /// value, so the first emission is a genuine change.
    pub fn new(client: ProtocolClient) -> (b: Self)
        ensures
            b@.client == client@,
            b@.last_sent == client_is_active(client@),
    {
        let last_sent = client.is_active();
        EventBridge { client, last_sent }
    }

    /// Read access to the wrapped client, for callers that must test a
    /// batch against the client's state before handing it to `step`.
    pub fn client(&self) -> (c: &ProtocolClient)
        ensures
            c@ == self@.client,
    {
        &self.client
    }

    /// Pure query of the client's activation state.
    pub fn is_active(&self) -> (r: bool)
        ensures
            r == client_is_active(self@.client),
    {
        self.client.is_active()
    }

    /// Run the edge filter against the current activation value: emit it
    /// exactly when it differs from the last value sent, and remember it.
    pub fn filter_edge(&mut self, now: bool) -> (notify: Option<bool>)
        ensures
            notify == edge_emit(old(self)@.last_sent, now),
            final(self)@.last_sent == now,
            final(self)@.client == old(self)@.client,
    {
        if now != self.last_sent {
            self.last_sent = now;
            Some(now)
        } else {
            None
        }
    }

    /// Decide one reactor iteration.
    ///
    /// A keystroke is translated against the current session; a readable
    /// socket has its decoded events dispatched; a closed inbound channel
    /// ends the loop.  After either working branch the activation edge is
    /// recomputed, so the UI hears of each change exactly once.
    pub fn step(&mut self, wake: WakeEvent) -> (plan: IterationPlan)
        requires
            wake matches WakeEvent::Readable(events) ==> events_serial_ok(
                old(self)@.client,
                events@,
            ),
        ensures
            wake matches WakeEvent::Keystroke(token) ==> {
                &&& final(self)@.client == old(self)@.client
                &&& request_views(plan.requests@) == keystroke_requests(old(self)@.client, token@)
                &&& plan.binds@ == Seq::<BindAction>::empty()
                &&& plan.notify == edge_emit(
                    old(self)@.last_sent,
                    client_is_active(old(self)@.client),
                )
                &&& final(self)@.last_sent == client_is_active(old(self)@.client)
                &&& !plan.exit
            },
            wake matches WakeEvent::Readable(events) ==> {
                &&& final(self)@.client == client_run(old(self)@.client, events@)
                &&& plan.requests@ == Seq::<Request>::empty()
                &&& plan.binds@ == run_actions(old(self)@.client, events@)
                &&& plan.notify == edge_emit(
                    old(self)@.last_sent,
                    client_is_active(client_run(old(self)@.client, events@)),
                )
                &&& final(self)@.last_sent == client_is_active(
                    client_run(old(self)@.client, events@),
                )
                &&& !plan.exit
            },
            wake is InputClosed ==> {
                &&& final(self)@ == old(self)@
                &&& plan.requests@ == Seq::<Request>::empty()
                &&& plan.binds@ == Seq::<BindAction>::empty()
                &&& plan.notify is None
                &&& plan.exit
            },
    {
        match wake {
            WakeEvent::Keystroke(token) => {
                let requests = inject(token, &self.client);
                proof {
                    if self@.client.session is None {
                        assert(request_views(requests@) =~= Seq::<RequestModel>::empty());
                    }
                }
                let now = self.client.is_active();
                let notify = self.filter_edge(now);
                IterationPlan { requests, binds: Vec::new(), notify, exit: false }
            },
            WakeEvent::Readable(events) => {
                let (_count, binds) = self.client.dispatch(&events);
                let now = self.client.is_active();
                let notify = self.filter_edge(now);
                IterationPlan { requests: Vec::new(), binds, notify, exit: false }
            },
            WakeEvent::InputClosed => {
                IterationPlan {
                    requests: Vec::new(),
                    binds: Vec::new(),
                    notify: None,
                    exit: true,
                }
            },
        }
    }
}

/// What the edge filter emits is exactly the sequence of value changes of
/// the history it samples.
pub proof fn lemma_emissions_are_changes(last_sent: bool, samples: Seq<bool>)
    ensures
        emissions(last_sent, samples) == change_points(last_sent, samples),
    decreases samples.len(),
{
    if samples.len() > 0 {
        if samples[0] != last_sent {
            lemma_emissions_are_changes(samples[0], samples.drop_first());
        } else {
            lemma_emissions_are_changes(last_sent, samples.drop_first());
        }
    }
}

/// No two consecutive emitted values are equal, and the first emitted value
/// differs from the filter's starting memory.
pub proof fn lemma_emissions_no_repeats(last_sent: bool, samples: Seq<bool>)
    ensures
        forall|i: int|
            0 <= i < emissions(last_sent, samples).len() - 1 ==> #[trigger] emissions(
                last_sent,
                samples,
            )[i] != emissions(last_sent, samples)[i + 1],
        emissions(last_sent, samples).len() > 0 ==> emissions(last_sent, samples)[0] != last_sent,
    decreases samples.len(),
{
    if samples.len() > 0 {
        let e = emissions(last_sent, samples);
        if samples[0] != last_sent {
            let rest = emissions(samples[0], samples.drop_first());
            lemma_emissions_no_repeats(samples[0], samples.drop_first());
            assert(e == seq![samples[0]] + rest);
            assert forall|i: int| 0 <= i < e.len() - 1 implies #[trigger] e[i] != e[i + 1] by {
                if i == 0 {
                    assert(e[0] == samples[0]);
                    assert(rest.len() > 0);
                    assert(e[1] == rest[0]);
                } else {
                    assert(e[i] == rest[i - 1]);
                    assert(e[i + 1] == rest[i]);
                }
            }
        } else {
            lemma_emissions_no_repeats(last_sent, samples.drop_first());
        }
    }
}

/// The activation-signal law.  Feed any sequence of session events to a
/// fresh session and sample the flag after each one: the edge filter,
/// starting from the same inactive state, emits exactly the value changes of
/// that history, never two equal values in a row, and its first emission, if
/// there is one, is `true`.
pub proof fn lemma_activation_signal(evs: Seq<SessionEvent>)
    ensures
        emissions(false, actives(false, evs)) == change_points(false, actives(false, evs)),
        forall|i: int|
            0 <= i < emissions(false, actives(false, evs)).len() - 1 ==> #[trigger] emissions(
                false,
                actives(false, evs),
            )[i] != emissions(false, actives(false, evs))[i + 1],
        emissions(false, actives(false, evs)).len() > 0 ==> emissions(false, actives(false, evs))[0]
            == true,
{
    lemma_emissions_are_changes(false, actives(false, evs));
    lemma_emissions_no_repeats(false, actives(false, evs));
}

} // verus!
