//! Registry binding state and event dispatch.
//!
//! The client decides which advertised globals to bind (first seat wins, the
//! input-method manager is taken as advertised), creates the session state
//! once the seat's metadata has resolved, and routes session events to the
//! session state machine.  Performing the bind requests against the real
//! registry is the caller's job; each handler returns the action it decided
//! on.

use vstd::prelude::*;
use crate::session::{
    InputMethodSession, SessionEvent, SessionModel, session_init, session_step,
};

verus! {

/// A registry advertisement: a numeric name, an interface string and a
/// version.  It is not retained beyond the binding decision.
pub struct Global {
    pub name: u32,
    pub interface: String,
    pub version: u32,
}

/// The interface string under which a seat is advertised.
pub open spec fn seat_interface() -> Seq<char> {
    "wl_seat"@
}

/// The interface string under which the input-method manager is advertised.
pub open spec fn manager_interface() -> Seq<char> {
    "zwp_input_method_manager_v2"@
}

/// Outside work a handler decided on; the caller performs it against the
/// real protocol objects.
#[derive(Clone, Copy, PartialEq, Eq, Structural, Debug)]
pub enum BindAction {
    /// Bind the seat global with this name, at this version.
    BindSeat { name: u32, version: u32 },
    /// Bind the input-method manager global with this name, at this version.
    BindManager { name: u32, version: u32 },
    /// Ask the bound manager for an input-method session on the bound seat.
    CreateSession,
}

/// One incoming protocol event, already decoded by the transport layer.
pub enum ProtocolEvent {
    /// The registry advertised a global.
    Global(Global),
    /// The bound seat's metadata resolved (its name event arrived).
    SeatName,
    /// An event for the input-method session object.
    Session(SessionEvent),
    /// Anything else; ignored.
    Other,
}

/// Mathematical model of the client's binding state.
pub ghost struct ClientModel {
    /// The name of the bound seat global, if any.
    pub seat: Option<u32>,
    /// The name of the bound manager global, if any.
    pub manager: Option<u32>,
    /// The session state, once created.
    pub session: Option<SessionModel>,
}

/// A freshly connected client: nothing bound yet.
pub open spec fn client_init() -> ClientModel {
    ClientModel { seat: None, manager: None, session: None }
}

/// Binding policy for one advertisement: the first seat advert is bound and
/// later ones are ignored (single-seat design); a manager advert is always
/// taken, a later one replacing the earlier binding; anything else is
/// ignored.
pub open spec fn global_step(c: ClientModel, g: Global) -> ClientModel {
    if g.interface@ == seat_interface() {
        if c.seat is None {
            ClientModel { seat: Some(g.name), ..c }
        } else {
            c
        }
    } else if g.interface@ == manager_interface() {
        ClientModel { manager: Some(g.name), ..c }
    } else {
        c
    }
}

/// The bind request that `global_step` calls for, if any.
pub open spec fn global_action(c: ClientModel, g: Global) -> Option<BindAction> {
    if g.interface@ == seat_interface() {
        if c.seat is None {
            Some(BindAction::BindSeat { name: g.name, version: g.version })
        } else {
            None
        }
    } else if g.interface@ == manager_interface() {
        Some(BindAction::BindManager { name: g.name, version: g.version })
    } else {
        None
    }
}

/// What resolving the seat's metadata does: if the manager is already bound
/// and no session exists yet, the session is created; otherwise the client
/// stays degraded and no session ever appears for this seat.
pub open spec fn seat_named_step(c: ClientModel) -> ClientModel {
    if c.manager is Some && c.session is None {
        ClientModel { session: Some(session_init()), ..c }
    } else {
        c
    }
}

/// The request that `seat_named_step` calls for, if any.
pub open spec fn seat_named_action(c: ClientModel) -> Option<BindAction> {
    if c.manager is Some && c.session is None {
        Some(BindAction::CreateSession)
    } else {
        None
    }
}

/// A session event reaches the session state machine only once a session
/// exists; otherwise it is dropped.
pub open spec fn session_event_step(c: ClientModel, ev: SessionEvent) -> ClientModel {
    match c.session {
        Some(s) => ClientModel { session: Some(session_step(s, ev)), ..c },
        None => c,
    }
}

/// One dispatch transition of the whole client.
pub open spec fn client_step(c: ClientModel, ev: ProtocolEvent) -> ClientModel {
    match ev {
        ProtocolEvent::Global(g) => global_step(c, g),
        ProtocolEvent::SeatName => seat_named_step(c),
        ProtocolEvent::Session(se) => session_event_step(c, se),
        ProtocolEvent::Other => c,
    }
}

/// The action one dispatch transition calls for, if any.
pub open spec fn step_action(c: ClientModel, ev: ProtocolEvent) -> Option<BindAction> {
    match ev {
        ProtocolEvent::Global(g) => global_action(c, g),
        ProtocolEvent::SeatName => seat_named_action(c),
        ProtocolEvent::Session(_) => None,
        ProtocolEvent::Other => None,
    }
}

/// The client state after a whole sequence of events.
pub open spec fn client_run(c: ClientModel, evs: Seq<ProtocolEvent>) -> ClientModel
    decreases evs.len(),
{
    if evs.len() == 0 {
        c
    } else {
        client_run(client_step(c, evs[0]), evs.drop_first())
    }
}

/// All the actions a sequence of events calls for, in dispatch order.
pub open spec fn run_actions(c: ClientModel, evs: Seq<ProtocolEvent>) -> Seq<BindAction>
    decreases evs.len(),
{
    if evs.len() == 0 {
        Seq::empty()
    } else {
        (match step_action(c, evs[0]) {
            Some(a) => seq![a],
            None => Seq::empty(),
        }) + run_actions(client_step(c, evs[0]), evs.drop_first())
    }
}

/// Whether an input session is currently active.  Without a session it is
/// permanently false.
pub open spec fn client_is_active(c: ClientModel) -> bool {
    match c.session {
        Some(s) => s.active,
        None => false,
    }
}

/// Whether one event may be dispatched without the commit serial leaving
/// `u32`: only a `Done` event at the counter's ceiling is ruled out.
pub open spec fn step_serial_ok(c: ClientModel, ev: ProtocolEvent) -> bool {
    match ev {
        ProtocolEvent::Session(se) => se is Done ==> (match c.session {
            Some(s) => s.serial < u32::MAX,
            None => true,
        }),
        _ => true,
    }
}

/// `step_serial_ok` along a whole sequence of events.
pub open spec fn events_serial_ok(c: ClientModel, evs: Seq<ProtocolEvent>) -> bool
    decreases evs.len(),
{
    evs.len() > 0 ==> step_serial_ok(c, evs[0]) && events_serial_ok(
        client_step(c, evs[0]),
        evs.drop_first(),
    )
}

/// The client's binding state.  It owns the session state exclusively; the
/// caller owns the protocol objects the recorded names refer to.
pub struct ProtocolClient {
    seat: Option<u32>,
    manager: Option<u32>,
    session: Option<InputMethodSession>,
}

impl View for ProtocolClient {
    type V = ClientModel;

    closed spec fn view(&self) -> ClientModel {
        ClientModel {
            seat: self.seat,
            manager: self.manager,
            session: match self.session {
                Some(s) => Some(s@),
                None => None,
            },
        }
    }
}

impl ProtocolClient {
    /// A client that has just connected: nothing bound.
    pub fn new() -> (c: Self)
        ensures
            c@ == client_init(),
    {
        ProtocolClient { seat: None, manager: None, session: None }
    }

    /// Decide on one registry advertisement, as `global_step` says.
    pub fn handle_global(&mut self, advert: &Global) -> (action: Option<BindAction>)
        ensures
            final(self)@ == global_step(old(self)@, *advert),
            action == global_action(old(self)@, *advert),
    {
        if advert.interface == "wl_seat".to_owned() {
            if self.seat.is_none() {
                self.seat = Some(advert.name);
                Some(BindAction::BindSeat { name: advert.name, version: advert.version })
            } else {
                None
            }
        } else if advert.interface == "zwp_input_method_manager_v2".to_owned() {
            self.manager = Some(advert.name);
            Some(BindAction::BindManager { name: advert.name, version: advert.version })
        } else {
            None
        }
    }

    /// The seat's metadata resolved: create the session if the manager is
    /// bound, as `seat_named_step` says.
    pub fn handle_seat_named(&mut self) -> (action: Option<BindAction>)
        ensures
            final(self)@ == seat_named_step(old(self)@),
            action == seat_named_action(old(self)@),
    {
        if self.manager.is_some() && self.session.is_none() {
            self.session = Some(InputMethodSession::new());
            Some(BindAction::CreateSession)
        } else {
            None
        }
    }

    /// Route one session event to the session state machine, if one exists.
    pub fn handle_session_event(&mut self, ev: SessionEvent)
        requires
            step_serial_ok(old(self)@, ProtocolEvent::Session(ev)),
        ensures
            final(self)@ == session_event_step(old(self)@, ev),
    {
        match &mut self.session {
            Some(s) => s.handle_event(ev),
            None => {},
        }
    }

    /// Dispatch one already-decoded event, as `client_step` says.
    pub fn handle_event(&mut self, ev: &ProtocolEvent) -> (action: Option<BindAction>)
        requires
            step_serial_ok(old(self)@, *ev),
        ensures
            final(self)@ == client_step(old(self)@, *ev),
            action == step_action(old(self)@, *ev),
    {
        match ev {
            ProtocolEvent::Global(g) => self.handle_global(g),
            ProtocolEvent::SeatName => self.handle_seat_named(),
            ProtocolEvent::Session(se) => {
                self.handle_session_event(*se);
                None
            },
            ProtocolEvent::Other => None,
        }
    }

    /// Pump a batch of queued events through the handlers, in order.
    /// Returns the count of events processed and the actions they called
    /// for; transport failures are the caller's to detect before decoding.
    pub fn dispatch(&mut self, events: &Vec<ProtocolEvent>) -> (r: (usize, Vec<BindAction>))
        requires
            events_serial_ok(old(self)@, events@),
        ensures
            final(self)@ == client_run(old(self)@, events@),
            r.0 == events@.len(),
            r.1@ == run_actions(old(self)@, events@),
    {
        let ghost c0 = self@;
        let mut actions: Vec<BindAction> = Vec::new();
        let mut i: usize = 0;
        while i < events.len()
            invariant
                i <= events@.len(),
                self@ == client_run(c0, events@.take(i as int)),
                actions@ == run_actions(c0, events@.take(i as int)),
                events_serial_ok(c0, events@),
            decreases events@.len() - i,
        {
            proof {
                lemma_events_serial_ok_prefix(c0, events@, i as int);
                lemma_run_snoc(c0, events@, i as int);
            }
            let action = self.handle_event(&events[i]);
            match action {
                Some(a) => actions.push(a),
                None => {},
            }
            i = i + 1;
        }
        proof {
            assert(events@.take(events@.len() as int) =~= events@);
        }
        (i, actions)
    }

    /// Pure query: is an input session active right now?
    pub fn is_active(&self) -> (r: bool)
        ensures
            r == client_is_active(self@),
    {
        match &self.session {
            Some(s) => s.is_active(),
            None => false,
        }
    }

    /// Whether a session has been created.
    pub fn has_session(&self) -> (r: bool)
        ensures
            r == (self@.session is Some),
    {
        self.session.is_some()
    }

    /// The commit serial the session last observed.
    pub fn serial(&self) -> (r: u32)
        requires
            self@.session is Some,
        ensures
            r as nat == self@.session->Some_0.serial,
    {
        match &self.session {
            Some(s) => s.serial(),
            None => 0,
        }
    }
}

/// Whether an event is one of the two that may move the activation flag.
pub open spec fn is_activation_event(ev: ProtocolEvent) -> bool {
    match ev {
        ProtocolEvent::Session(se) => se is Activate || se is Deactivate,
        _ => false,
    }
}

/// No code path but an `Activate` or `Deactivate` event moves the
/// activation flag: binding, session creation, serial advances and unknown
/// events all leave `client_is_active` alone.
pub proof fn lemma_active_only_by_activation_events(c: ClientModel, evs: Seq<ProtocolEvent>)
    requires
        forall|i: int| 0 <= i < evs.len() ==> !is_activation_event(#[trigger] evs[i]),
    ensures
        client_is_active(client_run(c, evs)) == client_is_active(c),
    decreases evs.len(),
{
    if evs.len() > 0 {
        assert(!is_activation_event(evs[0]));
        assert(client_is_active(client_step(c, evs[0])) == client_is_active(c));
        let rest = evs.drop_first();
        assert forall|i: int| 0 <= i < rest.len() implies !is_activation_event(
            #[trigger] rest[i],
        ) by {
            assert(rest[i] == evs[i + 1]);
        }
        lemma_active_only_by_activation_events(client_step(c, evs[0]), rest);
    }
}

/// The two interfaces the client binds are distinct strings, so one
/// advertisement never takes both branches of the binding policy.
pub proof fn lemma_interfaces_distinct()
    ensures
        seat_interface() != manager_interface(),
{
    reveal_strlit("wl_seat");
    reveal_strlit("zwp_input_method_manager_v2");
    assert(seat_interface().len() == 7);
    assert(manager_interface().len() == 27);
}

/// Binding is idempotent per seat: the first seat advertisement binds the
/// seat, and delivering the same advertisement again changes nothing and
/// asks for no second bind.
pub proof fn lemma_seat_binding_idempotent(c: ClientModel, g: Global)
    requires
        g.interface@ == seat_interface(),
    ensures
        global_step(global_step(c, g), g) == global_step(c, g),
        global_action(global_step(c, g), g) is None,
        c.seat is None ==> global_step(c, g).seat == Some(g.name) && global_action(c, g) == Some(
            BindAction::BindSeat { name: g.name, version: g.version },
        ),
{
}

/// Running a prefix one event further is one step on the prefix's result.
pub proof fn lemma_run_snoc(c: ClientModel, evs: Seq<ProtocolEvent>, i: int)
    requires
        0 <= i < evs.len(),
    ensures
        client_run(c, evs.take(i + 1)) == client_step(client_run(c, evs.take(i)), evs[i]),
        run_actions(c, evs.take(i + 1)) == run_actions(c, evs.take(i)) + (match step_action(
            client_run(c, evs.take(i)),
            evs[i],
        ) {
            Some(a) => seq![a],
            None => Seq::<BindAction>::empty(),
        }),
{
    assert(evs.take(i + 1) =~= evs.take(i).push(evs[i]));
    lemma_run_push(c, evs.take(i), evs[i]);
}

/// Fold-left unrolling at the far end, for `client_run` and `run_actions`.
proof fn lemma_run_push(c: ClientModel, evs: Seq<ProtocolEvent>, ev: ProtocolEvent)
    ensures
        client_run(c, evs.push(ev)) == client_step(client_run(c, evs), ev),
        run_actions(c, evs.push(ev)) == run_actions(c, evs) + (match step_action(
            client_run(c, evs),
            ev,
        ) {
            Some(a) => seq![a],
            None => Seq::<BindAction>::empty(),
        }),
    decreases evs.len(),
{
    let p = evs.push(ev);
    if evs.len() == 0 {
        assert(p[0] == ev);
        assert(p.drop_first() =~= Seq::<ProtocolEvent>::empty());
        assert(client_run(client_step(c, ev), Seq::<ProtocolEvent>::empty()) == client_step(
            c,
            ev,
        ));
        assert(run_actions(client_step(c, ev), Seq::<ProtocolEvent>::empty())
            == Seq::<BindAction>::empty());
        assert(client_run(c, evs) == c);
        assert(run_actions(c, evs) == Seq::<BindAction>::empty());
        assert(run_actions(c, p) == (match step_action(c, ev) {
            Some(a) => seq![a],
            None => Seq::<BindAction>::empty(),
        }) + Seq::<BindAction>::empty());
        assert(run_actions(c, evs) + (match step_action(client_run(c, evs), ev) {
            Some(a) => seq![a],
            None => Seq::<BindAction>::empty(),
        }) =~= run_actions(c, p));
    } else {
        assert(p[0] == evs[0]);
        assert(p.drop_first() =~= evs.drop_first().push(ev));
        lemma_run_push(client_step(c, evs[0]), evs.drop_first(), ev);
        assert(client_run(c, p) == client_run(client_step(c, evs[0]), evs.drop_first().push(ev)));
        assert(run_actions(c, p) == (match step_action(c, evs[0]) {
            Some(a) => seq![a],
            None => Seq::<BindAction>::empty(),
        }) + run_actions(client_step(c, evs[0]), evs.drop_first().push(ev)));
        assert(run_actions(c, evs) + (match step_action(client_run(c, evs), ev) {
            Some(a) => seq![a],
            None => Seq::<BindAction>::empty(),
        }) =~= run_actions(c, p));
    }
}

/// A serial-safe batch stays serial-safe along every prefix boundary.
pub proof fn lemma_events_serial_ok_prefix(c: ClientModel, evs: Seq<ProtocolEvent>, i: int)
    requires
        0 <= i < evs.len(),
        events_serial_ok(c, evs),
    ensures
        step_serial_ok(client_run(c, evs.take(i)), evs[i]),
    decreases i,
{
    if i == 0 {
        assert(evs.take(0) =~= Seq::<ProtocolEvent>::empty());
    } else {
        assert(evs.drop_first()[i - 1] == evs[i]);
        assert(evs.drop_first().take(i - 1) =~= evs.take(i).drop_first());
        lemma_events_serial_ok_prefix(client_step(c, evs[0]), evs.drop_first(), i - 1);
        assert(evs.take(i)[0] == evs[0]);
        assert(client_run(c, evs.take(i)) == client_run(
            client_step(c, evs[0]),
            evs.drop_first().take(i - 1),
        ));
    }
}

} // verus!
