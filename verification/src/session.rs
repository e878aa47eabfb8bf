//! The per-seat input-method session: an activation flag driven by
//! `Activate`/`Deactivate` events and a commit serial advanced by `Done`
//! events.

use vstd::prelude::*;

verus! {

/// An event delivered to a bound input-method session object.  `Other` stands
/// for the session-metadata events the core does not act on.
#[derive(Clone, Copy, PartialEq, Eq, Structural, Debug)]
pub enum SessionEvent {
    Activate,
    Deactivate,
    Done,
    Other,
}

/// Mathematical model of a bound session.
pub ghost struct SessionModel {
    pub active: bool,
    pub serial: nat,
}

/// The session state a freshly created session object starts in.
pub open spec fn session_init() -> SessionModel {
    SessionModel { active: false, serial: 0 }
}

/// How one event changes the activation flag: only `Activate` and
/// `Deactivate` touch it.
pub open spec fn step_active(active: bool, ev: SessionEvent) -> bool {
    match ev {
        SessionEvent::Activate => true,
        SessionEvent::Deactivate => false,
        SessionEvent::Done => active,
        SessionEvent::Other => active,
    }
}

/// How one event changes the commit serial: only `Done` advances it.
pub open spec fn step_serial(serial: nat, ev: SessionEvent) -> nat {
    if ev is Done {
        serial + 1
    } else {
        serial
    }
}

/// One transition of the session state machine.
pub open spec fn session_step(s: SessionModel, ev: SessionEvent) -> SessionModel {
    SessionModel { active: step_active(s.active, ev), serial: step_serial(s.serial, ev) }
}

/// The state after a whole sequence of events.
pub open spec fn session_run(s: SessionModel, evs: Seq<SessionEvent>) -> SessionModel
    decreases evs.len(),
{
    if evs.len() == 0 {
        s
    } else {
        session_run(session_step(s, evs[0]), evs.drop_first())
    }
}

/// How many `Done` events a sequence holds.
pub open spec fn count_done(evs: Seq<SessionEvent>) -> nat
    decreases evs.len(),
{
    if evs.len() == 0 {
        0
    } else {
        (if evs[0] is Done {
            1nat
        } else {
            0nat
        }) + count_done(evs.drop_first())
    }
}

/// The activation history of a run: element `i` is the flag's value after the
/// first `i + 1` events.
pub open spec fn actives(active0: bool, evs: Seq<SessionEvent>) -> Seq<bool>
    decreases evs.len(),
{
    if evs.len() == 0 {
        Seq::empty()
    } else {
        let a1 = step_active(active0, evs[0]);
        seq![a1] + actives(a1, evs.drop_first())
    }
}

/// The bound session object's state, as the backend tracks it.
pub struct InputMethodSession {
    active: bool,
    serial: u32,
}

impl View for InputMethodSession {
    type V = SessionModel;

    closed spec fn view(&self) -> SessionModel {
        SessionModel { active: self.active, serial: self.serial as nat }
    }
}

impl InputMethodSession {
    /// A newly bound session: inactive, serial zero.
    pub fn new() -> (s: Self)
        ensures
            s@ == session_init(),
    {
        InputMethodSession { active: false, serial: 0 }
    }

    /// Pure query of the activation flag.
    pub fn is_active(&self) -> (r: bool)
        ensures
            r == self@.active,
    {
        self.active
    }

    /// The serial the next commit must carry.
    pub fn serial(&self) -> (r: u32)
        ensures
            r as nat == self@.serial,
    {
        self.serial
    }

    /// Process one protocol event, following the transition table.
    pub fn handle_event(&mut self, ev: SessionEvent)
        requires
            ev is Done ==> old(self)@.serial < u32::MAX,
        ensures
            final(self)@ == session_step(old(self)@, ev),
    {
        match ev {
            SessionEvent::Activate => {
                self.active = true;
            },
            SessionEvent::Deactivate => {
                self.active = false;
            },
            SessionEvent::Done => {
                self.serial = self.serial + 1;
            },
            SessionEvent::Other => {},
        }
    }
}

/// The serial after a run is the serial before it plus the number of `Done`
/// events, so it never decreases and moves only on `Done`.
pub proof fn lemma_serial_counts_done(s: SessionModel, evs: Seq<SessionEvent>)
    ensures
        session_run(s, evs).serial == s.serial + count_done(evs),
        session_run(s, evs).serial >= s.serial,
    decreases evs.len(),
{
    if evs.len() > 0 {
        lemma_serial_counts_done(session_step(s, evs[0]), evs.drop_first());
    }
}

/// The history has one sample per event, and its last sample is the flag the
/// run ends with.
pub proof fn lemma_actives_track_run(s: SessionModel, evs: Seq<SessionEvent>)
    ensures
        actives(s.active, evs).len() == evs.len(),
        evs.len() > 0 ==> actives(s.active, evs).last() == session_run(s, evs).active,
    decreases evs.len(),
{
    if evs.len() > 0 {
        let s1 = session_step(s, evs[0]);
        lemma_actives_track_run(s1, evs.drop_first());
        if evs.len() == 1 {
            assert(session_run(s1, evs.drop_first()) == s1);
        } else {
            assert(actives(s.active, evs).last() == actives(s1.active, evs.drop_first()).last());
        }
    }
}

/// The activation flag changes only through `Activate` and `Deactivate`: a
/// run without them leaves it alone.
pub proof fn lemma_active_only_by_activation(s: SessionModel, evs: Seq<SessionEvent>)
    requires
        forall|i: int| 0 <= i < evs.len() ==> !(#[trigger] evs[i] is Activate) && !(evs[i] is Deactivate),
    ensures
        session_run(s, evs).active == s.active,
    decreases evs.len(),
{
    if evs.len() > 0 {
        let rest = evs.drop_first();
        assert forall|i: int| 0 <= i < rest.len() implies !(#[trigger] rest[i] is Activate)
            && !(rest[i] is Deactivate) by {
            assert(rest[i] == evs[i + 1]);
        }
        lemma_active_only_by_activation(session_step(s, evs[0]), rest);
    }
}

} // verus!
