//! Admission accounting for connections handled at the same time.
//!
//! A connection is handled only once it holds a slot; the count of held
//! slots never exceeds the limit, and each finished connection gives its
//! slot back, whether its handling succeeded or failed.
use vstd::prelude::*;

verus! {

/// The state of the counter: slots held and the limit on them.
pub struct AdmissionView {
    pub active: nat,
    pub limit: nat,
}

/// Something that happens to the counter.
pub enum Event {
    /// A connection asks for a slot; it gets one only while one is free.
    Arrive,
    /// A connection that holds a slot finishes, successfully or not.
    Finish,
}

/// The counter after `e`.
pub open spec fn step(v: AdmissionView, e: Event) -> AdmissionView {
    match e {
        Event::Arrive => if v.active < v.limit {
            AdmissionView { active: v.active + 1, limit: v.limit }
        } else {
            v
        },
        Event::Finish => if v.active > 0 {
            AdmissionView { active: (v.active - 1) as nat, limit: v.limit }
        } else {
            v
        },
    }
}

/// The counter after `events`, starting from no slot held.
pub open spec fn run(limit: nat, events: Seq<Event>) -> AdmissionView
    decreases events.len(),
{
    if events.len() == 0 {
        AdmissionView { active: 0, limit }
    } else {
        step(run(limit, events.drop_last()), events.last())
    }
}

/// How many arrivals among `events` were given a slot.
pub open spec fn granted(limit: nat, events: Seq<Event>) -> nat
    decreases events.len(),
{
    if events.len() == 0 {
        0
    } else {
        let before = run(limit, events.drop_last());
        granted(limit, events.drop_last()) + if events.last() == Event::Arrive && before.active
            < limit {
            1nat
        } else {
            0nat
        }
    }
}

/// How many of `events` are finishes.
pub open spec fn finished(events: Seq<Event>) -> nat
    decreases events.len(),
{
    if events.len() == 0 {
        0
    } else {
        finished(events.drop_last()) + if events.last() == Event::Finish {
            1nat
        } else {
            0nat
        }
    }
}

/// Every finish in `events` comes from a connection that holds a slot.
pub open spec fn finishes_held(limit: nat, events: Seq<Event>) -> bool
    decreases events.len(),
{
    events.len() == 0 || (finishes_held(limit, events.drop_last()) && (events.last()
        == Event::Finish ==> run(limit, events.drop_last()).active > 0))
}

/// The admission counter.
pub struct Admission {
    active: usize,
    limit: usize,
}

/// The slot held by one admitted connection; giving it back is
/// `Admission::release`, which takes the guard by value, so a guard gives
/// back one slot at most.
pub struct ThreadGuard {
    _held: (),
}

impl View for Admission {
    type V = AdmissionView;

    closed spec fn view(&self) -> AdmissionView {
        AdmissionView { active: self.active as nat, limit: self.limit as nat }
    }
}

impl Admission {
    #[verifier::type_invariant]
    spec fn within_limit(&self) -> bool {
        self.active <= self.limit
    }

    /// A counter with no slot held and room for `limit` connections.
    pub fn new(limit: usize) -> (r: Admission)
        ensures
            r@ == (AdmissionView { active: 0, limit: limit as nat }),
    {
        Admission { active: 0, limit }
    }

    /// Number of slots held.
    pub fn active(&self) -> (r: usize)
        ensures
            r == self@.active,
            self@.active <= self@.limit,
    {
        proof {
            use_type_invariant(self);
        }
        self.active
    }

    /// Largest number of slots held at once.
    pub fn limit(&self) -> (r: usize)
        ensures
            r == self@.limit,
    {
        self.limit
    }

    /// Returns whether a slot is free.
    pub fn has_room(&self) -> (r: bool)
        ensures
            r == (self@.active < self@.limit),
    {
        self.active < self.limit
    }

    /// Takes a slot if one is free.
    pub fn try_admit(&mut self) -> (r: Option<ThreadGuard>)
        ensures
            final(self)@ == step(old(self)@, Event::Arrive),
            r is Some <==> old(self)@.active < old(self)@.limit,
    {
        if self.has_room() {
            Some(ThreadGuard::new(self))
        } else {
            None
        }
    }

    /// Gives back the slot of a finished connection.
    pub fn release(&mut self, _guard: ThreadGuard)
        requires
            old(self)@.active > 0,
        ensures
            final(self)@ == step(old(self)@, Event::Finish),
    {
        proof {
            use_type_invariant(&*self);
        }
        self.active = self.active - 1;
    }
}

impl ThreadGuard {
    /// Takes a free slot of `counter`.
    pub fn new(counter: &mut Admission) -> (r: ThreadGuard)
        requires
            old(counter)@.active < old(counter)@.limit,
        ensures
            final(counter)@ == (AdmissionView {
                active: old(counter)@.active + 1,
                limit: old(counter)@.limit,
            }),
    {
        counter.active = counter.active + 1;
        ThreadGuard { _held: () }
    }
}

/// The number of slots held never exceeds the limit, whatever connections
/// arrive and finish, and in whatever order.
pub proof fn lemma_never_over_limit(limit: nat, events: Seq<Event>)
    ensures
        run(limit, events).active <= limit,
        run(limit, events).limit == limit,
    decreases events.len(),
{
    if events.len() > 0 {
        lemma_never_over_limit(limit, events.drop_last());
    }
}

/// No slot leaks: while every finish comes from a connection that holds a
/// slot, the slots held are the arrivals granted less the finishes, so the
/// count is back to zero once every admitted connection has finished.
pub proof fn lemma_no_leaked_slots(limit: nat, events: Seq<Event>)
    requires
        finishes_held(limit, events),
    ensures
        run(limit, events).active + finished(events) == granted(limit, events),
        granted(limit, events) == finished(events) ==> run(limit, events).active == 0,
    decreases events.len(),
{
    if events.len() > 0 {
        lemma_no_leaked_slots(limit, events.drop_last());
        lemma_never_over_limit(limit, events.drop_last());
    }
}

} // verus!
