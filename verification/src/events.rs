use vstd::prelude::*;

verus! {

/// The priority level an engine event is sent with.
///
/// The variants are declared in ascending order of level, so the
/// discriminants are `Low = 0`, `Medium = 1`, `High = 2`, and the derived
/// order is `Low < Medium < High`.  The engine's queue dispatches the lowest
/// level first: every `Low` event waiting in a round before every `Medium`
/// one, and every `Medium` one before every `High` one.
#[derive(Debug, Clone, Copy, PartialEq, Eq, PartialOrd, Ord, Structural)]
pub enum Priority {
    Low,
    Medium,
    High,
}

impl Priority {
    /// The numeric level of a priority: `Low = 0`, `Medium = 1`, `High = 2`.
    pub open spec fn spec_level(self) -> nat {
        match self {
            Priority::Low => 0,
            Priority::Medium => 1,
            Priority::High => 2,
        }
    }

    /// The numeric level of this priority.
    pub fn level(&self) -> (r: u8)
        ensures
            r == self.spec_level(),
    {
        match self {
            Priority::Low => 0,
            Priority::Medium => 1,
            Priority::High => 2,
        }
    }
}

/// What an engine event asks of the world.
///
/// `V` is the vector type of the space the engine simulates and `F` its
/// scalar type.
#[derive(Debug, Clone, Copy)]
pub enum Event<V, F> {
    /// Create a body at `position` with the given `radius` and `mass`.
    ObjectCreation { position: V, radius: F, mass: F },
    /// Add `velocity` to the velocity of the body `object_id`.
    ApplyForce { object_id: usize, velocity: V },
}

/// An event together with its priority; an event that expects an answer
/// also carries the channel end `R` on which the answer is sent.
#[derive(Debug)]
pub enum EngineEvent<V, F, R> {
    Simple { event: Event<V, F>, priority: Priority },
    WithResponse { event: Event<V, F>, priority: Priority, response_tx: R },
}

/// An event paired with the channel end on which its answer arrives.
pub struct EventWithResponse<V, F, R> {
    event: Event<V, F>,
    response: R,
}

/// The answer the engine gives to an event.
#[derive(Debug, Clone, Copy, PartialEq, Eq, Structural)]
pub enum EventResult {
    /// A body was created and has this id.
    ObjectCreated { id: usize },
    Nothing,
}

impl EventResult {
    /// The object the player has selected once this answer arrives, when
    /// `selected` was selected before: a newly created body becomes selected
    /// (its id converted to `i32`, wrapping as `as` does); `Nothing` leaves
    /// the selection as it was.
    pub fn selected_object(&self, selected: i32) -> (r: i32)
        ensures
            r == match *self {
                EventResult::ObjectCreated { id } => id as i32,
                EventResult::Nothing => selected,
            },
    {
        match self {
            EventResult::ObjectCreated { id } => *id as i32,
            EventResult::Nothing => selected,
        }
    }
}

/// The level of an engine event's priority.
pub open spec fn event_level<V, F, R>(e: EngineEvent<V, F, R>) -> nat {
    e.spec_priority().spec_level()
}

impl<V, F, R> EngineEvent<V, F, R> {
    pub open spec fn spec_priority(self) -> Priority {
        match self {
            EngineEvent::Simple { priority, .. } => priority,
            EngineEvent::WithResponse { priority, .. } => priority,
        }
    }

    pub open spec fn spec_event(self) -> Event<V, F> {
        match self {
            EngineEvent::Simple { event, .. } => event,
            EngineEvent::WithResponse { event, .. } => event,
        }
    }
}

impl<V: Copy, F: Copy, R> EngineEvent<V, F, R> {
    /// The priority the event was sent with.
    pub fn priority(&self) -> (r: Priority)
        ensures
            r == self.spec_priority(),
    {
        match self {
            EngineEvent::Simple { priority, .. } => *priority,
            EngineEvent::WithResponse { priority, .. } => *priority,
        }
    }

    /// A copy of the event itself.
    pub fn event(&self) -> (r: Event<V, F>)
        ensures
            r == self.spec_event(),
            *self matches EngineEvent::Simple { event, .. } ==> r == event,
            *self matches EngineEvent::WithResponse { event, .. } ==> r == event,
    {
        match self {
            EngineEvent::Simple { event, .. } => *event,
            EngineEvent::WithResponse { event, .. } => *event,
        }
    }

    /// Whether `self` is dispatched strictly before `other` when both wait in
    /// the engine's queue: the engine hands out the events of the lowest
    /// priority level first.
    pub fn precedes(&self, other: &Self) -> (r: bool)
        ensures
            r == (event_level(*self) < event_level(*other)),
    {
        self.priority().level() < other.priority().level()
    }

    /// Whether the two events wait in the queue with the same priority.
    pub fn same_priority(&self, other: &Self) -> (r: bool)
        ensures
            r == (self.spec_priority() == other.spec_priority()),
    {
        self.priority() == other.priority()
    }
}

/// The event that asks for a new body; it is sent with `High` priority and
/// carries `sender_event_result`, on which the id of the new body is answered.
pub fn object_creation<V: Copy, F: Copy, R>(
    pos: V,
    radius: F,
    mass: F,
    sender_event_result: R,
) -> (r: EngineEvent<V, F, R>)
    ensures
        r == (EngineEvent::WithResponse {
            event: Event::<V, F>::ObjectCreation { position: pos, radius, mass },
            priority: Priority::High,
            response_tx: sender_event_result,
        }),
{
    EngineEvent::WithResponse {
        event: Event::ObjectCreation { position: pos, radius: radius, mass: mass },
        priority: Priority::High,
        response_tx: sender_event_result,
    }
}

/// The event that adds `velocity` to the body `target_id`; it is sent with
/// `Medium` priority and expects no answer.
pub fn apply_force_event_creation<V: Copy, F: Copy, R>(target_id: usize, velocity: V) -> (r:
    EngineEvent<V, F, R>)
    ensures
        r == (EngineEvent::<V, F, R>::Simple {
            event: Event::<V, F>::ApplyForce { object_id: target_id, velocity },
            priority: Priority::Medium,
        }),
{
    EngineEvent::Simple {
        event: Event::ApplyForce { object_id: target_id, velocity: velocity },
        priority: Priority::Medium,
    }
}

} // verus!

verus! {

/// Law: an event made by `apply_force_event_creation` is dispatched before
/// an event made by `object_creation` when both wait in the queue, since its
/// priority level is lower.
pub proof fn forces_precede_creations<V, F, R>(
    target_id: usize,
    velocity: V,
    pos: V,
    radius: F,
    mass: F,
    sender_event_result: R,
)
    ensures
        event_level(
            EngineEvent::<V, F, R>::Simple {
                event: Event::<V, F>::ApplyForce { object_id: target_id, velocity },
                priority: Priority::Medium,
            },
        ) < event_level(
            EngineEvent::WithResponse {
                event: Event::<V, F>::ObjectCreation { position: pos, radius, mass },
                priority: Priority::High,
                response_tx: sender_event_result,
            },
        ),
{
}

} // verus!

verus! {

/// Law: the event an engine event carries is the one it was built with, for
/// both kinds of engine event.
pub proof fn engine_event_carries_its_event<V, F, R>(e: EngineEvent<V, F, R>)
    ensures
        Priority::Low.spec_level() == 0 && Priority::Medium.spec_level() == 1
            && Priority::High.spec_level() == 2,
        event_level(e) == e.spec_priority().spec_level(),
        e matches EngineEvent::Simple { event, priority } ==> e.spec_event() == event
            && e.spec_priority() == priority,
        e matches EngineEvent::WithResponse { event, priority, .. } ==> e.spec_event() == event
            && e.spec_priority() == priority,
{
}

/// Law: the events the two constructors build read back as what they were
/// built from: `object_creation(pos, radius, mass, tx)` carries the creation
/// at `pos` with that radius and that mass, with `High` priority;
/// `apply_force_event_creation(target_id, velocity)` carries the force of
/// `velocity` on `target_id`, with `Medium` priority.
pub proof fn built_events_read_back<V, F, R>(
    pos: V,
    radius: F,
    mass: F,
    tx: R,
    target_id: usize,
    velocity: V,
)
    ensures
        (EngineEvent::WithResponse {
            event: Event::<V, F>::ObjectCreation { position: pos, radius, mass },
            priority: Priority::High,
            response_tx: tx,
        }).spec_event() matches Event::ObjectCreation { position: p, radius: r, mass: m } && p
            == pos && r == radius && m == mass,
        (EngineEvent::WithResponse {
            event: Event::<V, F>::ObjectCreation { position: pos, radius, mass },
            priority: Priority::High,
            response_tx: tx,
        }).spec_priority() == Priority::High,
        (EngineEvent::<V, F, R>::Simple {
            event: Event::<V, F>::ApplyForce { object_id: target_id, velocity },
            priority: Priority::Medium,
        }).spec_event() matches Event::ApplyForce { object_id: i, velocity: v } && i == target_id
            && v == velocity,
        (EngineEvent::<V, F, R>::Simple {
            event: Event::<V, F>::ApplyForce { object_id: target_id, velocity },
            priority: Priority::Medium,
        }).spec_priority() == Priority::Medium,
{
}

} // verus!
