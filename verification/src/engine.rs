//! How the engine answers a single event.
use vstd::prelude::*;

use crate::body::Body;
use crate::events::{EngineEvent, Event, EventResult};
use crate::world::World;

verus! {

/// Whether a world with the bodies `bodies` can take `event`: a force may
/// only be applied to a body that exists.
pub open spec fn event_applicable<V, F>(event: Event<V, F>, bodies: Seq<Body<V, F>>) -> bool {
    event matches Event::ApplyForce { object_id, .. } ==> object_id < bodies.len()
}

/// The answer to `event` in a world of `n` bodies: a creation is answered
/// with the id of the new body, which is `n`; a force with `Nothing`.
pub open spec fn event_answer<V, F>(event: Event<V, F>, n: nat) -> EventResult {
    match event {
        Event::ObjectCreation { .. } => EventResult::ObjectCreated { id: n as usize },
        Event::ApplyForce { .. } => EventResult::Nothing,
    }
}

/// Whether `after` is what `event` makes of the bodies `before`.
///
/// A creation appends a body at rest, with the event's position, radius and
/// mass, whose id is its index.  A force replaces the velocity of its body by
/// what `add_vel` returns for the old velocity and the event's velocity and
/// leaves everything else as it was.
pub open spec fn event_effect<V: Default, F: Default, G: Fn(V, V) -> V>(
    event: Event<V, F>,
    before: Seq<Body<V, F>>,
    after: Seq<Body<V, F>>,
    add_vel: G,
) -> bool {
    match event {
        Event::ObjectCreation { position, radius, mass } => {
            &&& after.len() == before.len() + 1
            &&& after.drop_last() == before
            &&& after.last().id == before.len()
            &&& after.last().position == position
            &&& after.last().radius == radius
            &&& after.last().mass == mass
            &&& after.last().at_rest_undamaged()
        },
        Event::ApplyForce { object_id, velocity } => {
            &&& after.len() == before.len()
            &&& forall|i: int| 0 <= i < before.len() && i != object_id ==> after[i] == before[i]
            &&& after[object_id as int] == (Body {
                velocity: after[object_id as int].velocity,
                ..before[object_id as int]
            })
            &&& call_ensures(add_vel, (before[object_id as int].velocity, velocity), after[object_id as int].velocity)
        },
    }
}

/// Whether `add_vel` may be called for `event` on the bodies `bodies`.
pub open spec fn event_addable<V, F, G: Fn(V, V) -> V>(
    event: Event<V, F>,
    bodies: Seq<Body<V, F>>,
    add_vel: G,
) -> bool {
    event matches Event::ApplyForce { object_id, velocity } ==> call_requires(
        add_vel,
        (bodies[object_id as int].velocity, velocity),
    )
}

/// Carries out `event` on `world` and returns the answer.
///
/// A creation adds a body at rest with the event's position, radius and mass
/// and answers `ObjectCreated` with the new body's id.  A force adds its
/// velocity to the body's velocity (through `add_vel`) and answers `Nothing`.
pub fn handle_event<V: Copy + Default, F: Copy + Default, G: Fn(V, V) -> V>(
    event: Event<V, F>,
    world: &mut World<V, F>,
    add_vel: G,
) -> (r: EventResult)
    requires
        old(world).wf(),
        event_applicable(event, old(world)@),
        event_addable(event, old(world)@, add_vel),
    ensures
        final(world).wf(),
        final(world).spec_world_dim() == old(world).spec_world_dim(),
        r == event_answer(event, old(world)@.len()),
        event_effect(event, old(world)@, final(world)@, add_vel),
{
    match event {
        Event::ObjectCreation { position, radius, mass } => {
            let id = world.create_object(position, radius, mass);
            EventResult::ObjectCreated { id }
        },
        Event::ApplyForce { object_id, velocity } => {
            world.apply_force(object_id, velocity, add_vel);
            EventResult::Nothing
        },
    }
}

/// The channel end on which the answer to `e` is to be sent, if it expects
/// one.
pub open spec fn responder<V, F, R>(e: EngineEvent<V, F, R>) -> Option<R> {
    match e {
        EngineEvent::Simple { .. } => None,
        EngineEvent::WithResponse { response_tx, .. } => Some(response_tx),
    }
}

/// Carries out the event of `engine_event` on `world`; returns the answer
/// together with the channel end on which it is to be sent, if the event
/// expects an answer.
pub fn dispatcher_event<V: Copy + Default, F: Copy + Default, R, G: Fn(V, V) -> V>(
    engine_event: EngineEvent<V, F, R>,
    world: &mut World<V, F>,
    add_vel: G,
) -> (r: (EventResult, Option<R>))
    requires
        old(world).wf(),
        event_applicable(engine_event.spec_event(), old(world)@),
        event_addable(engine_event.spec_event(), old(world)@, add_vel),
    ensures
        final(world).wf(),
        final(world).spec_world_dim() == old(world).spec_world_dim(),
        r.0 == event_answer(engine_event.spec_event(), old(world)@.len()),
        r.1 == responder(engine_event),
        event_effect(engine_event.spec_event(), old(world)@, final(world)@, add_vel),
        engine_event matches EngineEvent::Simple { event, .. } ==> r.0 == event_answer(
            event,
            old(world)@.len(),
        ) && event_effect(event, old(world)@, final(world)@, add_vel),
        engine_event matches EngineEvent::WithResponse { event, .. } ==> r.0 == event_answer(
            event,
            old(world)@.len(),
        ) && event_effect(event, old(world)@, final(world)@, add_vel),
{
    match engine_event {
        EngineEvent::Simple { event, .. } => {
            let result = handle_event(event, world, add_vel);
            (result, None)
        },
        EngineEvent::WithResponse { event, response_tx, .. } => {
            let result = handle_event(event, world, add_vel);
            (result, Some(response_tx))
        },
    }
}

/// Law: a force event makes the body's new velocity what `add_vel` returns
/// for the body's old velocity and the event's velocity (the force is added,
/// it does not replace the velocity); the body keeps its id, position,
/// radius, mass and damage, and every other body is left as it was.
pub proof fn force_adds_to_the_velocity<V: Default, F: Default, G: Fn(V, V) -> V>(
    object_id: usize,
    velocity: V,
    before: Seq<Body<V, F>>,
    after: Seq<Body<V, F>>,
    add_vel: G,
)
    requires
        object_id < before.len(),
        event_effect(Event::<V, F>::ApplyForce { object_id, velocity }, before, after, add_vel),
    ensures
        after.len() == before.len(),
        call_ensures(add_vel, (before[object_id as int].velocity, velocity), after[object_id as int].velocity),
        after[object_id as int].id == before[object_id as int].id,
        after[object_id as int].position == before[object_id as int].position,
        after[object_id as int].radius == before[object_id as int].radius,
        after[object_id as int].mass == before[object_id as int].mass,
        after[object_id as int].damage == before[object_id as int].damage,
        forall|i: int| 0 <= i < before.len() && i != object_id ==> after[i] == before[i],
        event_answer(Event::<V, F>::ApplyForce { object_id, velocity }, before.len())
            == EventResult::Nothing,
{
}

/// Law: dispatching the event built by `object_creation(pos, radius, mass,
/// tx)` appends exactly one body, whose id is its index and which has that
/// position, that radius and that mass; the answer is the new body's id and
/// it goes to `tx`.
pub proof fn dispatched_creation_makes_that_body<V: Default, F: Default, R, G: Fn(V, V) -> V>(
    pos: V,
    radius: F,
    mass: F,
    tx: R,
    before: Seq<Body<V, F>>,
    after: Seq<Body<V, F>>,
    add_vel: G,
)
    requires
        before.len() < usize::MAX,
        event_effect(
            (EngineEvent::WithResponse {
                event: Event::<V, F>::ObjectCreation { position: pos, radius, mass },
                priority: crate::events::Priority::High,
                response_tx: tx,
            }).spec_event(),
            before,
            after,
            add_vel,
        ),
    ensures
        after.len() == before.len() + 1,
        after.drop_last() == before,
        after.last().id == before.len(),
        after.last().position == pos,
        after.last().radius == radius,
        after.last().mass == mass,
        event_answer(
            (EngineEvent::WithResponse {
                event: Event::<V, F>::ObjectCreation { position: pos, radius, mass },
                priority: crate::events::Priority::High,
                response_tx: tx,
            }).spec_event(),
            before.len(),
        ) == (EventResult::ObjectCreated { id: before.len() as usize }),
        responder(
            EngineEvent::WithResponse {
                event: Event::<V, F>::ObjectCreation { position: pos, radius, mass },
                priority: crate::events::Priority::High,
                response_tx: tx,
            },
        ) == Some(tx),
{
}

/// Law: an engine event sent without a channel expects no answer; one sent
/// with a channel has its answer sent on that channel.
pub proof fn answers_go_to_the_event_channel<V, F, R>(event: Event<V, F>, priority: crate::events::Priority, tx: R)
    ensures
        responder(EngineEvent::<V, F, R>::Simple { event, priority }) == None::<R>,
        responder(EngineEvent::WithResponse { event, priority, response_tx: tx }) == Some(tx),
{
}

/// Law: the id with which a creation is answered addresses the body that was
/// created: in the world after the event, the body at that id has that id and
/// the event's position, radius and mass.
pub proof fn created_answer_addresses_new_body<V: Default, F: Default, G: Fn(V, V) -> V>(
    position: V,
    radius: F,
    mass: F,
    before: Seq<Body<V, F>>,
    after: Seq<Body<V, F>>,
    add_vel: G,
)
    requires
        event_effect(Event::ObjectCreation { position, radius, mass }, before, after, add_vel),
        before.len() < usize::MAX,
    ensures
        event_answer(Event::<V, F>::ObjectCreation { position, radius, mass }, before.len())
            matches EventResult::ObjectCreated { id } && id < after.len() && after[id as int].id
            == id && after[id as int].position == position && after[id as int].radius == radius
            && after[id as int].mass == mass,
{
}

} // verus!
