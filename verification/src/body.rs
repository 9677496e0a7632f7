//! A body of the simulation and the part of it that is drawn.
use vstd::prelude::*;

verus! {

/// A round body: where it is, how it moves, its size, its mass and the damage
/// it has taken.  `V` is the vector type of the simulated space and `F` its
/// scalar type.
#[derive(Debug, Clone, Copy)]
pub struct Body<V, F> {
    pub id: usize,
    pub position: V,
    pub velocity: V,
    pub radius: F,
    pub mass: F,
    pub damage: F,
}

/// What the renderer needs of a body: its id, where it is and how big it is.
#[derive(Debug, Clone, Copy)]
pub struct BodySnapshot<V, F> {
    pub id: usize,
    pub position: V,
    pub radius: F,
}

impl<V, F> Body<V, F> {
    /// The render snapshot of a body.
    pub open spec fn spec_render_snapshot(self) -> BodySnapshot<V, F> {
        BodySnapshot { id: self.id, position: self.position, radius: self.radius }
    }
}

impl<V: Default, F: Default> Body<V, F> {
    /// Whether `self` is a body at rest and undamaged: its velocity and its
    /// damage are the default values of their types.
    pub open spec fn at_rest_undamaged(self) -> bool {
        &&& call_ensures(V::default, (), self.velocity)
        &&& call_ensures(F::default, (), self.damage)
    }
}

impl<V: Copy + Default, F: Copy + Default> Body<V, F> {
    /// A new body with the given id, radius, mass and position, at rest
    /// (the default velocity) and undamaged (the default damage).
    pub fn new(id: usize, radius: F, mass: F, position: V) -> (b: Self)
        ensures
            b.id == id,
            b.position == position,
            b.radius == radius,
            b.mass == mass,
            b.at_rest_undamaged(),
    {
        Body {
            id: id,
            position,
            velocity: V::default(),
            radius,
            mass,
            damage: F::default(),
        }
    }
}

impl<V: Copy, F: Copy> Body<V, F> {
    /// Sets the damage the body has taken; nothing else changes.
    pub fn set_damage(&mut self, damage: F)
        ensures
            *final(self) == (Body { damage, ..*old(self) }),
    {
        self.damage = damage
    }

    /// The id, position and radius of the body.
    pub fn get_render_snapshot(&self) -> (r: BodySnapshot<V, F>)
        ensures
            r == self.spec_render_snapshot(),
            r.id == self.id,
            r.position == self.position,
            r.radius == self.radius,
    {
        BodySnapshot { id: self.id, position: self.position, radius: self.radius }
    }

    /// A copy of the whole body.
    pub fn get_physics_snapshot(&self) -> (r: Self)
        ensures
            r == *self,
    {
        Body {
            id: self.id,
            position: self.position,
            velocity: self.velocity,
            radius: self.radius,
            mass: self.mass,
            damage: self.damage,
        }
    }
}

impl<V: Copy, F: Copy> BodySnapshot<V, F> {
    /// Where the body was when the snapshot was taken.
    pub fn position(&self) -> (r: V)
        ensures
            r == self.position,
    {
        self.position
    }
}

} // verus!

verus! {

/// Law: the render snapshot of any body holds that body's id, its position
/// and its radius.
pub proof fn render_snapshot_holds_id_position_radius<V, F>(b: Body<V, F>)
    ensures
        b.spec_render_snapshot().id == b.id,
        b.spec_render_snapshot().position == b.position,
        b.spec_render_snapshot().radius == b.radius,
{
}

} // verus!
