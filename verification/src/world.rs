//! The registry of bodies that make up the simulated world.
use vstd::prelude::*;

use crate::body::{Body, BodySnapshot};
use crate::collision::{body_wall_hits, is_square, pair_hits, row_hits, Collision, Wall, WallContact};

verus! {

/// The bodies of the simulation and the size of the world.
///
/// The abstract view is the sequence of bodies; a body's id is its index in
/// that sequence, and ids are handed out in order of creation.
pub struct World<V, F> {
    objects: Vec<Body<V, F>>,
    world_dim: V,
}

/// What the renderer receives of the world: a snapshot of every body.
#[derive(Debug)]
pub struct WorldSnapshot<V, F> {
    pub objects: Vec<BodySnapshot<V, F>>,
}

/// Whether every body of `bodies` has its index as id.
pub open spec fn ids_are_indices<V, F>(bodies: Seq<Body<V, F>>) -> bool {
    forall|i: int| 0 <= i < bodies.len() ==> #[trigger] bodies[i].id == i
}

/// The wall collisions of the first `k` bodies of `bodies`, body by body,
/// where `contacts[i]` says which walls body `i` reaches.
pub open spec fn wall_hits<V, F>(bodies: Seq<Body<V, F>>, contacts: Seq<WallContact>, k: int) -> Seq<
    Collision,
>
    decreases k,
{
    if k <= 0 {
        Seq::empty()
    } else {
        wall_hits(bodies, contacts, k - 1) + body_wall_hits(bodies[k - 1].id, contacts[k - 1])
    }
}

/// Appends the collision of body `id` with `wall` when `hit` holds.
fn append_wall_hit(id: usize, wall: Wall, hit: bool, collision: &mut Vec<Collision>)
    ensures
        final(collision)@ == old(collision)@ + crate::collision::wall_hit(id, wall, hit),
{
    if hit {
        collision.push(Collision::WithWall { body_id: id, wall: wall });
    }
    assert(collision@ =~= old(collision)@ + crate::collision::wall_hit(id, wall, hit));
}

/// Appends the wall collisions of body `id`, in the order left, right, top,
/// bottom.
fn append_wall_hits(id: usize, c: WallContact, collision: &mut Vec<Collision>)
    ensures
        final(collision)@ == old(collision)@ + body_wall_hits(id, c),
{
    append_wall_hit(id, Wall::Left, c.left, collision);
    append_wall_hit(id, Wall::Right, c.right, collision);
    append_wall_hit(id, Wall::Top, c.top, collision);
    append_wall_hit(id, Wall::Bottom, c.bottom, collision);
    assert(collision@ =~= old(collision)@ + body_wall_hits(id, c));
}

impl<V, F> View for World<V, F> {
    type V = Seq<Body<V, F>>;

    closed spec fn view(&self) -> Seq<Body<V, F>> {
        self.objects@
    }
}

impl<V, F> World<V, F> {
    /// The size of the world: its width and height.
    pub closed spec fn spec_world_dim(&self) -> V {
        self.world_dim
    }

    /// The world is well formed: every body's id is its index.
    pub open spec fn wf(&self) -> bool {
        ids_are_indices(self@)
    }
}

impl<V: Copy + Default, F: Copy + Default> World<V, F> {
    /// A world of the given size without bodies.
    pub fn new(world_dim: V) -> (w: Self)
        ensures
            w.wf(),
            w@ == Seq::<Body<V, F>>::empty(),
            w.spec_world_dim() == world_dim,
    {
        World { objects: Vec::new(), world_dim: world_dim }
    }

    /// Creates a body at rest at `position` and returns its id, which is the
    /// number of bodies created before it.
    pub fn create_object(&mut self, position: V, radius: F, mass: F) -> (id: usize)
        requires
            old(self).wf(),
        ensures
            final(self).wf(),
            id == old(self)@.len(),
            final(self)@.len() == old(self)@.len() + 1,
            final(self)@.drop_last() == old(self)@,
            final(self)@[id as int].position == position,
            final(self)@[id as int].radius == radius,
            final(self)@[id as int].mass == mass,
            final(self)@[id as int].at_rest_undamaged(),
            final(self).spec_world_dim() == old(self).spec_world_dim(),
    {
        let id = self.objects.len();
        self.objects.push(Body::new(id, radius, mass, position));
        assert(self.objects@.drop_last() =~= old(self).objects@);
        id
    }
}

impl<V: Copy, F: Copy> World<V, F> {
    /// The number of bodies.
    pub fn len(&self) -> (r: usize)
        ensures
            r == self@.len(),
    {
        self.objects.len()
    }

    /// The size of the world.
    pub fn world_dim(&self) -> (r: V)
        ensures
            r == self.spec_world_dim(),
    {
        self.world_dim
    }

    /// The bodies, in order of their ids.
    pub fn objects(&self) -> (r: &Vec<Body<V, F>>)
        ensures
            r@ == self@,
    {
        &self.objects
    }

    /// The body with id `id`, if there is one.
    pub fn get_body(&self, id: usize) -> (r: Option<&Body<V, F>>)
        ensures
            r == (if id < self@.len() {
                Some(&self@[id as int])
            } else {
                None
            }),
    {
        if id < self.objects.len() {
            Some(&self.objects[id])
        } else {
            None
        }
    }

    /// Gives body `id` a new velocity; nothing else changes.
    pub fn set_velocity(&mut self, id: usize, velocity: V)
        requires
            old(self).wf(),
            id < old(self)@.len(),
        ensures
            final(self).wf(),
            final(self)@ == old(self)@.update(id as int, Body { velocity, ..old(self)@[id as int] }),
            final(self).spec_world_dim() == old(self).spec_world_dim(),
    {
        let mut b = self.objects[id];
        b.velocity = velocity;
        self.objects.set(id, b);
        assert(ids_are_indices(self@)) by {
            assert forall|i: int| 0 <= i < self@.len() implies #[trigger] self@[i].id == i by {
                if i != id {
                    assert(self@[i] == old(self)@[i]);
                }
            }
        }
    }

    /// Moves body `id` to a new position; nothing else changes.
    pub fn set_position(&mut self, id: usize, position: V)
        requires
            old(self).wf(),
            id < old(self)@.len(),
        ensures
            final(self).wf(),
            final(self)@ == old(self)@.update(id as int, Body { position, ..old(self)@[id as int] }),
            final(self).spec_world_dim() == old(self).spec_world_dim(),
    {
        let mut b = self.objects[id];
        b.position = position;
        self.objects.set(id, b);
        assert(ids_are_indices(self@)) by {
            assert forall|i: int| 0 <= i < self@.len() implies #[trigger] self@[i].id == i by {
                if i != id {
                    assert(self@[i] == old(self)@[i]);
                }
            }
        }
    }

    /// Adds `new_vel` to the velocity of body `object_id`: the body's new
    /// velocity is what `add_vel` returns for its old velocity and `new_vel`;
    /// nothing else changes.
    pub fn apply_force(&mut self, object_id: usize, new_vel: V, add_vel: impl Fn(V, V) -> V)
        requires
            old(self).wf(),
            object_id < old(self)@.len(),
            call_requires(add_vel, (old(self)@[object_id as int].velocity, new_vel)),
        ensures
            final(self).wf(),
            final(self)@.len() == old(self)@.len(),
            forall|i: int|
                0 <= i < old(self)@.len() && i != object_id ==> final(self)@[i] == old(self)@[i],
            final(self)@[object_id as int] == (Body {
                velocity: final(self)@[object_id as int].velocity,
                ..old(self)@[object_id as int]
            }),
            call_ensures(
                add_vel,
                (old(self)@[object_id as int].velocity, new_vel),
                final(self)@[object_id as int].velocity,
            ),
            final(self).spec_world_dim() == old(self).spec_world_dim(),
    {
        let velocity = add_vel(self.objects[object_id].velocity, new_vel);
        self.set_velocity(object_id, velocity);
    }

    /// A copy of the world: the same bodies and the same size.
    pub fn physics_snapshot(&self) -> (r: Self)
        ensures
            r@ == self@,
            r.spec_world_dim() == self.spec_world_dim(),
    {
        let n = self.objects.len();
        let mut objects_copy: Vec<Body<V, F>> = Vec::new();
        for i in 0..n
            invariant
                n == self.objects@.len(),
                objects_copy@ == self.objects@.take(i as int),
        {
            objects_copy.push(self.objects[i].get_physics_snapshot());
            assert(objects_copy@ =~= self.objects@.take(i + 1));
        }
        assert(objects_copy@ =~= self.objects@);
        World { objects: objects_copy, world_dim: self.world_dim }
    }

    /// The render snapshot of every body, in order of their ids.
    pub fn render_snapshot(&self) -> (r: WorldSnapshot<V, F>)
        ensures
            r.objects@ == self@.map_values(|b: Body<V, F>| b.spec_render_snapshot()),
            r.objects@.len() == self@.len(),
            forall|i: int|
                0 <= i < self@.len() ==> (#[trigger] r.objects@[i]).id == self@[i].id
                    && r.objects@[i].position == self@[i].position && r.objects@[i].radius
                    == self@[i].radius,
    {
        let n = self.objects.len();
        let mut objects_copy: Vec<BodySnapshot<V, F>> = Vec::new();
        for i in 0..n
            invariant
                n == self.objects@.len(),
                objects_copy@ == self.objects@.take(i as int).map_values(
                    |b: Body<V, F>| b.spec_render_snapshot(),
                ),
        {
            objects_copy.push(self.objects[i].get_render_snapshot());
            assert(objects_copy@ =~= self.objects@.take(i + 1).map_values(
                |b: Body<V, F>| b.spec_render_snapshot(),
            ));
        }
        assert(self.objects@.take(n as int) =~= self.objects@);
        WorldSnapshot { objects: objects_copy }
    }

    /// Appends a collision for every pair of bodies `i < k` that touch, in
    /// lexicographic order of `(i, k)`; `touching[i][k]` says whether bodies
    /// `i` and `k` touch (only the entries above the diagonal are read).
    pub fn handle_body_collisions(&self, touching: &Vec<Vec<bool>>, collision: &mut Vec<Collision>)
        requires
            is_square(touching.deep_view(), self@.len() as int),
        ensures
            final(collision)@ == old(collision)@ + pair_hits(
                touching.deep_view(),
                self@.len() as int,
                self@.len() as int,
            ),
    {
        let n = self.objects.len();
        let ghost t = touching.deep_view();
        for i in 0..n
            invariant
                n == self@.len(),
                t == touching.deep_view(),
                is_square(t, n as int),
                collision@ == old(collision)@ + pair_hits(t, n as int, i as int),
        {
            let ghost before = collision@;
            let mut j = i + 1;
            while j < n
                invariant
                    n == self@.len(),
                    t == touching.deep_view(),
                    is_square(t, n as int),
                    i < n,
                    i + 1 <= j <= n,
                    before == old(collision)@ + pair_hits(t, n as int, i as int),
                    collision@ == before + row_hits(t, i as int, j as int),
                decreases n - j,
            {
                proof {
                    assert(t[i as int].len() == n);
                    assert(t[i as int][j as int] == touching@[i as int]@[j as int]);
                }
                if touching[i][j] {
                    collision.push(Collision::WithBody { a_body_id: i, b_body_id: j });
                }
                assert(collision@ =~= before + row_hits(t, i as int, j + 1));
                j = j + 1;
            }
            assert(collision@ =~= old(collision)@ + pair_hits(t, n as int, i + 1));
        }
    }

    /// Appends, body by body, a collision for every wall that the body
    /// reaches, in the order left, right, top, bottom; `contacts[i]` says
    /// which walls body `i` reaches.
    pub fn handle_wall_collisions(&self, contacts: &Vec<WallContact>, collision: &mut Vec<Collision>)
        requires
            contacts@.len() == self@.len(),
        ensures
            final(collision)@ == old(collision)@ + wall_hits(self@, contacts@, self@.len() as int),
    {
        let n = self.objects.len();
        for i in 0..n
            invariant
                n == self@.len(),
                contacts@.len() == n,
                collision@ == old(collision)@ + wall_hits(self@, contacts@, i as int),
        {
            let ghost before = collision@;
            append_wall_hits(self.objects[i].id, contacts[i], collision);
            assert(collision@ =~= before + body_wall_hits(self@[i as int].id, contacts@[i as int]));
            assert(collision@ =~= old(collision)@ + wall_hits(self@, contacts@, i + 1));
        }
    }

    /// All collisions of this step: first those between bodies, then those
    /// with the walls.
    pub fn handle_collision(&self, touching: &Vec<Vec<bool>>, contacts: &Vec<WallContact>) -> (r:
        Vec<Collision>)
        requires
            is_square(touching.deep_view(), self@.len() as int),
            contacts@.len() == self@.len(),
        ensures
            r@ == pair_hits(touching.deep_view(), self@.len() as int, self@.len() as int) + wall_hits(
                self@,
                contacts@,
                self@.len() as int,
            ),
    {
        let mut collisions = Vec::new();
        self.handle_body_collisions(touching, &mut collisions);
        self.handle_wall_collisions(contacts, &mut collisions);
        assert(collisions@ =~= pair_hits(touching.deep_view(), self@.len() as int, self@.len() as int)
            + wall_hits(self@, contacts@, self@.len() as int));
        collisions
    }
}

} // verus!

verus! {

/// Whether `contact` says that its body reaches `wall`.
pub open spec fn reaches(contact: WallContact, wall: Wall) -> bool {
    match wall {
        Wall::Left => contact.left,
        Wall::Right => contact.right,
        Wall::Top => contact.top,
        Wall::Bottom => contact.bottom,
    }
}

/// Whether `c` is the collision of a body `i < k` with a wall it reaches.
pub open spec fn is_wall_contact(contacts: Seq<WallContact>, k: int, c: Collision) -> bool {
    c matches Collision::WithWall { body_id, wall } && body_id < k && reaches(
        contacts[body_id as int],
        wall,
    )
}

proof fn body_wall_hits_exact(id: usize, c: WallContact)
    ensures
        forall|k: int|
            0 <= k < body_wall_hits(id, c).len() ==> {
                let x = #[trigger] body_wall_hits(id, c)[k];
                x matches Collision::WithWall { body_id, wall } && body_id == id && reaches(c, wall)
            },
        forall|w: Wall| reaches(c, w) ==> #[trigger] body_wall_hits(id, c).contains(
            Collision::WithWall { body_id: id, wall: w },
        ),
{
    let s = body_wall_hits(id, c);
    let l = crate::collision::wall_hit(id, Wall::Left, c.left);
    let r = crate::collision::wall_hit(id, Wall::Right, c.right);
    let t = crate::collision::wall_hit(id, Wall::Top, c.top);
    let b = crate::collision::wall_hit(id, Wall::Bottom, c.bottom);
    assert(s == l + r + t + b);
    assert forall|w: Wall| reaches(c, w) implies #[trigger] s.contains(
        Collision::WithWall { body_id: id, wall: w },
    ) by {
        match w {
            Wall::Left => {
                assert(s[0] == Collision::WithWall { body_id: id, wall: w });
            },
            Wall::Right => {
                assert(s[l.len() as int] == Collision::WithWall { body_id: id, wall: w });
            },
            Wall::Top => {
                assert(s[(l.len() + r.len()) as int] == Collision::WithWall { body_id: id, wall: w });
            },
            Wall::Bottom => {
                assert(s[(l.len() + r.len() + t.len()) as int] == Collision::WithWall {
                    body_id: id,
                    wall: w,
                });
            },
        }
    }
}

/// Law: in a well-formed world the wall collisions of the first `k` bodies
/// are exactly the pairs of a body `i < k` and a wall that body reaches,
/// each reported once.
pub proof fn wall_collisions_are_the_reached_walls<V, F>(
    bodies: Seq<Body<V, F>>,
    contacts: Seq<WallContact>,
    k: int,
)
    requires
        ids_are_indices(bodies),
        contacts.len() == bodies.len(),
        0 <= k <= bodies.len(),
    ensures
        forall|j: int|
            0 <= j < wall_hits(bodies, contacts, k).len() ==> is_wall_contact(
                contacts,
                k,
                #[trigger] wall_hits(bodies, contacts, k)[j],
            ),
        forall|i: int, w: Wall|
            0 <= i < k && #[trigger] reaches(contacts[i], w) ==> wall_hits(
                bodies,
                contacts,
                k,
            ).contains(Collision::WithWall { body_id: bodies[i].id, wall: w }),
        forall|j1: int, j2: int|
            0 <= j1 < j2 < wall_hits(bodies, contacts, k).len() ==> #[trigger] wall_hits(
                bodies,
                contacts,
                k,
            )[j1] != #[trigger] wall_hits(bodies, contacts, k)[j2],
    decreases k,
{
    if k > 0 {
        wall_collisions_are_the_reached_walls(bodies, contacts, k - 1);
        let id = bodies[k - 1].id;
        body_wall_hits_exact(id, contacts[k - 1]);
        let prev = wall_hits(bodies, contacts, k - 1);
        let cur = body_wall_hits(id, contacts[k - 1]);
        let s = wall_hits(bodies, contacts, k);
        assert(s == prev + cur);
        assert forall|j: int| 0 <= j < s.len() implies is_wall_contact(contacts, k, #[trigger] s[j]) by {
            if j >= prev.len() {
                assert(s[j] == cur[j - prev.len()]);
            } else {
                assert(s[j] == prev[j]);
            }
        }
        assert forall|i: int, w: Wall| 0 <= i < k && #[trigger] reaches(contacts[i], w) implies s.contains(
            Collision::WithWall { body_id: bodies[i].id, wall: w },
        ) by {
            let c = Collision::WithWall { body_id: bodies[i].id, wall: w };
            if i < k - 1 {
                let x = choose|x: int| 0 <= x < prev.len() && prev[x] == c;
                assert(s[x] == prev[x]);
            } else {
                assert(cur.contains(c));
                let x = choose|x: int| 0 <= x < cur.len() && cur[x] == c;
                assert(s[prev.len() + x] == cur[x]);
            }
        }
        assert forall|j1: int, j2: int| 0 <= j1 < j2 < s.len() implies #[trigger] s[j1]
            != #[trigger] s[j2] by {
            if j2 < prev.len() {
                assert(s[j1] == prev[j1] && s[j2] == prev[j2]);
            } else if j1 >= prev.len() {
                let l = crate::collision::wall_hit(id, Wall::Left, contacts[k - 1].left);
                let r = crate::collision::wall_hit(id, Wall::Right, contacts[k - 1].right);
                let t = crate::collision::wall_hit(id, Wall::Top, contacts[k - 1].top);
                let b = crate::collision::wall_hit(id, Wall::Bottom, contacts[k - 1].bottom);
                assert(cur == l + r + t + b);
                assert(s[j1] == cur[j1 - prev.len()] && s[j2] == cur[j2 - prev.len()]);
            } else {
                assert(s[j1] == prev[j1] && s[j2] == cur[j2 - prev.len()]);
                assert(s[j2]->body_id == k - 1);
                assert(s[j1]->body_id < k - 1);
            }
        }
    }
}

} // verus!

verus! {

/// Law: the render snapshots of a sequence of bodies, taken body by body,
/// hold at every index the id, the position and the radius of the body at
/// that index.
pub proof fn render_snapshots_follow_the_bodies<V, F>(bodies: Seq<Body<V, F>>)
    ensures
        bodies.map_values(|b: Body<V, F>| b.spec_render_snapshot()).len() == bodies.len(),
        forall|i: int|
            #![trigger bodies[i]]
            0 <= i < bodies.len() ==> {
                let s = bodies.map_values(|b: Body<V, F>| b.spec_render_snapshot())[i];
                &&& s.id == bodies[i].id
                &&& s.position == bodies[i].position
                &&& s.radius == bodies[i].radius
            },
{
}

} // verus!
