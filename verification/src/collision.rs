//! Collisions between bodies and with the walls of the world.
use vstd::prelude::*;

verus! {

/// A wall of the rectangular world.  `Left` is at `x = 0`, `Right` at
/// `x = width`, `Top` at `y = 0` and `Bottom` at `y = height`.
#[derive(Debug, Clone, Copy, PartialEq, Eq, Structural)]
pub enum Wall {
    Left,
    Right,
    Top,
    Bottom,
}

/// A detected collision: a body touching a wall, or two bodies touching.
#[derive(Debug, Clone, Copy, PartialEq, Eq, Structural)]
pub enum Collision {
    WithWall { body_id: usize, wall: Wall },
    WithBody { a_body_id: usize, b_body_id: usize },
}

/// Which walls one body reaches: `left` when its leftmost point is at or
/// beyond `x = 0`, `right` when its rightmost point is at or beyond the
/// width, `top` and `bottom` likewise along `y`.
#[derive(Debug, Clone, Copy, PartialEq, Eq, Structural)]
pub struct WallContact {
    pub left: bool,
    pub right: bool,
    pub top: bool,
    pub bottom: bool,
}

/// The collision of body `id` with `wall` when `hit` holds, else nothing.
pub open spec fn wall_hit(id: usize, wall: Wall, hit: bool) -> Seq<Collision> {
    if hit {
        seq![Collision::WithWall { body_id: id, wall }]
    } else {
        Seq::empty()
    }
}

/// The wall collisions of body `id`, in the order left, right, top, bottom.
pub open spec fn body_wall_hits(id: usize, c: WallContact) -> Seq<Collision> {
    wall_hit(id, Wall::Left, c.left) + wall_hit(id, Wall::Right, c.right) + wall_hit(
        id,
        Wall::Top,
        c.top,
    ) + wall_hit(id, Wall::Bottom, c.bottom)
}

/// The collisions of body `i` with the bodies `i + 1 .. hi`, in increasing
/// order of the second body, where `touching[i][k]` says whether bodies `i`
/// and `k` touch.
pub open spec fn row_hits(touching: Seq<Seq<bool>>, i: int, hi: int) -> Seq<Collision>
    decreases hi - i,
{
    if hi <= i + 1 {
        Seq::empty()
    } else {
        row_hits(touching, i, hi - 1) + if touching[i][hi - 1] {
            seq![Collision::WithBody { a_body_id: i as usize, b_body_id: (hi - 1) as usize }]
        } else {
            Seq::<Collision>::empty()
        }
    }
}

/// The collisions between bodies among `n` bodies whose first body is one of
/// `0 .. rows`: every touching pair `(i, k)` with `i < k < n`, in
/// lexicographic order.
pub open spec fn pair_hits(touching: Seq<Seq<bool>>, n: int, rows: int) -> Seq<Collision>
    decreases rows,
{
    if rows <= 0 {
        Seq::empty()
    } else {
        pair_hits(touching, n, rows - 1) + row_hits(touching, rows - 1, n)
    }
}

/// Whether `touching` describes `n` bodies: `n` rows of `n` entries.
pub open spec fn is_square(touching: Seq<Seq<bool>>, n: int) -> bool {
    &&& touching.len() == n
    &&& forall|i: int| 0 <= i < n ==> #[trigger] touching[i].len() == n
}

} // verus!

verus! {

/// Whether `c` is a collision of two touching bodies `a < b < n`.
pub open spec fn is_touching_pair(touching: Seq<Seq<bool>>, n: int, c: Collision) -> bool {
    c matches Collision::WithBody { a_body_id, b_body_id } && a_body_id < b_body_id < n
        && touching[a_body_id as int][b_body_id as int]
}

/// Whether the body collision `c1` comes before `c2` in lexicographic order
/// of their pairs of ids.
pub open spec fn pair_before(c1: Collision, c2: Collision) -> bool {
    c1 matches Collision::WithBody { a_body_id: a1, b_body_id: b1 }
        && c2 matches Collision::WithBody { a_body_id: a2, b_body_id: b2 } && (a1 < a2 || (a1
        == a2 && b1 < b2))
}

proof fn row_hits_exact(touching: Seq<Seq<bool>>, n: int, i: int, hi: int)
    requires
        is_square(touching, n),
        n <= usize::MAX,
        0 <= i,
        i + 1 <= hi <= n,
    ensures
        forall|k: int|
            0 <= k < row_hits(touching, i, hi).len() ==> {
                let c = #[trigger] row_hits(touching, i, hi)[k];
                &&& is_touching_pair(touching, n, c)
                &&& c->a_body_id == i
                &&& c->b_body_id < hi
            },
        forall|b: int|
            i < b < hi && #[trigger] touching[i][b] ==> row_hits(touching, i, hi).contains(
                Collision::WithBody { a_body_id: i as usize, b_body_id: b as usize },
            ),
        forall|k: int, l: int|
            0 <= k < l < row_hits(touching, i, hi).len() ==> pair_before(
                #[trigger] row_hits(touching, i, hi)[k],
                #[trigger] row_hits(touching, i, hi)[l],
            ),
    decreases hi - i,
{
    if hi > i + 1 {
        row_hits_exact(touching, n, i, hi - 1);
        let prev = row_hits(touching, i, hi - 1);
        let s = row_hits(touching, i, hi);
        assert(touching[i].len() == n);
        if touching[i][hi - 1] {
            let c = Collision::WithBody { a_body_id: i as usize, b_body_id: (hi - 1) as usize };
            assert(s == prev.push(c));
            assert(s[prev.len() as int] == c);
            assert forall|b: int| i < b < hi && #[trigger] touching[i][b] implies s.contains(
                Collision::WithBody { a_body_id: i as usize, b_body_id: b as usize },
            ) by {
                if b < hi - 1 {
                    let w = choose|k: int|
                        0 <= k < prev.len() && prev[k] == Collision::WithBody {
                            a_body_id: i as usize,
                            b_body_id: b as usize,
                        };
                    assert(s[w] == prev[w]);
                }
            }
        } else {
            assert(s =~= prev);
        }
    }
}

/// Law: the body collisions among `n` bodies are exactly the touching pairs
/// `a < b < n`, each reported once, in lexicographic order of `(a, b)`.
pub proof fn body_collisions_are_the_touching_pairs(touching: Seq<Seq<bool>>, n: int, rows: int)
    requires
        is_square(touching, n),
        n <= usize::MAX,
        0 <= rows <= n,
    ensures
        forall|k: int|
            0 <= k < pair_hits(touching, n, rows).len() ==> {
                let c = #[trigger] pair_hits(touching, n, rows)[k];
                &&& is_touching_pair(touching, n, c)
                &&& c->a_body_id < rows
            },
        forall|a: int, b: int|
            0 <= a < rows && a < b < n && #[trigger] touching[a][b] ==> pair_hits(
                touching,
                n,
                rows,
            ).contains(Collision::WithBody { a_body_id: a as usize, b_body_id: b as usize }),
        forall|k: int, l: int|
            0 <= k < l < pair_hits(touching, n, rows).len() ==> pair_before(
                #[trigger] pair_hits(touching, n, rows)[k],
                #[trigger] pair_hits(touching, n, rows)[l],
            ),
    decreases rows,
{
    if rows > 0 {
        body_collisions_are_the_touching_pairs(touching, n, rows - 1);
        row_hits_exact(touching, n, rows - 1, n);
        let prev = pair_hits(touching, n, rows - 1);
        let row = row_hits(touching, rows - 1, n);
        let s = pair_hits(touching, n, rows);
        assert(s == prev + row);
        assert forall|k: int| 0 <= k < s.len() implies {
            let c = #[trigger] s[k];
            &&& is_touching_pair(touching, n, c)
            &&& c->a_body_id < rows
        } by {
            if k >= prev.len() {
                assert(s[k] == row[k - prev.len()]);
            }
        }
        assert forall|a: int, b: int|
            0 <= a < rows && a < b < n && #[trigger] touching[a][b] implies s.contains(
            Collision::WithBody { a_body_id: a as usize, b_body_id: b as usize },
        ) by {
            let c = Collision::WithBody { a_body_id: a as usize, b_body_id: b as usize };
            if a < rows - 1 {
                let w = choose|k: int| 0 <= k < prev.len() && prev[k] == c;
                assert(s[w] == prev[w]);
            } else {
                let w = choose|k: int| 0 <= k < row.len() && row[k] == c;
                assert(s[prev.len() + w] == row[w]);
            }
        }
        assert forall|k: int, l: int| 0 <= k < l < s.len() implies pair_before(
            #[trigger] s[k],
            #[trigger] s[l],
        ) by {
            if l < prev.len() {
                assert(s[k] == prev[k] && s[l] == prev[l]);
            } else if k >= prev.len() {
                assert(s[k] == row[k - prev.len()] && s[l] == row[l - prev.len()]);
            } else {
                assert(s[k] == prev[k] && s[l] == row[l - prev.len()]);
            }
        }
    }
}

} // verus!

verus! {

/// Law: the wall collisions of one body name that body, and a wall occurs
/// among them exactly when the body's contact flag for that wall is set:
/// `Left` with `left`, `Right` with `right`, `Top` with `top` and `Bottom`
/// with `bottom`; there is one collision per set flag.
pub proof fn body_wall_hits_follow_the_flags(id: usize, c: WallContact)
    ensures
        body_wall_hits(id, c).contains(Collision::WithWall { body_id: id, wall: Wall::Left })
            <==> c.left,
        body_wall_hits(id, c).contains(Collision::WithWall { body_id: id, wall: Wall::Right })
            <==> c.right,
        body_wall_hits(id, c).contains(Collision::WithWall { body_id: id, wall: Wall::Top })
            <==> c.top,
        body_wall_hits(id, c).contains(Collision::WithWall { body_id: id, wall: Wall::Bottom })
            <==> c.bottom,
        body_wall_hits(id, c).len() == (if c.left { 1int } else { 0 }) + (if c.right { 1int } else { 0 })
            + (if c.top { 1int } else { 0 }) + (if c.bottom { 1int } else { 0 }),
        forall|k: int|
            0 <= k < body_wall_hits(id, c).len() ==> (#[trigger] body_wall_hits(id, c)[k]) is WithWall
                && body_wall_hits(id, c)[k]->body_id == id,
{
    let l = wall_hit(id, Wall::Left, c.left);
    let r = wall_hit(id, Wall::Right, c.right);
    let t = wall_hit(id, Wall::Top, c.top);
    let b = wall_hit(id, Wall::Bottom, c.bottom);
    let s = body_wall_hits(id, c);
    assert(s == l + r + t + b);
    assert forall|k: int| 0 <= k < s.len() implies (#[trigger] s[k]) is WithWall && s[k]->body_id
        == id by {
        if k < l.len() {
            assert(s[k] == l[k]);
        } else if k < l.len() + r.len() {
            assert(s[k] == r[k - l.len()]);
        } else if k < l.len() + r.len() + t.len() {
            assert(s[k] == t[k - l.len() - r.len()]);
        } else {
            assert(s[k] == b[k - l.len() - r.len() - t.len()]);
        }
    }
    let walls = seq![Wall::Left, Wall::Right, Wall::Top, Wall::Bottom];
    assert forall|w: Wall| #[trigger] s.contains(Collision::WithWall { body_id: id, wall: w })
        ==> (match w {
            Wall::Left => c.left,
            Wall::Right => c.right,
            Wall::Top => c.top,
            Wall::Bottom => c.bottom,
        }) by {
        if s.contains(Collision::WithWall { body_id: id, wall: w }) {
            let k = choose|k: int| 0 <= k < s.len() && s[k] == Collision::WithWall { body_id: id, wall: w };
            if k < l.len() {
                assert(s[k] == l[k]);
            } else if k < l.len() + r.len() {
                assert(s[k] == r[k - l.len()]);
            } else if k < l.len() + r.len() + t.len() {
                assert(s[k] == t[k - l.len() - r.len()]);
            } else {
                assert(s[k] == b[k - l.len() - r.len() - t.len()]);
            }
        }
    }
    if c.left {
        assert(s[0] == Collision::WithWall { body_id: id, wall: Wall::Left });
    }
    if c.right {
        assert(s[l.len() as int] == Collision::WithWall { body_id: id, wall: Wall::Right });
    }
    if c.top {
        assert(s[(l.len() + r.len()) as int] == Collision::WithWall { body_id: id, wall: Wall::Top });
    }
    if c.bottom {
        assert(s[(l.len() + r.len() + t.len()) as int] == Collision::WithWall {
            body_id: id,
            wall: Wall::Bottom,
        });
    }
}

} // verus!
