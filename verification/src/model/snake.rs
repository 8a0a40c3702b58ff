use vstd::prelude::*;

verus! {

/// A heading of the actor's head. The engine's coordinate convention:
/// `UP` decreases y, `DOWN` increases y, `LEFT` increases x and `RIGHT`
/// decreases x, each wrapping at the grid edge.
#[derive(Clone, Copy, PartialEq, Eq, Structural, Debug)]
pub enum Direction {
    UP,
    DOWN,
    LEFT,
    RIGHT,
}

/// One body segment: its cell and the heading the actor had when the
/// segment was laid down (the latter decides where a new tail cell goes).
#[derive(Clone, Copy, Debug)]
pub struct BodyProperties {
    pub position: (u32, u32),
    pub direction: Direction,
}

/// The player-controlled actor: segments in strict head-to-tail order,
/// index 0 being the head.
pub struct Snake {
    pub body: Vec<BodyProperties>,
}

pub open spec fn vertical(d: Direction) -> bool {
    d == Direction::UP || d == Direction::DOWN
}

pub open spec fn horizontal(d: Direction) -> bool {
    d == Direction::LEFT || d == Direction::RIGHT
}

/// Two headings lie on the same axis; a direction change is refused exactly
/// on such pairs, which rules out an instant reversal.
pub open spec fn same_axis(a: Direction, b: Direction) -> bool {
    (vertical(a) && vertical(b)) || (horizontal(a) && horizontal(b))
}

/// One step towards 0, re-entering at `dim - 1` past the edge.
pub open spec fn wrap_dec(v: u32, dim: u32) -> u32 {
    if v == 0 {
        (dim - 1) as u32
    } else {
        (v - 1) as u32
    }
}

/// One step away from 0, re-entering at 0 past the edge.
pub open spec fn wrap_inc(v: u32, dim: u32) -> u32 {
    if v == dim - 1 {
        0u32
    } else {
        (v + 1) as u32
    }
}

/// The cell one step along `d` from `p`, wrapping at the grid edges.
pub open spec fn stepped_position(p: (u32, u32), d: Direction, width: u32, height: u32) -> (u32,
    u32) {
    match d {
        Direction::UP => (p.0, wrap_dec(p.1, height)),
        Direction::DOWN => (p.0, wrap_inc(p.1, height)),
        Direction::LEFT => (wrap_inc(p.0, width), p.1),
        Direction::RIGHT => (wrap_dec(p.0, width), p.1),
    }
}

/// The cell one step against `d` from `p`: where a new tail segment goes.
pub open spec fn behind_position(p: (u32, u32), d: Direction, width: u32, height: u32) -> (u32,
    u32) {
    match d {
        Direction::UP => (p.0, wrap_inc(p.1, height)),
        Direction::DOWN => (p.0, wrap_dec(p.1, height)),
        Direction::LEFT => (wrap_dec(p.0, width), p.1),
        Direction::RIGHT => (wrap_inc(p.0, width), p.1),
    }
}

/// The head segment advanced one cell along its own heading.
pub open spec fn stepped_segment(s: BodyProperties, width: u32, height: u32) -> BodyProperties {
    BodyProperties {
        position: stepped_position(s.position, s.direction, width, height),
        direction: s.direction,
    }
}

/// The whole actor after one movement tick: the head steps along its
/// heading, and every trailing segment takes the pre-tick value of the
/// segment ahead of it.
pub open spec fn moved_body(body: Seq<BodyProperties>, width: u32, height: u32) -> Seq<
    BodyProperties,
> {
    seq![stepped_segment(body[0], width, height)] + body.drop_last()
}

/// The segment appended by growth: one cell behind the current tail,
/// inheriting the tail's stored heading.
pub open spec fn tail_extension(body: Seq<BodyProperties>, width: u32, height: u32) -> BodyProperties {
    BodyProperties {
        position: behind_position(body.last().position, body.last().direction, width, height),
        direction: body.last().direction,
    }
}

/// The whole actor after one growth step.
pub open spec fn grown_body(body: Seq<BodyProperties>, width: u32, height: u32) -> Seq<
    BodyProperties,
> {
    body.push(tail_extension(body, width, height))
}

pub open spec fn segment_in_bounds(s: BodyProperties, width: u32, height: u32) -> bool {
    s.position.0 < width && s.position.1 < height
}

pub open spec fn body_in_bounds(body: Seq<BodyProperties>, width: u32, height: u32) -> bool {
    forall|i: int| 0 <= i < body.len() ==> segment_in_bounds(body[i], width, height)
}

/// The actor after `k` movement ticks in a row, with no direction change
/// and no growth in between.
pub open spec fn moved_body_iter(body: Seq<BodyProperties>, width: u32, height: u32, k: nat) -> Seq<
    BodyProperties,
>
    decreases k,
{
    if k == 0 {
        body
    } else {
        moved_body(moved_body_iter(body, width, height, (k - 1) as nat), width, height)
    }
}

/// Law: while its heading stays `LEFT`, the actor's head advances one cell
/// in x per tick, modulo the grid width, and its y coordinate and heading
/// never change.
pub proof fn lemma_straight_run_head(body: Seq<BodyProperties>, width: u32, height: u32, k: nat)
    requires
        body.len() >= 1,
        width >= 1,
        body[0].direction == Direction::LEFT,
        body[0].position.0 < width,
    ensures
        moved_body_iter(body, width, height, k).len() == body.len(),
        moved_body_iter(body, width, height, k)[0].direction == Direction::LEFT,
        moved_body_iter(body, width, height, k)[0].position.1 == body[0].position.1,
        moved_body_iter(body, width, height, k)[0].position.0 == (body[0].position.0 + k) % (
        width as int),
    decreases k,
{
    let w: int = width as int;
    if k == 0 {
        vstd::arithmetic::div_mod::lemma_small_mod(body[0].position.0 as nat, width as nat);
    } else {
        lemma_straight_run_head(body, width, height, (k - 1) as nat);
        let prev = moved_body_iter(body, width, height, (k - 1) as nat);
        let x: u32 = prev[0].position.0;
        let a: int = body[0].position.0 + (k - 1);
        vstd::arithmetic::div_mod::lemma_mod_bound(a, w);
        vstd::arithmetic::div_mod::lemma_add_mod_noop(a, 1, w);
        if x == width - 1 {
            if w == 1 {
                vstd::arithmetic::div_mod::lemma_small_mod(0, 1);
            } else {
                vstd::arithmetic::div_mod::lemma_small_mod(1, width as nat);
                vstd::arithmetic::div_mod::lemma_mod_self_0(w);
            }
        } else {
            vstd::arithmetic::div_mod::lemma_small_mod(1, width as nat);
            vstd::arithmetic::div_mod::lemma_small_mod((x + 1) as nat, width as nat);
        }
    }
}

impl Snake {
    /// Places a fresh two-segment actor: head at `(x, y)` heading `LEFT`,
    /// tail on the neighbouring cell at `x - 1`.
    pub fn add_to_field_at_start(x: u32, y: u32) -> (r: Self)
        requires
            x >= 1,
        ensures
            r.body@.len() == 2,
            r.body@[0] == (BodyProperties { position: (x, y), direction: Direction::LEFT }),
            r.body@[1] == (BodyProperties {
                position: ((x - 1) as u32, y),
                direction: Direction::LEFT,
            }),
    {
        let head = BodyProperties { position: (x, y), direction: Direction::LEFT };
        let tail = BodyProperties { position: (x - 1, y), direction: head.direction };
        Snake { body: vec![head, tail] }
    }

    /// Advances the actor one tick. The head wraps at the grid edges, so it
    /// always stays inside `[0, width) x [0, height)`; every trailing
    /// segment takes the position and heading the segment ahead of it held
    /// before this tick.
    pub fn move_snake(&mut self, width: u32, height: u32)
        requires
            old(self).body@.len() >= 1,
            width >= 1,
            height >= 1,
            body_in_bounds(old(self).body@, width, height),
        ensures
            final(self).body@ == moved_body(old(self).body@, width, height),
            final(self).body@.len() == old(self).body@.len(),
            body_in_bounds(final(self).body@, width, height),
    {
        let head = self.body[0];
        // shift the trailing segments, last to first
        let mut i: usize = self.body.len() - 1;
        while i >= 1
            invariant
                self.body@.len() == old(self).body@.len(),
                i < self.body@.len(),
                forall|j: int| 0 <= j <= i ==> self.body@[j] == old(self).body@[j],
                forall|j: int|
                    i < j < self.body@.len() ==> self.body@[j] == old(self).body@[j - 1],
            decreases i,
        {
            let pred = self.body[i - 1];
            self.body.set(i, pred);
            i = i - 1;
        }
        let p = head.position;
        let new_position: (u32, u32) = match head.direction {
            Direction::UP => (p.0, if p.1 == 0 { height - 1 } else { p.1 - 1 }),
            Direction::DOWN => (p.0, if p.1 == height - 1 { 0 } else { p.1 + 1 }),
            Direction::LEFT => (if p.0 == width - 1 { 0 } else { p.0 + 1 }, p.1),
            Direction::RIGHT => (if p.0 == 0 { width - 1 } else { p.0 - 1 }, p.1),
        };
        self.body.set(0, BodyProperties { position: new_position, direction: head.direction });
        proof {
            assert(self.body@ =~= moved_body(old(self).body@, width, height));
        }
    }

    /// Accepts a direction change only across axes; a request on the head's
    /// current axis (including the identical heading) leaves it unchanged.
    pub fn set_direction(&mut self, direction: Direction)
        requires
            old(self).body@.len() >= 1,
        ensures
            final(self).body@.len() == old(self).body@.len(),
            same_axis(old(self).body@[0].direction, direction) ==> final(self).body@ == old(
                self,
            ).body@,
            !same_axis(old(self).body@[0].direction, direction) ==> {
                &&& final(self).body@[0].position == old(self).body@[0].position
                &&& final(self).body@[0].direction == direction
                &&& forall|i: int|
                    1 <= i < old(self).body@.len() ==> final(self).body@[i] == old(self).body@[i]
            },
    {
        let current = self.body[0].direction;
        if (current == Direction::UP || current == Direction::DOWN) && (direction
            == Direction::DOWN || direction == Direction::UP) {
            return;
        }
        if (current == Direction::RIGHT || current == Direction::LEFT) && (direction
            == Direction::LEFT || direction == Direction::RIGHT) {
            return;
        }
        let position: (u32, u32) = self.body[0].position;
        self.body.set(0, BodyProperties { position, direction });
    }

    /// Appends exactly one segment one cell behind the current tail,
    /// wrapping at the grid edges; no existing segment moves.
    pub fn grow_snake(&mut self, width: u32, height: u32)
        requires
            old(self).body@.len() >= 1,
            width >= 1,
            height >= 1,
            body_in_bounds(old(self).body@, width, height),
        ensures
            final(self).body@ == grown_body(old(self).body@, width, height),
            final(self).body@.len() == old(self).body@.len() + 1,
            final(self).body@.subrange(0, old(self).body@.len() as int) == old(self).body@,
            body_in_bounds(final(self).body@, width, height),
    {
        let last = self.body[self.body.len() - 1];
        let p = last.position;
        let new_position: (u32, u32) = match last.direction {
            Direction::LEFT => (if p.0 == 0 { width - 1 } else { p.0 - 1 }, p.1),
            Direction::DOWN => (p.0, if p.1 == 0 { height - 1 } else { p.1 - 1 }),
            Direction::UP => (p.0, if p.1 == height - 1 { 0 } else { p.1 + 1 }),
            Direction::RIGHT => (if p.0 == width - 1 { 0 } else { p.0 + 1 }, p.1),
        };
        self.body.push(BodyProperties { position: new_position, direction: last.direction });
        proof {
            assert(self.body@.subrange(0, old(self).body@.len() as int) =~= old(self).body@);
        }
    }
}

impl Default for Snake {
    fn default() -> (r: Self)
        ensures
            r.body@.len() == 2,
            r.body@[0] == (BodyProperties { position: (10, 10), direction: Direction::LEFT }),
            r.body@[1] == (BodyProperties { position: (9, 10), direction: Direction::LEFT }),
    {
        Self::add_to_field_at_start(10, 10)
    }
}

} // verus!
