use vstd::prelude::*;
use crate::rng;

verus! {

/// The playable bounds and the static obstacle cells. Built once per
/// episode and never mutated afterwards.
pub struct Field {
    pub size: (u32, u32),
    pub has_border: bool,
    pub has_obstacles: bool,
    pub num_obstacles: u32,
    pub obstacles: Option<Vec<(u32, u32)>>,
}

/// A randomly drawn obstacle cell: strictly interior, and off the centre
/// row and centre column that anchor the starting actor and food.
pub open spec fn interior_non_center(p: (u32, u32), width: u32, height: u32) -> bool {
    &&& 1 <= p.0 < width - 1
    &&& 1 <= p.1 < height - 1
    &&& p.0 != width / 2
    &&& p.1 != height / 2
}

/// The perimeter cells along the top and bottom rows, column by column.
pub open spec fn horizontal_border(width: u32, height: u32) -> Seq<(u32, u32)> {
    Seq::new(
        (2 * width) as nat,
        |i: int|
            if i % 2 == 0 {
                ((i / 2) as u32, 0u32)
            } else {
                ((i / 2) as u32, (height - 1) as u32)
            },
    )
}

/// The perimeter cells along the left and right columns, row by row.
pub open spec fn vertical_border(width: u32, height: u32) -> Seq<(u32, u32)> {
    Seq::new(
        (2 * height) as nat,
        |i: int|
            if i % 2 == 0 {
                (0u32, (i / 2) as u32)
            } else {
                ((width - 1) as u32, (i / 2) as u32)
            },
    )
}

/// Every perimeter cell, in the order the border pass lays them down.
pub open spec fn border_cells(width: u32, height: u32) -> Seq<(u32, u32)> {
    horizontal_border(width, height) + vertical_border(width, height)
}

/// What an obstacle vector holds: `num` random interior cells (duplicates
/// permitted), then the full perimeter when a border was asked for.
pub open spec fn obstacle_vec_ok(
    obs: Seq<(u32, u32)>,
    size: (u32, u32),
    num: u32,
    has_border: bool,
) -> bool {
    &&& obs.len() == num + if has_border {
        2 * size.0 + 2 * size.1
    } else {
        0
    }
    &&& forall|i: int| 0 <= i < num ==> interior_non_center(#[trigger] obs[i], size.0, size.1)
    &&& (has_border ==> obs.subrange(num as int, obs.len() as int) == border_cells(
        size.0,
        size.1,
    ))
}

/// Draws one interior cell off the centre row and column: random attempts
/// first, then a fixed fallback so the function always terminates.
fn sample_non_center(generator: &mut rand::rngs::ThreadRng, width: u32, height: u32) -> (r: (
    u32,
    u32,
))
    requires
        width >= 4,
        height >= 4,
    ensures
        interior_non_center(r, width, height),
{
    let mut attempts: u32 = 0;
    while attempts < crate::MAX_SAMPLE_ATTEMPTS
        invariant
            width >= 4,
            height >= 4,
        decreases crate::MAX_SAMPLE_ATTEMPTS - attempts,
    {
        let x: u32 = rng::sample_in_range(generator, 1, width - 1);
        let y: u32 = rng::sample_in_range(generator, 1, height - 1);
        if x != width / 2 && y != height / 2 {
            return (x, y);
        }
        attempts = attempts + 1;
    }
    // both dimensions are at least 4, so (1, 1) is interior and off-centre
    (1, 1)
}

/// Generates the obstacle cells of an episode: `num_obstacles` random
/// interior cells (no uniqueness check; duplicates are harmless), then,
/// when a border was asked for, every perimeter cell.
pub fn generate_obstacles(size: (u32, u32), num_obstacles: u32, has_border: bool) -> (r: Vec<
    (u32, u32),
>)
    requires
        size.0 >= 1,
        size.1 >= 1,
        num_obstacles > 0 ==> size.0 >= 4 && size.1 >= 4,
    ensures
        obstacle_vec_ok(r@, size, num_obstacles, has_border),
{
    let mut random_obstacles: Vec<(u32, u32)> = Vec::new();
    let mut generator = rng::fresh_rng();
    let mut count: u32 = 0;
    while count < num_obstacles
        invariant
            count <= num_obstacles,
            num_obstacles > 0 ==> size.0 >= 4 && size.1 >= 4,
            random_obstacles@.len() == count,
            forall|i: int|
                0 <= i < count ==> interior_non_center(
                    #[trigger] random_obstacles@[i],
                    size.0,
                    size.1,
                ),
        decreases num_obstacles - count,
    {
        let cell: (u32, u32) = sample_non_center(&mut generator, size.0, size.1);
        random_obstacles.push(cell);
        count = count + 1;
    }
    let ghost random_part = random_obstacles@;
    if has_border {
        let mut idx_x: u32 = 0;
        while idx_x < size.0
            invariant
                size.0 >= 1,
                size.1 >= 1,
                idx_x <= size.0,
                random_obstacles@ =~= random_part + horizontal_border(size.0, size.1).subrange(
                    0,
                    2 * idx_x as int,
                ),
            decreases size.0 - idx_x,
        {
            random_obstacles.push((idx_x, 0));
            random_obstacles.push((idx_x, size.1 - 1));
            proof {
                assert(random_obstacles@ =~= random_part + horizontal_border(
                    size.0,
                    size.1,
                ).subrange(0, 2 * (idx_x + 1) as int));
            }
            idx_x = idx_x + 1;
        }
        proof {
            assert(horizontal_border(size.0, size.1).subrange(0, 2 * size.0 as int)
                =~= horizontal_border(size.0, size.1));
        }
        let mut idx_y: u32 = 0;
        while idx_y < size.1
            invariant
                size.0 >= 1,
                size.1 >= 1,
                idx_y <= size.1,
                random_obstacles@ =~= random_part + horizontal_border(size.0, size.1)
                    + vertical_border(size.0, size.1).subrange(0, 2 * idx_y as int),
            decreases size.1 - idx_y,
        {
            random_obstacles.push((0, idx_y));
            random_obstacles.push((size.0 - 1, idx_y));
            proof {
                assert(random_obstacles@ =~= random_part + horizontal_border(size.0, size.1)
                    + vertical_border(size.0, size.1).subrange(0, 2 * (idx_y + 1) as int));
            }
            idx_y = idx_y + 1;
        }
        proof {
            assert(vertical_border(size.0, size.1).subrange(0, 2 * size.1 as int)
                =~= vertical_border(size.0, size.1));
            assert(random_obstacles@.subrange(
                num_obstacles as int,
                random_obstacles@.len() as int,
            ) =~= border_cells(size.0, size.1));
        }
    }
    random_obstacles
}

impl Field {
    /// The obstacle cells as a sequence; empty when none were configured.
    pub open spec fn obstacles_seq(&self) -> Seq<(u32, u32)> {
        match self.obstacles {
            Some(v) => v@,
            None => Seq::empty(),
        }
    }

    /// The default episode bounds, with no obstacle cells materialised.
    pub fn new() -> (r: Self)
        ensures
            r.size == (21u32, 21u32),
            r.has_border == true,
            r.has_obstacles == false,
            r.num_obstacles == 0,
            r.obstacles is None,
    {
        Self {
            size: (21, 21),
            has_border: true,
            has_obstacles: false,
            num_obstacles: 0,
            obstacles: None,
        }
    }

    /// Builds a field: obstacle cells are generated when asked for, the
    /// perimeter is appended when a border was asked for, and otherwise no
    /// obstacle vector exists at all.
    pub fn from(size: (u32, u32), has_border: bool, has_obstacles: bool, num_obstacles: u32) -> (r:
        Self)
        requires
            size.0 >= 1,
            size.1 >= 1,
            has_obstacles && num_obstacles > 0 ==> size.0 >= 4 && size.1 >= 4,
        ensures
            r.size == size,
            r.has_border == has_border,
            r.has_obstacles == has_obstacles,
            r.num_obstacles == num_obstacles,
            (r.obstacles is Some) <==> (has_obstacles || has_border),
            has_obstacles ==> obstacle_vec_ok(r.obstacles_seq(), size, num_obstacles, has_border),
            !has_obstacles && has_border ==> obstacle_vec_ok(r.obstacles_seq(), size, 0, true),
    {
        Self {
            size,
            has_border,
            has_obstacles,
            num_obstacles,
            obstacles: if has_obstacles {
                Some(generate_obstacles(size, num_obstacles, has_border))
            } else if has_border {
                Some(generate_obstacles(size, 0, has_border))
            } else {
                None
            },
        }
    }
}

impl Default for Field {
    fn default() -> (r: Self)
        ensures
            r.size == (21u32, 21u32),
            r.has_border == true,
            r.has_obstacles == false,
            r.num_obstacles == 0,
            r.obstacles is None,
    {
        Self::new()
    }
}

} // verus!
