use vstd::prelude::*;

verus! {

/// The single collectible cell on the board. It never validates its own
/// coordinate: the spawn rule at the game level guarantees a free cell.
pub struct Apple {
    pub position: (u32, u32),
}

impl Apple {
    /// Places the collectible at a caller-chosen coordinate; used only for
    /// the initial placement of an episode.
    pub fn add_to_field_at_start(field_dimension_x: u32, field_dimension_y: u32) -> (r: Self)
        ensures
            r.position == (field_dimension_x, field_dimension_y),
    {
        Self { position: (field_dimension_x, field_dimension_y) }
    }

    /// Overwrites the collectible's coordinate.
    pub fn place(&mut self, new_place_x: u32, new_place_y: u32)
        ensures
            final(self).position == (new_place_x, new_place_y),
    {
        self.position = (new_place_x, new_place_y);
    }
}

} // verus!
