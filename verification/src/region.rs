use vstd::prelude::*;

verus! {

/// A coarse world cell, identified by a 16-bit id that packs the grid
/// coordinates: the low byte is the x column, the high byte the y row.
/// Ids with the highest bit set denote dungeon (instanced) regions.
#[derive(Copy, Clone, Eq, PartialEq, Hash, PartialOrd, Ord, Structural, Debug)]
pub struct Region(u16);

impl Region {
    /// The packed 16-bit id of this region.
    pub closed spec fn spec_id(&self) -> u16 {
        self.0
    }

    /// The x column of this region on the world grid.
    pub open spec fn spec_x(&self) -> int {
        self.spec_id() as int % 256
    }

    /// The y row of this region on the world grid.
    pub open spec fn spec_y(&self) -> int {
        self.spec_id() as int / 256
    }

    pub fn from_xy(x: u8, y: u8) -> (r: Self)
        ensures
            r.spec_id() == y * 256 + x,
    {
        let xw = x as u16;
        let yw = y as u16;
        let id = (yw << 8) | xw;
        proof {
            assert(((yw << 8) | xw) == yw * 256 + xw) by (bit_vector)
                requires
                    xw < 256 && yw < 256,
            ;
        }
        Region(id)
    }

    pub fn y(&self) -> (r: u8)
        ensures
            r == self.spec_y(),
    {
        let id = self.0;
        proof {
            assert((id >> 8) == id / 256) by (bit_vector);
        }
        (id >> 8) as u8
    }

    pub fn x(&self) -> (r: u8)
        ensures
            r == self.spec_x(),
    {
        let id = self.0;
        proof {
            assert((id & 0xFF) == id % 256) by (bit_vector);
        }
        (id & 0xFF) as u8
    }

    pub fn id(&self) -> (r: u16)
        ensures
            r == self.spec_id(),
    {
        self.0
    }

    pub fn is_dungeon(&self) -> (r: bool)
        ensures
            r == (self.spec_id() >= 0x8000),
    {
        let id = self.0;
        proof {
            assert(((id & 0x8000) != 0) == (id >= 0x8000)) by (bit_vector);
        }
        (id & 0x8000) != 0
    }

    /// The 3x3 block of grid cells around this one, this region in the middle
    /// of the first row.
    pub fn with_grid_neighbours(&self) -> (r: Vec<Region>)
        requires
            1 <= self.spec_x() <= 254,
            1 <= self.spec_y() <= 254,
        ensures
            r@.len() == 9,
            r@[0].spec_id() == self.spec_y() * 256 + (self.spec_x() - 1),
            r@[1] == *self,
            r@[2].spec_id() == self.spec_y() * 256 + (self.spec_x() + 1),
            r@[3].spec_id() == (self.spec_y() - 1) * 256 + (self.spec_x() - 1),
            r@[4].spec_id() == (self.spec_y() - 1) * 256 + self.spec_x(),
            r@[5].spec_id() == (self.spec_y() - 1) * 256 + (self.spec_x() + 1),
            r@[6].spec_id() == (self.spec_y() + 1) * 256 + (self.spec_x() - 1),
            r@[7].spec_id() == (self.spec_y() + 1) * 256 + self.spec_x(),
            r@[8].spec_id() == (self.spec_y() + 1) * 256 + (self.spec_x() + 1),
    {
        let x = self.x();
        let y = self.y();
        vec![
            Region::from_xy(x - 1, y),
            *self,
            Region::from_xy(x + 1, y),
            Region::from_xy(x - 1, y - 1),
            Region::from_xy(x, y - 1),
            Region::from_xy(x + 1, y - 1),
            Region::from_xy(x - 1, y + 1),
            Region::from_xy(x, y + 1),
            Region::from_xy(x + 1, y + 1),
        ]
    }

    pub fn new(id: u16) -> (r: Region)
        ensures
            r.spec_id() == id,
    {
        Region(id)
    }
}

} // verus!
