use vstd::prelude::*;
use crate::messages::ProtocolLocation;
use crate::region::Region;

verus! {

/// The width of one region in tenths of a world unit.
pub const REGION_SIZE_TENTHS: i64 = 19200;

/// Local height coordinates stay within this bound (in tenths).
pub const MAX_HEIGHT_TENTHS: i32 = 10000000;

/// A continuous world coordinate in tenths of a unit, independent of the
/// region grid.
#[derive(Copy, Clone, Eq, PartialEq, Structural, Debug)]
pub struct GlobalLocation {
    pub x_tenths: i64,
    pub y_tenths: i64,
    pub z_tenths: i64,
}

/// Where an entity stands: a region, the offset within it (tenths of a unit),
/// and the facing as a 16-bit wire heading. Mutated only by movement and
/// teleport systems.
#[derive(Copy, Clone, Eq, PartialEq, Structural, Debug)]
pub struct Position {
    pub region: Region,
    pub x_tenths: i32,
    pub y_tenths: i32,
    pub z_tenths: i32,
    pub heading: u16,
}

impl Position {
    /// The local offsets stay within the region and the height bound.
    pub open spec fn wf(&self) -> bool {
        &&& 0 <= self.x_tenths < REGION_SIZE_TENTHS
        &&& 0 <= self.z_tenths < REGION_SIZE_TENTHS
        &&& -MAX_HEIGHT_TENTHS <= self.y_tenths <= MAX_HEIGHT_TENTHS
    }

    /// The continuous coordinate of this position: the region grid cell
    /// offsets the local coordinates on the x/z plane.
    pub open spec fn spec_location(&self) -> GlobalLocation {
        GlobalLocation {
            x_tenths: (self.region.spec_x() * REGION_SIZE_TENTHS + self.x_tenths) as i64,
            y_tenths: self.y_tenths as int as i64,
            z_tenths: (self.region.spec_y() * REGION_SIZE_TENTHS + self.z_tenths) as i64,
        }
    }

    pub fn location(&self) -> (r: GlobalLocation)
        requires
            self.wf(),
        ensures
            r == self.spec_location(),
    {
        let gx = self.region.x() as i64 * REGION_SIZE_TENTHS + self.x_tenths as i64;
        let gz = self.region.y() as i64 * REGION_SIZE_TENTHS + self.z_tenths as i64;
        GlobalLocation { x_tenths: gx, y_tenths: self.y_tenths as i64, z_tenths: gz }
    }

    pub fn as_protocol(&self) -> (r: ProtocolLocation)
        ensures
            r == (ProtocolLocation {
                region: self.region.spec_id(),
                x_tenths: self.x_tenths,
                y_tenths: self.y_tenths,
                z_tenths: self.z_tenths,
            }),
    {
        ProtocolLocation {
            region: self.region.id(),
            x_tenths: self.x_tenths,
            y_tenths: self.y_tenths,
            z_tenths: self.z_tenths,
        }
    }
}

/// Global coordinates produced from well-formed positions stay within this
/// bound (in tenths).
pub open spec fn location_in_bounds(l: GlobalLocation) -> bool {
    &&& -10000000 <= l.x_tenths <= 10000000
    &&& -10000000 <= l.y_tenths <= 10000000
    &&& -10000000 <= l.z_tenths <= 10000000
}

/// A well-formed position converts to a bounded global location.
pub proof fn lemma_location_bounded(p: Position)
    requires
        p.wf(),
    ensures
        location_in_bounds(p.spec_location()),
{
    assert(p.region.spec_x() < 256);
    assert(p.region.spec_y() < 256);
}

/// Recover a grid position from a global location on the grid; the heading
/// is supplied by the caller.
pub fn position_from_global(l: GlobalLocation, heading: u16) -> (r: Position)
    requires
        0 <= l.x_tenths < 256 * REGION_SIZE_TENTHS,
        0 <= l.z_tenths < 256 * REGION_SIZE_TENTHS,
        -MAX_HEIGHT_TENTHS <= l.y_tenths <= MAX_HEIGHT_TENTHS,
    ensures
        r.wf(),
        r.spec_location() == l,
        r.heading == heading,
{
    let rx = (l.x_tenths / REGION_SIZE_TENTHS) as u8;
    let ry = (l.z_tenths / REGION_SIZE_TENTHS) as u8;
    let lx = (l.x_tenths % REGION_SIZE_TENTHS) as i32;
    let lz = (l.z_tenths % REGION_SIZE_TENTHS) as i32;
    proof {
        assert(l.x_tenths == (l.x_tenths / 19200) * 19200 + l.x_tenths % 19200) by (nonlinear_arith);
        assert(l.z_tenths == (l.z_tenths / 19200) * 19200 + l.z_tenths % 19200) by (nonlinear_arith);
        assert((ry as int * 256 + rx as int) % 256 == rx as int) by (nonlinear_arith)
            requires
                0 <= rx < 256 && 0 <= ry < 256,
        ;
        assert((ry as int * 256 + rx as int) / 256 == ry as int) by (nonlinear_arith)
            requires
                0 <= rx < 256 && 0 <= ry < 256,
        ;
    }
    let region = crate::region::Region::from_xy(rx, ry);
    Position { region, x_tenths: lx, y_tenths: l.y_tenths as i32, z_tenths: lz, heading }
}

/// The squared straight-line distance between two global locations, in
/// squared tenths of a unit.
pub open spec fn spec_distance_squared(a: GlobalLocation, b: GlobalLocation) -> int {
    (a.x_tenths - b.x_tenths) * (a.x_tenths - b.x_tenths) + (a.y_tenths - b.y_tenths) * (a.y_tenths
        - b.y_tenths) + (a.z_tenths - b.z_tenths) * (a.z_tenths - b.z_tenths)
}

pub fn distance_squared(a: GlobalLocation, b: GlobalLocation) -> (r: i64)
    requires
        location_in_bounds(a),
        location_in_bounds(b),
    ensures
        r == spec_distance_squared(a, b),
{
    let dx = a.x_tenths - b.x_tenths;
    let dy = a.y_tenths - b.y_tenths;
    let dz = a.z_tenths - b.z_tenths;
    proof {
        assert(0 <= dx * dx <= 400000000000000int) by (nonlinear_arith)
            requires
                -20000000 <= dx <= 20000000,
        ;
        assert(0 <= dy * dy <= 400000000000000int) by (nonlinear_arith)
            requires
                -20000000 <= dy <= 20000000,
        ;
        assert(0 <= dz * dz <= 400000000000000int) by (nonlinear_arith)
            requires
                -20000000 <= dz <= 20000000,
        ;
    }
    dx * dx + dy * dy + dz * dz
}

} // verus!
