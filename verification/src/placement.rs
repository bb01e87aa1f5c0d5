//! Where the hints window is put when it is created: near the right edge of the screen, a
//! little away from the edges.

use crate::{get_offset_from_edge, offset_from_edge};
use crate::{FROM_EDGE_MIN, FROM_EDGE_PROPORTION, HEIGHT, WIDTH};
use vstd::prelude::*;

verus! {

/// Position and size of a window that is to be created.
#[derive(Debug, Clone, Copy, PartialEq, Eq, Structural)]
pub struct Placement {
    pub x: u32,
    pub y: u32,
    pub width: u32,
    pub height: u32,
}

/// Distance that the window keeps from the edge of a screen that is `size` wide (or high).
pub open spec fn edge_offset(size: u32) -> int {
    offset_from_edge(size as int, FROM_EDGE_PROPORTION as int, FROM_EDGE_MIN as int)
}

/// A screen of this width has room for the window and its distance from the right edge.
pub open spec fn has_room(screen_width: u32) -> bool {
    edge_offset(screen_width) + WIDTH <= screen_width
}

/// Whether a screen of this width has room for the window and its distance from the right
/// edge: it has from a width of 421 on.
pub fn screen_has_room(screen_width: u32) -> (room: bool)
    ensures
        room == has_room(screen_width),
        room <==> screen_width >= 421,
{
    let offset: u32 = get_offset_from_edge(screen_width, FROM_EDGE_PROPORTION, FROM_EDGE_MIN);
    offset + WIDTH <= screen_width
}

/// Placement of the window inside the simulator: its right edge keeps the horizontal
/// distance from the right edge of the screen, and it stands at twice the vertical distance.
pub fn xplane_placement(screen_width: u32, screen_height: u32) -> (placement: Placement)
    requires
        has_room(screen_width),
    ensures
        placement.x == screen_width - edge_offset(screen_width) - WIDTH,
        placement.y == 2 * edge_offset(screen_height),
        placement.width == WIDTH,
        placement.height == HEIGHT,
{
    let horiz_offset: u32 = get_offset_from_edge(
        screen_width,
        FROM_EDGE_PROPORTION,
        FROM_EDGE_MIN,
    );
    let vert_offset: u32 = get_offset_from_edge(screen_height, FROM_EDGE_PROPORTION, FROM_EDGE_MIN);
    Placement {
        x: screen_width - horiz_offset - WIDTH,
        y: vert_offset * 2,
        width: WIDTH,
        height: HEIGHT,
    }
}

/// Placement of the window on the desktop: its right edge keeps the horizontal distance
/// from the right edge of the screen, and it stands at the vertical distance and the
/// largest distance together.
pub fn standalone_placement(screen_width: u32, screen_height: u32) -> (placement: Placement)
    requires
        has_room(screen_width),
    ensures
        placement.x == screen_width - edge_offset(screen_width) - WIDTH,
        placement.y == edge_offset(screen_height) + FROM_EDGE_MIN,
        placement.width == WIDTH,
        placement.height == HEIGHT,
{
    let horiz_offset: u32 = get_offset_from_edge(
        screen_width,
        FROM_EDGE_PROPORTION,
        FROM_EDGE_MIN,
    );
    let vert_offset: u32 = get_offset_from_edge(screen_height, FROM_EDGE_PROPORTION, FROM_EDGE_MIN);
    Placement {
        x: screen_width - horiz_offset - WIDTH,
        y: vert_offset + FROM_EDGE_MIN,
        width: WIDTH,
        height: HEIGHT,
    }
}

} // verus!
