//! The scene model: walls, the light, and the `World` aggregate, together
//! with the color-resolution step performed once at load time and the
//! occlusion lookup that finds which wall (if any) covers a sample point.

use vstd::prelude::*;

use crate::color::Color;
use crate::geometry::Vec2;
use crate::geometry::in_coord_bound;
use crate::geometry::near_segment;
use crate::geometry::near_spec;

verus! {

/// Resolution of a raw stored color tuple `(r, g, b, a)` into the engine's
/// color value, performed once when the scene is loaded.
pub open spec fn resolve_color(raw: (u8, u8, u8, u8)) -> Color {
    Color { r: raw.0, g: raw.1, b: raw.2, a: raw.3 }
}

/// An immutable opaque obstacle: a line segment with an attenuation color.
/// `raw_color` is the tuple as stored in the scene input; `color` is the
/// resolved value, derived once at load time by [`Wall::load_colors`] and
/// never mutated afterward.
#[derive(Clone, Copy, Debug)]
pub struct Wall {
    pub raw_color: (u8, u8, u8, u8),
    pub color: Color,
    pub start: Vec2,
    pub end: Vec2,
}

impl Wall {
    /// Both endpoints are within the engine's coordinate bound.
    pub open spec fn wf(&self) -> bool {
        &&& in_coord_bound(self.start)
        &&& in_coord_bound(self.end)
    }

    /// Resolve the raw stored color tuple into the wall's color field,
    /// leaving every other field unchanged.
    pub fn load_colors(&mut self)
        ensures
            final(self).color == resolve_color(old(self).raw_color),
            final(self).raw_color == old(self).raw_color,
            final(self).start == old(self).start,
            final(self).end == old(self).end,
    {
        self.color =
        Color {
            r: self.raw_color.0,
            g: self.raw_color.1,
            b: self.raw_color.2,
            a: self.raw_color.3,
        };
    }
}

/// The ray-emission origin: a position, a base color, and whether the
/// position is pinned (`fixed`) or fed from outside between sweeps. The
/// engine only ever reads `position` and `color`; it never mutates a Light.
#[derive(Clone, Copy, Debug)]
pub struct Light {
    pub fixed: bool,
    pub raw_color: (u8, u8, u8, u8),
    pub color: Color,
    pub position: Vec2,
}

impl Light {
    /// Resolve the raw stored color tuple into the light's color field,
    /// leaving every other field unchanged.
    pub fn load_colors(&mut self)
        ensures
            final(self).color == resolve_color(old(self).raw_color),
            final(self).raw_color == old(self).raw_color,
            final(self).position == old(self).position,
            final(self).fixed == old(self).fixed,
    {
        self.color =
        Color {
            r: self.raw_color.0,
            g: self.raw_color.1,
            b: self.raw_color.2,
            a: self.raw_color.3,
        };
    }
}

/// The immutable snapshot of all walls and the light for one trace pass.
/// Wall order matters only for the occlusion tie-break: the first wall in
/// collection order whose probe covers a sample point wins.
#[derive(Debug)]
pub struct World {
    pub walls: Vec<Wall>,
    pub light: Light,
}

/// The wall `w` with its color resolved from its raw tuple.
pub open spec fn wall_loaded(w: Wall) -> Wall {
    Wall { color: resolve_color(w.raw_color), ..w }
}

impl World {
    /// Every wall's endpoints are within the engine's coordinate bound.
    pub open spec fn wf(&self) -> bool {
        forall|i: int| 0 <= i < self.walls@.len() ==> (#[trigger] self.walls@[i]).wf()
    }

    /// Resolve the stored raw color tuples of every wall and of the light,
    /// leaving all geometry unchanged. Performed once when the world is
    /// constructed from external input.
    pub fn load_colors(&mut self)
        ensures
            final(self).walls@.len() == old(self).walls@.len(),
            forall|i: int|
                0 <= i < old(self).walls@.len() ==> final(self).walls@[i] == wall_loaded(
                    #[trigger] old(self).walls@[i],
                ),
            final(self).light.color == resolve_color(old(self).light.raw_color),
            final(self).light.raw_color == old(self).light.raw_color,
            final(self).light.position == old(self).light.position,
            final(self).light.fixed == old(self).light.fixed,
    {
        let n = self.walls.len();
        let mut loaded: Vec<Wall> = Vec::new();
        let mut i: usize = 0;
        while i < n
            invariant
                n == self.walls@.len(),
                0 <= i <= n,
                loaded@.len() == i as int,
                forall|j: int|
                    0 <= j < i as int ==> loaded@[j] == wall_loaded(#[trigger] self.walls@[j]),
            decreases n - i,
        {
            let mut w = self.walls[i];
            w.load_colors();
            loaded.push(w);
            i += 1;
        }
        self.walls = loaded;
        self.light.load_colors();
    }
}

/// The color modifier that the scene assigns to the sample point `(px, py)`,
/// searching the walls from index `i` onward: the resolved color of the
/// first wall whose occlusion probe covers the point, else the sentinel
/// "no occlusion" black.
pub open spec fn modifier_from(walls: Seq<Wall>, px: int, py: int, i: int) -> Color
    decreases walls.len() - i,
{
    if i < 0 || i >= walls.len() {
        Color::black_spec()
    } else if near_spec(px, py, walls[i].start, walls[i].end) {
        walls[i].color
    } else {
        modifier_from(walls, px, py, i + 1)
    }
}

/// The color modifier of a sample point: first match in wall-collection
/// order wins; no match yields the sentinel black.
pub open spec fn modifier_spec(walls: Seq<Wall>, px: int, py: int) -> Color {
    modifier_from(walls, px, py, 0)
}

/// Whether the occlusion probe for `point` covers the wall's segment.
pub fn find_intersect(wall: &Wall, point: Vec2) -> (hit: bool)
    requires
        wall.wf(),
        in_coord_bound(point),
    ensures
        hit == near_spec(point.x as int, point.y as int, wall.start, wall.end),
{
    near_segment(point.x, point.y, wall.start, wall.end)
}

/// Search all walls in collection order and return the color of the first
/// one whose occlusion probe covers `pixel`; with no match, the sentinel
/// "no occlusion" black.
pub fn get_color_modifier_of_pixel(pixel: Vec2, world: &World) -> (c: Color)
    requires
        world.wf(),
        in_coord_bound(pixel),
    ensures
        c == modifier_spec(world.walls@, pixel.x as int, pixel.y as int),
{
    let n = world.walls.len();
    let mut i: usize = 0;
    while i < n
        invariant
            n == world.walls@.len(),
            0 <= i <= n,
            world.wf(),
            in_coord_bound(pixel),
            modifier_spec(world.walls@, pixel.x as int, pixel.y as int) == modifier_from(
                world.walls@,
                pixel.x as int,
                pixel.y as int,
                i as int,
            ),
        decreases n - i,
    {
        if find_intersect(&world.walls[i], pixel) {
            return world.walls[i].color;
        }
        i += 1;
    }
    Color::black()
}

} // verus!
