//! The kinematic object under every entity: position, velocity, collision
//! footprint and the falling/jumping state, resolved against a tile map.
use vstd::prelude::*;
use crate::geometry::{BBox, Vec2, UNIT};
use crate::tilemap::{TileMap, TILE_SIZE, EMPTY_SPRITE, lemma_first_hit_is_lowest};

verus! {

/// Bound on the magnitude of an object's position, footprint, insets and
/// velocity at the start of a step (2^40 hundredths).
pub const LIMIT: i64 = 1_099_511_627_776;

/// Bound on the magnitude of a position within or right after a step (2^50
/// hundredths): a step moves by one velocity or snaps next to a cell.
pub const REACH: i64 = 1_125_899_906_842_624;

/// Gap left between an object and the cell it landed on or hit from below.
pub const VERTICAL_MARGIN: i64 = UNIT;

/// Overlap allowed between an object and the cell it ran into sideways.
pub const HORIZONTAL_MARGIN: i64 = 3 * UNIT;

pub open spec fn within(v: i64, bound: i64) -> bool {
    -bound <= v <= bound
}

fn fits_limit(v: i64) -> (r: bool)
    ensures
        r == within(v, LIMIT),
{
    -LIMIT <= v && v <= LIMIT
}

/// Facing of an entity.
#[derive(Clone, Copy, Debug, PartialEq, Eq, Structural)]
pub enum Direction {
    Left,
    Right,
}

/// Insets that turn a sprite footprint into the smaller collision box: the
/// box is moved by (`x`, `y`) and shrunk by (`width`, `height`).
#[derive(Clone, Copy, Debug, PartialEq, Eq, Structural)]
pub struct Transform {
    pub x: i64,
    pub y: i64,
    pub width: i64,
    pub height: i64,
}

impl Transform {
    pub fn new(x: i64, y: i64, width: i64, height: i64) -> (r: Transform)
        ensures
            r == (Transform { x, y, width, height }),
    {
        Transform { x, y, width, height }
    }
}

/// Position and physics state of an entity. The y axis points down the
/// screen; a positive `velocity.y` moves the object up.
#[derive(Clone, Copy, Debug, PartialEq, Eq, Structural)]
pub struct Object {
    pub pos: Vec2,
    /// Footprint of the sprite.
    pub bounds: Vec2,
    pub transform: Transform,
    pub velocity: Vec2,
    pub is_falling: bool,
    pub is_jumping: bool,
    pub is_running: bool,
    pub direction: Direction,
}

impl Object {
    /// Footprint and insets are small enough for every step's arithmetic.
    pub open spec fn shape_ok(self) -> bool {
        &&& within(self.bounds.x, LIMIT)
        &&& within(self.bounds.y, LIMIT)
        &&& within(self.transform.x, LIMIT)
        &&& within(self.transform.y, LIMIT)
        &&& within(self.transform.width, LIMIT)
        &&& within(self.transform.height, LIMIT)
    }

    /// The collision box of this object can be computed.
    pub open spec fn in_reach(self) -> bool {
        &&& self.shape_ok()
        &&& within(self.pos.x, REACH)
        &&& within(self.pos.y, REACH)
    }

    /// All quantities are small enough for one physics step.
    pub open spec fn wf(self) -> bool {
        &&& self.shape_ok()
        &&& within(self.pos.x, LIMIT)
        &&& within(self.pos.y, LIMIT)
        &&& within(self.velocity.x, LIMIT)
        &&& within(self.velocity.y, LIMIT)
    }

    /// `b` with the insets applied.
    pub open spec fn inset(self, b: BBox) -> BBox {
        BBox {
            pos: Vec2 {
                x: (b.pos.x + self.transform.x) as i64,
                y: (b.pos.y + self.transform.y) as i64,
            },
            size: Vec2 {
                x: (b.size.x - self.transform.width) as i64,
                y: (b.size.y - self.transform.height) as i64,
            },
        }
    }

    /// The collision box: the footprint at `pos` with the insets applied.
    pub open spec fn collision_box(self) -> BBox {
        self.inset(BBox { pos: self.pos, size: self.bounds })
    }

    /// The collision box moved down by one cell: where ground is looked for.
    pub open spec fn probe_box(self) -> BBox {
        let b = self.collision_box();
        BBox { pos: Vec2 { x: b.pos.x, y: (b.pos.y + TILE_SIZE) as i64 }, size: b.size }
    }

    /// Vertical correction after running into cell box `hit`, if any.
    pub open spec fn resolve_y(self, hit: Option<BBox>) -> Object {
        match hit {
            None => self,
            Some(t) => {
                let v = Vec2 { x: self.velocity.x, y: 0 };
                if self.is_falling {
                    Object {
                        pos: Vec2 {
                            x: self.pos.x,
                            y: (t.pos.y - self.bounds.y - VERTICAL_MARGIN) as i64,
                        },
                        velocity: v,
                        is_falling: false,
                        ..self
                    }
                } else if self.is_jumping {
                    Object {
                        pos: Vec2 {
                            x: self.pos.x,
                            y: (t.pos.y + t.size.y + VERTICAL_MARGIN) as i64,
                        },
                        velocity: v,
                        is_jumping: false,
                        is_falling: true,
                        ..self
                    }
                } else {
                    Object { velocity: v, ..self }
                }
            },
        }
    }

    /// Horizontal correction after running into cell box `hit`, if any.
    pub open spec fn resolve_x(self, hit: Option<BBox>) -> Object {
        match hit {
            None => self,
            Some(t) => {
                let x = if self.velocity.x < 0 {
                    t.pos.x + t.size.x - HORIZONTAL_MARGIN
                } else {
                    t.pos.x - self.bounds.x + HORIZONTAL_MARGIN
                };
                Object {
                    pos: Vec2 { x: x as i64, y: self.pos.y },
                    velocity: Vec2 { x: 0, y: self.velocity.y },
                    ..self
                }
            },
        }
    }

    /// The vertical sub-step: move by the vertical velocity, then correct.
    pub open spec fn step_y(self, map: TileMap) -> Object {
        let moved = Object {
            pos: Vec2 { x: self.pos.x, y: (self.pos.y - self.velocity.y) as i64 },
            ..self
        };
        moved.resolve_y(map.first_hit(moved.collision_box()))
    }

    /// The horizontal sub-step: move by the horizontal velocity, then correct.
    pub open spec fn step_x(self, map: TileMap) -> Object {
        let moved = Object {
            pos: Vec2 { x: (self.pos.x + self.velocity.x) as i64, y: self.pos.y },
            ..self
        };
        moved.resolve_x(map.first_hit(moved.collision_box()))
    }

    /// One physics step: the vertical axis first, then the horizontal one.
    pub open spec fn stepped(self, map: TileMap) -> Object {
        self.step_y(map).step_x(map)
    }

    /// Idempotence of a step at rest: an object with zero velocity whose
    /// collision box overlaps no solid cell stays exactly as it is.
    pub proof fn lemma_rest_is_fixed(self, map: TileMap)
        requires
            self.wf(),
            map.wf(),
            self.velocity == (Vec2 { x: 0, y: 0 }),
            map.first_hit(self.collision_box()) is None,
        ensures
            self.stepped(map) == self,
            self.stepped(map).pos == self.pos,
    {
    }

    /// The object that `new` returns.
    pub open spec fn new_spec() -> Object {
        Object {
            pos: Vec2 { x: 0, y: 0 },
            bounds: Vec2 { x: 0, y: 0 },
            transform: Transform { x: 0, y: 0, width: 0, height: 0 },
            velocity: Vec2 { x: 0, y: 0 },
            is_falling: false,
            is_jumping: false,
            is_running: false,
            direction: Direction::Right,
        }
    }

    /// An object at rest at the origin with no footprint, facing right.
    pub fn new() -> (r: Object)
        ensures
            r == Object::new_spec(),
            r.wf(),
    {
        Object {
            pos: Vec2::new(0, 0),
            bounds: Vec2::new(0, 0),
            transform: Transform::new(0, 0, 0, 0),
            velocity: Vec2::new(0, 0),
            is_falling: false,
            is_jumping: false,
            is_running: false,
            direction: Direction::Right,
        }
    }

    /// Whether every quantity is small enough for one physics step.
    pub fn fits_step(&self) -> (r: bool)
        ensures
            r == self.wf(),
    {
        fits_limit(self.bounds.x) && fits_limit(self.bounds.y) && fits_limit(self.transform.x)
            && fits_limit(self.transform.y) && fits_limit(self.transform.width) && fits_limit(
            self.transform.height,
        ) && fits_limit(self.pos.x) && fits_limit(self.pos.y) && fits_limit(self.velocity.x)
            && fits_limit(self.velocity.y)
    }

    /// Box of the lowest-index solid cell of `map` that `bbox` overlaps.
    pub fn collided(bbox: &BBox, map: &TileMap) -> (r: Option<BBox>)
        requires
            map.wf(),
        ensures
            r == map.first_hit(*bbox),
    {
        let mut i: usize = 0;
        while i < map.tiles.len()
            invariant
                map.wf(),
                i <= map.tiles@.len(),
                map.first_hit(*bbox) == map.first_hit_from(*bbox, i as int),
            decreases map.tiles@.len() - i,
        {
            let tile = &map.tiles[i];
            if tile.id != EMPTY_SPRITE {
                let other = map.tile_bbox(i);
                if bbox.intersects(&other) {
                    return Some(other);
                }
            }
            i = i + 1;
        }
        None
    }

    /// The collision box of the object.
    pub fn get_bbox(&self) -> (r: BBox)
        requires
            self.in_reach(),
        ensures
            r == self.collision_box(),
    {
        let bbox = BBox { pos: self.pos, size: self.bounds };
        self.apply_transform(bbox)
    }

    /// Applies the insets to `bbox`.
    fn apply_transform(&self, bbox: BBox) -> (r: BBox)
        requires
            self.shape_ok(),
            within(bbox.pos.x, REACH),
            within(bbox.pos.y, REACH),
            within(bbox.size.x, LIMIT),
            within(bbox.size.y, LIMIT),
        ensures
            r == self.inset(bbox),
    {
        let mut bbox = bbox;
        bbox.pos.x = bbox.pos.x + self.transform.x;
        bbox.size.x = bbox.size.x - self.transform.width;
        bbox.pos.y = bbox.pos.y + self.transform.y;
        bbox.size.y = bbox.size.y - self.transform.height;
        bbox
    }

    /// Moves the object by its velocity, one axis at a time (vertical first),
    /// and corrects each move that ends inside a solid cell.
    pub fn update(&mut self, map: &TileMap)
        requires
            old(self).wf(),
            map.wf(),
        ensures
            *final(self) == old(self).stepped(*map),
            final(self).in_reach(),
    {
        self.pos.y = self.pos.y - self.velocity.y;
        let bbox = self.get_bbox();
        self.handle_collision_y(&bbox, map);
        self.pos.x = self.pos.x + self.velocity.x;
        let bbox = self.get_bbox();
        self.handle_collision_x(&bbox, map);
    }

    fn handle_collision_x(&mut self, bbox: &BBox, map: &TileMap)
        requires
            old(self).in_reach(),
            map.wf(),
        ensures
            *final(self) == old(self).resolve_x(map.first_hit(*bbox)),
            final(self).in_reach(),
    {
        proof {
            lemma_first_hit_is_lowest(*map, *bbox);
        }
        if let Some(collision) = Object::collided(bbox, map) {
            if self.velocity.x < 0 {
                self.pos.x = collision.pos.x + collision.size.x - HORIZONTAL_MARGIN;
            } else {
                self.pos.x = collision.pos.x - self.bounds.x + HORIZONTAL_MARGIN;
            }
            self.velocity.x = 0;
        }
    }

    fn handle_collision_y(&mut self, bbox: &BBox, map: &TileMap)
        requires
            old(self).in_reach(),
            map.wf(),
        ensures
            *final(self) == old(self).resolve_y(map.first_hit(*bbox)),
            final(self).in_reach(),
    {
        proof {
            lemma_first_hit_is_lowest(*map, *bbox);
        }
        if let Some(collision) = Object::collided(bbox, map) {
            if self.is_falling {
                self.pos.y = collision.pos.y - self.bounds.y - VERTICAL_MARGIN;
                self.is_falling = false;
            } else if self.is_jumping {
                self.pos.y = collision.pos.y + collision.size.y + VERTICAL_MARGIN;
                self.is_jumping = false;
                self.is_falling = true;
            }
            self.velocity.y = 0;
        }
    }
}

} // verus!
