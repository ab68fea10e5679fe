//! Enemies: kinematic objects driven by a per-kind behaviour.
use vstd::prelude::*;
use crate::geometry::Vec2;
use crate::object::{Direction, Object, LIMIT, within};
use crate::tilemap::TileMap;

verus! {

/// Horizontal speed a goomba gains per tick toward its facing (0.1 units).
pub const GOOMBA_ACCELERATION: i64 = 10;

/// Kinds of enemy.
#[allow(non_camel_case_types)]
#[derive(Clone, Copy, Debug, PartialEq, Eq, Structural)]
pub enum EnemyType {
    GOOMBA,
}

#[derive(Clone, Copy, Debug, PartialEq, Eq, Structural)]
pub struct Enemy {
    pub obj: Object,
    pub enemy_type: EnemyType,
}

/// Horizontal velocity of a goomba after one tick.
pub open spec fn goomba_velocity(o: Object) -> int {
    match o.direction {
        Direction::Left => o.velocity.x - GOOMBA_ACCELERATION,
        Direction::Right => o.velocity.x + GOOMBA_ACCELERATION,
    }
}

impl Enemy {
    /// A goomba at the origin with a 16-unit footprint.
    pub fn new_goomba() -> (r: Enemy)
        ensures
            r.enemy_type == EnemyType::GOOMBA,
            r.obj == (Object {
                bounds: Vec2 { x: 1600, y: 1600 },
                pos: Vec2 { x: 0, y: 0 },
                ..Object::new_spec()
            }),
    {
        let mut obj = Object::new();
        obj.bounds = Vec2::new(1600, 1600);
        obj.pos = Vec2::new(0, 0);
        Enemy { obj, enemy_type: EnemyType::GOOMBA }
    }

    /// One tick of the enemy's behaviour.
    pub fn update(&mut self, map: &TileMap)
        requires
            within(old(self).obj.velocity.x, LIMIT),
        ensures
            final(self).enemy_type == old(self).enemy_type,
            final(self).obj == (Object {
                velocity: Vec2 { x: goomba_velocity(old(self).obj) as i64, y: old(self).obj.velocity.y },
                ..old(self).obj
            }),
    {
        match self.enemy_type {
            EnemyType::GOOMBA => self.update_goomba(map),
        }
    }

    /// A goomba speeds up toward the way it faces.
    fn update_goomba(&mut self, _map: &TileMap)
        requires
            within(old(self).obj.velocity.x, LIMIT),
        ensures
            final(self).enemy_type == old(self).enemy_type,
            final(self).obj == (Object {
                velocity: Vec2 { x: goomba_velocity(old(self).obj) as i64, y: old(self).obj.velocity.y },
                ..old(self).obj
            }),
    {
        match self.obj.direction {
            Direction::Left => {
                self.obj.velocity.x = self.obj.velocity.x - GOOMBA_ACCELERATION;
            },
            Direction::Right => {
                self.obj.velocity.x = self.obj.velocity.x + GOOMBA_ACCELERATION;
            },
        }
    }
}

} // verus!
