//! The player controller: velocity integration from movement intent,
//! the physics step, the ground probe and the animation frame.
use vstd::prelude::*;
use crate::geometry::Vec2;
use crate::object::{Object, Transform};
use crate::tilemap::{TileMap, TILE_SIZE};

verus! {

/// Speed lost to gravity per tick while rising or falling (0.2 units).
pub const GRAVITY: i64 = 20;

/// Lowest vertical velocity while falling (-5 units per tick).
pub const TERMINAL_VELOCITY: i64 = -500;

/// Horizontal speed gained per tick toward the held direction (0.1 units).
pub const ACCELERATION: i64 = 10;

/// Horizontal speed lost per tick when no direction is held (0.15 units).
pub const FRICTION: i64 = 15;

/// Horizontal speed cap while walking (4 units per tick).
pub const MAX_WALK_SPEED: i64 = 400;

/// Horizontal speed cap while running: one and a half times the walking cap.
pub const MAX_RUN_SPEED: i64 = 600;

pub const PLAYER_SPRITE_STANDING: usize = 42;
pub const PLAYER_SPRITE_AIRBORNE: usize = 47;
pub const PLAYER_SPRITE_TURNING: usize = 46;
/// Running frames, in the order they are shown.
pub const PLAYER_SPRITE_RUN_A: usize = 43;
pub const PLAYER_SPRITE_RUN_B: usize = 45;
pub const PLAYER_SPRITE_RUN_C: usize = 44;

/// Where the player appears: (0, 320).
pub const SPAWN_X: i64 = 0;
pub const SPAWN_Y: i64 = 32000;

/// Ticks in one cycle of the running animation.
pub const RUN_CYCLE_LEN: usize = 15;

/// Ticks of the turning frame after a fast reversal.
pub const TURN_CYCLE_LEN: usize = 20;

/// The player: a kinematic object with movement intent and animation state.
#[derive(Clone, Copy, Debug, PartialEq, Eq, Structural)]
pub struct Player {
    pub obj: Object,
    /// Sprite shown this tick.
    pub sprite_id: usize,
    pub moving_left: bool,
    pub moving_right: bool,
    pub run_cycle: usize,
    pub turn_cycle: usize,
}

/// Vertical velocity and airborne state after one tick of gravity: a rising
/// object slows and starts to fall once its velocity drops below zero; a
/// falling one speeds down to the terminal velocity.
pub open spec fn apply_gravity(o: Object) -> Object {
    let o1 = if o.velocity.y > 0 {
        let vy = o.velocity.y - GRAVITY;
        if vy < 0 {
            Object {
                velocity: Vec2 { x: o.velocity.x, y: vy as i64 },
                is_jumping: false,
                is_falling: true,
                ..o
            }
        } else {
            Object { velocity: Vec2 { x: o.velocity.x, y: vy as i64 }, ..o }
        }
    } else {
        o
    };
    if o1.is_falling {
        let vy = o1.velocity.y - GRAVITY;
        let vy = if vy <= TERMINAL_VELOCITY {
            TERMINAL_VELOCITY as int
        } else {
            vy
        };
        Object { velocity: Vec2 { x: o1.velocity.x, y: vy as i64 }, ..o1 }
    } else {
        o1
    }
}

/// Speed cap for the given running state.
pub open spec fn speed_cap(running: bool) -> int {
    if running {
        MAX_RUN_SPEED as int
    } else {
        MAX_WALK_SPEED as int
    }
}

/// Horizontal velocity after one tick of intent: the right intent speeds up
/// toward the cap, else friction slows a rightward motion to no less than
/// zero; then the same for the left, mirrored.
pub open spec fn steer(vx: int, left: bool, right: bool, running: bool) -> int {
    let cap = speed_cap(running);
    let v1 = if right {
        if vx + ACCELERATION > cap {
            cap
        } else {
            vx + ACCELERATION
        }
    } else if vx > 0 {
        if vx - FRICTION < 0 {
            0
        } else {
            vx - FRICTION
        }
    } else {
        vx
    };
    if left {
        if v1 - ACCELERATION < -cap {
            -cap
        } else {
            v1 - ACCELERATION
        }
    } else if v1 < 0 {
        if v1 + FRICTION > 0 {
            0
        } else {
            v1 + FRICTION
        }
    } else {
        v1
    }
}

/// Velocity `v0` after `n` ticks of walking right.
pub open spec fn walk_right(v0: int, n: nat) -> int
    decreases n,
{
    if n == 0 {
        v0
    } else {
        steer(walk_right(v0, (n - 1) as nat), false, true, false)
    }
}

/// Frame of the running animation at cycle position `c`.
pub open spec fn run_sprite(c: int) -> usize {
    if c <= 5 {
        PLAYER_SPRITE_RUN_A
    } else if c <= 10 {
        PLAYER_SPRITE_RUN_B
    } else {
        PLAYER_SPRITE_RUN_C
    }
}

/// Cycle position after `c`: one more, wrapping to zero at the cycle length.
pub open spec fn next_run_cycle(c: int) -> usize {
    if c + 1 >= RUN_CYCLE_LEN {
        0
    } else {
        (c + 1) as usize
    }
}

/// The object after the ground probe: with no solid cell one cell below its
/// collision box, an object that is not jumping falls.
pub open spec fn probe_ground(o: Object, map: TileMap) -> Object {
    if map.first_hit(o.probe_box()) is None && !o.is_jumping {
        Object { is_falling: true, ..o }
    } else {
        o
    }
}

/// Walking right from rest reaches the walking cap, by one acceleration
/// step per tick, and never passes it.
pub proof fn lemma_walk_right_converges(n: nat)
    ensures
        walk_right(0, n) == if n * ACCELERATION >= MAX_WALK_SPEED {
            MAX_WALK_SPEED as int
        } else {
            n * ACCELERATION
        },
        0 <= walk_right(0, n) <= MAX_WALK_SPEED,
    decreases n,
{
    if n > 0 {
        lemma_walk_right_converges((n - 1) as nat);
    }
}

/// Walking right neither running nor holding left, a tick of the player
/// never takes its horizontal velocity above the walking cap.
pub proof fn lemma_walk_speed_capped(p: Player, map: TileMap)
    requires
        p.wf(),
        map.wf(),
        p.moving_right,
        !p.moving_left,
        !p.obj.is_running,
        p.obj.velocity.x <= MAX_WALK_SPEED,
    ensures
        p.stepped(map).obj.velocity.x <= MAX_WALK_SPEED,
{
}

impl Player {
    pub open spec fn wf(self) -> bool {
        self.obj.wf()
    }

    /// The object after gravity and movement intent.
    pub open spec fn accelerated(self) -> Object {
        let o = apply_gravity(self.obj);
        let vx = steer(o.velocity.x as int, self.moving_left, self.moving_right, o.is_running);
        Object { velocity: Vec2 { x: vx as i64, y: o.velocity.y }, ..o }
    }

    /// The animation state derived from the object's motion.
    pub open spec fn animated(self) -> Player {
        if self.obj.is_jumping || self.obj.is_falling {
            Player { sprite_id: PLAYER_SPRITE_AIRBORNE, ..self }
        } else if self.obj.velocity.x != 0 {
            if self.turn_cycle > 0 {
                Player {
                    sprite_id: PLAYER_SPRITE_TURNING,
                    turn_cycle: (self.turn_cycle - 1) as usize,
                    ..self
                }
            } else {
                Player {
                    sprite_id: run_sprite(self.run_cycle as int),
                    run_cycle: next_run_cycle(self.run_cycle as int),
                    ..self
                }
            }
        } else {
            Player { sprite_id: PLAYER_SPRITE_STANDING, ..self }
        }
    }

    /// One tick of the player.
    pub open spec fn stepped(self, map: TileMap) -> Player {
        let o = probe_ground(self.accelerated().stepped(map), map);
        Player { obj: o, ..self }.animated()
    }

    /// The player that `new` returns.
    pub open spec fn new_spec() -> Player {
        Player {
            obj: Object {
                pos: Vec2 { x: SPAWN_X, y: SPAWN_Y },
                bounds: Vec2 { x: 3200, y: 3200 },
                transform: Transform { x: 400, y: 400, width: 800, height: 800 },
                ..Object::new_spec()
            },
            sprite_id: PLAYER_SPRITE_STANDING,
            moving_left: false,
            moving_right: false,
            run_cycle: 0,
            turn_cycle: 0,
        }
    }

    /// The player at its spawn point: a 32-unit footprint with a collision
    /// box inset by 4 units on each side, standing at (0, 320).
    pub fn new() -> (r: Player)
        ensures
            r == Player::new_spec(),
            r.wf(),
    {
        let mut obj = Object::new();
        obj.bounds = Vec2::new(3200, 3200);
        obj.transform = Transform::new(400, 400, 800, 800);
        obj.pos = Vec2::new(SPAWN_X, SPAWN_Y);
        Player {
            obj,
            sprite_id: PLAYER_SPRITE_STANDING,
            moving_left: false,
            moving_right: false,
            run_cycle: 0,
            turn_cycle: 0,
        }
    }

    /// Advances the player by one tick: gravity and intent change the
    /// velocity, the object moves and is corrected against `map`, the ground
    /// below is probed, and the animation frame is chosen.
    pub fn update(&mut self, map: &TileMap)
        requires
            old(self).wf(),
            map.wf(),
        ensures
            *final(self) == old(self).stepped(*map),
            final(self).obj.in_reach(),
            map.first_hit(final(self).obj.probe_box()) is None && !final(self).obj.is_jumping
                ==> final(self).obj.is_falling,
            !(old(self).obj.is_falling && old(self).obj.is_jumping)
                ==> !(final(self).obj.is_falling && final(self).obj.is_jumping),
    {
        self.apply_gravity();
        self.steer();
        self.obj.update(map);
        let mut beneath_bbox = self.obj.get_bbox();
        beneath_bbox.pos.y = beneath_bbox.pos.y + TILE_SIZE;
        if Object::collided(&beneath_bbox, map).is_none() && !self.obj.is_jumping {
            self.obj.is_falling = true;
        }
        self.set_animation();
    }

    fn apply_gravity(&mut self)
        requires
            old(self).wf(),
        ensures
            *final(self) == (Player { obj: apply_gravity(old(self).obj), ..*old(self) }),
            final(self).wf(),
    {
        if self.obj.velocity.y > 0 {
            self.obj.velocity.y = self.obj.velocity.y - GRAVITY;
            if self.obj.velocity.y < 0 {
                self.obj.is_jumping = false;
                self.obj.is_falling = true;
            }
        }
        if self.obj.is_falling {
            self.obj.velocity.y = self.obj.velocity.y - GRAVITY;
            if self.obj.velocity.y <= TERMINAL_VELOCITY {
                self.obj.velocity.y = TERMINAL_VELOCITY;
            }
        }
    }

    fn steer(&mut self)
        requires
            old(self).wf(),
        ensures
            final(self).obj == (Object {
                velocity: Vec2 {
                    x: steer(
                        old(self).obj.velocity.x as int,
                        old(self).moving_left,
                        old(self).moving_right,
                        old(self).obj.is_running,
                    ) as i64,
                    y: old(self).obj.velocity.y,
                },
                ..old(self).obj
            }),
            *final(self) == (Player { obj: final(self).obj, ..*old(self) }),
            final(self).wf(),
    {
        let cap = if self.obj.is_running {
            MAX_RUN_SPEED
        } else {
            MAX_WALK_SPEED
        };
        if self.moving_right {
            self.obj.velocity.x = self.obj.velocity.x + ACCELERATION;
            if self.obj.velocity.x > cap {
                self.obj.velocity.x = cap;
            }
        } else if self.obj.velocity.x > 0 {
            self.obj.velocity.x = self.obj.velocity.x - FRICTION;
            if self.obj.velocity.x < 0 {
                self.obj.velocity.x = 0;
            }
        }
        if self.moving_left {
            self.obj.velocity.x = self.obj.velocity.x - ACCELERATION;
            if self.obj.velocity.x < -cap {
                self.obj.velocity.x = -cap;
            }
        } else if self.obj.velocity.x < 0 {
            self.obj.velocity.x = self.obj.velocity.x + FRICTION;
            if self.obj.velocity.x > 0 {
                self.obj.velocity.x = 0;
            }
        }
    }

    /// Chooses the sprite: airborne, turning (counting the turn down), one of
    /// three running frames (advancing the run cycle), or standing.
    fn set_animation(&mut self)
        ensures
            *final(self) == old(self).animated(),
    {
        self.sprite_id = PLAYER_SPRITE_STANDING;
        if self.obj.is_jumping || self.obj.is_falling {
            self.sprite_id = PLAYER_SPRITE_AIRBORNE;
        } else if self.obj.velocity.x != 0 {
            if self.turn_cycle > 0 {
                self.sprite_id = PLAYER_SPRITE_TURNING;
                self.turn_cycle = self.turn_cycle - 1;
                return;
            }
            self.sprite_id = if self.run_cycle <= 5 {
                PLAYER_SPRITE_RUN_A
            } else if self.run_cycle <= 10 {
                PLAYER_SPRITE_RUN_B
            } else {
                PLAYER_SPRITE_RUN_C
            };
            self.run_cycle = if self.run_cycle >= RUN_CYCLE_LEN - 1 {
                0
            } else {
                self.run_cycle + 1
            };
        }
    }
}

} // verus!
