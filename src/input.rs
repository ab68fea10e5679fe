//! What each key does, in the editor and in play.
use vstd::prelude::*;
use crate::geometry::Vec2;
use crate::object::{Direction, Object};
use crate::player::{Player, SPAWN_X, SPAWN_Y, TURN_CYCLE_LEN};
use crate::state::{GameMode, Key, MainState};
use crate::tilemap::{Tile, EMPTY_SPRITE};

verus! {

/// Ids at or above which stepping a cell's id down resets it to zero.
pub const TILE_ID_RESET: usize = 1000;

/// Horizontal speed against the new direction above which reversing shows
/// the turning frame (3 units per tick).
pub const TURN_SPEED: i64 = 300;

/// Upward velocity of a jump from standing (6 units per tick).
pub const JUMP_VELOCITY: i64 = 600;

/// Editor cursor after `key`: right and down wrap around the whole grid,
/// left stops at the first cell, up wraps to the same column of the last row.
pub open spec fn cursor_after(index: int, key: Key, cols: int, len: int) -> int {
    match key {
        Key::D => (index + 1) % len,
        Key::A => if index > 0 {
            index - 1
        } else {
            index
        },
        Key::S => (index + cols) % len,
        Key::W => if index < cols {
            index - cols + len
        } else {
            index - cols
        },
        _ => index,
    }
}

/// Id of the selected cell after `key`: up steps to the next id, wrapping to
/// zero at the empty id; down steps back, resetting ids from the reset bound
/// on to zero; X clears the cell.
pub open spec fn tile_id_after(id: int, key: Key) -> usize {
    match key {
        Key::Up => if id + 1 >= EMPTY_SPRITE {
            0
        } else {
            (id + 1) as usize
        },
        Key::Down => {
            let d = if id > 0 {
                id - 1
            } else {
                id
            };
            if d >= TILE_ID_RESET {
                0
            } else {
                d as usize
            }
        },
        Key::X => EMPTY_SPRITE,
        _ => id as usize,
    }
}

/// Upward velocity of a jump: the standing jump plus one and a half times
/// the horizontal speed measured in walking caps (3/8 of it, rounded down).
pub open spec fn jump_velocity(vx: int) -> int {
    let a = if vx < 0 {
        -vx
    } else {
        vx
    };
    JUMP_VELOCITY + a * 3 / 8
}

/// The player after `key` goes down in play.
pub open spec fn pressed(p: Player, key: Key) -> Player {
    match key {
        Key::D => Player {
            moving_right: true,
            obj: Object { direction: Direction::Right, ..p.obj },
            turn_cycle: if p.obj.velocity.x <= -TURN_SPEED {
                TURN_CYCLE_LEN
            } else {
                p.turn_cycle
            },
            ..p
        },
        Key::A => Player {
            moving_left: true,
            obj: Object { direction: Direction::Left, ..p.obj },
            turn_cycle: if p.obj.velocity.x >= TURN_SPEED {
                TURN_CYCLE_LEN
            } else {
                p.turn_cycle
            },
            ..p
        },
        Key::Space => if !p.obj.is_jumping && !p.obj.is_falling {
            Player {
                obj: Object {
                    is_jumping: true,
                    velocity: Vec2 {
                        x: p.obj.velocity.x,
                        y: jump_velocity(p.obj.velocity.x as int) as i64,
                    },
                    ..p.obj
                },
                ..p
            }
        } else {
            p
        },
        Key::LShift => Player { obj: Object { is_running: true, ..p.obj }, ..p },
        _ => p,
    }
}

/// The player after `key` goes up in play: a released jump stops rising.
pub open spec fn released(p: Player, key: Key) -> Player {
    match key {
        Key::D => Player { moving_right: false, ..p },
        Key::A => Player { moving_left: false, ..p },
        Key::Space => if p.obj.is_jumping {
            Player {
                obj: Object {
                    is_jumping: false,
                    is_falling: true,
                    velocity: Vec2 { x: p.obj.velocity.x, y: 0 },
                    ..p.obj
                },
                ..p
            }
        } else {
            p
        },
        Key::LShift => Player { obj: Object { is_running: false, ..p.obj }, ..p },
        _ => p,
    }
}

/// The mode after `key`: F1 switches between editing and play.
pub open spec fn mode_after(mode: GameMode, key: Key) -> GameMode {
    if key == Key::F1 {
        if mode == GameMode::Editor {
            GameMode::Play
        } else {
            GameMode::Editor
        }
    } else {
        mode
    }
}

/// The player after `key`, before the mode's own handling: R respawns it.
pub open spec fn respawned(p: Player, key: Key) -> Player {
    if key == Key::R {
        Player { obj: Object { pos: Vec2 { x: SPAWN_X, y: SPAWN_Y }, ..p.obj }, ..p }
    } else {
        p
    }
}

impl MainState {
    /// The cells after `key` in the editor.
    pub open spec fn edited_tiles(&self, key: Key) -> Seq<Tile> {
        let i = self.editor.index as int;
        let t = self.map.tiles@[i];
        self.map.tiles@.update(i, Tile { active: t.active, id: tile_id_after(t.id as int, key) })
    }

    /// The cursor after `key` in the editor.
    pub open spec fn edited_cursor(&self, key: Key) -> int {
        cursor_after(
            self.editor.index as int,
            key,
            self.map.dimensions.0 as int,
            self.map.tiles@.len() as int,
        )
    }

    /// Handles a key going down in the editor: moves the cursor or changes
    /// the selected cell.
    pub fn key_down_editor(&mut self, key: Key)
        requires
            old(self).wf(),
        ensures
            final(self).wf(),
            final(self).map.dimensions == old(self).map.dimensions,
            final(self).map.tiles@ == old(self).edited_tiles(key),
            final(self).editor.index == old(self).edited_cursor(key),
            final(self).mode == old(self).mode,
            final(self).player == old(self).player,
            final(self).enemies == old(self).enemies,
    {
        let len = self.map.tiles.len();
        let cols = self.map.dimensions.0 as usize;
        let i = self.editor.index;
        proof {
            let r = self.map.dimensions.1 as int;
            assert(cols as int <= len) by (nonlinear_arith)
                requires
                    len == cols as int * r,
                    len > 0,
                    r >= 0,
            ;
        }
        let id = self.map.tiles[i].id;
        match key {
            Key::D => {
                self.editor.index = (i + 1) % len;
            },
            Key::A => {
                if i > 0 {
                    self.editor.index = i - 1;
                }
            },
            Key::S => {
                self.editor.index = ((i as u128 + cols as u128) % (len as u128)) as usize;
            },
            Key::W => {
                self.editor.index = if i < cols {
                    i + (len - cols)
                } else {
                    i - cols
                };
            },
            Key::Up => {
                let next = if id >= EMPTY_SPRITE - 1 {
                    0
                } else {
                    id + 1
                };
                self.map.set_tile_id(i, next);
            },
            Key::Down => {
                let mut prev = id;
                if prev > 0 {
                    prev = prev - 1;
                }
                if prev >= TILE_ID_RESET {
                    prev = 0;
                }
                self.map.set_tile_id(i, prev);
            },
            Key::X => {
                self.map.set_tile_id(i, EMPTY_SPRITE);
            },
            _ => {},
        }
        assert(self.map.tiles@ =~= old(self).edited_tiles(key));
    }

    /// Handles a key going down in play; a repeated key does nothing.
    pub fn key_down_play(&mut self, key: Key, repeat: bool)
        ensures
            final(self).player == if repeat {
                old(self).player
            } else {
                pressed(old(self).player, key)
            },
            final(self).map == old(self).map,
            final(self).mode == old(self).mode,
            final(self).editor == old(self).editor,
            final(self).enemies == old(self).enemies,
    {
        if repeat {
            return;
        }
        match key {
            Key::D => {
                self.player.moving_right = true;
                self.player.obj.direction = Direction::Right;
                if self.player.obj.velocity.x <= -TURN_SPEED {
                    self.player.turn_cycle = TURN_CYCLE_LEN;
                }
            },
            Key::A => {
                self.player.moving_left = true;
                self.player.obj.direction = Direction::Left;
                if self.player.obj.velocity.x >= TURN_SPEED {
                    self.player.turn_cycle = TURN_CYCLE_LEN;
                }
            },
            Key::Space => {
                if !self.player.obj.is_jumping && !self.player.obj.is_falling {
                    self.player.obj.is_jumping = true;
                    let vx = self.player.obj.velocity.x as i128;
                    let speed: i128 = if vx < 0 {
                        -vx
                    } else {
                        vx
                    };
                    self.player.obj.velocity.y = (JUMP_VELOCITY as i128 + speed * 3 / 8) as i64;
                }
            },
            Key::LShift => {
                self.player.obj.is_running = true;
            },
            _ => {},
        }
    }

    /// Handles a key going up in play; a repeated key does nothing.
    pub fn key_up_play(&mut self, key: Key, repeat: bool)
        ensures
            final(self).player == if repeat {
                old(self).player
            } else {
                released(old(self).player, key)
            },
            final(self).map == old(self).map,
            final(self).mode == old(self).mode,
            final(self).editor == old(self).editor,
            final(self).enemies == old(self).enemies,
    {
        if repeat {
            return;
        }
        match key {
            Key::D => {
                self.player.moving_right = false;
            },
            Key::A => {
                self.player.moving_left = false;
            },
            Key::Space => {
                if self.player.obj.is_jumping {
                    self.player.obj.is_jumping = false;
                    self.player.obj.is_falling = true;
                    self.player.obj.velocity.y = 0;
                }
            },
            Key::LShift => {
                self.player.obj.is_running = false;
            },
            _ => {},
        }
    }

    /// Handles a key going down: F1 switches mode and R respawns the player,
    /// then the key goes to the editor or to play, by the new mode.
    pub fn key_down_event(&mut self, key: Key, repeat: bool)
        requires
            old(self).wf(),
        ensures
            final(self).wf(),
            final(self).mode == mode_after(old(self).mode, key),
            final(self).enemies == old(self).enemies,
            final(self).mode == GameMode::Editor ==> {
                &&& final(self).map.dimensions == old(self).map.dimensions
                &&& final(self).map.tiles@ == old(self).edited_tiles(key)
                &&& final(self).editor.index == old(self).edited_cursor(key)
                &&& final(self).player == respawned(old(self).player, key)
            },
            final(self).mode == GameMode::Play ==> {
                &&& final(self).map == old(self).map
                &&& final(self).editor == old(self).editor
                &&& final(self).player == if repeat {
                    respawned(old(self).player, key)
                } else {
                    pressed(respawned(old(self).player, key), key)
                }
            },
    {
        match key {
            Key::F1 => {
                if self.mode == GameMode::Editor {
                    self.mode = GameMode::Play;
                } else {
                    self.mode = GameMode::Editor;
                }
            },
            Key::R => {
                self.player.obj.pos = Vec2::new(SPAWN_X, SPAWN_Y);
            },
            _ => {},
        }
        match self.mode {
            GameMode::Editor => {
                self.key_down_editor(key);
            },
            GameMode::Play => {
                self.key_down_play(key, repeat);
            },
        }
    }

    /// Handles a key going up: only play reacts, and not to a repeated key.
    pub fn key_up_event(&mut self, key: Key, repeat: bool)
        ensures
            final(self).player == if repeat || old(self).mode == GameMode::Editor {
                old(self).player
            } else {
                released(old(self).player, key)
            },
            final(self).map == old(self).map,
            final(self).mode == old(self).mode,
            final(self).editor == old(self).editor,
            final(self).enemies == old(self).enemies,
    {
        if repeat {
            return;
        }
        match self.mode {
            GameMode::Editor => {},
            GameMode::Play => {
                self.key_up_play(key, repeat);
            },
        }
    }
}

} // verus!
