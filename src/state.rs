//! The game state: the map, the mode, the editor cursor and the entities.
use vstd::prelude::*;
use crate::enemy::Enemy;
use crate::player::Player;
use crate::tilemap::{Tile, TileMap, EMPTY_SPRITE};

verus! {

/// Columns and rows of the map a new game starts with.
pub const MAP_COLS: u32 = 16;
pub const MAP_ROWS: u32 = 16;

/// Whether the simulation runs or the map is being painted.
#[derive(Clone, Copy, Debug, PartialEq, Eq, Structural)]
pub enum GameMode {
    Play,
    Editor,
}

/// The editor's cursor: the index of the selected cell.
#[derive(Clone, Copy, Debug, PartialEq, Eq, Structural)]
pub struct Editor {
    pub index: usize,
}

/// Keys the game reacts to; every other key is `Other`.
#[derive(Clone, Copy, Debug, PartialEq, Eq, Structural)]
pub enum Key {
    F1,
    R,
    W,
    A,
    S,
    D,
    Up,
    Down,
    X,
    Space,
    LShift,
    Other,
}

pub struct MainState {
    pub map: TileMap,
    pub mode: GameMode,
    pub editor: Editor,
    pub player: Player,
    pub enemies: Vec<Enemy>,
}

impl MainState {
    /// The map is well formed and the cursor selects one of its cells.
    pub open spec fn wf(&self) -> bool {
        &&& self.map.wf()
        &&& self.editor.index < self.map.tiles@.len()
    }

    /// A new game: an empty 16 by 16 map in editor mode, the cursor on the
    /// first cell, the player at its spawn point and no enemies.
    pub fn new() -> (r: MainState)
        ensures
            r.wf(),
            r.map.dimensions == (MAP_COLS, MAP_ROWS),
            forall|i: int|
                0 <= i < r.map.tiles@.len() ==> r.map.tiles@[i] == (Tile {
                    active: true,
                    id: EMPTY_SPRITE,
                }),
            r.mode == GameMode::Editor,
            r.editor.index == 0,
            r.player == Player::new_spec(),
            r.enemies@.len() == 0,
    {
        let map = TileMap::new_empty(MAP_COLS, MAP_ROWS);
        MainState {
            map,
            mode: GameMode::Editor,
            editor: Editor { index: 0 },
            player: Player::new(),
            enemies: Vec::new(),
        }
    }

    /// One tick: in play mode the player advances; the editor has no tick.
    pub fn update(&mut self)
        requires
            old(self).map.wf(),
            old(self).mode == GameMode::Play ==> old(self).player.wf(),
        ensures
            final(self).map == old(self).map,
            final(self).mode == old(self).mode,
            final(self).editor == old(self).editor,
            final(self).enemies == old(self).enemies,
            final(self).player == if old(self).mode == GameMode::Play {
                old(self).player.stepped(old(self).map)
            } else {
                old(self).player
            },
    {
        match self.mode {
            GameMode::Editor => {},
            GameMode::Play => {
                self.player.update(&self.map);
            },
        }
    }
}

} // verus!
