//! The state of a running game, what a frame of input does to it, and what
//! it looks like.

use vstd::prelude::*;
use crate::assets::{tileset_of, slices_of, Caption, GlyphSlice, Tileset, GAME_GLYPHS, TILE_SIZE_PX};
use crate::entity::{generate_entities, initial_entities, initial_player, Entity, PLAYER};
use crate::grid::{Color, Point};
use crate::input::{Action, Keys};
use crate::render::{
    captions, draw_captions, draw_entities, draw_health_bar, draw_tiles, entity_sprites,
    health_bar, tile_sprites, AssetsReady, DrawCommand, Pixel, PROMPT_X_PX, PROMPT_Y_PX,
};
use crate::tile::{generate_map, map_tiles, Tile};

verus! {

/// Width of the dungeon, in cells.
pub const MAP_WIDTH: i32 = 20;

/// Height of the dungeon, in cells.
pub const MAP_HEIGHT: i32 = 15;

/// One step toward zero along an axis of the grid, stopping at the edge.
pub open spec fn step_back(x: int) -> int {
    if x - 1 > 0 {
        x - 1
    } else {
        0
    }
}

/// One step away from zero along an axis of the grid that is `length` cells
/// long, stopping at the edge.
pub open spec fn step_forward(x: int, length: int) -> int {
    if x + 1 < length - 1 {
        x + 1
    } else {
        length - 1
    }
}

/// Where something at `pos` ends up after the arrow keys of one frame. Each
/// key that went down during the frame moves it one cell, left before right
/// and up before down, and no move leaves the map.
pub open spec fn moved(pos: Point, map_size: Point, keys: Keys) -> Point {
    let x1 = if keys.left.just_pressed() {
        step_back(pos.x as int)
    } else {
        pos.x as int
    };
    let x2 = if keys.right.just_pressed() {
        step_forward(x1, map_size.x as int)
    } else {
        x1
    };
    let y1 = if keys.up.just_pressed() {
        step_back(pos.y as int)
    } else {
        pos.y as int
    };
    let y2 = if keys.down.just_pressed() {
        step_forward(y1, map_size.y as int)
    } else {
        y1
    };
    Point { x: x2 as i32, y: y2 as i32 }
}

/// Whether `pos` is a cell of a map of the given size.
pub open spec fn on_map(pos: Point, map_size: Point) -> bool {
    0 <= pos.x < map_size.x && 0 <= pos.y < map_size.y
}

/// Where something at `pos` ends up after the arrow keys of one frame.
pub fn move_by_keys(pos: Point, map_size: Point, keys: &Keys) -> (target: Point)
    requires
        map_size.x >= 1,
        map_size.y >= 1,
    ensures
        target == moved(pos, map_size, *keys),
{
    let mut x: i32 = pos.x;
    let mut y: i32 = pos.y;
    if keys.left.is_just_pressed() {
        x = if x <= 0 { 0 } else { x - 1 };
    }
    if keys.right.is_just_pressed() {
        x = if x >= map_size.x - 1 { map_size.x - 1 } else { x + 1 };
    }
    if keys.up.is_just_pressed() {
        y = if y <= 0 { 0 } else { y - 1 };
    }
    if keys.down.is_just_pressed() {
        y = if y >= map_size.y - 1 { map_size.y - 1 } else { y + 1 };
    }
    Point { x, y }
}

/// A game as a mathematical value.
pub struct GameView {
    pub map_size: Point,
    pub map: Seq<Tile>,
    pub entities: Seq<Entity>,
    pub player_id: nat,
    pub tileset: Seq<GlyphSlice>,
    pub tile_size_px: Point,
    pub confirming_exit: bool,
}

impl GameView {
    /// What every game satisfies: the map has an extent, and the player is
    /// one of the entities.
    pub open spec fn wf(self) -> bool {
        &&& self.map_size.x >= 1
        &&& self.map_size.y >= 1
        &&& self.player_id < self.entities.len()
    }

    /// The entity that the keyboard moves.
    pub open spec fn player(self) -> Entity {
        self.entities[self.player_id as int]
    }

    /// The same game with the player on another cell.
    pub open spec fn with_player_at(self, pos: Point) -> GameView {
        GameView {
            entities: self.entities.update(
                self.player_id as int,
                Entity { pos, ..self.player() },
            ),
            ..self
        }
    }

    /// The game after one frame in which the keys were as given.
    ///
    /// While the game asks whether to quit, Y leaves everything as it is
    /// (the host closes the window), N or Escape take the question back, and
    /// nothing else has an effect. Otherwise the arrow keys move the player
    /// and Escape asks the question.
    pub open spec fn step(self, keys: Keys) -> GameView {
        if self.confirming_exit {
            if keys.y.just_pressed() {
                self
            } else if keys.n.just_pressed() || keys.escape.just_pressed() {
                GameView { confirming_exit: false, ..self }
            } else {
                self
            }
        } else {
            GameView {
                confirming_exit: keys.escape.just_pressed(),
                ..self.with_player_at(moved(self.player().pos, self.map_size, keys))
            }
        }
    }

    /// What the host has to do after that frame: quit if Y went down while
    /// the game was asking whether to, go on otherwise.
    pub open spec fn action(self, keys: Keys) -> Action {
        if self.confirming_exit && keys.y.just_pressed() {
            Action::Quit
        } else {
            Action::Continue
        }
    }

    /// The map and, above it, the entities, once the tileset is loaded.
    pub open spec fn sprites(self, ready: AssetsReady) -> Seq<DrawCommand> {
        if ready.tileset {
            tile_sprites(self.map, tileset_of(self.tileset), self.tile_size_px) + entity_sprites(
                self.entities,
                tileset_of(self.tileset),
                self.tile_size_px,
            )
        } else {
            Seq::empty()
        }
    }

    /// The question whether to quit, while the game asks it and once its
    /// font is loaded.
    pub open spec fn prompt(self, ready: AssetsReady) -> Seq<DrawCommand> {
        if self.confirming_exit && ready.confirm_exit_font {
            seq![
                DrawCommand::Caption {
                    caption: Caption::ConfirmExit,
                    top_left: Pixel { x: PROMPT_X_PX as i64, y: PROMPT_Y_PX as i64 },
                },
            ]
        } else {
            Seq::empty()
        }
    }

    /// Everything there is to paint, bottom layer first: the white
    /// background, the captions, the map, the entities, the player's health
    /// bar, and the question whether to quit.
    pub open spec fn frame(self, screen: Point, ready: AssetsReady) -> Seq<DrawCommand> {
        seq![DrawCommand::Clear { color: Color::White }] + captions(screen, ready) + self.sprites(
            ready,
        ) + health_bar(self.player(), self.map_size, self.tile_size_px) + self.prompt(ready)
    }
}

/// The game as it starts: the dungeon with its first inhabitants, the
/// player added as the last of them, nothing asked.
pub open spec fn initial_state() -> GameView {
    GameView {
        map_size: Point { x: MAP_WIDTH, y: MAP_HEIGHT },
        map: map_tiles(MAP_WIDTH as int, MAP_HEIGHT as int),
        entities: initial_entities().push(initial_player()),
        player_id: 5,
        tileset: slices_of(GAME_GLYPHS@, Point { x: TILE_SIZE_PX, y: TILE_SIZE_PX }),
        tile_size_px: Point { x: TILE_SIZE_PX, y: TILE_SIZE_PX },
        confirming_exit: false,
    }
}

/// A running game.
#[derive(Debug)]
pub struct Game {
    map_size: Point,
    map: Vec<Tile>,
    entities: Vec<Entity>,
    player_id: usize,
    tileset: Tileset,
    tile_size_px: Point,
    confirming_exit: bool,
}

impl View for Game {
    type V = GameView;

    closed spec fn view(&self) -> GameView {
        GameView {
            map_size: self.map_size,
            map: self.map@,
            entities: self.entities@,
            player_id: self.player_id as nat,
            tileset: self.tileset.slices@,
            tile_size_px: self.tile_size_px,
            confirming_exit: self.confirming_exit,
        }
    }
}

impl Game {
    #[verifier::type_invariant]
    spec fn inv(self) -> bool {
        self@.wf()
    }

    /// Starts a game.
    pub fn new() -> (game: Game)
        ensures
            game@ == initial_state(),
            game@.wf(),
    {
        let map_size = Point { x: MAP_WIDTH, y: MAP_HEIGHT };
        let map = generate_map(map_size);
        let mut entities = generate_entities();
        let player_id = entities.len();
        entities.push(
            Entity { pos: Point { x: 5, y: 3 }, glyph: PLAYER, color: Color::Blue, hp: 3, max_hp: 5 },
        );
        let tile_size_px = Point { x: TILE_SIZE_PX, y: TILE_SIZE_PX };
        proof {
            reveal_strlit("#@g.%");
        }
        let tileset = Tileset::new(GAME_GLYPHS, tile_size_px);
        Game { map_size, map, entities, player_id, tileset, tile_size_px, confirming_exit: false }
    }

    /// Width and height of the map, in cells.
    pub fn map_size(&self) -> (size: Point)
        ensures
            size == self@.map_size,
            size.x >= 1,
            size.y >= 1,
    {
        proof {
            use_type_invariant(self);
        }
        self.map_size
    }

    /// The tiles of the map, column after column.
    pub fn map(&self) -> (map: &Vec<Tile>)
        ensures
            map@ == self@.map,
    {
        &self.map
    }

    /// Everything that stands on the map, in painting order.
    pub fn entities(&self) -> (entities: &Vec<Entity>)
        ensures
            entities@ == self@.entities,
    {
        &self.entities
    }

    /// Index of the player among the entities.
    pub fn player_id(&self) -> (id: usize)
        ensures
            id == self@.player_id,
            id < self@.entities.len(),
    {
        proof {
            use_type_invariant(self);
        }
        self.player_id
    }

    /// The entity that the keyboard moves.
    pub fn player(&self) -> (player: &Entity)
        ensures
            *player == self@.player(),
    {
        proof {
            use_type_invariant(self);
        }
        &self.entities[self.player_id]
    }

    /// The tileset the game is painted with.
    pub fn tileset(&self) -> (tileset: &Tileset)
        ensures
            tileset.slices@ == self@.tileset,
    {
        &self.tileset
    }

    /// Width and height of a tile on the screen, in pixels.
    pub fn tile_size_px(&self) -> (size: Point)
        ensures
            size == self@.tile_size_px,
    {
        self.tile_size_px
    }

    /// Whether the game is asking whether to quit.
    pub fn confirming_exit(&self) -> (asking: bool)
        ensures
            asking == self@.confirming_exit,
    {
        self.confirming_exit
    }

    /// Handles one frame of input and says what the host has to do next.
    pub fn update(&mut self, keys: &Keys) -> (action: Action)
        ensures
            final(self)@ == old(self)@.step(*keys),
            action == old(self)@.action(*keys),
            final(self)@.wf(),
    {
        proof {
            use_type_invariant(&*self);
        }
        if self.confirming_exit {
            if keys.y.is_just_pressed() {
                return Action::Quit;
            } else if keys.n.is_just_pressed() || keys.escape.is_just_pressed() {
                self.confirming_exit = false;
            }
        } else {
            let target = move_by_keys(self.entities[self.player_id].pos, self.map_size, keys);
            self.entities[self.player_id].pos = target;
            if keys.escape.is_just_pressed() {
                self.confirming_exit = true;
            }
            assert(self@ =~= old(self)@.step(*keys));
        }
        Action::Continue
    }

    /// Lists what to paint for the game as it is, on a screen of the given
    /// size, with the bitmaps that are loaded so far.
    ///
    /// Painting reads the game and changes nothing: the frame is a function
    /// of the state, the screen and the loaded bitmaps alone, so painting
    /// twice gives the same frame twice.
    pub fn draw(&self, screen: Point, ready: &AssetsReady) -> (frame: Vec<DrawCommand>)
        ensures
            frame@ == self@.frame(screen, *ready),
    {
        proof {
            use_type_invariant(self);
        }
        let mut frame: Vec<DrawCommand> = Vec::new();
        frame.push(DrawCommand::Clear { color: Color::White });
        let mut texts = draw_captions(screen, ready);
        frame.append(&mut texts);
        if ready.tileset {
            let mut tiles = draw_tiles(&self.map, &self.tileset, self.tile_size_px);
            frame.append(&mut tiles);
            let mut entities = draw_entities(&self.entities, &self.tileset, self.tile_size_px);
            frame.append(&mut entities);
        }
        let mut bars = draw_health_bar(
            &self.entities[self.player_id],
            self.map_size,
            self.tile_size_px,
        );
        frame.append(&mut bars);
        if self.confirming_exit && ready.confirm_exit_font {
            frame.push(
                DrawCommand::Caption {
                    caption: Caption::ConfirmExit,
                    top_left: Pixel { x: PROMPT_X_PX as i64, y: PROMPT_Y_PX as i64 },
                },
            );
        }
        assert(frame@ =~= self@.frame(screen, *ready));
        frame
    }
}

/// While the game is not asking whether to quit, Escape and nothing else
/// makes it ask, and the host is never told to quit: the arrow keys, Y and N
/// leave the question unasked.
pub proof fn lemma_only_escape_asks(state: GameView, keys: Keys)
    requires
        !state.confirming_exit,
    ensures
        state.step(keys).confirming_exit == keys.escape.just_pressed(),
        state.action(keys) == Action::Continue,
{
}

/// While the game is asking whether to quit, Y tells the host to quit and
/// leaves the game as it is.
pub proof fn lemma_yes_quits(state: GameView, keys: Keys)
    requires
        state.confirming_exit,
        keys.y.just_pressed(),
    ensures
        state.action(keys) == Action::Quit,
        state.step(keys) == state,
{
}

/// While the game is asking whether to quit, N or Escape take the question
/// back, unless Y went down in the same frame. Nothing else changes, and the
/// host goes on.
pub proof fn lemma_no_or_escape_resumes(state: GameView, keys: Keys)
    requires
        state.confirming_exit,
        !keys.y.just_pressed(),
        keys.n.just_pressed() || keys.escape.just_pressed(),
    ensures
        !state.step(keys).confirming_exit,
        state.step(keys) == (GameView { confirming_exit: false, ..state }),
        state.action(keys) == Action::Continue,
{
}

/// While the game is asking whether to quit, no key but Y, N and Escape has
/// an effect, and no key at all moves anything.
pub proof fn lemma_question_blocks_play(state: GameView, keys: Keys)
    requires
        state.confirming_exit,
    ensures
        state.step(keys).entities == state.entities,
        !keys.y.just_pressed() && !keys.n.just_pressed() && !keys.escape.just_pressed()
            ==> state.step(keys) == state && state.action(keys) == Action::Continue,
        state.action(keys) == Action::Quit <==> keys.y.just_pressed(),
{
}

/// A frame of input changes neither the map, nor the tileset, nor the number
/// of entities, nor which of them is the player, and moves no entity but the
/// player. A game that is well formed stays so.
pub proof fn lemma_step_moves_only_the_player(state: GameView, keys: Keys)
    requires
        state.wf(),
    ensures
        state.step(keys).wf(),
        state.step(keys).map_size == state.map_size,
        state.step(keys).map == state.map,
        state.step(keys).tileset == state.tileset,
        state.step(keys).tile_size_px == state.tile_size_px,
        state.step(keys).player_id == state.player_id,
        state.step(keys).entities.len() == state.entities.len(),
        forall|i: int|
            0 <= i < state.entities.len() && i != state.player_id ==> state.step(keys).entities[i]
                == state.entities[i],
        state.step(keys).player() == (Entity {
            pos: state.step(keys).player().pos,
            ..state.player()
        }),
{
}

/// A frame of input moves the player by at most one cell along each axis,
/// and only along the axes whose arrow keys went down.
pub proof fn lemma_step_is_one_cell(state: GameView, keys: Keys)
    requires
        state.wf(),
        on_map(state.player().pos, state.map_size),
    ensures
        -1 <= state.step(keys).player().pos.x - state.player().pos.x <= 1,
        -1 <= state.step(keys).player().pos.y - state.player().pos.y <= 1,
        !keys.left.just_pressed() && !keys.right.just_pressed() ==> state.step(keys).player().pos.x
            == state.player().pos.x,
        !keys.up.just_pressed() && !keys.down.just_pressed() ==> state.step(keys).player().pos.y
            == state.player().pos.y,
{
}

/// A player who stands on the map stays on the map, whatever the keys.
pub proof fn lemma_player_stays_on_map(state: GameView, keys: Keys)
    requires
        state.wf(),
        on_map(state.player().pos, state.map_size),
    ensures
        on_map(state.step(keys).player().pos, state.map_size),
{
}

/// A single arrow key moves by exactly one cell, or not at all where the
/// edge of the map is in the way.
pub proof fn lemma_single_arrow_key(pos: Point, map_size: Point, keys: Keys)
    requires
        map_size.x >= 1,
        map_size.y >= 1,
    ensures
        keys.left.just_pressed() && !keys.right.just_pressed() ==> moved(pos, map_size, keys).x == (
        if pos.x > 0 {
            pos.x - 1
        } else {
            0
        }),
        keys.right.just_pressed() && !keys.left.just_pressed() ==> moved(pos, map_size, keys).x
            == (if pos.x < map_size.x - 1 {
            pos.x + 1
        } else {
            map_size.x - 1
        }),
        keys.up.just_pressed() && !keys.down.just_pressed() ==> moved(pos, map_size, keys).y == (
        if pos.y > 0 {
            pos.y - 1
        } else {
            0
        }),
        keys.down.just_pressed() && !keys.up.just_pressed() ==> moved(pos, map_size, keys).y == (
        if pos.y < map_size.y - 1 {
            pos.y + 1
        } else {
            map_size.y - 1
        }),
{
}

/// Wherever a move starts, a move to the left or up ends at column or row
/// zero at the least, and a move to the right or down ends at the last
/// column or row of the map at the most.
pub proof fn lemma_moves_stop_at_the_edges(pos: Point, map_size: Point, keys: Keys)
    requires
        map_size.x >= 1,
        map_size.y >= 1,
    ensures
        keys.left.just_pressed() ==> moved(pos, map_size, keys).x >= 0,
        keys.right.just_pressed() ==> moved(pos, map_size, keys).x <= map_size.x - 1,
        keys.up.just_pressed() ==> moved(pos, map_size, keys).y >= 0,
        keys.down.just_pressed() ==> moved(pos, map_size, keys).y <= map_size.y - 1,
{
}

} // verus!
