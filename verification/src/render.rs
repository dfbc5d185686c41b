//! What a frame is made of: the list of things to paint, in painting order.
//!
//! Nothing here touches a window. The host walks the list and paints each
//! entry with the bitmaps it has loaded.

use vstd::prelude::*;
use crate::assets::{Caption, PixelRect, Tileset};
use crate::entity::Entity;
use crate::grid::{Color, Point};
use crate::tile::Tile;

verus! {

/// Left edge of the map on the screen.
pub const OFFSET_X_PX: i32 = 175;

/// Top edge of the map on the screen.
pub const OFFSET_Y_PX: i32 = 120;

/// Height at which the middle of the title sits.
pub const TITLE_CENTER_Y_PX: i32 = 40;

/// Left edge of the font credits.
pub const CREDIT_LEFT_PX: i32 = 2;

/// How far above the bottom of the window the Mononoki credit starts.
pub const MONONOKI_CREDIT_RISE_PX: i32 = 60;

/// How far above the bottom of the window the Square credit starts.
pub const SQUARE_CREDIT_RISE_PX: i32 = 30;

/// Width of a full health bar.
pub const HEALTH_BAR_WIDTH_PX: i32 = 100;

/// Opacity of the health bar's background, in percent.
pub const HEALTH_BAR_BACKGROUND_ALPHA_PCT: u8 = 50;

/// Left edge of the question asked before quitting.
pub const PROMPT_X_PX: i32 = 100;

/// Top edge of the question asked before quitting.
pub const PROMPT_Y_PX: i32 = 100;

/// A point of the screen.
#[derive(Clone, Copy, Debug, PartialEq, Eq, Structural)]
pub struct Pixel {
    pub x: i64,
    pub y: i64,
}

/// Which of the bitmaps that the host loads in the background are there
/// already. What is not there yet is left out of the frame.
#[derive(Clone, Copy, Debug, PartialEq, Eq, Structural)]
pub struct AssetsReady {
    pub title: bool,
    pub mononoki_font_info: bool,
    pub square_font_info: bool,
    pub tileset: bool,
    pub confirm_exit_font: bool,
}

/// One thing to paint.
#[derive(Clone, Copy, Debug, PartialEq, Eq, Structural)]
pub enum DrawCommand {
    /// Fill the whole window.
    Clear { color: Color },
    /// A line of text with its middle at `center`.
    CenteredCaption { caption: Caption, center: Pixel },
    /// A line of text with its top left corner at `top_left`.
    Caption { caption: Caption, top_left: Pixel },
    /// The part `source` of the glyph strip, tinted with `color`, in its own
    /// size, with its top left corner at `top_left`.
    Glyph { glyph: char, source: PixelRect, top_left: Pixel, color: Color },
    /// A filled rectangle, `height` high and `width * fill_num / fill_den`
    /// wide. The fraction is handed over as it is, so that the host divides
    /// once and in its own arithmetic.
    Bar {
        top_left: Pixel,
        width: i32,
        height: i32,
        fill_num: i32,
        fill_den: i32,
        color: Color,
        alpha_pct: u8,
    },
}

/// Where the top left corner of grid cell `pos` is on the screen.
pub open spec fn pixel_of(pos: Point, tile_size: Point) -> Pixel {
    Pixel {
        x: (OFFSET_X_PX + pos.x * tile_size.x) as i64,
        y: (OFFSET_Y_PX + pos.y * tile_size.y) as i64,
    }
}

/// Where the top left corner of grid cell `pos` is on the screen.
pub fn pixel_at(pos: Point, tile_size: Point) -> (pixel: Pixel)
    ensures
        pixel == pixel_of(pos, tile_size),
        pixel.x == OFFSET_X_PX + pos.x * tile_size.x,
        pixel.y == OFFSET_Y_PX + pos.y * tile_size.y,
{
    proof {
        lemma_product_fits(pos.x, tile_size.x);
        lemma_product_fits(pos.y, tile_size.y);
    }
    Pixel {
        x: OFFSET_X_PX as i64 + pos.x as i64 * tile_size.x as i64,
        y: OFFSET_Y_PX as i64 + pos.y as i64 * tile_size.y as i64,
    }
}

/// The product of two `i32` leaves ample room in an `i64`.
proof fn lemma_product_fits(a: i32, b: i32)
    ensures
        -0x4000_0000_0000_0000 <= a * b <= 0x4000_0000_0000_0000,
{
    assert(-0x4000_0000_0000_0000 <= a * b <= 0x4000_0000_0000_0000) by (nonlinear_arith)
        requires
            -0x8000_0000 <= a <= 0x7fff_ffff,
            -0x8000_0000 <= b <= 0x7fff_ffff,
    ;
}

/// What to paint for something that shows as `glyph` on cell `pos`: its
/// slice of the tileset, or nothing where the tileset has no such glyph.
pub open spec fn sprite(
    tileset: Map<char, PixelRect>,
    glyph: char,
    pos: Point,
    color: Color,
    tile_size: Point,
) -> Option<DrawCommand> {
    if tileset.contains_key(glyph) {
        Some(
            DrawCommand::Glyph {
                glyph,
                source: tileset[glyph],
                top_left: pixel_of(pos, tile_size),
                color,
            },
        )
    } else {
        None
    }
}

/// What to paint for something that shows as `glyph` on cell `pos`.
pub fn draw_sprite(
    tileset: &Tileset,
    glyph: char,
    pos: Point,
    color: Color,
    tile_size: Point,
) -> (command: Option<DrawCommand>)
    ensures
        command == sprite(tileset@, glyph, pos, color, tile_size),
{
    match tileset.get(glyph) {
        Some(source) => Some(
            DrawCommand::Glyph { glyph, source, top_left: pixel_at(pos, tile_size), color },
        ),
        None => None,
    }
}

/// The sprite of a tile.
pub open spec fn tile_sprite(tile: Tile, tileset: Map<char, PixelRect>, tile_size: Point) -> Option<
    DrawCommand,
> {
    sprite(tileset, tile.glyph, tile.pos, tile.color, tile_size)
}

/// The sprites of the tiles that the tileset has a glyph for, in the order
/// of the tiles.
pub open spec fn tile_sprites(
    tiles: Seq<Tile>,
    tileset: Map<char, PixelRect>,
    tile_size: Point,
) -> Seq<DrawCommand> {
    tiles.filter_map(|tile: Tile| tile_sprite(tile, tileset, tile_size))
}

/// Paints the map: every tile whose glyph the tileset knows, in order.
pub fn draw_tiles(tiles: &Vec<Tile>, tileset: &Tileset, tile_size: Point) -> (sprites: Vec<
    DrawCommand,
>)
    ensures
        sprites@ == tile_sprites(tiles@, tileset@, tile_size),
{
    let mut sprites: Vec<DrawCommand> = Vec::new();
    let mut index: usize = 0;
    while index < tiles.len()
        invariant
            0 <= index <= tiles@.len(),
            sprites@ == tile_sprites(tiles@.take(index as int), tileset@, tile_size),
        decreases tiles@.len() - index,
    {
        let tile = tiles[index];
        assert(tiles@.take(index + 1).drop_last() =~= tiles@.take(index as int));
        match draw_sprite(tileset, tile.glyph, tile.pos, tile.color, tile_size) {
            Some(command) => {
                sprites.push(command);
            },
            None => {},
        }
        index = index + 1;
        assert(sprites@ =~= tile_sprites(tiles@.take(index as int), tileset@, tile_size));
    }
    assert(tiles@.take(index as int) =~= tiles@);
    sprites
}

/// The sprite of an entity.
pub open spec fn entity_sprite(
    entity: Entity,
    tileset: Map<char, PixelRect>,
    tile_size: Point,
) -> Option<DrawCommand> {
    sprite(tileset, entity.glyph, entity.pos, entity.color, tile_size)
}

/// The sprites of the entities that the tileset has a glyph for, in the
/// order of the entities: where two overlap, the later one is on top.
pub open spec fn entity_sprites(
    entities: Seq<Entity>,
    tileset: Map<char, PixelRect>,
    tile_size: Point,
) -> Seq<DrawCommand> {
    entities.filter_map(|entity: Entity| entity_sprite(entity, tileset, tile_size))
}

/// Paints the entities: every one whose glyph the tileset knows, in order.
pub fn draw_entities(entities: &Vec<Entity>, tileset: &Tileset, tile_size: Point) -> (sprites: Vec<
    DrawCommand,
>)
    ensures
        sprites@ == entity_sprites(entities@, tileset@, tile_size),
{
    let mut sprites: Vec<DrawCommand> = Vec::new();
    let mut index: usize = 0;
    while index < entities.len()
        invariant
            0 <= index <= entities@.len(),
            sprites@ == entity_sprites(entities@.take(index as int), tileset@, tile_size),
        decreases entities@.len() - index,
    {
        let entity = entities[index];
        assert(entities@.take(index + 1).drop_last() =~= entities@.take(index as int));
        match draw_sprite(tileset, entity.glyph, entity.pos, entity.color, tile_size) {
            Some(command) => {
                sprites.push(command);
            },
            None => {},
        }
        index = index + 1;
        assert(sprites@ =~= entity_sprites(entities@.take(index as int), tileset@, tile_size));
    }
    assert(entities@.take(index as int) =~= entities@);
    sprites
}

/// Half of `x`, rounded toward zero.
pub open spec fn half(x: int) -> int {
    if x >= 0 {
        x / 2
    } else {
        -((-x) / 2)
    }
}

/// The title, if it is loaded: centred in the width of the screen.
pub open spec fn title_caption(screen: Point, ready: AssetsReady) -> Seq<DrawCommand> {
    if ready.title {
        seq![
            DrawCommand::CenteredCaption {
                caption: Caption::Title,
                center: Pixel { x: half(screen.x as int) as i64, y: TITLE_CENTER_Y_PX as i64 },
            },
        ]
    } else {
        Seq::empty()
    }
}

/// One of the two font credits, if it is loaded: at the left edge, `rise`
/// pixels above the bottom of the screen.
pub open spec fn credit_caption(caption: Caption, loaded: bool, screen: Point, rise: int) -> Seq<
    DrawCommand,
> {
    if loaded {
        seq![
            DrawCommand::Caption {
                caption,
                top_left: Pixel { x: CREDIT_LEFT_PX as i64, y: (screen.y - rise) as i64 },
            },
        ]
    } else {
        Seq::empty()
    }
}

/// The lines of text that frame the map: the title, then the credit for the
/// Mononoki font, then the one for the Square font, each only if loaded.
pub open spec fn captions(screen: Point, ready: AssetsReady) -> Seq<DrawCommand> {
    title_caption(screen, ready) + credit_caption(
        Caption::MononokiFontInfo,
        ready.mononoki_font_info,
        screen,
        MONONOKI_CREDIT_RISE_PX as int,
    ) + credit_caption(
        Caption::SquareFontInfo,
        ready.square_font_info,
        screen,
        SQUARE_CREDIT_RISE_PX as int,
    )
}

/// Paints the title and the font credits, as far as they are loaded.
pub fn draw_captions(screen: Point, ready: &AssetsReady) -> (commands: Vec<DrawCommand>)
    ensures
        commands@ == captions(screen, *ready),
{
    let mut commands: Vec<DrawCommand> = Vec::new();
    if ready.title {
        commands.push(
            DrawCommand::CenteredCaption {
                caption: Caption::Title,
                center: Pixel { x: (screen.x / 2) as i64, y: TITLE_CENTER_Y_PX as i64 },
            },
        );
    }
    if ready.mononoki_font_info {
        commands.push(
            DrawCommand::Caption {
                caption: Caption::MononokiFontInfo,
                top_left: Pixel {
                    x: CREDIT_LEFT_PX as i64,
                    y: screen.y as i64 - MONONOKI_CREDIT_RISE_PX as i64,
                },
            },
        );
    }
    if ready.square_font_info {
        commands.push(
            DrawCommand::Caption {
                caption: Caption::SquareFontInfo,
                top_left: Pixel {
                    x: CREDIT_LEFT_PX as i64,
                    y: screen.y as i64 - SQUARE_CREDIT_RISE_PX as i64,
                },
            },
        );
    }
    assert(commands@ =~= captions(screen, *ready));
    commands
}

/// Where the health bar starts: level with the top of the map, right of its
/// last column.
pub open spec fn health_bar_corner(map_size: Point, tile_size: Point) -> Pixel {
    Pixel { x: (OFFSET_X_PX + map_size.x * tile_size.x) as i64, y: OFFSET_Y_PX as i64 }
}

/// The health bar of `player`: a half transparent red bar of full width,
/// and on top of it an opaque red bar that covers `hp / max_hp` of that
/// width.
pub open spec fn health_bar(player: Entity, map_size: Point, tile_size: Point) -> Seq<DrawCommand> {
    seq![
        DrawCommand::Bar {
            top_left: health_bar_corner(map_size, tile_size),
            width: HEALTH_BAR_WIDTH_PX,
            height: tile_size.y,
            fill_num: 1,
            fill_den: 1,
            color: Color::Red,
            alpha_pct: HEALTH_BAR_BACKGROUND_ALPHA_PCT,
        },
        DrawCommand::Bar {
            top_left: health_bar_corner(map_size, tile_size),
            width: HEALTH_BAR_WIDTH_PX,
            height: tile_size.y,
            fill_num: player.hp,
            fill_den: player.max_hp,
            color: Color::Red,
            alpha_pct: 100,
        },
    ]
}

/// Paints the health bar of `player` to the right of the map.
pub fn draw_health_bar(player: &Entity, map_size: Point, tile_size: Point) -> (bars: Vec<
    DrawCommand,
>)
    ensures
        bars@ == health_bar(*player, map_size, tile_size),
        bars@.len() == 2,
{
    proof {
        lemma_product_fits(map_size.x, tile_size.x);
    }
    let top_left = Pixel {
        x: OFFSET_X_PX as i64 + map_size.x as i64 * tile_size.x as i64,
        y: OFFSET_Y_PX as i64,
    };
    let bars = vec![
        DrawCommand::Bar {
            top_left,
            width: HEALTH_BAR_WIDTH_PX,
            height: tile_size.y,
            fill_num: 1,
            fill_den: 1,
            color: Color::Red,
            alpha_pct: HEALTH_BAR_BACKGROUND_ALPHA_PCT,
        },
        DrawCommand::Bar {
            top_left,
            width: HEALTH_BAR_WIDTH_PX,
            height: tile_size.y,
            fill_num: player.hp,
            fill_den: player.max_hp,
            color: Color::Red,
            alpha_pct: 100,
        },
    ];
    assert(bars@ =~= health_bar(*player, map_size, tile_size));
    bars
}

/// The health bar scales with the hit points. Its two bars start at the same
/// corner and have the same height and the same full width; the background
/// is filled wholly, and the foreground is filled to the fraction
/// `hp / max_hp`.
pub proof fn lemma_health_bar_scales_with_hit_points(
    player: Entity,
    map_size: Point,
    tile_size: Point,
)
    ensures
        ({
            let bars = health_bar(player, map_size, tile_size);
            &&& bars.len() == 2
            &&& bars[0] matches DrawCommand::Bar {
                top_left: corner0,
                width: width0,
                height: height0,
                fill_num: num0,
                fill_den: den0,
                ..
            }
            &&& bars[1] matches DrawCommand::Bar {
                top_left: corner1,
                width: width1,
                height: height1,
                fill_num: num1,
                fill_den: den1,
                ..
            }
            &&& corner0 == corner1
            &&& height0 == height1
            &&& width0 == width1
            &&& num0 == den0
            &&& den0 != 0
            &&& num1 == player.hp
            &&& den1 == player.max_hp
        }),
{
}

} // verus!
