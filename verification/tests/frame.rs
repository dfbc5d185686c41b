use roguelike::assets::{Caption, GlyphSlice, PixelRect, Tileset};
use roguelike::entity::Entity;
use roguelike::game::Game;
use roguelike::grid::{Color, Point};
use roguelike::input::{ButtonState, Keys};
use roguelike::render::{
    draw_captions, draw_entities, draw_health_bar, draw_sprite, draw_tiles, pixel_at,
    AssetsReady, DrawCommand, Pixel,
};
use roguelike::tile::{generate_map, Tile};

const SCREEN: Point = Point { x: 800, y: 600 };
const TILE: Point = Point { x: 24, y: 24 };

fn all_ready() -> AssetsReady {
    AssetsReady {
        title: true,
        mononoki_font_info: true,
        square_font_info: true,
        tileset: true,
        confirm_exit_font: true,
    }
}

fn none_ready() -> AssetsReady {
    AssetsReady {
        title: false,
        mononoki_font_info: false,
        square_font_info: false,
        tileset: false,
        confirm_exit_font: false,
    }
}

fn press_escape() -> Keys {
    Keys {
        left: ButtonState::NotPressed,
        right: ButtonState::NotPressed,
        up: ButtonState::NotPressed,
        down: ButtonState::NotPressed,
        escape: ButtonState::Pressed,
        y: ButtonState::NotPressed,
        n: ButtonState::NotPressed,
    }
}

fn slice(index: i32) -> PixelRect {
    PixelRect { x: 24 * index, y: 0, width: 24, height: 24 }
}

fn glyph(glyph: char, index: i32, x: i64, y: i64, color: Color) -> DrawCommand {
    DrawCommand::Glyph { glyph, source: slice(index), top_left: Pixel { x, y }, color }
}

fn bar(fill_num: i32, fill_den: i32, alpha_pct: u8) -> DrawCommand {
    DrawCommand::Bar {
        top_left: Pixel { x: 655, y: 120 },
        width: 100,
        height: 24,
        fill_num,
        fill_den,
        color: Color::Red,
        alpha_pct,
    }
}

fn bar_width(command: &DrawCommand) -> f32 {
    match command {
        DrawCommand::Bar { width, fill_num, fill_den, .. } => {
            (*fill_num as f32 / *fill_den as f32) * *width as f32
        }
        _ => panic!("not a bar"),
    }
}

#[test]
fn pixel_of_a_cell() {
    assert_eq!(pixel_at(Point { x: 0, y: 0 }, TILE), Pixel { x: 175, y: 120 });
    assert_eq!(pixel_at(Point { x: 5, y: 3 }, TILE), Pixel { x: 295, y: 192 });
    assert_eq!(pixel_at(Point { x: 19, y: 14 }, TILE), Pixel { x: 631, y: 456 });
    assert_eq!(pixel_at(Point { x: -1, y: -2 }, TILE), Pixel { x: 151, y: 72 });
    assert_eq!(pixel_at(Point { x: 3, y: 4 }, Point { x: 10, y: 7 }), Pixel { x: 205, y: 148 });
}

#[test]
fn pixel_of_a_far_cell_does_not_wrap() {
    let far = Point { x: i32::MAX, y: i32::MIN };
    let size = Point { x: i32::MAX, y: i32::MAX };
    assert_eq!(
        pixel_at(far, size),
        Pixel {
            x: 175 + (i32::MAX as i64) * (i32::MAX as i64),
            y: 120 + (i32::MIN as i64) * (i32::MAX as i64),
        }
    );
}

#[test]
fn frame_of_a_new_game() {
    let game = Game::new();
    let frame = game.draw(SCREEN, &all_ready());
    assert_eq!(frame.len(), 1 + 3 + 300 + 6 + 2);
    assert_eq!(frame[0], DrawCommand::Clear { color: Color::White });
    assert_eq!(
        frame[1],
        DrawCommand::CenteredCaption { caption: Caption::Title, center: Pixel { x: 400, y: 40 } }
    );
    assert_eq!(
        frame[2],
        DrawCommand::Caption {
            caption: Caption::MononokiFontInfo,
            top_left: Pixel { x: 2, y: 540 }
        }
    );
    assert_eq!(
        frame[3],
        DrawCommand::Caption { caption: Caption::SquareFontInfo, top_left: Pixel { x: 2, y: 570 } }
    );
    assert_eq!(frame[4], glyph('#', 0, 175, 120, Color::Black));
    assert_eq!(frame[4 + 16], glyph('.', 3, 199, 144, Color::Black));
    assert_eq!(frame[4 + 299], glyph('#', 0, 631, 456, Color::Black));
    assert_eq!(frame[304], glyph('g', 2, 175 + 9 * 24, 120 + 6 * 24, Color::Red));
    assert_eq!(frame[305], frame[304]);
    assert_eq!(frame[306], glyph('g', 2, 223, 216, Color::Red));
    assert_eq!(frame[307], glyph('%', 4, 343, 240, Color::Purple));
    assert_eq!(frame[308], glyph('%', 4, 271, 312, Color::Purple));
    assert_eq!(frame[309], glyph('@', 1, 295, 192, Color::Blue));
    assert_eq!(frame[310], bar(1, 1, 50));
    assert_eq!(frame[311], bar(3, 5, 100));
}

#[test]
fn frame_paints_every_tile_where_it_stands() {
    let game = Game::new();
    let frame = game.draw(SCREEN, &all_ready());
    for (index, tile) in game.map().iter().enumerate() {
        let slice_index = if tile.glyph == '#' { 0 } else { 3 };
        assert_eq!(
            frame[4 + index],
            glyph(
                tile.glyph,
                slice_index,
                175 + 24 * tile.pos.x as i64,
                120 + 24 * tile.pos.y as i64,
                Color::Black
            )
        );
    }
}

#[test]
fn frame_follows_the_player() {
    let mut game = Game::new();
    let keys = Keys { left: ButtonState::Pressed, escape: ButtonState::NotPressed, ..press_escape() };
    game.update(&keys);
    let frame = game.draw(SCREEN, &all_ready());
    assert_eq!(frame[309], glyph('@', 1, 271, 192, Color::Blue));
    assert_eq!(frame.len(), 312);
}

#[test]
fn frame_shows_the_question_on_top() {
    let mut game = Game::new();
    game.update(&press_escape());
    let frame = game.draw(SCREEN, &all_ready());
    assert_eq!(frame.len(), 313);
    assert_eq!(
        frame[312],
        DrawCommand::Caption { caption: Caption::ConfirmExit, top_left: Pixel { x: 100, y: 100 } }
    );
    assert_eq!(&frame[..312], &Game::new().draw(SCREEN, &all_ready())[..]);
}

#[test]
fn frame_leaves_out_what_is_not_loaded() {
    let mut game = Game::new();
    let frame = game.draw(SCREEN, &none_ready());
    assert_eq!(frame, vec![DrawCommand::Clear { color: Color::White }, bar(1, 1, 50), bar(3, 5, 100)]);
    game.update(&press_escape());
    assert_eq!(game.draw(SCREEN, &none_ready()), frame);

    let only_tiles = AssetsReady { tileset: true, ..none_ready() };
    assert_eq!(game.draw(SCREEN, &only_tiles).len(), 1 + 300 + 6 + 2);

    let only_title = AssetsReady { title: true, ..none_ready() };
    let frame = game.draw(SCREEN, &only_title);
    assert_eq!(frame.len(), 4);
    assert_eq!(
        frame[1],
        DrawCommand::CenteredCaption { caption: Caption::Title, center: Pixel { x: 400, y: 40 } }
    );

    let only_font = AssetsReady { confirm_exit_font: true, ..none_ready() };
    let frame = game.draw(SCREEN, &only_font);
    assert_eq!(frame.len(), 4);
    assert_eq!(
        frame[3],
        DrawCommand::Caption { caption: Caption::ConfirmExit, top_left: Pixel { x: 100, y: 100 } }
    );
}

#[test]
fn frame_is_the_same_when_painted_again() {
    let mut game = Game::new();
    game.update(&press_escape());
    let first = game.draw(SCREEN, &all_ready());
    let entities = game.entities().clone();
    for _ in 0..5 {
        assert_eq!(game.draw(SCREEN, &all_ready()), first);
    }
    assert_eq!(game.entities(), &entities);
    assert!(game.confirming_exit());
    assert_eq!(game.player().pos, Point { x: 5, y: 3 });
}

#[test]
fn captions_follow_the_screen() {
    let small = Point { x: 641, y: 480 };
    assert_eq!(
        draw_captions(small, &all_ready()),
        vec![
            DrawCommand::CenteredCaption {
                caption: Caption::Title,
                center: Pixel { x: 320, y: 40 }
            },
            DrawCommand::Caption {
                caption: Caption::MononokiFontInfo,
                top_left: Pixel { x: 2, y: 420 }
            },
            DrawCommand::Caption {
                caption: Caption::SquareFontInfo,
                top_left: Pixel { x: 2, y: 450 }
            },
        ]
    );
    assert!(draw_captions(small, &none_ready()).is_empty());
    let only_square = AssetsReady { square_font_info: true, ..none_ready() };
    assert_eq!(
        draw_captions(small, &only_square),
        vec![DrawCommand::Caption {
            caption: Caption::SquareFontInfo,
            top_left: Pixel { x: 2, y: 450 }
        }]
    );
}

#[test]
fn captions_on_a_screen_without_extent() {
    let odd = Point { x: -5, y: i32::MIN };
    assert_eq!(
        draw_captions(odd, &all_ready()),
        vec![
            DrawCommand::CenteredCaption {
                caption: Caption::Title,
                center: Pixel { x: -2, y: 40 }
            },
            DrawCommand::Caption {
                caption: Caption::MononokiFontInfo,
                top_left: Pixel { x: 2, y: i32::MIN as i64 - 60 }
            },
            DrawCommand::Caption {
                caption: Caption::SquareFontInfo,
                top_left: Pixel { x: 2, y: i32::MIN as i64 - 30 }
            },
        ]
    );
}

#[test]
fn health_bar_is_three_fifths_full() {
    let player = Entity { pos: Point { x: 5, y: 3 }, glyph: '@', color: Color::Blue, hp: 3, max_hp: 5 };
    let bars = draw_health_bar(&player, Point { x: 20, y: 15 }, TILE);
    assert_eq!(bars, vec![bar(1, 1, 50), bar(3, 5, 100)]);
    let background = bar_width(&bars[0]);
    let foreground = bar_width(&bars[1]);
    assert_eq!(background, 100.0);
    assert!((foreground - 0.6 * background).abs() < 1e-4);
}

#[test]
fn health_bar_scales_with_the_hit_points() {
    for max_hp in 1..8 {
        for hp in 0..=max_hp {
            let player =
                Entity { pos: Point { x: 0, y: 0 }, glyph: '@', color: Color::Blue, hp, max_hp };
            let bars = draw_health_bar(&player, Point { x: 20, y: 15 }, TILE);
            assert_eq!(bars[1], bar(hp, max_hp, 100));
            let expected = hp as f32 / max_hp as f32 * bar_width(&bars[0]);
            assert!((bar_width(&bars[1]) - expected).abs() < 1e-4);
        }
    }
}

#[test]
fn health_bar_stands_right_of_the_map() {
    let player = Entity { pos: Point { x: 0, y: 0 }, glyph: '@', color: Color::Blue, hp: 0, max_hp: 0 };
    let bars = draw_health_bar(&player, Point { x: 4, y: 9 }, Point { x: 10, y: 12 });
    assert_eq!(
        bars,
        vec![
            DrawCommand::Bar {
                top_left: Pixel { x: 215, y: 120 },
                width: 100,
                height: 12,
                fill_num: 1,
                fill_den: 1,
                color: Color::Red,
                alpha_pct: 50,
            },
            DrawCommand::Bar {
                top_left: Pixel { x: 215, y: 120 },
                width: 100,
                height: 12,
                fill_num: 0,
                fill_den: 0,
                color: Color::Red,
                alpha_pct: 100,
            },
        ]
    );
}

#[test]
fn sprite_of_a_known_and_of_an_unknown_glyph() {
    let tileset = Tileset::new("#@g.%", TILE);
    assert_eq!(
        draw_sprite(&tileset, 'g', Point { x: 2, y: 4 }, Color::Red, TILE),
        Some(glyph('g', 2, 223, 216, Color::Red))
    );
    assert_eq!(draw_sprite(&tileset, 'x', Point { x: 2, y: 4 }, Color::Red, TILE), None);
}

#[test]
fn tiles_without_a_glyph_in_the_tileset_are_skipped() {
    let walls_only = Tileset::new("#", TILE);
    let map = generate_map(Point { x: 3, y: 3 });
    let sprites = draw_tiles(&map, &walls_only, TILE);
    assert_eq!(sprites.len(), 8);
    let expected: Vec<DrawCommand> = map
        .iter()
        .filter(|tile| tile.glyph == '#')
        .map(|tile| {
            glyph('#', 0, 175 + 24 * tile.pos.x as i64, 120 + 24 * tile.pos.y as i64, Color::Black)
        })
        .collect();
    assert_eq!(sprites, expected);

    let nothing = Tileset::new("", TILE);
    assert!(draw_tiles(&map, &nothing, TILE).is_empty());
    assert!(draw_tiles(&Vec::new(), &walls_only, TILE).is_empty());
}

#[test]
fn tiles_keep_their_own_colour() {
    let tileset = Tileset::new("#@g.%", TILE);
    let tiles = vec![
        Tile { pos: Point { x: 1, y: 0 }, glyph: '.', color: Color::Purple },
        Tile { pos: Point { x: 0, y: 1 }, glyph: '?', color: Color::Red },
        Tile { pos: Point { x: 0, y: 2 }, glyph: '%', color: Color::White },
    ];
    assert_eq!(
        draw_tiles(&tiles, &tileset, TILE),
        vec![glyph('.', 3, 199, 120, Color::Purple), glyph('%', 4, 175, 168, Color::White)]
    );
}

#[test]
fn entities_are_painted_in_their_order() {
    let tileset = Tileset::new("g%", TILE);
    let entities = vec![
        Entity { pos: Point { x: 1, y: 1 }, glyph: '%', color: Color::Purple, hp: 0, max_hp: 0 },
        Entity { pos: Point { x: 1, y: 1 }, glyph: '@', color: Color::Blue, hp: 3, max_hp: 5 },
        Entity { pos: Point { x: 1, y: 1 }, glyph: 'g', color: Color::Red, hp: 1, max_hp: 1 },
    ];
    assert_eq!(
        draw_entities(&entities, &tileset, TILE),
        vec![
            DrawCommand::Glyph {
                glyph: '%',
                source: slice(1),
                top_left: Pixel { x: 199, y: 144 },
                color: Color::Purple
            },
            DrawCommand::Glyph {
                glyph: 'g',
                source: slice(0),
                top_left: Pixel { x: 199, y: 144 },
                color: Color::Red
            },
        ]
    );
}

#[test]
fn sprites_use_the_last_slice_of_a_repeated_glyph() {
    let tileset = Tileset {
        slices: vec![
            GlyphSlice { glyph: '#', area: slice(0) },
            GlyphSlice { glyph: '.', area: slice(1) },
            GlyphSlice { glyph: '#', area: slice(2) },
        ],
    };
    let tiles = vec![Tile { pos: Point { x: 0, y: 0 }, glyph: '#', color: Color::Black }];
    assert_eq!(draw_tiles(&tiles, &tileset, TILE), vec![glyph('#', 2, 175, 120, Color::Black)]);
}
