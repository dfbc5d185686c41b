use roguelike::assets::{
    glyph_strip, Caption, FontFile, GlyphSlice, Label, PixelRect, Tileset, GAME_GLYPHS,
    TILE_SIZE_PX,
};
use roguelike::game::Game;
use roguelike::grid::{Color, Point};

#[test]
fn font_files_have_their_names() {
    assert_eq!(FontFile::Mononoki.file_name(), "mononoki-Regular.ttf");
    assert_eq!(FontFile::Square.file_name(), "square.ttf");
}

#[test]
fn captions_have_their_wording() {
    assert_eq!(
        Caption::Title.label(),
        Label { font: FontFile::Mononoki, text: "Rogue Like", size_px: 72, color: Color::Black }
    );
    assert_eq!(
        Caption::MononokiFontInfo.label(),
        Label {
            font: FontFile::Mononoki,
            text: "Mononoki font by Matthias Tellen, terms: SIL Open Font License 1.1",
            size_px: 20,
            color: Color::Black
        }
    );
    assert_eq!(
        Caption::SquareFontInfo.label(),
        Label {
            font: FontFile::Square,
            text: "Square font by Wouter Van Oortmerssen, terms: CC BY 3.0",
            size_px: 20,
            color: Color::Black
        }
    );
    assert_eq!(
        Caption::ConfirmExit.label(),
        Label {
            font: FontFile::Mononoki,
            text: "Are you sure you want to quit? (Y/N)",
            size_px: 32,
            color: Color::Black
        }
    );
}

#[test]
fn glyph_strip_is_white_square_and_one_tile_high() {
    assert_eq!(GAME_GLYPHS, "#@g.%");
    assert_eq!(TILE_SIZE_PX, 24);
    assert_eq!(
        glyph_strip(),
        Label { font: FontFile::Square, text: "#@g.%", size_px: 24, color: Color::White }
    );
}

#[test]
fn tileset_cuts_one_slice_per_glyph() {
    let tileset = Tileset::new("#@g.%", Point { x: 24, y: 24 });
    let slice = |glyph, x| GlyphSlice { glyph, area: PixelRect { x, y: 0, width: 24, height: 24 } };
    assert_eq!(
        tileset.slices,
        vec![slice('#', 0), slice('@', 24), slice('g', 48), slice('.', 72), slice('%', 96)]
    );
}

#[test]
fn tileset_slices_need_not_be_square() {
    let tileset = Tileset::new("ab", Point { x: 10, y: 7 });
    assert_eq!(
        tileset.slices,
        vec![
            GlyphSlice { glyph: 'a', area: PixelRect { x: 0, y: 0, width: 10, height: 7 } },
            GlyphSlice { glyph: 'b', area: PixelRect { x: 10, y: 0, width: 10, height: 7 } },
        ]
    );
}

#[test]
fn tileset_counts_characters_not_bytes() {
    let tileset = Tileset::new("é#", Point { x: 24, y: 24 });
    assert_eq!(tileset.slices.len(), 2);
    assert_eq!(
        tileset.get('#'),
        Some(PixelRect { x: 24, y: 0, width: 24, height: 24 })
    );
    assert_eq!(tileset.get('é'), Some(PixelRect { x: 0, y: 0, width: 24, height: 24 }));
}

#[test]
fn tileset_of_no_glyphs_is_empty() {
    let tileset = Tileset::new("", Point { x: 24, y: 24 });
    assert!(tileset.slices.is_empty());
    assert_eq!(tileset.get('#'), None);
}

#[test]
fn tileset_finds_each_glyph() {
    let tileset = Tileset::new("#@g.%", Point { x: 24, y: 24 });
    for (index, glyph) in "#@g.%".chars().enumerate() {
        assert_eq!(
            tileset.get(glyph),
            Some(PixelRect { x: 24 * index as i32, y: 0, width: 24, height: 24 })
        );
    }
    assert_eq!(tileset.get('x'), None);
    assert_eq!(tileset.get(' '), None);
}

#[test]
fn tileset_keeps_the_last_of_a_repeated_glyph() {
    let tileset = Tileset::new("aba", Point { x: 24, y: 24 });
    assert_eq!(tileset.slices.len(), 3);
    assert_eq!(tileset.get('a'), Some(PixelRect { x: 48, y: 0, width: 24, height: 24 }));
    assert_eq!(tileset.get('b'), Some(PixelRect { x: 24, y: 0, width: 24, height: 24 }));
}

#[test]
fn tileset_at_the_limit_of_the_strip() {
    let tileset = Tileset::new("ab", Point { x: i32::MAX, y: 1 });
    assert_eq!(tileset.get('b'), Some(PixelRect { x: i32::MAX, y: 0, width: i32::MAX, height: 1 }));
    let tileset = Tileset::new("ab", Point { x: i32::MIN, y: 1 });
    assert_eq!(tileset.get('b'), Some(PixelRect { x: i32::MIN, y: 0, width: i32::MIN, height: 1 }));
}

#[test]
fn game_brings_the_tileset_of_its_glyphs() {
    let game = Game::new();
    let expected = Tileset::new(GAME_GLYPHS, Point { x: TILE_SIZE_PX, y: TILE_SIZE_PX });
    assert_eq!(game.tileset().slices, expected.slices);
    for entity in game.entities() {
        assert!(game.tileset().get(entity.glyph).is_some());
    }
    for tile in game.map() {
        assert!(game.tileset().get(tile.glyph).is_some());
    }
}
