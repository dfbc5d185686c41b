//! What the game asks its host to load: fonts, lines of text, and the strip
//! of glyphs that is cut into the tileset.

use vstd::prelude::*;
use vstd::string::StrSliceExecFns;
use crate::grid::{Color, Point};

verus! {

/// The glyphs the tileset is made of, in the order in which they stand on
/// the strip.
pub const GAME_GLYPHS: &'static str = "#@g.%";

/// Width and height of one tile on the screen, in pixels.
pub const TILE_SIZE_PX: i32 = 24;

/// The font files the game is shipped with.
#[derive(Clone, Copy, Debug, PartialEq, Eq, Structural)]
pub enum FontFile {
    Mononoki,
    Square,
}

impl FontFile {
    /// Name of the file that holds the font.
    pub open spec fn spec_file_name(self) -> &'static str {
        match self {
            FontFile::Mononoki => "mononoki-Regular.ttf",
            FontFile::Square => "square.ttf",
        }
    }

    /// Name of the file that holds the font.
    pub fn file_name(self) -> (name: &'static str)
        ensures
            name == self.spec_file_name(),
    {
        match self {
            FontFile::Mononoki => "mononoki-Regular.ttf",
            FontFile::Square => "square.ttf",
        }
    }
}

/// A line of text in a font, a size and a colour: what the host needs to
/// know to turn it into a bitmap.
#[derive(Clone, Copy, Debug, PartialEq, Eq)]
pub struct Label {
    pub font: FontFile,
    pub text: &'static str,
    pub size_px: i32,
    pub color: Color,
}

/// The lines of text the game shows.
#[derive(Clone, Copy, Debug, PartialEq, Eq, Structural)]
pub enum Caption {
    /// The name of the game, at the top of the window.
    Title,
    /// Credit for the Mononoki font.
    MononokiFontInfo,
    /// Credit for the Square font.
    SquareFontInfo,
    /// The question asked before the game quits.
    ConfirmExit,
}

impl Caption {
    /// Wording and looks of each line.
    pub open spec fn spec_label(self) -> Label {
        match self {
            Caption::Title => Label {
                font: FontFile::Mononoki,
                text: "Rogue Like",
                size_px: 72,
                color: Color::Black,
            },
            Caption::MononokiFontInfo => Label {
                font: FontFile::Mononoki,
                text: "Mononoki font by Matthias Tellen, terms: SIL Open Font License 1.1",
                size_px: 20,
                color: Color::Black,
            },
            Caption::SquareFontInfo => Label {
                font: FontFile::Square,
                text: "Square font by Wouter Van Oortmerssen, terms: CC BY 3.0",
                size_px: 20,
                color: Color::Black,
            },
            Caption::ConfirmExit => Label {
                font: FontFile::Mononoki,
                text: "Are you sure you want to quit? (Y/N)",
                size_px: 32,
                color: Color::Black,
            },
        }
    }

    /// Wording and looks of this line.
    pub fn label(self) -> (label: Label)
        ensures
            label == self.spec_label(),
    {
        match self {
            Caption::Title => Label {
                font: FontFile::Mononoki,
                text: "Rogue Like",
                size_px: 72,
                color: Color::Black,
            },
            Caption::MononokiFontInfo => Label {
                font: FontFile::Mononoki,
                text: "Mononoki font by Matthias Tellen, terms: SIL Open Font License 1.1",
                size_px: 20,
                color: Color::Black,
            },
            Caption::SquareFontInfo => Label {
                font: FontFile::Square,
                text: "Square font by Wouter Van Oortmerssen, terms: CC BY 3.0",
                size_px: 20,
                color: Color::Black,
            },
            Caption::ConfirmExit => Label {
                font: FontFile::Mononoki,
                text: "Are you sure you want to quit? (Y/N)",
                size_px: 32,
                color: Color::Black,
            },
        }
    }
}

/// The strip from which the tileset is cut: the glyphs of the game side by
/// side in the Square font, white, one tile high.
pub open spec fn spec_glyph_strip() -> Label {
    Label { font: FontFile::Square, text: GAME_GLYPHS, size_px: TILE_SIZE_PX, color: Color::White }
}

/// The strip from which the tileset is cut.
pub fn glyph_strip() -> (label: Label)
    ensures
        label == spec_glyph_strip(),
{
    Label { font: FontFile::Square, text: GAME_GLYPHS, size_px: TILE_SIZE_PX, color: Color::White }
}

/// A rectangle of pixels on a bitmap.
#[derive(Clone, Copy, Debug, PartialEq, Eq, Structural)]
pub struct PixelRect {
    pub x: i32,
    pub y: i32,
    pub width: i32,
    pub height: i32,
}

/// The part of the glyph strip that shows one glyph.
#[derive(Clone, Copy, Debug, PartialEq, Eq, Structural)]
pub struct GlyphSlice {
    pub glyph: char,
    pub area: PixelRect,
}

/// Where the glyph at position `index` of the strip is found: tiles stand
/// side by side from the left edge, each one tile wide and one tile high.
pub open spec fn slice_area(index: int, tile_size: Point) -> PixelRect {
    PixelRect {
        x: (index * tile_size.x) as i32,
        y: 0,
        width: tile_size.x,
        height: tile_size.y,
    }
}

/// The slice for the glyph at position `index` of a strip that shows
/// `glyphs`.
pub open spec fn slice_at(glyphs: Seq<char>, index: int, tile_size: Point) -> GlyphSlice {
    GlyphSlice { glyph: glyphs[index], area: slice_area(index, tile_size) }
}

/// The slices of a strip that shows `glyphs`, left to right.
pub open spec fn slices_of(glyphs: Seq<char>, tile_size: Point) -> Seq<GlyphSlice> {
    Seq::new(glyphs.len(), |i: int| slice_at(glyphs, i, tile_size))
}

/// The lookup table that a run of slices amounts to. Where a glyph occurs
/// more than once, its last slice counts.
pub open spec fn tileset_of(slices: Seq<GlyphSlice>) -> Map<char, PixelRect>
    decreases slices.len(),
{
    if slices.len() == 0 {
        Map::empty()
    } else {
        tileset_of(slices.drop_last()).insert(slices.last().glyph, slices.last().area)
    }
}

/// Whether every slice of a strip with `count` glyphs starts at a pixel
/// column that an `i32` can hold.
pub open spec fn strip_fits(count: nat, tile_size: Point) -> bool {
    count == 0 || i32::MIN <= (count - 1) * tile_size.x <= i32::MAX
}

/// From each glyph to the part of the glyph strip that shows it.
#[derive(Debug)]
pub struct Tileset {
    pub slices: Vec<GlyphSlice>,
}

impl View for Tileset {
    type V = Map<char, PixelRect>;

    open spec fn view(&self) -> Map<char, PixelRect> {
        tileset_of(self.slices@)
    }
}

impl Tileset {
    /// Cuts a strip that shows `glyphs` into one slice per glyph.
    pub fn new(glyphs: &str, tile_size: Point) -> (tileset: Tileset)
        requires
            strip_fits(glyphs@.len(), tile_size),
        ensures
            tileset.slices@ == slices_of(glyphs@, tile_size),
            tileset@ == tileset_of(slices_of(glyphs@, tile_size)),
    {
        let count = glyphs.unicode_len();
        let mut slices: Vec<GlyphSlice> = Vec::new();
        let mut x: i64 = 0;
        let mut index: usize = 0;
        while index < count
            invariant
                count == glyphs@.len(),
                strip_fits(glyphs@.len(), tile_size),
                0 <= index <= count,
                x == index * tile_size.x,
                slices@.len() == index,
                forall|i: int|
                    0 <= i < index ==> #[trigger] slices@[i] == slice_at(glyphs@, i, tile_size),
            decreases count - index,
        {
            proof {
                lemma_slice_fits(count as int, index as int, tile_size.x as int);
                assert((index + 1) * tile_size.x == index * tile_size.x + tile_size.x)
                    by (nonlinear_arith);
            }
            let glyph = glyphs.get_char(index);
            let area = PixelRect {
                x: x as i32,
                y: 0,
                width: tile_size.x,
                height: tile_size.y,
            };
            slices.push(GlyphSlice { glyph, area });
            x = x + tile_size.x as i64;
            index = index + 1;
        }
        assert(slices@ =~= slices_of(glyphs@, tile_size));
        Tileset { slices }
    }

    /// Looks a glyph up.
    pub fn get(&self, glyph: char) -> (area: Option<PixelRect>)
        ensures
            area == (if self@.contains_key(glyph) {
                Some(self@[glyph])
            } else {
                None
            }),
    {
        let mut index: usize = self.slices.len();
        assert(self.slices@.take(index as int) =~= self.slices@);
        while index > 0
            invariant
                0 <= index <= self.slices@.len(),
                tileset_of(self.slices@).contains_key(glyph) == tileset_of(
                    self.slices@.take(index as int),
                ).contains_key(glyph),
                tileset_of(self.slices@).contains_key(glyph) ==> tileset_of(self.slices@)[glyph]
                    == tileset_of(self.slices@.take(index as int))[glyph],
            decreases index,
        {
            index = index - 1;
            let slice = self.slices[index];
            assert(self.slices@.take(index + 1).drop_last() =~= self.slices@.take(index as int));
            if slice.glyph == glyph {
                return Some(slice.area);
            }
        }
        assert(self.slices@.take(0) =~= Seq::empty());
        None
    }
}

/// If the last slice of a strip starts at a column that fits, so does every
/// slice before it.
proof fn lemma_slice_fits(count: int, index: int, tile_width: int)
    requires
        0 <= index < count,
        i32::MIN <= (count - 1) * tile_width <= i32::MAX,
    ensures
        i32::MIN <= index * tile_width <= i32::MAX,
{
    assert(i32::MIN <= index * tile_width <= i32::MAX) by (nonlinear_arith)
        requires
            0 <= index <= count - 1,
            i32::MIN <= (count - 1) * tile_width <= i32::MAX,
    ;
}

} // verus!

