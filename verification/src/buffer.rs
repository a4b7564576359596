//! The character grid: cells, layers, palette, fonts and the canvas that holds them.

use vstd::prelude::*;

verus! {

/// A place on the grid; either coordinate may lie outside the canvas.
#[derive(Clone, Copy, Debug, PartialEq, Eq, Structural)]
pub struct Position {
    pub x: i32,
    pub y: i32,
}

impl Position {
    pub fn new(x: i32, y: i32) -> (pos: Position)
        ensures
            pos == (Position { x, y }),
    {
        Position { x, y }
    }
}

/// Width and height of a canvas, in cells.
#[derive(Clone, Copy, Debug, PartialEq, Eq, Structural)]
pub struct Size {
    pub width: i32,
    pub height: i32,
}

impl Size {
    pub fn new(width: i32, height: i32) -> (size: Size)
        ensures
            size == (Size { width, height }),
    {
        Size { width, height }
    }
}

/// The character set in which a canvas stores its cells.
#[derive(Clone, Copy, Debug, PartialEq, Eq, Structural)]
pub enum BufferType {
    Unicode,
    CP437,
    Petscii,
    Atascii,
    Viewdata,
}

impl BufferType {
    /// The encoding of a canvas that was not given one.
    pub open spec fn initial() -> BufferType {
        BufferType::CP437
    }
}

impl Default for BufferType {
    fn default() -> (kind: BufferType)
        ensures
            kind == BufferType::initial(),
    {
        BufferType::CP437
    }
}

/// Colours, font page and style flags of one cell.
#[derive(Clone, Copy, Debug, PartialEq, Eq, Structural)]
pub struct TextAttribute {
    pub foreground_color: u32,
    pub background_color: u32,
    pub font_page: usize,
    pub attr: u16,
}

/// The style flag of a cell that holds nothing to draw.
pub const INVISIBLE: u16 = 0x8000;

impl TextAttribute {
    /// Light grey on black, first font page, no style flag.
    pub open spec fn initial() -> TextAttribute {
        TextAttribute { foreground_color: 7, background_color: 0, font_page: 0, attr: 0 }
    }

    pub fn get_foreground(&self) -> (color: u32)
        ensures
            color == self.foreground_color,
    {
        self.foreground_color
    }

    pub fn set_foreground(&mut self, color: u32)
        ensures
            *final(self) == (TextAttribute { foreground_color: color, ..*old(self) }),
    {
        self.foreground_color = color;
    }

    pub fn get_background(&self) -> (color: u32)
        ensures
            color == self.background_color,
    {
        self.background_color
    }

    pub fn set_background(&mut self, color: u32)
        ensures
            *final(self) == (TextAttribute { background_color: color, ..*old(self) }),
    {
        self.background_color = color;
    }

    pub fn get_font_page(&self) -> (page: usize)
        ensures
            page == self.font_page,
    {
        self.font_page
    }

    pub fn set_font_page(&mut self, page: usize)
        ensures
            *final(self) == (TextAttribute { font_page: page, ..*old(self) }),
    {
        self.font_page = page;
    }
}

impl Default for TextAttribute {
    fn default() -> (attribute: TextAttribute)
        ensures
            attribute == TextAttribute::initial(),
    {
        TextAttribute { foreground_color: 7, background_color: 0, font_page: 0, attr: 0 }
    }
}

/// One cell: a character code in the canvas's own encoding, and its attribute.
#[derive(Clone, Copy, Debug, PartialEq, Eq, Structural)]
pub struct AttributedChar {
    pub ch: char,
    pub attribute: TextAttribute,
}

impl AttributedChar {
    /// What a cell holds that was never written: a space flagged invisible.
    pub open spec fn blank() -> AttributedChar {
        AttributedChar {
            ch: ' ',
            attribute: TextAttribute {
                foreground_color: 7,
                background_color: 0,
                font_page: 0,
                attr: INVISIBLE,
            },
        }
    }

    pub fn new(ch: char, attribute: TextAttribute) -> (cell: AttributedChar)
        ensures
            cell == (AttributedChar { ch, attribute }),
    {
        AttributedChar { ch, attribute }
    }

    pub fn invisible() -> (cell: AttributedChar)
        ensures
            cell == AttributedChar::blank(),
    {
        AttributedChar {
            ch: ' ',
            attribute: TextAttribute {
                foreground_color: 7,
                background_color: 0,
                font_page: 0,
                attr: INVISIBLE,
            },
        }
    }
}

/// A layer as contracts see it: every position of the plane has a cell.
pub struct LayerView {
    pub is_visible: bool,
    pub offset: Position,
    pub cells: Map<(int, int), AttributedChar>,
}

impl LayerView {
    /// A visible layer at the origin on which nothing was written.
    pub open spec fn blank() -> LayerView {
        LayerView {
            is_visible: true,
            offset: Position { x: 0, y: 0 },
            cells: Map::total(|at: (int, int)| AttributedChar::blank()),
        }
    }

    /// The cell at `pos`. Left of and above the origin there is nothing.
    pub open spec fn char_at(self, pos: Position) -> AttributedChar {
        if pos.x >= 0 && pos.y >= 0 {
            self.cells[(pos.x as int, pos.y as int)]
        } else {
            AttributedChar::blank()
        }
    }

    /// The layer after a write at `pos`. A write left of or above the origin
    /// of the layer changes nothing.
    pub open spec fn with_char(self, pos: Position, ch: AttributedChar) -> LayerView {
        if pos.x >= 0 && pos.y >= 0 {
            LayerView { cells: self.cells.insert((pos.x as int, pos.y as int), ch), ..self }
        } else {
            self
        }
    }
}

/// One sheet of cells, stored row by row. Rows and cells come into being
/// when something is written to them.
#[derive(Debug)]
pub struct Layer {
    is_visible: bool,
    offset: Position,
    lines: Vec<Vec<AttributedChar>>,
}

/// The cell that the rows `lines` hold at column `x` of row `y`.
spec fn stored_char(lines: Seq<Vec<AttributedChar>>, x: int, y: int) -> AttributedChar {
    if 0 <= y < lines.len() && 0 <= x < lines[y]@.len() {
        lines[y]@[x]
    } else {
        AttributedChar::blank()
    }
}

impl View for Layer {
    type V = LayerView;

    closed spec fn view(&self) -> LayerView {
        LayerView {
            is_visible: self.is_visible,
            offset: self.offset,
            cells: Map::total(|at: (int, int)| stored_char(self.lines@, at.0, at.1)),
        }
    }
}

/// Lengthens `row` with blank cells until it has at least `len` cells.
fn pad_row(row: &mut Vec<AttributedChar>, len: usize)
    ensures
        final(row)@.len() == if old(row)@.len() < len {
            len as int
        } else {
            old(row)@.len() as int
        },
        forall|i: int| 0 <= i < old(row)@.len() ==> final(row)@[i] == old(row)@[i],
        forall|i: int|
            old(row)@.len() <= i < final(row)@.len() ==> final(row)@[i] == AttributedChar::blank(),
{
    while row.len() < len
        invariant
            old(row)@.len() <= row@.len(),
            old(row)@.len() < len ==> row@.len() <= len,
            old(row)@.len() >= len ==> row@.len() == old(row)@.len(),
            forall|i: int| 0 <= i < old(row)@.len() ==> row@[i] == old(row)@[i],
            forall|i: int| old(row)@.len() <= i < row@.len() ==> row@[i] == AttributedChar::blank(),
        decreases len - row.len(),
    {
        row.push(AttributedChar::invisible());
    }
}

/// Adds empty rows to `lines` until it has at least `len` rows.
fn pad_lines(lines: &mut Vec<Vec<AttributedChar>>, len: usize)
    ensures
        final(lines)@.len() == if old(lines)@.len() < len {
            len as int
        } else {
            old(lines)@.len() as int
        },
        forall|i: int| 0 <= i < old(lines)@.len() ==> final(lines)@[i] == old(lines)@[i],
        forall|i: int| old(lines)@.len() <= i < final(lines)@.len() ==> final(lines)@[i]@.len() == 0,
{
    while lines.len() < len
        invariant
            old(lines)@.len() <= lines@.len(),
            old(lines)@.len() < len ==> lines@.len() <= len,
            old(lines)@.len() >= len ==> lines@.len() == old(lines)@.len(),
            forall|i: int| 0 <= i < old(lines)@.len() ==> lines@[i] == old(lines)@[i],
            forall|i: int| old(lines)@.len() <= i < lines@.len() ==> lines@[i]@.len() == 0,
        decreases len - lines.len(),
    {
        lines.push(Vec::new());
    }
}

impl Layer {
    /// The number of rows that the layer holds. Rows come into being when a
    /// cell is written in them or below them.
    pub closed spec fn line_count(&self) -> nat {
        self.lines@.len()
    }

    /// The number of cells that row `y` holds; none where the layer has no
    /// such row. Cells come into being when a cell is written at them or to
    /// the right of them.
    pub closed spec fn line_length(&self, y: int) -> nat {
        if 0 <= y < self.lines@.len() {
            self.lines@[y]@.len()
        } else {
            0
        }
    }

    /// What the layer holds after a write at `pos`, by rows and cells: the
    /// rows reach down to the row written, that row reaches to the cell
    /// written, and every other row is as long as before.
    pub open spec fn grown_by(&self, before: &Layer, pos: Position) -> bool {
        if pos.x >= 0 && pos.y >= 0 {
            &&& self.line_count() == if before.line_count() > pos.y {
                before.line_count()
            } else {
                (pos.y + 1) as nat
            }
            &&& self.line_length(pos.y as int) == if before.line_length(pos.y as int) > pos.x {
                before.line_length(pos.y as int)
            } else {
                (pos.x + 1) as nat
            }
            &&& forall|y: int| y != pos.y ==> self.line_length(y) == before.line_length(y)
        } else {
            &&& self.line_count() == before.line_count()
            &&& forall|y: int| self.line_length(y) == before.line_length(y)
        }
    }

    /// Where the layer has no row, the row holds no cell.
    pub proof fn lemma_no_row_no_cell(&self, y: int)
        requires
            y < 0 || y >= self.line_count(),
        ensures
            self.line_length(y) == 0,
    {
    }

    /// A visible layer at the origin with nothing on it.
    pub fn new() -> (layer: Layer)
        ensures
            layer@ == LayerView::blank(),
            layer.line_count() == 0,
            forall|y: int| layer.line_length(y) == 0,
    {
        let layer = Layer { is_visible: true, offset: Position { x: 0, y: 0 }, lines: Vec::new() };
        assert(layer@.cells =~= LayerView::blank().cells);
        layer
    }

    /// Writes `ch` at `pos`; rows and cells that are missing up to there are
    /// filled in blank. Nothing is written left of or above the origin.
    pub fn set_char(&mut self, pos: Position, ch: AttributedChar)
        ensures
            final(self)@ == old(self)@.with_char(pos, ch),
            final(self).grown_by(old(self), pos),
    {
        if pos.x < 0 || pos.y < 0 {
            return ;
        }
        let x: usize = pos.x as usize;
        let y: usize = pos.y as usize;
        pad_lines(&mut self.lines, y + 1);
        let ghost padded = self.lines@;
        let row = &mut self.lines[y];
        pad_row(row, x + 1);
        row.set(x, ch);
        proof {
            let before = old(self).lines@;
            let after = self.lines@;
            assert forall|at: (int, int)|
                stored_char(after, at.0, at.1) == if at == (x as int, y as int) {
                    ch
                } else {
                    stored_char(before, at.0, at.1)
                } by {
                if 0 <= at.1 < after.len() && at.1 != y {
                    assert(after[at.1] == padded[at.1]);
                }
            }
            assert(self@.cells =~= old(self)@.with_char(pos, ch).cells);
            assert forall|r: int| r != y implies self.line_length(r) == old(self).line_length(
                r,
            ) by {
                if 0 <= r < after.len() {
                    assert(after[r] == padded[r]);
                }
            }
        }
    }

    pub fn get_char(&self, pos: Position) -> (ch: AttributedChar)
        ensures
            ch == self@.char_at(pos),
    {
        if pos.x < 0 || pos.y < 0 {
            return AttributedChar::invisible();
        }
        let x: usize = pos.x as usize;
        let y: usize = pos.y as usize;
        if y < self.lines.len() {
            let row = &self.lines[y];
            if x < row.len() {
                return row[x];
            }
        }
        AttributedChar::invisible()
    }

    /// The number of rows that the layer holds. Every row from this one on
    /// is blank.
    pub fn get_line_count(&self) -> (count: usize)
        ensures
            count == self.line_count(),
            forall|pos: Position| pos.y >= count ==> #[trigger] self@.char_at(pos)
                == AttributedChar::blank(),
    {
        self.lines.len()
    }

    /// The number of cells that row `y` holds; 0 where the layer has no such
    /// row. Every cell of the row from this one on is blank.
    pub fn get_line_length(&self, y: usize) -> (length: usize)
        ensures
            length == self.line_length(y as int),
            y >= self.line_count() ==> length == 0,
            forall|pos: Position|
                pos.y == y && pos.x >= length ==> #[trigger] self@.char_at(pos)
                    == AttributedChar::blank(),
    {
        if y < self.lines.len() {
            self.lines[y].len()
        } else {
            0
        }
    }

    pub fn get_offset(&self) -> (offset: Position)
        ensures
            offset == self@.offset,
    {
        self.offset
    }

    pub fn set_offset(&mut self, offset: Position)
        ensures
            final(self)@ == (LayerView { offset, ..old(self)@ }),
    {
        self.offset = offset;
    }

    pub fn is_visible(&self) -> (visible: bool)
        ensures
            visible == self@.is_visible,
    {
        self.is_visible
    }

    pub fn set_is_visible(&mut self, visible: bool)
        ensures
            final(self)@ == (LayerView { is_visible: visible, ..old(self)@ }),
    {
        self.is_visible = visible;
    }
}

impl Clone for Layer {
    /// A copy that shares nothing with the layer it was taken from.
    fn clone(&self) -> (copy: Layer)
        ensures
            copy@ == self@,
            copy.line_count() == self.line_count(),
            forall|y: int| copy.line_length(y) == self.line_length(y),
    {
        let mut lines: Vec<Vec<AttributedChar>> = Vec::new();
        let mut y: usize = 0;
        while y < self.lines.len()
            invariant
                y <= self.lines@.len(),
                lines@.len() == y,
                forall|i: int| 0 <= i < y ==> lines@[i]@ == self.lines@[i]@,
            decreases self.lines.len() - y,
        {
            let row = self.lines[y].clone();
            lines.push(row);
            y += 1;
        }
        let copy = Layer { is_visible: self.is_visible, offset: self.offset, lines };
        assert(copy@.cells =~= self@.cells);
        copy
    }
}

/// One colour of a palette.
#[derive(Clone, Copy, Debug, PartialEq, Eq, Structural)]
pub struct Color {
    pub r: u8,
    pub g: u8,
    pub b: u8,
}

impl Color {
    pub fn new(r: u8, g: u8, b: u8) -> (color: Color)
        ensures
            color == (Color { r, g, b }),
    {
        Color { r, g, b }
    }

    pub fn get_rgb(&self) -> (rgb: (u8, u8, u8))
        ensures
            rgb == (self.r, self.g, self.b),
    {
        (self.r, self.g, self.b)
    }
}

/// The sixteen colours of a text-mode screen, in the order of their indices.
pub open spec fn dos_colors() -> Seq<Color> {
    seq![
        Color { r: 0x00, g: 0x00, b: 0x00 },
        Color { r: 0x00, g: 0x00, b: 0xAA },
        Color { r: 0x00, g: 0xAA, b: 0x00 },
        Color { r: 0x00, g: 0xAA, b: 0xAA },
        Color { r: 0xAA, g: 0x00, b: 0x00 },
        Color { r: 0xAA, g: 0x00, b: 0xAA },
        Color { r: 0xAA, g: 0x55, b: 0x00 },
        Color { r: 0xAA, g: 0xAA, b: 0xAA },
        Color { r: 0x55, g: 0x55, b: 0x55 },
        Color { r: 0x55, g: 0x55, b: 0xFF },
        Color { r: 0x55, g: 0xFF, b: 0x55 },
        Color { r: 0x55, g: 0xFF, b: 0xFF },
        Color { r: 0xFF, g: 0x55, b: 0x55 },
        Color { r: 0xFF, g: 0x55, b: 0xFF },
        Color { r: 0xFF, g: 0xFF, b: 0x55 },
        Color { r: 0xFF, g: 0xFF, b: 0xFF },
    ]
}

/// Where `color` stands first in `colors`; the length of `colors` if it
/// does not occur.
pub open spec fn slot_of(colors: Seq<Color>, color: Color) -> int
    decreases colors.len(),
{
    if colors.len() == 0 {
        0
    } else if colors[0] == color {
        0
    } else {
        1 + slot_of(colors.drop_first(), color)
    }
}

/// `slot_of` is the least index that holds the colour, or the length.
pub proof fn lemma_slot_of(colors: Seq<Color>, color: Color)
    ensures
        0 <= slot_of(colors, color) <= colors.len(),
        slot_of(colors, color) < colors.len() ==> colors[slot_of(colors, color)] == color,
        forall|i: int| 0 <= i < slot_of(colors, color) ==> colors[i] != color,
    decreases colors.len(),
{
    if colors.len() > 0 && colors[0] != color {
        let rest = colors.drop_first();
        lemma_slot_of(rest, color);
        assert forall|i: int| 0 <= i < slot_of(colors, color) implies colors[i] != color by {
            if i > 0 {
                assert(colors[i] == rest[i - 1]);
            }
        }
    }
}

/// An index that holds the colour and has none before it is its slot.
pub proof fn lemma_slot_of_is(colors: Seq<Color>, color: Color, slot: int)
    requires
        0 <= slot <= colors.len(),
        slot < colors.len() ==> colors[slot] == color,
        forall|i: int| 0 <= i < slot ==> colors[i] != color,
    ensures
        slot_of(colors, color) == slot,
{
    lemma_slot_of(colors, color);
    let found = slot_of(colors, color);
    if found < slot {
        assert(colors[found] != color);
    }
}

/// The colours after `color` was asked for: as before if it was there, with
/// `color` at the end if not.
pub open spec fn with_color(colors: Seq<Color>, color: Color) -> Seq<Color> {
    if slot_of(colors, color) < colors.len() {
        colors
    } else {
        colors.push(color)
    }
}

/// An ordered list of colours that cells refer to by index. It only grows.
#[derive(Debug)]
pub struct Palette {
    colors: Vec<Color>,
}

impl View for Palette {
    type V = Seq<Color>;

    closed spec fn view(&self) -> Seq<Color> {
        self.colors@
    }
}

impl Palette {
    /// The sixteen text-mode colours.
    pub fn new() -> (palette: Palette)
        ensures
            palette@ == dos_colors(),
    {
        let mut colors: Vec<Color> = Vec::new();
        colors.push(Color { r: 0x00, g: 0x00, b: 0x00 });
        colors.push(Color { r: 0x00, g: 0x00, b: 0xAA });
        colors.push(Color { r: 0x00, g: 0xAA, b: 0x00 });
        colors.push(Color { r: 0x00, g: 0xAA, b: 0xAA });
        colors.push(Color { r: 0xAA, g: 0x00, b: 0x00 });
        colors.push(Color { r: 0xAA, g: 0x00, b: 0xAA });
        colors.push(Color { r: 0xAA, g: 0x55, b: 0x00 });
        colors.push(Color { r: 0xAA, g: 0xAA, b: 0xAA });
        colors.push(Color { r: 0x55, g: 0x55, b: 0x55 });
        colors.push(Color { r: 0x55, g: 0x55, b: 0xFF });
        colors.push(Color { r: 0x55, g: 0xFF, b: 0x55 });
        colors.push(Color { r: 0x55, g: 0xFF, b: 0xFF });
        colors.push(Color { r: 0xFF, g: 0x55, b: 0x55 });
        colors.push(Color { r: 0xFF, g: 0x55, b: 0xFF });
        colors.push(Color { r: 0xFF, g: 0xFF, b: 0x55 });
        colors.push(Color { r: 0xFF, g: 0xFF, b: 0xFF });
        assert(colors@ =~= dos_colors());
        Palette { colors }
    }

    /// A palette of the given colours, in their order.
    pub fn from_colors(colors: Vec<Color>) -> (palette: Palette)
        ensures
            palette@ == colors@,
    {
        Palette { colors }
    }

    pub fn len(&self) -> (count: usize)
        ensures
            count == self@.len(),
    {
        self.colors.len()
    }

    /// The colour at `index`, if the palette has that many.
    pub fn get_color(&self, index: u32) -> (color: Option<Color>)
        ensures
            color == if (index as int) < self@.len() {
                Some(self@[index as int])
            } else {
                None::<Color>
            },
    {
        if (index as usize) < self.colors.len() {
            Some(self.colors[index as usize])
        } else {
            None
        }
    }

    /// Finds `(r, g, b)` in the palette, or adds it at the end, and returns
    /// its index. An index too large for `u32` comes back cut to 32 bits.
    pub fn insert_color_rgb(&mut self, r: u8, g: u8, b: u8) -> (index: u32)
        ensures
            final(self)@ == with_color(old(self)@, Color { r, g, b }),
            index == slot_of(old(self)@, Color { r, g, b }) as u32,
    {
        let color = Color { r, g, b };
        let mut i: usize = 0;
        while i < self.colors.len()
            invariant
                color == (Color { r, g, b }),
                self.colors@ == old(self).colors@,
                i <= self.colors@.len(),
                forall|j: int| 0 <= j < i ==> self.colors@[j] != color,
            decreases self.colors.len() - i,
        {
            if self.colors[i] == color {
                proof {
                    lemma_slot_of_is(self.colors@, color, i as int);
                }
                return #[verifier::truncate]
                (i as u32);
            }
            i += 1;
        }
        proof {
            lemma_slot_of_is(self.colors@, color, i as int);
        }
        self.colors.push(color);
        #[verifier::truncate]
        (i as u32)
    }
}

impl Clone for Palette {
    fn clone(&self) -> (copy: Palette)
        ensures
            copy@ == self@,
    {
        let colors = self.colors.clone();
        assert(colors@ =~= self.colors@);
        Palette { colors }
    }
}

/// A bitmap font: a name, the size of one glyph, and the glyph rows.
#[derive(Debug)]
pub struct BitFont {
    pub name: String,
    pub size: Size,
    pub glyphs: Vec<u8>,
}

pub struct BitFontView {
    pub name: Seq<char>,
    pub size: Size,
    pub glyphs: Seq<u8>,
}

impl View for BitFont {
    type V = BitFontView;

    open spec fn view(&self) -> BitFontView {
        BitFontView { name: self.name@, size: self.size, glyphs: self.glyphs@ }
    }
}

impl Clone for BitFont {
    fn clone(&self) -> (copy: BitFont)
        ensures
            copy@ == self@,
    {
        let glyphs = self.glyphs.clone();
        assert(glyphs@ =~= self.glyphs@);
        BitFont { name: self.name.clone(), size: self.size, glyphs }
    }
}

/// A font and the page under which cells refer to it.
#[derive(Debug)]
struct FontSlot {
    page: usize,
    font: BitFont,
}

/// Where the font of `page` stands first in `fonts`; the length of `fonts`
/// if the page has none.
pub open spec fn font_slot_of(fonts: Seq<(usize, BitFontView)>, page: usize) -> int
    decreases fonts.len(),
{
    if fonts.len() == 0 {
        0
    } else if fonts[0].0 == page {
        0
    } else {
        1 + font_slot_of(fonts.drop_first(), page)
    }
}

/// `font_slot_of` is the least index that holds the page, or the length.
pub proof fn lemma_font_slot_of(fonts: Seq<(usize, BitFontView)>, page: usize)
    ensures
        0 <= font_slot_of(fonts, page) <= fonts.len(),
        font_slot_of(fonts, page) < fonts.len() ==> fonts[font_slot_of(fonts, page)].0 == page,
        forall|i: int| 0 <= i < font_slot_of(fonts, page) ==> fonts[i].0 != page,
    decreases fonts.len(),
{
    if fonts.len() > 0 && fonts[0].0 != page {
        let rest = fonts.drop_first();
        lemma_font_slot_of(rest, page);
        assert forall|i: int| 0 <= i < font_slot_of(fonts, page) implies fonts[i].0 != page by {
            if i > 0 {
                assert(fonts[i] == rest[i - 1]);
            }
        }
    }
}

/// An index that holds the page and has none before it is its slot.
pub proof fn lemma_font_slot_of_is(fonts: Seq<(usize, BitFontView)>, page: usize, slot: int)
    requires
        0 <= slot <= fonts.len(),
        slot < fonts.len() ==> fonts[slot].0 == page,
        forall|i: int| 0 <= i < slot ==> fonts[i].0 != page,
    ensures
        font_slot_of(fonts, page) == slot,
{
    lemma_font_slot_of(fonts, page);
    let found = font_slot_of(fonts, page);
    if found < slot {
        assert(fonts[found].0 != page);
    }
}

/// The font table after `font` was set for `page`: in the place of the
/// page's earlier font if it had one, at the end if not.
pub open spec fn with_font(
    fonts: Seq<(usize, BitFontView)>,
    page: usize,
    font: BitFontView,
) -> Seq<(usize, BitFontView)> {
    if font_slot_of(fonts, page) < fonts.len() {
        fonts.update(font_slot_of(fonts, page), (page, font))
    } else {
        fonts.push((page, font))
    }
}

/// A canvas as contracts see it.
pub struct CanvasView {
    pub size: Size,
    pub is_terminal_buffer: bool,
    pub buffer_type: BufferType,
    pub layers: Seq<LayerView>,
    pub palette: Seq<Color>,
    pub fonts: Seq<(usize, BitFontView)>,
}

impl CanvasView {
    /// A canvas of the given size and encoding with one blank layer, the
    /// sixteen text-mode colours and no font of its own.
    pub open spec fn blank(size: Size, buffer_type: BufferType) -> CanvasView {
        CanvasView {
            size,
            is_terminal_buffer: false,
            buffer_type,
            layers: seq![LayerView::blank()],
            palette: dos_colors(),
            fonts: Seq::empty(),
        }
    }

    /// The canvas after a write of `ch` at `pos` of layer `layer`.
    pub open spec fn with_char(self, layer: int, pos: Position, ch: AttributedChar) -> CanvasView
        recommends
            0 <= layer < self.layers.len(),
    {
        CanvasView { layers: self.layers.update(layer, self.layers[layer].with_char(pos, ch)), ..self }
    }

    /// What a captured copy of this canvas holds: its size, layers, palette
    /// and fonts; the encoding and the terminal flag of a new canvas.
    pub open spec fn snapshot(self) -> CanvasView {
        CanvasView { is_terminal_buffer: false, buffer_type: BufferType::initial(), ..self }
    }
}

/// The canvas: layers of cells over a palette and a font table.
#[derive(Debug)]
pub struct Buffer {
    size: Size,
    is_terminal_buffer: bool,
    buffer_type: BufferType,
    layers: Vec<Layer>,
    palette: Palette,
    fonts: Vec<FontSlot>,
}

impl View for Buffer {
    type V = CanvasView;

    closed spec fn view(&self) -> CanvasView {
        CanvasView {
            size: self.size,
            is_terminal_buffer: self.is_terminal_buffer,
            buffer_type: self.buffer_type,
            layers: self.layers@.map_values(|layer: Layer| layer@),
            palette: self.palette@,
            fonts: self.fonts@.map_values(|slot: FontSlot| (slot.page, slot.font@)),
        }
    }
}

impl Buffer {
    /// A blank canvas in the encoding that canvases have by default.
    pub fn new(size: Size) -> (buffer: Buffer)
        ensures
            buffer@ == CanvasView::blank(size, BufferType::initial()),
    {
        Buffer::with_type(size, BufferType::CP437)
    }

    /// A blank canvas of the given width and height.
    pub fn create(size: Size) -> (buffer: Buffer)
        ensures
            buffer@ == CanvasView::blank(size, BufferType::initial()),
    {
        Buffer::new(size)
    }

    /// A blank canvas that stores its cells in `buffer_type`.
    pub fn with_type(size: Size, buffer_type: BufferType) -> (buffer: Buffer)
        ensures
            buffer@ == CanvasView::blank(size, buffer_type),
    {
        let mut layers: Vec<Layer> = Vec::new();
        layers.push(Layer::new());
        let buffer = Buffer {
            size,
            is_terminal_buffer: false,
            buffer_type,
            layers,
            palette: Palette::new(),
            fonts: Vec::new(),
        };
        assert(buffer@.layers =~= seq![LayerView::blank()]);
        assert(buffer@.fonts =~= Seq::empty());
        buffer
    }

    /// A canvas of the given layers and palette, without fonts of its own.
    pub fn from_parts(
        size: Size,
        buffer_type: BufferType,
        layers: Vec<Layer>,
        palette: Palette,
    ) -> (buffer: Buffer)
        ensures
            buffer@ == (CanvasView {
                size,
                is_terminal_buffer: false,
                buffer_type,
                layers: layers@.map_values(|layer: Layer| layer@),
                palette: palette@,
                fonts: Seq::empty(),
            }),
    {
        let buffer = Buffer {
            size,
            is_terminal_buffer: false,
            buffer_type,
            layers,
            palette,
            fonts: Vec::new(),
        };
        assert(buffer@.fonts =~= Seq::empty());
        buffer
    }

    pub fn get_size(&self) -> (size: Size)
        ensures
            size == self@.size,
    {
        self.size
    }

    pub fn get_width(&self) -> (width: i32)
        ensures
            width == self@.size.width,
    {
        self.size.width
    }

    pub fn get_height(&self) -> (height: i32)
        ensures
            height == self@.size.height,
    {
        self.size.height
    }

    /// Gives the canvas a new width. No cell changes.
    pub fn set_width(&mut self, width: i32)
        ensures
            final(self)@ == (CanvasView {
                size: Size { width, height: old(self)@.size.height },
                ..old(self)@
            }),
    {
        self.size.width = width;
    }

    /// Gives the canvas a new height. No cell changes.
    pub fn set_height(&mut self, height: i32)
        ensures
            final(self)@ == (CanvasView {
                size: Size { width: old(self)@.size.width, height },
                ..old(self)@
            }),
    {
        self.size.height = height;
    }

    pub fn get_buffer_type(&self) -> (buffer_type: BufferType)
        ensures
            buffer_type == self@.buffer_type,
    {
        self.buffer_type
    }

    pub fn is_terminal_buffer(&self) -> (flag: bool)
        ensures
            flag == self@.is_terminal_buffer,
    {
        self.is_terminal_buffer
    }

    pub fn set_is_terminal_buffer(&mut self, flag: bool)
        ensures
            final(self)@ == (CanvasView { is_terminal_buffer: flag, ..old(self)@ }),
    {
        self.is_terminal_buffer = flag;
    }

    pub fn layer_count(&self) -> (count: usize)
        ensures
            count == self@.layers.len(),
    {
        self.layers.len()
    }

    /// Layer `layer` of the canvas.
    pub fn get_layer(&self, layer: usize) -> (sheet: &Layer)
        requires
            layer < self@.layers.len(),
        ensures
            sheet@ == self@.layers[layer as int],
    {
        &self.layers[layer]
    }

    /// Puts `layer` on top of the layers that are there.
    pub fn add_layer(&mut self, layer: Layer)
        ensures
            final(self)@ == (CanvasView { layers: old(self)@.layers.push(layer@), ..old(self)@ }),
    {
        self.layers.push(layer);
        assert(self@.layers =~= old(self)@.layers.push(layer@));
    }

    /// Writes `ch` at `pos` of layer `layer`.
    pub fn set_char(&mut self, layer: usize, pos: Position, ch: AttributedChar)
        requires
            layer < old(self)@.layers.len(),
        ensures
            final(self)@ == old(self)@.with_char(layer as int, pos, ch),
    {
        let sheet = &mut self.layers[layer];
        sheet.set_char(pos, ch);
        assert(self@.layers =~= old(self)@.with_char(layer as int, pos, ch).layers);
    }

    /// The cell at `pos` of layer `layer`.
    pub fn get_char(&self, layer: usize, pos: Position) -> (ch: AttributedChar)
        requires
            layer < self@.layers.len(),
        ensures
            ch == self@.layers[layer as int].char_at(pos),
    {
        self.layers[layer].get_char(pos)
    }

    pub fn get_layer_offset(&self, layer: usize) -> (offset: Position)
        requires
            layer < self@.layers.len(),
        ensures
            offset == self@.layers[layer as int].offset,
    {
        self.layers[layer].get_offset()
    }

    pub fn set_layer_offset(&mut self, layer: usize, offset: Position)
        requires
            layer < old(self)@.layers.len(),
        ensures
            final(self)@ == (CanvasView {
                layers: old(self)@.layers.update(
                    layer as int,
                    LayerView { offset, ..old(self)@.layers[layer as int] },
                ),
                ..old(self)@
            }),
    {
        let sheet = &mut self.layers[layer];
        sheet.set_offset(offset);
        assert(self@.layers =~= old(self)@.layers.update(
            layer as int,
            LayerView { offset, ..old(self)@.layers[layer as int] },
        ));
    }

    pub fn is_layer_visible(&self, layer: usize) -> (visible: bool)
        requires
            layer < self@.layers.len(),
        ensures
            visible == self@.layers[layer as int].is_visible,
    {
        self.layers[layer].is_visible()
    }

    pub fn set_layer_visible(&mut self, layer: usize, visible: bool)
        requires
            layer < old(self)@.layers.len(),
        ensures
            final(self)@ == (CanvasView {
                layers: old(self)@.layers.update(
                    layer as int,
                    LayerView { is_visible: visible, ..old(self)@.layers[layer as int] },
                ),
                ..old(self)@
            }),
    {
        let sheet = &mut self.layers[layer];
        sheet.set_is_visible(visible);
        assert(self@.layers =~= old(self)@.layers.update(
            layer as int,
            LayerView { is_visible: visible, ..old(self)@.layers[layer as int] },
        ));
    }

    pub fn palette_len(&self) -> (count: usize)
        ensures
            count == self@.palette.len(),
    {
        self.palette.len()
    }

    /// The colour at `index` of the palette, if it has that many.
    pub fn get_color(&self, index: u32) -> (color: Option<Color>)
        ensures
            color == if (index as int) < self@.palette.len() {
                Some(self@.palette[index as int])
            } else {
                None::<Color>
            },
    {
        self.palette.get_color(index)
    }

    /// Finds `(r, g, b)` in the palette, or adds it at the end, and returns
    /// its index. An index too large for `u32` comes back cut to 32 bits.
    pub fn insert_color_rgb(&mut self, r: u8, g: u8, b: u8) -> (index: u32)
        ensures
            final(self)@ == (CanvasView {
                palette: with_color(old(self)@.palette, Color { r, g, b }),
                ..old(self)@
            }),
            index == slot_of(old(self)@.palette, Color { r, g, b }) as u32,
    {
        self.palette.insert_color_rgb(r, g, b)
    }

    /// Replaces the palette.
    pub fn set_palette(&mut self, palette: Palette)
        ensures
            final(self)@ == (CanvasView { palette: palette@, ..old(self)@ }),
    {
        self.palette = palette;
    }

    pub fn font_count(&self) -> (count: usize)
        ensures
            count == self@.fonts.len(),
    {
        self.fonts.len()
    }

    /// The page and the font that stand at `index` of the font table.
    pub fn font_at(&self, index: usize) -> (slot: (usize, &BitFont))
        requires
            index < self@.fonts.len(),
        ensures
            slot.0 == self@.fonts[index as int].0,
            slot.1@ == self@.fonts[index as int].1,
    {
        (self.fonts[index].page, &self.fonts[index].font)
    }

    /// Takes every font out of the table.
    pub fn clear_font_table(&mut self)
        ensures
            final(self)@ == (CanvasView { fonts: Seq::empty(), ..old(self)@ }),
    {
        self.fonts = Vec::new();
        assert(self@.fonts =~= Seq::empty());
    }

    /// Sets the font of `page`, in the place of its earlier font if it had one.
    pub fn set_font(&mut self, page: usize, font: BitFont)
        ensures
            final(self)@ == (CanvasView {
                fonts: with_font(old(self)@.fonts, page, font@),
                ..old(self)@
            }),
    {
        let mut i: usize = 0;
        while i < self.fonts.len()
            invariant
                *self == *old(self),
                i <= self.fonts@.len(),
                forall|j: int| 0 <= j < i ==> self@.fonts[j].0 != page,
            decreases self.fonts.len() - i,
        {
            if self.fonts[i].page == page {
                proof {
                    lemma_font_slot_of_is(self@.fonts, page, i as int);
                }
                self.fonts.set(i, FontSlot { page, font });
                assert(self@.fonts =~= with_font(old(self)@.fonts, page, font@));
                return ;
            }
            i += 1;
        }
        proof {
            lemma_font_slot_of_is(self@.fonts, page, i as int);
        }
        self.fonts.push(FontSlot { page, font });
        assert(self@.fonts =~= with_font(old(self)@.fonts, page, font@));
    }

    /// The font of `page`, if the table has one.
    pub fn get_font(&self, page: usize) -> (font: Option<&BitFont>)
        ensures
            font matches Some(found) ==> font_slot_of(self@.fonts, page) < self@.fonts.len()
                && found@ == self@.fonts[font_slot_of(self@.fonts, page)].1,
            font is None ==> font_slot_of(self@.fonts, page) == self@.fonts.len(),
    {
        let mut i: usize = 0;
        while i < self.fonts.len()
            invariant
                i <= self.fonts@.len(),
                forall|j: int| 0 <= j < i ==> self@.fonts[j].0 != page,
            decreases self.fonts.len() - i,
        {
            if self.fonts[i].page == page {
                proof {
                    lemma_font_slot_of_is(self@.fonts, page, i as int);
                }
                return Some(&self.fonts[i].font);
            }
            i += 1;
        }
        proof {
            lemma_font_slot_of_is(self@.fonts, page, i as int);
        }
        None
    }

    /// A copy of the canvas as a frame keeps it: size, layers, palette and
    /// fonts are copied and share nothing with this canvas; the encoding and
    /// the terminal flag are those of a new canvas.
    pub fn snapshot(&self) -> (copy: Buffer)
        ensures
            copy@ == self@.snapshot(),
    {
        let mut layers: Vec<Layer> = Vec::new();
        let mut i: usize = 0;
        while i < self.layers.len()
            invariant
                i <= self.layers@.len(),
                layers@.len() == i,
                forall|j: int| 0 <= j < i ==> layers@[j]@ == self.layers@[j]@,
            decreases self.layers.len() - i,
        {
            layers.push(self.layers[i].clone());
            i += 1;
        }
        let mut fonts: Vec<FontSlot> = Vec::new();
        let mut k: usize = 0;
        while k < self.fonts.len()
            invariant
                k <= self.fonts@.len(),
                fonts@.len() == k,
                forall|j: int|
                    0 <= j < k ==> fonts@[j].page == self.fonts@[j].page && fonts@[j].font@
                        == self.fonts@[j].font@,
            decreases self.fonts.len() - k,
        {
            fonts.push(FontSlot { page: self.fonts[k].page, font: self.fonts[k].font.clone() });
            k += 1;
        }
        let copy = Buffer {
            size: self.size,
            is_terminal_buffer: false,
            buffer_type: BufferType::CP437,
            layers,
            palette: self.palette.clone(),
            fonts,
        };
        assert(copy@.layers =~= self@.layers);
        assert(copy@.fonts =~= self@.fonts);
        copy
    }
}

impl Clone for Buffer {
    /// A copy that shares nothing with this canvas.
    fn clone(&self) -> (copy: Buffer)
        ensures
            copy@ == self@,
    {
        let mut copy = self.snapshot();
        copy.buffer_type = self.buffer_type;
        copy.is_terminal_buffer = self.is_terminal_buffer;
        copy
    }
}

} // verus!
