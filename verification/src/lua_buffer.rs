//! The canvas object that a script paints on: a canvas, a cursor and the
//! layer that is written to.
//!
//! Text enters and leaves the canvas through an encoding adapter, a pair of
//! functions that the caller hands in. A canvas in Unicode needs none: its
//! codes are the characters themselves.

use crate::buffer::{
    slot_of, with_color, AttributedChar, Buffer, BufferType, CanvasView, Color, LayerView,
    Position, Size, TextAttribute,
};
use crate::caret::Caret;
use crate::error::ScriptError;
use crate::text::{char_to_string, chars_of};
use vstd::prelude::*;

verus! {

/// True when `native` is a code that `encode` may give for the character
/// `ch` in the encoding `kind`. In Unicode the code is the character.
pub open spec fn encodes<E: Fn(BufferType, char, usize) -> char>(
    encode: &E,
    kind: BufferType,
    ch: char,
    font_page: usize,
    native: char,
) -> bool {
    if kind == BufferType::Unicode {
        native == ch
    } else {
        encode.ensures((kind, ch, font_page), native)
    }
}

/// True when `universal` is a character that `decode` may give for the cell
/// `cell` of a canvas in the encoding `kind`. In Unicode it is the code.
pub open spec fn decodes<D: Fn(BufferType, AttributedChar) -> char>(
    decode: &D,
    kind: BufferType,
    cell: AttributedChar,
    universal: char,
) -> bool {
    if kind == BufferType::Unicode {
        universal == cell.ch
    } else {
        decode.ensures((kind, cell), universal)
    }
}

/// True when `encode` can be called on every character.
pub open spec fn encoder_is_total<E: Fn(BufferType, char, usize) -> char>(encode: &E) -> bool {
    forall|kind: BufferType, ch: char, font_page: usize| encode.requires((kind, ch, font_page))
}

/// True when `decode` can be called on every cell.
pub open spec fn decoder_is_total<D: Fn(BufferType, AttributedChar) -> char>(decode: &D) -> bool {
    forall|kind: BufferType, cell: AttributedChar| decode.requires((kind, cell))
}

/// A canvas with the cursor that paints on it and the index of the layer
/// that is written to and read from.
#[derive(Debug)]
pub struct LuaBuffer {
    pub cur_layer: usize,
    pub caret: Caret,
    pub buffer: Buffer,
}

/// A canvas object as contracts see it.
pub struct CapabilityView {
    pub cur_layer: usize,
    pub caret: Caret,
    pub buffer: CanvasView,
}

impl View for LuaBuffer {
    type V = CapabilityView;

    open spec fn view(&self) -> CapabilityView {
        CapabilityView { cur_layer: self.cur_layer, caret: self.caret, buffer: self.buffer@ }
    }
}

impl CapabilityView {
    /// True when the active layer is one of the canvas's layers.
    pub open spec fn layer_in_range(self) -> bool {
        self.cur_layer < self.buffer.layers.len()
    }

    /// The error of an operation on the active layer when the canvas has no
    /// such layer.
    pub open spec fn current_layer_error(self) -> ScriptError {
        ScriptError::OutOfRange {
            index: self.cur_layer,
            count: self.buffer.layers.len() as usize,
            current: true,
        }
    }

    /// The error of an operation on layer `layer` when the canvas has no such
    /// layer.
    pub open spec fn layer_error(self, layer: usize) -> ScriptError {
        ScriptError::OutOfRange {
            index: layer,
            count: self.buffer.layers.len() as usize,
            current: false,
        }
    }

    /// The cell at `pos` of the active layer.
    pub open spec fn cell(self, pos: Position) -> AttributedChar
        recommends
            self.layer_in_range(),
    {
        self.buffer.layers[self.cur_layer as int].char_at(pos)
    }

    /// The object after `cell` was written at `pos` of the active layer.
    pub open spec fn with_cell(self, pos: Position, cell: AttributedChar) -> CapabilityView
        recommends
            self.layer_in_range(),
    {
        CapabilityView { buffer: self.buffer.with_char(self.cur_layer as int, pos, cell), ..self }
    }

    /// The object after the code `native` was written at the cursor with the
    /// cursor's attribute and the cursor moved one column to the right.
    pub open spec fn typed(self, native: char) -> CapabilityView
        recommends
            self.layer_in_range(),
    {
        CapabilityView {
            caret: Caret {
                pos: Position { x: (self.caret.pos.x + 1) as i32, y: self.caret.pos.y },
                ..self.caret
            },
            ..self.with_cell(
                self.caret.pos,
                AttributedChar { ch: native, attribute: self.caret.attribute },
            )
        }
    }

    /// The object after the codes `natives` were typed one after the other.
    pub open spec fn printed(self, natives: Seq<char>) -> CapabilityView
        decreases natives.len(),
    {
        if natives.len() == 0 {
            self
        } else {
            self.printed(natives.drop_last()).typed(natives.last())
        }
    }

    /// The object after the colour `color` was looked up in the palette, or
    /// added to it, and made the cursor's foreground.
    pub open spec fn with_fg_rgb(self, color: Color) -> CapabilityView {
        CapabilityView {
            caret: Caret {
                attribute: TextAttribute {
                    foreground_color: slot_of(self.buffer.palette, color) as u32,
                    ..self.caret.attribute
                },
                ..self.caret
            },
            buffer: CanvasView { palette: with_color(self.buffer.palette, color), ..self.buffer },
            ..self
        }
    }

    /// The object after the colour `color` was looked up in the palette, or
    /// added to it, and made the cursor's background.
    pub open spec fn with_bg_rgb(self, color: Color) -> CapabilityView {
        CapabilityView {
            caret: Caret {
                attribute: TextAttribute {
                    background_color: slot_of(self.buffer.palette, color) as u32,
                    ..self.caret.attribute
                },
                ..self.caret
            },
            buffer: CanvasView { palette: with_color(self.buffer.palette, color), ..self.buffer },
            ..self
        }
    }
}

impl LuaBuffer {
    /// A canvas object on `buffer`, with a new cursor, writing to layer 0.
    pub fn new(buffer: Buffer) -> (object: LuaBuffer)
        ensures
            object@ == (CapabilityView { cur_layer: 0, caret: Caret::initial(), buffer: buffer@ }),
    {
        LuaBuffer { cur_layer: 0, caret: Caret::default(), buffer }
    }

    /// A canvas object on a blank canvas of the given size.
    pub fn create(width: i32, height: i32) -> (object: LuaBuffer)
        ensures
            object@ == (CapabilityView {
                cur_layer: 0,
                caret: Caret::initial(),
                buffer: CanvasView::blank(Size { width, height }, BufferType::initial()),
            }),
    {
        LuaBuffer::new(Buffer::create(Size { width, height }))
    }

    /// The first character of `ch` as a code of the canvas: the character
    /// itself on a canvas in Unicode, what `encode` makes of it and of the
    /// cursor's font page on any other. Fails on an empty text.
    pub fn convert_from_unicode<E: Fn(BufferType, char, usize) -> char>(
        &self,
        encode: &E,
        ch: &str,
    ) -> (res: Result<char, ScriptError>)
        requires
            encoder_is_total(encode),
        ensures
            ch@.len() == 0 ==> res == Err::<char, ScriptError>(ScriptError::InvalidInput),
            ch@.len() > 0 ==> res is Ok && encodes(
                encode,
                self@.buffer.buffer_type,
                ch@[0],
                self@.caret.attribute.font_page,
                res->Ok_0,
            ),
    {
        let chars = chars_of(ch);
        if chars.len() == 0 {
            return Err(ScriptError::InvalidInput);
        }
        Ok(self.encode_char(encode, chars[0]))
    }

    /// The character `ch` as a code of the canvas.
    fn encode_char<E: Fn(BufferType, char, usize) -> char>(&self, encode: &E, ch: char) -> (native:
        char)
        requires
            encoder_is_total(encode),
        ensures
            encodes(
                encode,
                self@.buffer.buffer_type,
                ch,
                self@.caret.attribute.font_page,
                native,
            ),
    {
        let buffer_type = self.buffer.get_buffer_type();
        match buffer_type {
            BufferType::Unicode => ch,
            BufferType::CP437 => encode(BufferType::CP437, ch, self.caret.get_font_page()),
            BufferType::Petscii => encode(BufferType::Petscii, ch, self.caret.get_font_page()),
            BufferType::Atascii => encode(BufferType::Atascii, ch, self.caret.get_font_page()),
            BufferType::Viewdata => encode(BufferType::Viewdata, ch, self.caret.get_font_page()),
        }
    }

    /// The code of the cell `ch` as a text of one character: the code itself
    /// on a canvas in Unicode, what `decode` makes of the cell on any other.
    pub fn convert_to_unicode<D: Fn(BufferType, AttributedChar) -> char>(
        &self,
        decode: &D,
        ch: AttributedChar,
    ) -> (text: String)
        requires
            decoder_is_total(decode),
        ensures
            text@.len() == 1,
            decodes(decode, self@.buffer.buffer_type, ch, text@[0]),
    {
        let buffer_type = self.buffer.get_buffer_type();
        let universal = match buffer_type {
            BufferType::Unicode => ch.ch,
            BufferType::CP437 => decode(BufferType::CP437, ch),
            BufferType::Petscii => decode(BufferType::Petscii, ch),
            BufferType::Atascii => decode(BufferType::Atascii, ch),
            BufferType::Viewdata => decode(BufferType::Viewdata, ch),
        };
        char_to_string(universal)
    }

    /// Fails when the active layer is not one of the canvas's layers.
    fn check_current_layer(&self) -> (res: Result<(), ScriptError>)
        ensures
            self@.layer_in_range() ==> res is Ok,
            !self@.layer_in_range() ==> res == Err::<(), ScriptError>(self@.current_layer_error()),
    {
        if self.cur_layer >= self.buffer.layer_count() {
            return Err(
                ScriptError::OutOfRange {
                    index: self.cur_layer,
                    count: self.buffer.layer_count(),
                    current: true,
                },
            );
        }
        Ok(())
    }

    /// Fails when `layer` is not one of the canvas's layers.
    fn check_layer(&self, layer: usize) -> (res: Result<(), ScriptError>)
        ensures
            layer < self@.buffer.layers.len() ==> res is Ok,
            layer >= self@.buffer.layers.len() ==> res == Err::<(), ScriptError>(
                self@.layer_error(layer),
            ),
    {
        if layer < self.buffer.layer_count() {
            Ok(())
        } else {
            Err(ScriptError::OutOfRange { index: layer, count: self.buffer.layer_count(), current: false })
        }
    }

    pub fn height(&self) -> (height: i32)
        ensures
            height == self@.buffer.size.height,
    {
        self.buffer.get_height()
    }

    /// Gives the canvas a new height. No cell changes.
    pub fn set_height(&mut self, height: i32)
        ensures
            final(self)@ == (CapabilityView {
                buffer: CanvasView {
                    size: Size { width: old(self)@.buffer.size.width, height },
                    ..old(self)@.buffer
                },
                ..old(self)@
            }),
    {
        self.buffer.set_height(height);
    }

    pub fn width(&self) -> (width: i32)
        ensures
            width == self@.buffer.size.width,
    {
        self.buffer.get_width()
    }

    /// Gives the canvas a new width. No cell changes.
    pub fn set_width(&mut self, width: i32)
        ensures
            final(self)@ == (CapabilityView {
                buffer: CanvasView {
                    size: Size { width, height: old(self)@.buffer.size.height },
                    ..old(self)@.buffer
                },
                ..old(self)@
            }),
    {
        self.buffer.set_width(width);
    }

    pub fn font_page(&self) -> (page: usize)
        ensures
            page == self@.caret.attribute.font_page,
    {
        self.caret.get_font_page()
    }

    pub fn set_font_page(&mut self, page: usize)
        ensures
            final(self)@ == (CapabilityView {
                caret: Caret {
                    attribute: TextAttribute { font_page: page, ..old(self)@.caret.attribute },
                    ..old(self)@.caret
                },
                ..old(self)@
            }),
    {
        self.caret.set_font_page(page);
    }

    pub fn layer(&self) -> (layer: usize)
        ensures
            layer == self@.cur_layer,
    {
        self.cur_layer
    }

    /// Makes `layer` the active layer, if the canvas has it.
    pub fn set_layer(&mut self, layer: usize) -> (res: Result<(), ScriptError>)
        ensures
            layer < old(self)@.buffer.layers.len() ==> res is Ok && final(self)@ == (CapabilityView {
                cur_layer: layer,
                ..old(self)@
            }),
            layer >= old(self)@.buffer.layers.len() ==> res == Err::<(), ScriptError>(
                old(self)@.layer_error(layer),
            ) && final(self)@ == old(self)@,
    {
        match self.check_layer(layer) {
            Ok(()) => {
                self.cur_layer = layer;
                Ok(())
            },
            Err(e) => Err(e),
        }
    }

    pub fn layer_count(&self) -> (count: usize)
        ensures
            count == self@.buffer.layers.len(),
    {
        self.buffer.layer_count()
    }

    /// The palette index of the cursor's foreground.
    pub fn caret_fg(&self) -> (color: u32)
        ensures
            color == self@.caret.attribute.foreground_color,
    {
        self.caret.get_attribute().get_foreground()
    }

    /// Makes the palette index `color` the cursor's foreground.
    pub fn set_caret_fg(&mut self, color: u32)
        ensures
            final(self)@ == (CapabilityView {
                caret: Caret {
                    attribute: TextAttribute {
                        foreground_color: color,
                        ..old(self)@.caret.attribute
                    },
                    ..old(self)@.caret
                },
                ..old(self)@
            }),
    {
        let mut attr = self.caret.get_attribute();
        attr.set_foreground(color);
        self.caret.set_attr(attr);
    }

    /// The palette index of the cursor's background.
    pub fn caret_bg(&self) -> (color: u32)
        ensures
            color == self@.caret.attribute.background_color,
    {
        self.caret.get_attribute().get_background()
    }

    /// Makes the palette index `color` the cursor's background.
    pub fn set_caret_bg(&mut self, color: u32)
        ensures
            final(self)@ == (CapabilityView {
                caret: Caret {
                    attribute: TextAttribute {
                        background_color: color,
                        ..old(self)@.caret.attribute
                    },
                    ..old(self)@.caret
                },
                ..old(self)@
            }),
    {
        let mut attr = self.caret.get_attribute();
        attr.set_background(color);
        self.caret.set_attr(attr);
    }

    pub fn x(&self) -> (x: i32)
        ensures
            x == self@.caret.pos.x,
    {
        self.caret.get_position().x
    }

    pub fn set_x(&mut self, x: i32)
        ensures
            final(self)@ == (CapabilityView {
                caret: Caret { pos: Position { x, y: old(self)@.caret.pos.y }, ..old(self)@.caret },
                ..old(self)@
            }),
    {
        self.caret.set_x_position(x);
    }

    pub fn y(&self) -> (y: i32)
        ensures
            y == self@.caret.pos.y,
    {
        self.caret.get_position().y
    }

    pub fn set_y(&mut self, y: i32)
        ensures
            final(self)@ == (CapabilityView {
                caret: Caret { pos: Position { x: old(self)@.caret.pos.x, y }, ..old(self)@.caret },
                ..old(self)@
            }),
    {
        self.caret.set_y_position(y);
    }

    /// Looks `(r, g, b)` up in the palette, adds it at the end if it is not
    /// there, makes it the cursor's foreground and returns its index.
    pub fn fg_rgb(&mut self, r: u8, g: u8, b: u8) -> (index: u32)
        ensures
            final(self)@ == old(self)@.with_fg_rgb(Color { r, g, b }),
            index == slot_of(old(self)@.buffer.palette, Color { r, g, b }) as u32,
    {
        let color = self.buffer.insert_color_rgb(r, g, b);
        self.caret.set_foreground(color);
        color
    }

    /// Looks `(r, g, b)` up in the palette, adds it at the end if it is not
    /// there, makes it the cursor's background and returns its index.
    pub fn bg_rgb(&mut self, r: u8, g: u8, b: u8) -> (index: u32)
        ensures
            final(self)@ == old(self)@.with_bg_rgb(Color { r, g, b }),
            index == slot_of(old(self)@.buffer.palette, Color { r, g, b }) as u32,
    {
        let color = self.buffer.insert_color_rgb(r, g, b);
        self.caret.set_background(color);
        color
    }

    /// Writes the first character of `ch`, as a code of the canvas and with
    /// the cursor's attribute, at `(x, y)` of the active layer. Fails, and
    /// changes nothing, when the canvas has no such layer or `ch` is empty.
    pub fn set_char<E: Fn(BufferType, char, usize) -> char>(
        &mut self,
        encode: &E,
        x: i32,
        y: i32,
        ch: &str,
    ) -> (res: Result<(), ScriptError>)
        requires
            encoder_is_total(encode),
        ensures
            !old(self)@.layer_in_range() ==> res == Err::<(), ScriptError>(
                old(self)@.current_layer_error(),
            ),
            old(self)@.layer_in_range() && ch@.len() == 0 ==> res == Err::<(), ScriptError>(
                ScriptError::InvalidInput,
            ),
            old(self)@.layer_in_range() && ch@.len() > 0 ==> res is Ok,
            res is Err ==> final(self)@ == old(self)@,
            res is Ok ==> exists|native: char|
                #[trigger] encodes(
                    encode,
                    old(self)@.buffer.buffer_type,
                    ch@[0],
                    old(self)@.caret.attribute.font_page,
                    native,
                ) && final(self)@ == old(self)@.with_cell(
                    Position { x, y },
                    AttributedChar { ch: native, attribute: old(self)@.caret.attribute },
                ),
    {
        match self.check_current_layer() {
            Ok(()) => {},
            Err(e) => {
                return Err(e);
            },
        }
        let attr = self.caret.get_attribute();
        let native = match self.convert_from_unicode(encode, ch) {
            Ok(native) => native,
            Err(e) => {
                return Err(e);
            },
        };
        let ch = AttributedChar::new(native, attr);
        self.buffer.set_char(self.cur_layer, Position { x, y }, ch);
        Ok(())
    }

    /// The cell at `(x, y)` of the active layer as a text of one character.
    pub fn get_char<D: Fn(BufferType, AttributedChar) -> char>(
        &self,
        decode: &D,
        x: i32,
        y: i32,
    ) -> (res: Result<String, ScriptError>)
        requires
            decoder_is_total(decode),
        ensures
            !self@.layer_in_range() ==> res is Err && res->Err_0 == self@.current_layer_error(),
            self@.layer_in_range() ==> res is Ok && res->Ok_0@.len() == 1 && decodes(
                decode,
                self@.buffer.buffer_type,
                self@.cell(Position { x, y }),
                res->Ok_0@[0],
            ),
    {
        match self.check_current_layer() {
            Ok(()) => {},
            Err(e) => {
                return Err(e);
            },
        }
        let ch = self.buffer.get_char(self.cur_layer, Position { x, y });
        Ok(self.convert_to_unicode(decode, ch))
    }

    /// The cell at `(x, y)` of the active layer as a text of one character;
    /// the cursor takes the attribute of that cell.
    pub fn pickup_char<D: Fn(BufferType, AttributedChar) -> char>(
        &mut self,
        decode: &D,
        x: i32,
        y: i32,
    ) -> (res: Result<String, ScriptError>)
        requires
            decoder_is_total(decode),
        ensures
            !old(self)@.layer_in_range() ==> res is Err && res->Err_0 == old(
                self,
            )@.current_layer_error() && final(self)@ == old(self)@,
            old(self)@.layer_in_range() ==> res is Ok && res->Ok_0@.len() == 1 && decodes(
                decode,
                old(self)@.buffer.buffer_type,
                old(self)@.cell(Position { x, y }),
                res->Ok_0@[0],
            ) && final(self)@ == (CapabilityView {
                caret: Caret {
                    attribute: old(self)@.cell(Position { x, y }).attribute,
                    ..old(self)@.caret
                },
                ..old(self)@
            }),
    {
        match self.check_current_layer() {
            Ok(()) => {},
            Err(e) => {
                return Err(e);
            },
        }
        let ch = self.buffer.get_char(self.cur_layer, Position { x, y });
        self.caret.set_attr(ch.attribute);
        Ok(self.convert_to_unicode(decode, ch))
    }

    /// Gives the cell at `(x, y)` of the active layer the foreground `col`.
    pub fn set_fg(&mut self, x: i32, y: i32, col: u32) -> (res: Result<(), ScriptError>)
        ensures
            !old(self)@.layer_in_range() ==> res == Err::<(), ScriptError>(
                old(self)@.current_layer_error(),
            ) && final(self)@ == old(self)@,
            old(self)@.layer_in_range() ==> res is Ok && final(self)@ == old(self)@.with_cell(
                Position { x, y },
                AttributedChar {
                    attribute: TextAttribute {
                        foreground_color: col,
                        ..old(self)@.cell(Position { x, y }).attribute
                    },
                    ..old(self)@.cell(Position { x, y })
                },
            ),
    {
        match self.check_current_layer() {
            Ok(()) => {},
            Err(e) => {
                return Err(e);
            },
        }
        let mut ch = self.buffer.get_char(self.cur_layer, Position { x, y });
        ch.attribute.set_foreground(col);
        self.buffer.set_char(self.cur_layer, Position { x, y }, ch);
        Ok(())
    }

    /// The foreground of the cell at `(x, y)` of the active layer.
    pub fn get_fg(&self, x: i32, y: i32) -> (res: Result<u32, ScriptError>)
        ensures
            !self@.layer_in_range() ==> res == Err::<u32, ScriptError>(
                self@.current_layer_error(),
            ),
            self@.layer_in_range() ==> res == Ok::<u32, ScriptError>(
                self@.cell(Position { x, y }).attribute.foreground_color,
            ),
    {
        match self.check_current_layer() {
            Ok(()) => {},
            Err(e) => {
                return Err(e);
            },
        }
        let ch = self.buffer.get_char(self.cur_layer, Position { x, y });
        Ok(ch.attribute.get_foreground())
    }

    /// Gives the cell at `(x, y)` of the active layer the background `col`.
    pub fn set_bg(&mut self, x: i32, y: i32, col: u32) -> (res: Result<(), ScriptError>)
        ensures
            !old(self)@.layer_in_range() ==> res == Err::<(), ScriptError>(
                old(self)@.current_layer_error(),
            ) && final(self)@ == old(self)@,
            old(self)@.layer_in_range() ==> res is Ok && final(self)@ == old(self)@.with_cell(
                Position { x, y },
                AttributedChar {
                    attribute: TextAttribute {
                        background_color: col,
                        ..old(self)@.cell(Position { x, y }).attribute
                    },
                    ..old(self)@.cell(Position { x, y })
                },
            ),
    {
        match self.check_current_layer() {
            Ok(()) => {},
            Err(e) => {
                return Err(e);
            },
        }
        let mut ch = self.buffer.get_char(self.cur_layer, Position { x, y });
        ch.attribute.set_background(col);
        self.buffer.set_char(self.cur_layer, Position { x, y }, ch);
        Ok(())
    }

    /// The background of the cell at `(x, y)` of the active layer.
    pub fn get_bg(&self, x: i32, y: i32) -> (res: Result<u32, ScriptError>)
        ensures
            !self@.layer_in_range() ==> res == Err::<u32, ScriptError>(
                self@.current_layer_error(),
            ),
            self@.layer_in_range() ==> res == Ok::<u32, ScriptError>(
                self@.cell(Position { x, y }).attribute.background_color,
            ),
    {
        match self.check_current_layer() {
            Ok(()) => {},
            Err(e) => {
                return Err(e);
            },
        }
        let ch = self.buffer.get_char(self.cur_layer, Position { x, y });
        Ok(ch.attribute.get_background())
    }

    /// Writes the characters of `text` from the cursor to the right, each as
    /// a code of the canvas and with the cursor's attribute, and leaves the
    /// cursor behind the last of them. The line is never broken. An empty
    /// text does nothing; any other fails, and changes nothing, when the
    /// canvas has no active layer. The cursor must have room to move right.
    pub fn print<E: Fn(BufferType, char, usize) -> char>(&mut self, encode: &E, text: &str) -> (res:
        Result<(), ScriptError>)
        requires
            encoder_is_total(encode),
            old(self)@.caret.pos.x + text@.len() <= i32::MAX,
        ensures
            text@.len() > 0 && !old(self)@.layer_in_range() ==> res == Err::<(), ScriptError>(
                old(self)@.current_layer_error(),
            ),
            text@.len() == 0 || old(self)@.layer_in_range() ==> res is Ok,
            res is Err ==> final(self)@ == old(self)@,
            res is Ok ==> exists|natives: Seq<char>|
                #![trigger old(self)@.printed(natives)]
                natives.len() == text@.len() && (forall|i: int|
                    0 <= i < text@.len() ==> #[trigger] encodes(
                        encode,
                        old(self)@.buffer.buffer_type,
                        text@[i],
                        old(self)@.caret.attribute.font_page,
                        natives[i],
                    )) && final(self)@ == old(self)@.printed(natives),
    {
        let chars = chars_of(text);
        if chars.len() == 0 {
            assert(old(self)@.printed(Seq::<char>::empty()) == old(self)@);
            return Ok(());
        }
        match self.check_current_layer() {
            Ok(()) => {},
            Err(e) => {
                return Err(e);
            },
        }
        let ghost mut natives: Seq<char> = Seq::empty();
        let mut i: usize = 0;
        while i < chars.len()
            invariant
                encoder_is_total(encode),
                chars@ == text@,
                i <= chars@.len(),
                old(self)@.layer_in_range(),
                old(self)@.caret.pos.x + text@.len() <= i32::MAX,
                natives.len() == i,
                forall|k: int|
                    0 <= k < i ==> #[trigger] encodes(
                        encode,
                        old(self)@.buffer.buffer_type,
                        text@[k],
                        old(self)@.caret.attribute.font_page,
                        natives[k],
                    ),
                self@ == old(self)@.printed(natives),
                self@.cur_layer == old(self)@.cur_layer,
                self@.buffer.layers.len() == old(self)@.buffer.layers.len(),
                self@.buffer.buffer_type == old(self)@.buffer.buffer_type,
                self@.caret.attribute == old(self)@.caret.attribute,
                self@.caret.pos.x == old(self)@.caret.pos.x + i,
            decreases chars.len() - i,
        {
            let mut pos = self.caret.get_position();
            let attribute = self.caret.get_attribute();
            let native = self.encode_char(encode, chars[i]);
            let ch = AttributedChar::new(native, attribute);
            let ghost before = self@;
            self.buffer.set_char(self.cur_layer, pos, ch);
            pos.x += 1;
            self.caret.set_position(pos);
            proof {
                let longer = natives.push(native);
                assert(longer.drop_last() =~= natives);
                assert(longer.last() == native);
                assert(self@ == before.typed(native));
                natives = longer;
            }
            i += 1;
        }
        Ok(())
    }

    /// Puts the cursor at `(x, y)`.
    pub fn gotoxy(&mut self, x: i32, y: i32)
        ensures
            final(self)@ == (CapabilityView {
                caret: Caret { pos: Position { x, y }, ..old(self)@.caret },
                ..old(self)@
            }),
    {
        self.caret.set_position(Position::new(x, y));
    }

    /// Moves layer `layer` to the offset `(x, y)`.
    pub fn set_layer_position(&mut self, layer: usize, x: i32, y: i32) -> (res: Result<
        (),
        ScriptError,
    >)
        ensures
            layer >= old(self)@.buffer.layers.len() ==> res == Err::<(), ScriptError>(
                old(self)@.layer_error(layer),
            ) && final(self)@ == old(self)@,
            layer < old(self)@.buffer.layers.len() ==> res is Ok && final(self)@ == (CapabilityView {
                buffer: CanvasView {
                    layers: old(self)@.buffer.layers.update(
                        layer as int,
                        LayerView {
                            offset: Position { x, y },
                            ..old(self)@.buffer.layers[layer as int]
                        },
                    ),
                    ..old(self)@.buffer
                },
                ..old(self)@
            }),
    {
        match self.check_layer(layer) {
            Ok(()) => {
                self.buffer.set_layer_offset(layer, Position { x, y });
                Ok(())
            },
            Err(e) => Err(e),
        }
    }

    /// The offset of layer `layer`.
    pub fn get_layer_position(&self, layer: usize) -> (res: Result<(i32, i32), ScriptError>)
        ensures
            layer >= self@.buffer.layers.len() ==> res == Err::<(i32, i32), ScriptError>(
                self@.layer_error(layer),
            ),
            layer < self@.buffer.layers.len() ==> res == Ok::<(i32, i32), ScriptError>(
                (
                    self@.buffer.layers[layer as int].offset.x,
                    self@.buffer.layers[layer as int].offset.y,
                ),
            ),
    {
        match self.check_layer(layer) {
            Ok(()) => {
                let pos = self.buffer.get_layer_offset(layer);
                Ok((pos.x, pos.y))
            },
            Err(e) => Err(e),
        }
    }

    /// Shows or hides layer `layer`. No canvas has a negative layer: such a
    /// `layer` fails like one that is too large, and the error names it as the
    /// unsigned number that it stands for.
    pub fn set_layer_visible(&mut self, layer: i32, is_visible: bool) -> (res: Result<
        (),
        ScriptError,
    >)
        ensures
            layer < 0 || layer >= old(self)@.buffer.layers.len() ==> res == Err::<(), ScriptError>(
                old(self)@.layer_error(layer as usize),
            ) && res->Err_0 is OutOfRange && final(self)@ == old(self)@,
            0 <= layer < old(self)@.buffer.layers.len() ==> res is Ok && final(self)@
                == (CapabilityView {
                buffer: CanvasView {
                    layers: old(self)@.buffer.layers.update(
                        layer as int,
                        LayerView { is_visible, ..old(self)@.buffer.layers[layer as int] },
                    ),
                    ..old(self)@.buffer
                },
                ..old(self)@
            }),
    {
        let index: usize = #[verifier::truncate]
        (layer as usize);
        if layer < 0 {
            return Err(
                ScriptError::OutOfRange {
                    index,
                    count: self.buffer.layer_count(),
                    current: false,
                },
            );
        }
        match self.check_layer(index) {
            Ok(()) => {
                self.buffer.set_layer_visible(index, is_visible);
                Ok(())
            },
            Err(e) => Err(e),
        }
    }

    /// Whether layer `layer` is shown.
    pub fn get_layer_visible(&self, layer: usize) -> (res: Result<bool, ScriptError>)
        ensures
            layer >= self@.buffer.layers.len() ==> res == Err::<bool, ScriptError>(
                self@.layer_error(layer),
            ),
            layer < self@.buffer.layers.len() ==> res == Ok::<bool, ScriptError>(
                self@.buffer.layers[layer as int].is_visible,
            ),
    {
        match self.check_layer(layer) {
            Ok(()) => Ok(self.buffer.is_layer_visible(layer)),
            Err(e) => Err(e),
        }
    }

    /// Puts a new cursor and a blank canvas of the same size in the place of
    /// the old ones. The blank canvas has the encoding of every new canvas.
    pub fn clear(&mut self)
        ensures
            final(self)@ == (CapabilityView {
                caret: Caret::initial(),
                buffer: CanvasView::blank(old(self)@.buffer.size, BufferType::initial()),
                ..old(self)@
            }),
    {
        self.caret = Caret::default();
        self.buffer = Buffer::new(self.buffer.get_size());
    }
}

/// True when the adapter takes the code of `cell` back to itself: whatever
/// `decode` makes of the cell, `encode` makes the cell's code of it again.
pub open spec fn round_trips<
    E: Fn(BufferType, char, usize) -> char,
    D: Fn(BufferType, AttributedChar) -> char,
>(encode: &E, decode: &D, kind: BufferType, cell: AttributedChar, font_page: usize) -> bool {
    forall|universal: char, again: char|
        decodes(decode, kind, cell, universal) && #[trigger] encodes(
            encode,
            kind,
            universal,
            font_page,
            again,
        ) ==> again == cell.ch
}

/// A cell that was written at a position right of and below the origin is
/// read back there, and every other cell of the active layer is as before.
pub proof fn lemma_cell_read_back(object: CapabilityView, pos: Position, cell: AttributedChar)
    requires
        object.layer_in_range(),
        pos.x >= 0,
        pos.y >= 0,
    ensures
        object.with_cell(pos, cell).layer_in_range(),
        object.with_cell(pos, cell).cell(pos) == cell,
        forall|other: Position|
            other != pos ==> #[trigger] object.with_cell(pos, cell).cell(other) == object.cell(
                other,
            ),
{
    let after = object.with_cell(pos, cell);
    assert forall|other: Position| other != pos implies #[trigger] after.cell(other)
        == object.cell(other) by {
        assert((other.x as int, other.y as int) != (pos.x as int, pos.y as int));
    }
}

/// The character that `set_char` wrote at `pos` and `get_char` read there
/// as `universal` is encoded again as the code that the cell holds, on every
/// canvas in Unicode, and on any other where the adapter takes that code
/// back to itself. On a canvas in Unicode the character read is the
/// character written.
pub proof fn lemma_set_char_get_char<
    E: Fn(BufferType, char, usize) -> char,
    D: Fn(BufferType, AttributedChar) -> char,
>(
    encode: &E,
    decode: &D,
    object: CapabilityView,
    pos: Position,
    ch: char,
    native: char,
    universal: char,
    again: char,
)
    requires
        object.layer_in_range(),
        pos.x >= 0,
        pos.y >= 0,
        encodes(encode, object.buffer.buffer_type, ch, object.caret.attribute.font_page, native),
        decodes(
            decode,
            object.buffer.buffer_type,
            object.with_cell(
                pos,
                AttributedChar { ch: native, attribute: object.caret.attribute },
            ).cell(pos),
            universal,
        ),
        encodes(
            encode,
            object.buffer.buffer_type,
            universal,
            object.caret.attribute.font_page,
            again,
        ),
        object.buffer.buffer_type != BufferType::Unicode ==> round_trips(
            encode,
            decode,
            object.buffer.buffer_type,
            AttributedChar { ch: native, attribute: object.caret.attribute },
            object.caret.attribute.font_page,
        ),
    ensures
        again == native,
        object.buffer.buffer_type == BufferType::Unicode ==> universal == ch,
{
    lemma_cell_read_back(
        object,
        pos,
        AttributedChar { ch: native, attribute: object.caret.attribute },
    );
}

/// What `print` leaves behind, cell by cell: the codes stand from the
/// cursor to the right, where the layer has positions, with the cursor's
/// attribute; the cursor stands behind the last of them; nothing else has
/// changed.
pub proof fn lemma_printed(object: CapabilityView, natives: Seq<char>)
    requires
        object.layer_in_range(),
        object.caret.pos.x + natives.len() <= i32::MAX,
    ensures
        object.printed(natives).cur_layer == object.cur_layer,
        object.printed(natives).caret == (Caret {
            pos: Position {
                x: (object.caret.pos.x + natives.len()) as i32,
                y: object.caret.pos.y,
            },
            ..object.caret
        }),
        object.printed(natives).buffer.size == object.buffer.size,
        object.printed(natives).buffer.is_terminal_buffer == object.buffer.is_terminal_buffer,
        object.printed(natives).buffer.buffer_type == object.buffer.buffer_type,
        object.printed(natives).buffer.palette == object.buffer.palette,
        object.printed(natives).buffer.fonts == object.buffer.fonts,
        object.printed(natives).buffer.layers.len() == object.buffer.layers.len(),
        forall|layer: int|
            0 <= layer < object.buffer.layers.len() && layer != object.cur_layer
                ==> #[trigger] object.printed(natives).buffer.layers[layer]
                == object.buffer.layers[layer],
        object.printed(natives).buffer.layers[object.cur_layer as int].is_visible
            == object.buffer.layers[object.cur_layer as int].is_visible,
        object.printed(natives).buffer.layers[object.cur_layer as int].offset
            == object.buffer.layers[object.cur_layer as int].offset,
        forall|pos: Position| #[trigger]
            object.printed(natives).cell(pos) == if pos.y == object.caret.pos.y && pos.y >= 0
                && pos.x >= 0 && object.caret.pos.x <= pos.x < object.caret.pos.x + natives.len() {
                AttributedChar {
                    ch: natives[pos.x - object.caret.pos.x],
                    attribute: object.caret.attribute,
                }
            } else {
                object.cell(pos)
            },
    decreases natives.len(),
{
    if natives.len() > 0 {
        let shorter = natives.drop_last();
        let before = object.printed(shorter);
        lemma_printed(object, shorter);
        let written = AttributedChar { ch: natives.last(), attribute: before.caret.attribute };
        let after = before.typed(natives.last());
        assert(after == object.printed(natives));
        assert forall|pos: Position| #[trigger]
            after.cell(pos) == if pos.y == object.caret.pos.y && pos.y >= 0 && pos.x >= 0
                && object.caret.pos.x <= pos.x < object.caret.pos.x + natives.len() {
                AttributedChar {
                    ch: natives[pos.x - object.caret.pos.x],
                    attribute: object.caret.attribute,
                }
            } else {
                object.cell(pos)
            } by {
            if before.caret.pos.x >= 0 && before.caret.pos.y >= 0 {
                lemma_cell_read_back(before, before.caret.pos, written);
            }
            if pos != before.caret.pos {
                assert(before.cell(pos) == after.cell(pos)) by {
                    if before.caret.pos.x >= 0 && before.caret.pos.y >= 0 {
                        assert((pos.x as int, pos.y as int) != (
                            before.caret.pos.x as int,
                            before.caret.pos.y as int,
                        ));
                    }
                }
                if pos.y == object.caret.pos.y && pos.y >= 0 && pos.x >= 0 && object.caret.pos.x
                    <= pos.x < object.caret.pos.x + shorter.len() {
                    assert(shorter[pos.x - object.caret.pos.x] == natives[pos.x
                        - object.caret.pos.x]);
                }
            }
        }
    }
}

} // verus!
