//! The cursor of a canvas object: where it stands and what it paints with.

use crate::buffer::{Position, TextAttribute};
use vstd::prelude::*;

verus! {

/// A position and the attribute that is written with each character. The
/// position is not held inside the canvas.
#[derive(Clone, Copy, Debug, PartialEq, Eq, Structural)]
pub struct Caret {
    pub pos: Position,
    pub attribute: TextAttribute,
    pub insert_mode: bool,
    pub is_visible: bool,
}

impl Caret {
    /// At the origin, with the attribute that cells have at first,
    /// overwriting, and shown.
    pub open spec fn initial() -> Caret {
        Caret {
            pos: Position { x: 0, y: 0 },
            attribute: TextAttribute::initial(),
            insert_mode: false,
            is_visible: true,
        }
    }

    pub fn get_position(&self) -> (pos: Position)
        ensures
            pos == self.pos,
    {
        self.pos
    }

    pub fn set_position(&mut self, pos: Position)
        ensures
            *final(self) == (Caret { pos, ..*old(self) }),
    {
        self.pos = pos;
    }

    pub fn set_x_position(&mut self, x: i32)
        ensures
            *final(self) == (Caret { pos: Position { x, y: old(self).pos.y }, ..*old(self) }),
    {
        self.pos.x = x;
    }

    pub fn set_y_position(&mut self, y: i32)
        ensures
            *final(self) == (Caret { pos: Position { x: old(self).pos.x, y }, ..*old(self) }),
    {
        self.pos.y = y;
    }

    pub fn get_attribute(&self) -> (attribute: TextAttribute)
        ensures
            attribute == self.attribute,
    {
        self.attribute
    }

    pub fn set_attr(&mut self, attribute: TextAttribute)
        ensures
            *final(self) == (Caret { attribute, ..*old(self) }),
    {
        self.attribute = attribute;
    }

    pub fn set_foreground(&mut self, color: u32)
        ensures
            *final(self) == (Caret {
                attribute: TextAttribute { foreground_color: color, ..old(self).attribute },
                ..*old(self)
            }),
    {
        self.attribute.foreground_color = color;
    }

    pub fn set_background(&mut self, color: u32)
        ensures
            *final(self) == (Caret {
                attribute: TextAttribute { background_color: color, ..old(self).attribute },
                ..*old(self)
            }),
    {
        self.attribute.background_color = color;
    }

    pub fn get_font_page(&self) -> (page: usize)
        ensures
            page == self.attribute.font_page,
    {
        self.attribute.font_page
    }

    pub fn set_font_page(&mut self, page: usize)
        ensures
            *final(self) == (Caret {
                attribute: TextAttribute { font_page: page, ..old(self).attribute },
                ..*old(self)
            }),
    {
        self.attribute.font_page = page;
    }
}

impl Default for Caret {
    fn default() -> (caret: Caret)
        ensures
            caret == Caret::initial(),
    {
        Caret {
            pos: Position { x: 0, y: 0 },
            attribute: TextAttribute::default(),
            insert_mode: false,
            is_visible: true,
        }
    }
}

} // verus!
