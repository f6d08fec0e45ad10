use vstd::prelude::*;

verus! {

/// A scaled coordinate or distance, in the font's units.
pub type Position = i32;

/// An opaque glyph identifier within one face.
pub type Glyph = u32;

/// Vertical metrics of a font for one writing direction.
#[derive(Clone, Copy, Debug, PartialEq, Eq, Structural)]
pub struct FontExtents {
    pub ascender: Position,
    pub descender: Position,
    pub line_gap: Position,
}

/// Bounding box of a glyph outline.
#[derive(Clone, Copy, Debug, PartialEq, Eq, Structural)]
pub struct GlyphExtents {
    pub x_bearing: Position,
    pub y_bearing: Position,
    pub width: Position,
    pub height: Position,
}

/// A four-byte OpenType tag, packed big-endian into a `u32`.
#[derive(Clone, Copy, Debug, PartialEq, Eq, Hash, Structural)]
pub struct Tag(pub u32);

} // verus!
