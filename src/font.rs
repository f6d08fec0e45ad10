use vstd::prelude::*;

use crate::metrics::{FontExtents, Glyph, GlyphExtents, Position};
use crate::scale::{
    parent_scale_distance, parent_scale_font_extents, parent_scale_glyph_extents,
    parent_scale_position, rescaled_font_extents, rescaled_glyph_extents, rescaled_point,
    rescaled_position,
};
use crate::scale::{lemma_font_extents_scale_exactly, scales_exactly};

verus! {

/// The font a provider answers for: its scale on each axis and the parent font to which it may fall
/// back.
pub struct Font<Par> {
    pub x_scale: i32,
    pub y_scale: i32,
    pub parent: Option<Par>,
}

impl<Par> Font<Par> {
    pub fn new(x_scale: i32, y_scale: i32, parent: Option<Par>) -> (r: Font<Par>)
        ensures
            r.x_scale == x_scale,
            r.y_scale == y_scale,
            r.parent == parent,
    {
        Font { x_scale, y_scale, parent }
    }

    /// The parent font, if there is one.
    pub fn parent(&self) -> (r: Option<&Par>)
        ensures
            r is Some <==> self.parent is Some,
            r is Some ==> *r->Some_0 == self.parent->Some_0,
    {
        match &self.parent {
            Some(p) => Some(p),
            None => None,
        }
    }

    /// The scale on the x and y axes.
    pub open spec fn scale_view(&self) -> (i32, i32) {
        (self.x_scale, self.y_scale)
    }

    /// The scale on the x and y axes.
    pub fn scale(&self) -> (r: (i32, i32))
        ensures
            r == self.scale_view(),
    {
        (self.x_scale, self.y_scale)
    }
}

/// Asking a font for its metrics: what the shaping engine does, and what a
/// provider's default answers fall back on. A query is a function of the font
/// and its arguments, and each has a spec function that names its answer. An
/// implementor outside verified code defines each spec method as its query's
/// own answer and is taken on trust: its answers must not change for a given
/// font and arguments while the font is in use.
pub trait FontQuery {
    /// The scale on the x and y axes.
    spec fn spec_scale(&self) -> (i32, i32);

    /// The horizontal font extents.
    spec fn spec_font_h_extents(&self) -> Option<FontExtents>;

    /// The vertical font extents.
    spec fn spec_font_v_extents(&self) -> Option<FontExtents>;

    /// The glyph for a code point.
    spec fn spec_nominal_glyph(&self, unicode: char) -> Option<Glyph>;

    /// The glyph for a code point and variation selector.
    spec fn spec_variation_glyph(&self, unicode: char, variation_sel: char) -> Option<Glyph>;

    /// The horizontal advance of a glyph.
    spec fn spec_glyph_h_advance(&self, glyph: Glyph) -> Position;

    /// The vertical advance of a glyph.
    spec fn spec_glyph_v_advance(&self, glyph: Glyph) -> Position;

    /// The horizontal origin of a glyph.
    spec fn spec_glyph_h_origin(&self, glyph: Glyph) -> Option<(Position, Position)>;

    /// The vertical origin of a glyph.
    spec fn spec_glyph_v_origin(&self, glyph: Glyph) -> Option<(Position, Position)>;

    /// The extents of a glyph.
    spec fn spec_glyph_extents(&self, glyph: Glyph) -> Option<GlyphExtents>;

    /// The contour point of a glyph.
    spec fn spec_glyph_contour_point(
        &self,
        glyph: Glyph,
        point_index: u32,
    ) -> Option<(Position, Position)>;

    /// The name of a glyph.
    spec fn spec_glyph_name(&self, glyph: Glyph) -> Option<String>;

    /// The glyph with a name.
    spec fn spec_glyph_from_name(&self, name: &str) -> Option<Glyph>;

    fn scale(&self) -> (r: (i32, i32))
        ensures
            r == self.spec_scale(),
    ;

    fn font_h_extents(&self) -> (r: Option<FontExtents>)
        ensures
            r == self.spec_font_h_extents(),
    ;

    fn font_v_extents(&self) -> (r: Option<FontExtents>)
        ensures
            r == self.spec_font_v_extents(),
    ;

    fn nominal_glyph(&self, unicode: char) -> (r: Option<Glyph>)
        ensures
            r == self.spec_nominal_glyph(unicode),
    ;

    fn variation_glyph(&self, unicode: char, variation_sel: char) -> (r: Option<Glyph>)
        ensures
            r == self.spec_variation_glyph(unicode, variation_sel),
    ;

    fn glyph_h_advance(&self, glyph: Glyph) -> (r: Position)
        ensures
            r == self.spec_glyph_h_advance(glyph),
    ;

    fn glyph_v_advance(&self, glyph: Glyph) -> (r: Position)
        ensures
            r == self.spec_glyph_v_advance(glyph),
    ;

    fn glyph_h_origin(&self, glyph: Glyph) -> (r: Option<(Position, Position)>)
        ensures
            r == self.spec_glyph_h_origin(glyph),
    ;

    fn glyph_v_origin(&self, glyph: Glyph) -> (r: Option<(Position, Position)>)
        ensures
            r == self.spec_glyph_v_origin(glyph),
    ;

    fn glyph_extents(&self, glyph: Glyph) -> (r: Option<GlyphExtents>)
        ensures
            r == self.spec_glyph_extents(glyph),
    ;

    fn glyph_contour_point(
        &self,
        glyph: Glyph,
        point_index: u32,
    ) -> (r: Option<(Position, Position)>)
        ensures
            r == self.spec_glyph_contour_point(glyph, point_index),
    ;

    fn glyph_name(&self, glyph: Glyph) -> (r: Option<String>)
        ensures
            r == self.spec_glyph_name(glyph),
    ;

    fn glyph_from_name(&self, name: &str) -> (r: Option<Glyph>)
        ensures
            r == self.spec_glyph_from_name(name),
    ;
}

/// The font at the end of every parent chain: no data for any query.
#[derive(Clone, Copy, Debug, PartialEq, Eq, Structural)]
pub struct EmptyFont;

impl FontQuery for EmptyFont {
    open spec fn spec_scale(&self) -> (i32, i32) {
        (0, 0)
    }

    open spec fn spec_font_h_extents(&self) -> Option<FontExtents> {
        None
    }

    open spec fn spec_font_v_extents(&self) -> Option<FontExtents> {
        None
    }

    open spec fn spec_nominal_glyph(&self, unicode: char) -> Option<Glyph> {
        None
    }

    open spec fn spec_variation_glyph(&self, unicode: char, variation_sel: char) -> Option<Glyph> {
        None
    }

    open spec fn spec_glyph_h_advance(&self, glyph: Glyph) -> Position {
        0
    }

    open spec fn spec_glyph_v_advance(&self, glyph: Glyph) -> Position {
        0
    }

    open spec fn spec_glyph_h_origin(&self, glyph: Glyph) -> Option<(Position, Position)> {
        None
    }

    open spec fn spec_glyph_v_origin(&self, glyph: Glyph) -> Option<(Position, Position)> {
        None
    }

    open spec fn spec_glyph_extents(&self, glyph: Glyph) -> Option<GlyphExtents> {
        None
    }

    open spec fn spec_glyph_contour_point(
        &self,
        glyph: Glyph,
        point_index: u32,
    ) -> Option<(Position, Position)> {
        None
    }

    open spec fn spec_glyph_name(&self, glyph: Glyph) -> Option<String> {
        None
    }

    open spec fn spec_glyph_from_name(&self, name: &str) -> Option<Glyph> {
        None
    }

    fn scale(&self) -> (r: (i32, i32)) {
        (0, 0)
    }

    fn font_h_extents(&self) -> (r: Option<FontExtents>) {
        None
    }

    fn font_v_extents(&self) -> (r: Option<FontExtents>) {
        None
    }

    fn nominal_glyph(&self, unicode: char) -> (r: Option<Glyph>) {
        None
    }

    fn variation_glyph(&self, unicode: char, variation_sel: char) -> (r: Option<Glyph>) {
        None
    }

    fn glyph_h_advance(&self, glyph: Glyph) -> (r: Position) {
        0
    }

    fn glyph_v_advance(&self, glyph: Glyph) -> (r: Position) {
        0
    }

    fn glyph_h_origin(&self, glyph: Glyph) -> (r: Option<(Position, Position)>) {
        None
    }

    fn glyph_v_origin(&self, glyph: Glyph) -> (r: Option<(Position, Position)>) {
        None
    }

    fn glyph_extents(&self, glyph: Glyph) -> (r: Option<GlyphExtents>) {
        None
    }

    fn glyph_contour_point(
        &self,
        glyph: Glyph,
        point_index: u32,
    ) -> (r: Option<(Position, Position)>) {
        None
    }

    fn glyph_name(&self, glyph: Glyph) -> (r: Option<String>) {
        None
    }

    fn glyph_from_name(&self, name: &str) -> (r: Option<Glyph>) {
        None
    }
}

/// The default horizontal font extents: the parent's, carried over to this font's vertical scale;
/// no data without a parent or where it cannot be carried over.
pub open spec fn delegated_font_h_extents<Par: FontQuery>(font: &Font<Par>) -> Option<FontExtents> {
    match font.parent {
        None => None,
        Some(p) => match p.spec_font_h_extents() {
            None => None,
            Some(e) => rescaled_font_extents(e, font.y_scale, p.spec_scale().1),
        },
    }
}

/// The default vertical font extents: the parent's, carried over to this font's vertical scale; no
/// data without a parent or where it cannot be carried over.
pub open spec fn delegated_font_v_extents<Par: FontQuery>(font: &Font<Par>) -> Option<FontExtents> {
    match font.parent {
        None => None,
        Some(p) => match p.spec_font_v_extents() {
            None => None,
            Some(e) => rescaled_font_extents(e, font.y_scale, p.spec_scale().1),
        },
    }
}

/// The default glyph for a code point: the parent's answer, unchanged; no data without a parent.
pub open spec fn delegated_nominal_glyph<Par: FontQuery>(
    font: &Font<Par>,
    unicode: char,
) -> Option<Glyph> {
    match font.parent {
        None => None,
        Some(p) => p.spec_nominal_glyph(unicode),
    }
}

/// The default glyph for a code point and variation selector: the parent's answer, unchanged; no
/// data without a parent.
pub open spec fn delegated_variation_glyph<Par: FontQuery>(
    font: &Font<Par>,
    unicode: char,
    variation_sel: char,
) -> Option<Glyph> {
    match font.parent {
        None => None,
        Some(p) => p.spec_variation_glyph(unicode, variation_sel),
    }
}

/// The default horizontal advance of a glyph: the parent's, carried over to this font's x scale;
/// zero without a parent or where it cannot be carried over.
pub open spec fn delegated_glyph_h_advance<Par: FontQuery>(
    font: &Font<Par>,
    glyph: Glyph,
) -> Position {
    match font.parent {
        None => 0,
        Some(p) => match rescaled_position(
            p.spec_glyph_h_advance(glyph),
            font.x_scale,
            p.spec_scale().0,
        ) {
            Some(d) => d,
            None => 0,
        },
    }
}

/// The default vertical advance of a glyph: the parent's, carried over to this font's y scale; zero
/// without a parent or where it cannot be carried over.
pub open spec fn delegated_glyph_v_advance<Par: FontQuery>(
    font: &Font<Par>,
    glyph: Glyph,
) -> Position {
    match font.parent {
        None => 0,
        Some(p) => match rescaled_position(
            p.spec_glyph_v_advance(glyph),
            font.y_scale,
            p.spec_scale().1,
        ) {
            Some(d) => d,
            None => 0,
        },
    }
}

/// The default horizontal origin of a glyph: the parent's, each coordinate carried over on its own
/// axis; no data without a parent or where it cannot be carried over.
pub open spec fn delegated_glyph_h_origin<Par: FontQuery>(
    font: &Font<Par>,
    glyph: Glyph,
) -> Option<(Position, Position)> {
    match font.parent {
        None => None,
        Some(p) => match p.spec_glyph_h_origin(glyph) {
            None => None,
            Some(o) => rescaled_point(
                o,
                font.x_scale,
                p.spec_scale().0,
                font.y_scale,
                p.spec_scale().1,
            ),
        },
    }
}

/// The default vertical origin of a glyph: the parent's, each coordinate carried over on its own
/// axis; no data without a parent or where it cannot be carried over.
pub open spec fn delegated_glyph_v_origin<Par: FontQuery>(
    font: &Font<Par>,
    glyph: Glyph,
) -> Option<(Position, Position)> {
    match font.parent {
        None => None,
        Some(p) => match p.spec_glyph_v_origin(glyph) {
            None => None,
            Some(o) => rescaled_point(
                o,
                font.x_scale,
                p.spec_scale().0,
                font.y_scale,
                p.spec_scale().1,
            ),
        },
    }
}

/// The default extents of a glyph: the parent's, each coordinate carried over on its own axis; no
/// data without a parent or where it cannot be carried over.
pub open spec fn delegated_glyph_extents<Par: FontQuery>(
    font: &Font<Par>,
    glyph: Glyph,
) -> Option<GlyphExtents> {
    match font.parent {
        None => None,
        Some(p) => match p.spec_glyph_extents(glyph) {
            None => None,
            Some(e) => rescaled_glyph_extents(
                e,
                font.x_scale,
                p.spec_scale().0,
                font.y_scale,
                p.spec_scale().1,
            ),
        },
    }
}

/// The default contour point of a glyph: the parent's, each coordinate carried over on its own
/// axis; no data without a parent or where it cannot be carried over.
pub open spec fn delegated_glyph_contour_point<Par: FontQuery>(
    font: &Font<Par>,
    glyph: Glyph,
    point_index: u32,
) -> Option<(Position, Position)> {
    match font.parent {
        None => None,
        Some(p) => match p.spec_glyph_contour_point(glyph, point_index) {
            None => None,
            Some(o) => rescaled_point(
                o,
                font.x_scale,
                p.spec_scale().0,
                font.y_scale,
                p.spec_scale().1,
            ),
        },
    }
}

/// The default name of a glyph: the parent's answer, unchanged; no data without a parent.
pub open spec fn delegated_glyph_name<Par: FontQuery>(
    font: &Font<Par>,
    glyph: Glyph,
) -> Option<String> {
    match font.parent {
        None => None,
        Some(p) => p.spec_glyph_name(glyph),
    }
}

/// The default glyph with a name: the parent's answer, unchanged; no data without a parent.
pub open spec fn delegated_glyph_from_name<Par: FontQuery>(
    font: &Font<Par>,
    name: &str,
) -> Option<Glyph> {
    match font.parent {
        None => None,
        Some(p) => p.spec_glyph_from_name(name),
    }
}

/// The metric queries a custom provider answers.
///
/// Each query has a spec name, `answer_*`, for the provider's answer, and its
/// method returns exactly that. By default the answer is the parent's, carried
/// over to the font's own scale (`delegated_*`); a font without a parent gets
/// no data. A provider answers a query it has no data for by calling the
/// matching `default_*` function, and keeps the default spec name; where it
/// answers a query itself, it gives that query's spec name too. An
/// implementor outside verified code defines each spec name it gives as its
/// method's own answer, and is taken on trust.
pub trait FontFuncs {
    /// The provider's horizontal font extents.
    open spec fn answer_font_h_extents<Par: FontQuery>(
        &self,
        font: &Font<Par>,
    ) -> Option<FontExtents> {
        delegated_font_h_extents(font)
    }

    fn get_font_h_extents<Par: FontQuery>(&self, font: &Font<Par>) -> (r: Option<FontExtents>)
        ensures
            r == self.answer_font_h_extents(font),
    ;

    /// The provider's vertical font extents.
    open spec fn answer_font_v_extents<Par: FontQuery>(
        &self,
        font: &Font<Par>,
    ) -> Option<FontExtents> {
        delegated_font_v_extents(font)
    }

    fn get_font_v_extents<Par: FontQuery>(&self, font: &Font<Par>) -> (r: Option<FontExtents>)
        ensures
            r == self.answer_font_v_extents(font),
    ;

    /// The provider's glyph for a code point.
    open spec fn answer_nominal_glyph<Par: FontQuery>(
        &self,
        font: &Font<Par>,
        unicode: char,
    ) -> Option<Glyph> {
        delegated_nominal_glyph(font, unicode)
    }

    fn get_nominal_glyph<Par: FontQuery>(
        &self,
        font: &Font<Par>,
        unicode: char,
    ) -> (r: Option<Glyph>)
        ensures
            r == self.answer_nominal_glyph(font, unicode),
    ;

    /// The provider's glyph for a code point and variation selector.
    open spec fn answer_variation_glyph<Par: FontQuery>(
        &self,
        font: &Font<Par>,
        unicode: char,
        variation_sel: char,
    ) -> Option<Glyph> {
        delegated_variation_glyph(font, unicode, variation_sel)
    }

    fn get_variation_glyph<Par: FontQuery>(
        &self,
        font: &Font<Par>,
        unicode: char,
        variation_sel: char,
    ) -> (r: Option<Glyph>)
        ensures
            r == self.answer_variation_glyph(font, unicode, variation_sel),
    ;

    /// The provider's horizontal advance of a glyph.
    open spec fn answer_glyph_h_advance<Par: FontQuery>(
        &self,
        font: &Font<Par>,
        glyph: Glyph,
    ) -> Position {
        delegated_glyph_h_advance(font, glyph)
    }

    fn get_glyph_h_advance<Par: FontQuery>(&self, font: &Font<Par>, glyph: Glyph) -> (r: Position)
        ensures
            r == self.answer_glyph_h_advance(font, glyph),
    ;

    /// The provider's vertical advance of a glyph.
    open spec fn answer_glyph_v_advance<Par: FontQuery>(
        &self,
        font: &Font<Par>,
        glyph: Glyph,
    ) -> Position {
        delegated_glyph_v_advance(font, glyph)
    }

    fn get_glyph_v_advance<Par: FontQuery>(&self, font: &Font<Par>, glyph: Glyph) -> (r: Position)
        ensures
            r == self.answer_glyph_v_advance(font, glyph),
    ;

    /// The provider's horizontal origin of a glyph.
    open spec fn answer_glyph_h_origin<Par: FontQuery>(
        &self,
        font: &Font<Par>,
        glyph: Glyph,
    ) -> Option<(Position, Position)> {
        delegated_glyph_h_origin(font, glyph)
    }

    fn get_glyph_h_origin<Par: FontQuery>(
        &self,
        font: &Font<Par>,
        glyph: Glyph,
    ) -> (r: Option<(Position, Position)>)
        ensures
            r == self.answer_glyph_h_origin(font, glyph),
    ;

    /// The provider's vertical origin of a glyph.
    open spec fn answer_glyph_v_origin<Par: FontQuery>(
        &self,
        font: &Font<Par>,
        glyph: Glyph,
    ) -> Option<(Position, Position)> {
        delegated_glyph_v_origin(font, glyph)
    }

    fn get_glyph_v_origin<Par: FontQuery>(
        &self,
        font: &Font<Par>,
        glyph: Glyph,
    ) -> (r: Option<(Position, Position)>)
        ensures
            r == self.answer_glyph_v_origin(font, glyph),
    ;

    /// The provider's extents of a glyph.
    open spec fn answer_glyph_extents<Par: FontQuery>(
        &self,
        font: &Font<Par>,
        glyph: Glyph,
    ) -> Option<GlyphExtents> {
        delegated_glyph_extents(font, glyph)
    }

    fn get_glyph_extents<Par: FontQuery>(
        &self,
        font: &Font<Par>,
        glyph: Glyph,
    ) -> (r: Option<GlyphExtents>)
        ensures
            r == self.answer_glyph_extents(font, glyph),
    ;

    /// The provider's contour point of a glyph.
    open spec fn answer_glyph_contour_point<Par: FontQuery>(
        &self,
        font: &Font<Par>,
        glyph: Glyph,
        point_index: u32,
    ) -> Option<(Position, Position)> {
        delegated_glyph_contour_point(font, glyph, point_index)
    }

    fn get_glyph_contour_point<Par: FontQuery>(
        &self,
        font: &Font<Par>,
        glyph: Glyph,
        point_index: u32,
    ) -> (r: Option<(Position, Position)>)
        ensures
            r == self.answer_glyph_contour_point(font, glyph, point_index),
    ;

    /// The provider's name of a glyph.
    open spec fn answer_glyph_name<Par: FontQuery>(
        &self,
        font: &Font<Par>,
        glyph: Glyph,
    ) -> Option<String> {
        delegated_glyph_name(font, glyph)
    }

    fn get_glyph_name<Par: FontQuery>(&self, font: &Font<Par>, glyph: Glyph) -> (r: Option<String>)
        ensures
            r == self.answer_glyph_name(font, glyph),
    ;

    /// The provider's glyph with a name.
    open spec fn answer_glyph_from_name<Par: FontQuery>(
        &self,
        font: &Font<Par>,
        name: &str,
    ) -> Option<Glyph> {
        delegated_glyph_from_name(font, name)
    }

    fn get_glyph_from_name<Par: FontQuery>(
        &self,
        font: &Font<Par>,
        name: &str,
    ) -> (r: Option<Glyph>)
        ensures
            r == self.answer_glyph_from_name(font, name),
    ;
}

/// The default horizontal font extents, as `delegated_font_h_extents` states it.
pub fn default_font_h_extents<Par: FontQuery>(font: &Font<Par>) -> (r: Option<FontExtents>)
    ensures
        r == delegated_font_h_extents(font),
{
    match &font.parent {
        None => None,
        Some(p) => {
            let (_, py) = p.scale();
            match p.font_h_extents() {
                None => None,
                Some(e) => parent_scale_font_extents(e, font.y_scale, py),
            }
        },
    }
}

/// The default vertical font extents, as `delegated_font_v_extents` states it.
pub fn default_font_v_extents<Par: FontQuery>(font: &Font<Par>) -> (r: Option<FontExtents>)
    ensures
        r == delegated_font_v_extents(font),
{
    match &font.parent {
        None => None,
        Some(p) => {
            let (_, py) = p.scale();
            match p.font_v_extents() {
                None => None,
                Some(e) => parent_scale_font_extents(e, font.y_scale, py),
            }
        },
    }
}

/// The default glyph for a code point, as `delegated_nominal_glyph` states it.
pub fn default_nominal_glyph<Par: FontQuery>(font: &Font<Par>, unicode: char) -> (r: Option<Glyph>)
    ensures
        r == delegated_nominal_glyph(font, unicode),
{
    match &font.parent {
        None => None,
        Some(p) => p.nominal_glyph(unicode),
    }
}

/// The default glyph for a code point and variation selector, as `delegated_variation_glyph` states
/// it.
pub fn default_variation_glyph<Par: FontQuery>(
    font: &Font<Par>,
    unicode: char,
    variation_sel: char,
) -> (r: Option<Glyph>)
    ensures
        r == delegated_variation_glyph(font, unicode, variation_sel),
{
    match &font.parent {
        None => None,
        Some(p) => p.variation_glyph(unicode, variation_sel),
    }
}

/// The default horizontal advance of a glyph, as `delegated_glyph_h_advance` states it.
pub fn default_glyph_h_advance<Par: FontQuery>(font: &Font<Par>, glyph: Glyph) -> (r: Position)
    ensures
        r == delegated_glyph_h_advance(font, glyph),
{
    match &font.parent {
        None => 0,
        Some(p) => {
            let (px, _) = p.scale();
            let v = p.glyph_h_advance(glyph);
            match parent_scale_distance(v, font.x_scale, px) {
                Some(d) => d,
                None => 0,
            }
        },
    }
}

/// The default vertical advance of a glyph, as `delegated_glyph_v_advance` states it.
pub fn default_glyph_v_advance<Par: FontQuery>(font: &Font<Par>, glyph: Glyph) -> (r: Position)
    ensures
        r == delegated_glyph_v_advance(font, glyph),
{
    match &font.parent {
        None => 0,
        Some(p) => {
            let (_, py) = p.scale();
            let v = p.glyph_v_advance(glyph);
            match parent_scale_distance(v, font.y_scale, py) {
                Some(d) => d,
                None => 0,
            }
        },
    }
}

/// The default horizontal origin of a glyph, as `delegated_glyph_h_origin` states it.
pub fn default_glyph_h_origin<Par: FontQuery>(
    font: &Font<Par>,
    glyph: Glyph,
) -> (r: Option<(Position, Position)>)
    ensures
        r == delegated_glyph_h_origin(font, glyph),
{
    match &font.parent {
        None => None,
        Some(p) => {
            let (px, py) = p.scale();
            match p.glyph_h_origin(glyph) {
                None => None,
                Some(o) => parent_scale_position(o, font.x_scale, px, font.y_scale, py),
            }
        },
    }
}

/// The default vertical origin of a glyph, as `delegated_glyph_v_origin` states it.
pub fn default_glyph_v_origin<Par: FontQuery>(
    font: &Font<Par>,
    glyph: Glyph,
) -> (r: Option<(Position, Position)>)
    ensures
        r == delegated_glyph_v_origin(font, glyph),
{
    match &font.parent {
        None => None,
        Some(p) => {
            let (px, py) = p.scale();
            match p.glyph_v_origin(glyph) {
                None => None,
                Some(o) => parent_scale_position(o, font.x_scale, px, font.y_scale, py),
            }
        },
    }
}

/// The default extents of a glyph, as `delegated_glyph_extents` states it.
pub fn default_glyph_extents<Par: FontQuery>(
    font: &Font<Par>,
    glyph: Glyph,
) -> (r: Option<GlyphExtents>)
    ensures
        r == delegated_glyph_extents(font, glyph),
{
    match &font.parent {
        None => None,
        Some(p) => {
            let (px, py) = p.scale();
            match p.glyph_extents(glyph) {
                None => None,
                Some(e) => parent_scale_glyph_extents(e, font.x_scale, px, font.y_scale, py),
            }
        },
    }
}

/// The default contour point of a glyph, as `delegated_glyph_contour_point` states it.
pub fn default_glyph_contour_point<Par: FontQuery>(
    font: &Font<Par>,
    glyph: Glyph,
    point_index: u32,
) -> (r: Option<(Position, Position)>)
    ensures
        r == delegated_glyph_contour_point(font, glyph, point_index),
{
    match &font.parent {
        None => None,
        Some(p) => {
            let (px, py) = p.scale();
            match p.glyph_contour_point(glyph, point_index) {
                None => None,
                Some(o) => parent_scale_position(o, font.x_scale, px, font.y_scale, py),
            }
        },
    }
}

/// The default name of a glyph, as `delegated_glyph_name` states it.
pub fn default_glyph_name<Par: FontQuery>(font: &Font<Par>, glyph: Glyph) -> (r: Option<String>)
    ensures
        r == delegated_glyph_name(font, glyph),
{
    match &font.parent {
        None => None,
        Some(p) => p.glyph_name(glyph),
    }
}

/// The default glyph with a name, as `delegated_glyph_from_name` states it.
pub fn default_glyph_from_name<Par: FontQuery>(font: &Font<Par>, name: &str) -> (r: Option<Glyph>)
    ensures
        r == delegated_glyph_from_name(font, name),
{
    match &font.parent {
        None => None,
        Some(p) => p.glyph_from_name(name),
    }
}

/// A font without a parent gets no data from any default query: `None` for every optional answer
/// and zero for the advances.
pub proof fn lemma_no_parent_no_data<Par: FontQuery>(
    font: &Font<Par>,
    unicode: char,
    variation_sel: char,
    glyph: Glyph,
    point_index: u32,
    name: &str,
)
    requires
        font.parent is None,
    ensures
        delegated_font_h_extents(font) is None,
        delegated_font_v_extents(font) is None,
        delegated_nominal_glyph(font, unicode) is None,
        delegated_variation_glyph(font, unicode, variation_sel) is None,
        delegated_glyph_h_advance(font, glyph) == 0,
        delegated_glyph_v_advance(font, glyph) == 0,
        delegated_glyph_h_origin(font, glyph) is None,
        delegated_glyph_v_origin(font, glyph) is None,
        delegated_glyph_extents(font, glyph) is None,
        delegated_glyph_contour_point(font, glyph, point_index) is None,
        delegated_glyph_name(font, glyph) is None,
        delegated_glyph_from_name(font, name) is None,
{
}

/// Where the parent reports font extents `e` at vertical scale `parent_y_scale`, the default
/// horizontal extents of a font at vertical scale `y_scale` are `e` times `y_scale /
/// parent_y_scale`, field by field: exact where that lands on an integer, otherwise rounded toward
/// zero by less than one unit.
pub proof fn lemma_default_extents_scale_exactly<Par: FontQuery>(font: &Font<Par>)
    requires
        font.parent matches Some(p) && p.spec_font_h_extents() is Some && p.spec_scale().1 != 0,
        delegated_font_h_extents(font) is Some,
    ensures
        ({
            let p = font.parent->Some_0;
            let e = p.spec_font_h_extents()->Some_0;
            let py = p.spec_scale().1;
            let r = delegated_font_h_extents(font)->Some_0;
            &&& scales_exactly(e.ascender, r.ascender, font.y_scale, py)
            &&& scales_exactly(e.descender, r.descender, font.y_scale, py)
            &&& scales_exactly(e.line_gap, r.line_gap, font.y_scale, py)
        }),
{
    let p = font.parent->Some_0;
    let e = p.spec_font_h_extents()->Some_0;
    lemma_font_extents_scale_exactly(e, font.y_scale, p.spec_scale().1);
}

/// A font whose metrics come from a provider `data`, as a table built from
/// the provider's methods: each query is answered by the provider's method
/// for it, with `font` as the font.
pub struct CustomFont<T, Par> {
    pub data: T,
    pub font: Font<Par>,
}

impl<T: FontFuncs, Par: FontQuery> FontQuery for CustomFont<T, Par> {
    open spec fn spec_scale(&self) -> (i32, i32) {
        (self.font.x_scale, self.font.y_scale)
    }

    open spec fn spec_font_h_extents(&self) -> Option<FontExtents> {
        self.data.answer_font_h_extents(&self.font)
    }

    open spec fn spec_font_v_extents(&self) -> Option<FontExtents> {
        self.data.answer_font_v_extents(&self.font)
    }

    open spec fn spec_nominal_glyph(&self, unicode: char) -> Option<Glyph> {
        self.data.answer_nominal_glyph(&self.font, unicode)
    }

    open spec fn spec_variation_glyph(&self, unicode: char, variation_sel: char) -> Option<Glyph> {
        self.data.answer_variation_glyph(&self.font, unicode, variation_sel)
    }

    open spec fn spec_glyph_h_advance(&self, glyph: Glyph) -> Position {
        self.data.answer_glyph_h_advance(&self.font, glyph)
    }

    open spec fn spec_glyph_v_advance(&self, glyph: Glyph) -> Position {
        self.data.answer_glyph_v_advance(&self.font, glyph)
    }

    open spec fn spec_glyph_h_origin(&self, glyph: Glyph) -> Option<(Position, Position)> {
        self.data.answer_glyph_h_origin(&self.font, glyph)
    }

    open spec fn spec_glyph_v_origin(&self, glyph: Glyph) -> Option<(Position, Position)> {
        self.data.answer_glyph_v_origin(&self.font, glyph)
    }

    open spec fn spec_glyph_extents(&self, glyph: Glyph) -> Option<GlyphExtents> {
        self.data.answer_glyph_extents(&self.font, glyph)
    }

    open spec fn spec_glyph_contour_point(
        &self,
        glyph: Glyph,
        point_index: u32,
    ) -> Option<(Position, Position)> {
        self.data.answer_glyph_contour_point(&self.font, glyph, point_index)
    }

    open spec fn spec_glyph_name(&self, glyph: Glyph) -> Option<String> {
        self.data.answer_glyph_name(&self.font, glyph)
    }

    open spec fn spec_glyph_from_name(&self, name: &str) -> Option<Glyph> {
        self.data.answer_glyph_from_name(&self.font, name)
    }

    fn scale(&self) -> (r: (i32, i32)) {
        (self.font.x_scale, self.font.y_scale)
    }

    fn font_h_extents(&self) -> (r: Option<FontExtents>) {
        self.data.get_font_h_extents(&self.font)
    }

    fn font_v_extents(&self) -> (r: Option<FontExtents>) {
        self.data.get_font_v_extents(&self.font)
    }

    fn nominal_glyph(&self, unicode: char) -> (r: Option<Glyph>) {
        self.data.get_nominal_glyph(&self.font, unicode)
    }

    fn variation_glyph(&self, unicode: char, variation_sel: char) -> (r: Option<Glyph>) {
        self.data.get_variation_glyph(&self.font, unicode, variation_sel)
    }

    fn glyph_h_advance(&self, glyph: Glyph) -> (r: Position) {
        self.data.get_glyph_h_advance(&self.font, glyph)
    }

    fn glyph_v_advance(&self, glyph: Glyph) -> (r: Position) {
        self.data.get_glyph_v_advance(&self.font, glyph)
    }

    fn glyph_h_origin(&self, glyph: Glyph) -> (r: Option<(Position, Position)>) {
        self.data.get_glyph_h_origin(&self.font, glyph)
    }

    fn glyph_v_origin(&self, glyph: Glyph) -> (r: Option<(Position, Position)>) {
        self.data.get_glyph_v_origin(&self.font, glyph)
    }

    fn glyph_extents(&self, glyph: Glyph) -> (r: Option<GlyphExtents>) {
        self.data.get_glyph_extents(&self.font, glyph)
    }

    fn glyph_contour_point(
        &self,
        glyph: Glyph,
        point_index: u32,
    ) -> (r: Option<(Position, Position)>) {
        self.data.get_glyph_contour_point(&self.font, glyph, point_index)
    }

    fn glyph_name(&self, glyph: Glyph) -> (r: Option<String>) {
        self.data.get_glyph_name(&self.font, glyph)
    }

    fn glyph_from_name(&self, name: &str) -> (r: Option<Glyph>) {
        self.data.get_glyph_from_name(&self.font, name)
    }
}

/// A table built from a provider answers every query exactly as the
/// provider's own method for that query does, with the table's font as the
/// font: each answer depends on that one method alone.
pub proof fn lemma_custom_font_answers_as_provider<T: FontFuncs, Par: FontQuery>(
    c: &CustomFont<T, Par>,
    unicode: char,
    variation_sel: char,
    glyph: Glyph,
    point_index: u32,
    name: &str,
)
    ensures
        c.spec_scale() == c.font.scale_view(),
        c.spec_font_h_extents() == c.data.answer_font_h_extents(&c.font),
        c.spec_font_v_extents() == c.data.answer_font_v_extents(&c.font),
        c.spec_nominal_glyph(unicode) == c.data.answer_nominal_glyph(&c.font, unicode),
        c.spec_variation_glyph(unicode, variation_sel) == c.data.answer_variation_glyph(
            &c.font,
            unicode,
            variation_sel,
        ),
        c.spec_glyph_h_advance(glyph) == c.data.answer_glyph_h_advance(&c.font, glyph),
        c.spec_glyph_v_advance(glyph) == c.data.answer_glyph_v_advance(&c.font, glyph),
        c.spec_glyph_h_origin(glyph) == c.data.answer_glyph_h_origin(&c.font, glyph),
        c.spec_glyph_v_origin(glyph) == c.data.answer_glyph_v_origin(&c.font, glyph),
        c.spec_glyph_extents(glyph) == c.data.answer_glyph_extents(&c.font, glyph),
        c.spec_glyph_contour_point(glyph, point_index) == c.data.answer_glyph_contour_point(
            &c.font,
            glyph,
            point_index,
        ),
        c.spec_glyph_name(glyph) == c.data.answer_glyph_name(&c.font, glyph),
        c.spec_glyph_from_name(name) == c.data.answer_glyph_from_name(&c.font, name),
{
}

} // verus!
