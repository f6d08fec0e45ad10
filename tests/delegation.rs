use font_funcs::font::{
    default_font_h_extents, default_font_v_extents, default_nominal_glyph,
    default_variation_glyph, default_glyph_h_advance, default_glyph_v_advance,
    default_glyph_h_origin, default_glyph_v_origin, default_glyph_extents,
    default_glyph_contour_point, default_glyph_name, default_glyph_from_name, CustomFont,
    EmptyFont, Font, FontFuncs, FontQuery,
};
use font_funcs::metrics::{FontExtents, Glyph, GlyphExtents, Position};

/// A provider that keeps every default.
struct Defaults;

impl FontFuncs for Defaults {
    fn get_font_h_extents<Par: FontQuery>(&self, font: &Font<Par>) -> Option<FontExtents> {
        default_font_h_extents(font)
    }
    fn get_font_v_extents<Par: FontQuery>(&self, font: &Font<Par>) -> Option<FontExtents> {
        default_font_v_extents(font)
    }
    fn get_nominal_glyph<Par: FontQuery>(&self, font: &Font<Par>, unicode: char) -> Option<Glyph> {
        default_nominal_glyph(font, unicode)
    }
    fn get_variation_glyph<Par: FontQuery>(&self, font: &Font<Par>, unicode: char, variation_sel: char) -> Option<Glyph> {
        default_variation_glyph(font, unicode, variation_sel)
    }
    fn get_glyph_h_advance<Par: FontQuery>(&self, font: &Font<Par>, glyph: Glyph) -> Position {
        default_glyph_h_advance(font, glyph)
    }
    fn get_glyph_v_advance<Par: FontQuery>(&self, font: &Font<Par>, glyph: Glyph) -> Position {
        default_glyph_v_advance(font, glyph)
    }
    fn get_glyph_h_origin<Par: FontQuery>(&self, font: &Font<Par>, glyph: Glyph) -> Option<(Position, Position)> {
        default_glyph_h_origin(font, glyph)
    }
    fn get_glyph_v_origin<Par: FontQuery>(&self, font: &Font<Par>, glyph: Glyph) -> Option<(Position, Position)> {
        default_glyph_v_origin(font, glyph)
    }
    fn get_glyph_extents<Par: FontQuery>(&self, font: &Font<Par>, glyph: Glyph) -> Option<GlyphExtents> {
        default_glyph_extents(font, glyph)
    }
    fn get_glyph_contour_point<Par: FontQuery>(&self, font: &Font<Par>, glyph: Glyph, point_index: u32) -> Option<(Position, Position)> {
        default_glyph_contour_point(font, glyph, point_index)
    }
    fn get_glyph_name<Par: FontQuery>(&self, font: &Font<Par>, glyph: Glyph) -> Option<String> {
        default_glyph_name(font, glyph)
    }
    fn get_glyph_from_name<Par: FontQuery>(&self, font: &Font<Par>, name: &str) -> Option<Glyph> {
        default_glyph_from_name(font, name)
    }
}

/// A provider with data for every query.
struct Full;

impl FontFuncs for Full {
    fn answer_font_h_extents<Par: FontQuery>(&self, font: &Font<Par>) -> Option<FontExtents> {
        self.get_font_h_extents(font)
    }
    fn get_font_h_extents<Par: FontQuery>(&self, _font: &Font<Par>) -> Option<FontExtents> {
        Some(FontExtents { ascender: 800, descender: -200, line_gap: 100 })
    }
    fn answer_font_v_extents<Par: FontQuery>(&self, font: &Font<Par>) -> Option<FontExtents> {
        self.get_font_v_extents(font)
    }
    fn get_font_v_extents<Par: FontQuery>(&self, _font: &Font<Par>) -> Option<FontExtents> {
        Some(FontExtents { ascender: 500, descender: -500, line_gap: 0 })
    }
    fn answer_nominal_glyph<Par: FontQuery>(&self, font: &Font<Par>, unicode: char) -> Option<Glyph> {
        self.get_nominal_glyph(font, unicode)
    }
    fn get_nominal_glyph<Par: FontQuery>(&self, _font: &Font<Par>, unicode: char) -> Option<Glyph> {
        Some(unicode as u32 + 1)
    }
    fn answer_variation_glyph<Par: FontQuery>(&self, font: &Font<Par>, unicode: char, variation_sel: char) -> Option<Glyph> {
        self.get_variation_glyph(font, unicode, variation_sel)
    }
    fn get_variation_glyph<Par: FontQuery>(&self, _font: &Font<Par>, unicode: char, variation_sel: char) -> Option<Glyph> {
        Some(unicode as u32 + variation_sel as u32)
    }
    fn answer_glyph_h_advance<Par: FontQuery>(&self, font: &Font<Par>, glyph: Glyph) -> Position {
        self.get_glyph_h_advance(font, glyph)
    }
    fn get_glyph_h_advance<Par: FontQuery>(&self, _font: &Font<Par>, glyph: Glyph) -> Position {
        glyph as i32 * 10
    }
    fn answer_glyph_v_advance<Par: FontQuery>(&self, font: &Font<Par>, glyph: Glyph) -> Position {
        self.get_glyph_v_advance(font, glyph)
    }
    fn get_glyph_v_advance<Par: FontQuery>(&self, _font: &Font<Par>, glyph: Glyph) -> Position {
        -(glyph as i32) * 10
    }
    fn answer_glyph_h_origin<Par: FontQuery>(&self, font: &Font<Par>, glyph: Glyph) -> Option<(Position, Position)> {
        self.get_glyph_h_origin(font, glyph)
    }
    fn get_glyph_h_origin<Par: FontQuery>(&self, _font: &Font<Par>, glyph: Glyph) -> Option<(Position, Position)> {
        Some((glyph as i32, 2))
    }
    fn answer_glyph_v_origin<Par: FontQuery>(&self, font: &Font<Par>, glyph: Glyph) -> Option<(Position, Position)> {
        self.get_glyph_v_origin(font, glyph)
    }
    fn get_glyph_v_origin<Par: FontQuery>(&self, _font: &Font<Par>, glyph: Glyph) -> Option<(Position, Position)> {
        Some((4, glyph as i32))
    }
    fn answer_glyph_extents<Par: FontQuery>(&self, font: &Font<Par>, glyph: Glyph) -> Option<GlyphExtents> {
        self.get_glyph_extents(font, glyph)
    }
    fn get_glyph_extents<Par: FontQuery>(&self, _font: &Font<Par>, glyph: Glyph) -> Option<GlyphExtents> {
        Some(GlyphExtents { x_bearing: 2, y_bearing: 4, width: glyph as i32, height: -6 })
    }
    fn answer_glyph_contour_point<Par: FontQuery>(&self, font: &Font<Par>, glyph: Glyph, point_index: u32) -> Option<(Position, Position)> {
        self.get_glyph_contour_point(font, glyph, point_index)
    }
    fn get_glyph_contour_point<Par: FontQuery>(&self, _font: &Font<Par>, glyph: Glyph, point_index: u32) -> Option<(Position, Position)> {
        Some((glyph as i32, point_index as i32))
    }
    fn answer_glyph_name<Par: FontQuery>(&self, font: &Font<Par>, glyph: Glyph) -> Option<String> {
        self.get_glyph_name(font, glyph)
    }
    fn get_glyph_name<Par: FontQuery>(&self, _font: &Font<Par>, glyph: Glyph) -> Option<String> {
        Some(format!("g{}", glyph))
    }
    fn answer_glyph_from_name<Par: FontQuery>(&self, font: &Font<Par>, name: &str) -> Option<Glyph> {
        self.get_glyph_from_name(font, name)
    }
    fn get_glyph_from_name<Par: FontQuery>(&self, _font: &Font<Par>, name: &str) -> Option<Glyph> {
        Some(name.len() as u32)
    }
}

/// A provider with data for the horizontal advance only.
struct AdvanceOnly;

impl FontFuncs for AdvanceOnly {
    fn get_font_h_extents<Par: FontQuery>(&self, font: &Font<Par>) -> Option<FontExtents> {
        default_font_h_extents(font)
    }
    fn get_font_v_extents<Par: FontQuery>(&self, font: &Font<Par>) -> Option<FontExtents> {
        default_font_v_extents(font)
    }
    fn get_nominal_glyph<Par: FontQuery>(&self, font: &Font<Par>, unicode: char) -> Option<Glyph> {
        default_nominal_glyph(font, unicode)
    }
    fn get_variation_glyph<Par: FontQuery>(&self, font: &Font<Par>, unicode: char, variation_sel: char) -> Option<Glyph> {
        default_variation_glyph(font, unicode, variation_sel)
    }
    fn answer_glyph_h_advance<Par: FontQuery>(&self, font: &Font<Par>, glyph: Glyph) -> Position {
        self.get_glyph_h_advance(font, glyph)
    }
    fn get_glyph_h_advance<Par: FontQuery>(&self, _font: &Font<Par>, glyph: Glyph) -> Position {
        7
    }
    fn get_glyph_v_advance<Par: FontQuery>(&self, font: &Font<Par>, glyph: Glyph) -> Position {
        default_glyph_v_advance(font, glyph)
    }
    fn get_glyph_h_origin<Par: FontQuery>(&self, font: &Font<Par>, glyph: Glyph) -> Option<(Position, Position)> {
        default_glyph_h_origin(font, glyph)
    }
    fn get_glyph_v_origin<Par: FontQuery>(&self, font: &Font<Par>, glyph: Glyph) -> Option<(Position, Position)> {
        default_glyph_v_origin(font, glyph)
    }
    fn get_glyph_extents<Par: FontQuery>(&self, font: &Font<Par>, glyph: Glyph) -> Option<GlyphExtents> {
        default_glyph_extents(font, glyph)
    }
    fn get_glyph_contour_point<Par: FontQuery>(&self, font: &Font<Par>, glyph: Glyph, point_index: u32) -> Option<(Position, Position)> {
        default_glyph_contour_point(font, glyph, point_index)
    }
    fn get_glyph_name<Par: FontQuery>(&self, font: &Font<Par>, glyph: Glyph) -> Option<String> {
        default_glyph_name(font, glyph)
    }
    fn get_glyph_from_name<Par: FontQuery>(&self, font: &Font<Par>, name: &str) -> Option<Glyph> {
        default_glyph_from_name(font, name)
    }
}

fn full_parent(scale: i32) -> CustomFont<Full, EmptyFont> {
    CustomFont { data: Full, font: Font::new(scale, scale, None) }
}

#[test]
fn font_without_parent_has_no_data() {
    let font: Font<EmptyFont> = Font::new(1000, 1000, None);
    let d = Defaults;
    assert_eq!(d.get_font_h_extents(&font), None);
    assert_eq!(d.get_font_v_extents(&font), None);
    assert_eq!(d.get_nominal_glyph(&font, 'a'), None);
    assert_eq!(d.get_variation_glyph(&font, 'a', '\u{FE0F}'), None);
    assert_eq!(d.get_glyph_h_advance(&font, 3), 0);
    assert_eq!(d.get_glyph_v_advance(&font, 3), 0);
    assert_eq!(d.get_glyph_h_origin(&font, 3), None);
    assert_eq!(d.get_glyph_v_origin(&font, 3), None);
    assert_eq!(d.get_glyph_extents(&font, 3), None);
    assert_eq!(d.get_glyph_contour_point(&font, 3, 1), None);
    assert_eq!(d.get_glyph_name(&font, 3), None);
    assert_eq!(d.get_glyph_from_name(&font, "a"), None);
}

#[test]
fn empty_parent_gives_no_data() {
    let font = Font::new(1000, 1000, Some(EmptyFont));
    let d = Defaults;
    assert_eq!(d.get_font_h_extents(&font), None);
    assert_eq!(d.get_nominal_glyph(&font, 'a'), None);
    assert_eq!(d.get_glyph_h_advance(&font, 3), 0);
    assert_eq!(d.get_glyph_extents(&font, 3), None);
    assert_eq!(d.get_glyph_name(&font, 3), None);
}

#[test]
fn parent_extents_rescale_to_child() {
    let child = Font::new(2000, 1500, Some(full_parent(1000)));
    let d = Defaults;
    assert_eq!(
        d.get_font_h_extents(&child),
        Some(FontExtents { ascender: 1200, descender: -300, line_gap: 150 })
    );
    assert_eq!(
        d.get_font_v_extents(&child),
        Some(FontExtents { ascender: 750, descender: -750, line_gap: 0 })
    );
    assert_eq!(
        d.get_glyph_extents(&child, 5),
        Some(GlyphExtents { x_bearing: 4, y_bearing: 6, width: 10, height: -9 })
    );
    assert_eq!(d.get_glyph_h_advance(&child, 5), 100);
    assert_eq!(d.get_glyph_v_advance(&child, 5), -75);
    assert_eq!(d.get_glyph_h_origin(&child, 5), Some((10, 3)));
    assert_eq!(d.get_glyph_v_origin(&child, 5), Some((8, 7)));
    assert_eq!(d.get_glyph_contour_point(&child, 5, 4), Some((10, 6)));
}

#[test]
fn lookups_pass_through_unscaled() {
    let child = Font::new(2000, 2000, Some(full_parent(1000)));
    let d = Defaults;
    assert_eq!(d.get_nominal_glyph(&child, 'a'), Some(98));
    assert_eq!(d.get_variation_glyph(&child, 'a', 'b'), Some(195));
    assert_eq!(d.get_glyph_name(&child, 12), Some(String::from("g12")));
    assert_eq!(d.get_glyph_from_name(&child, "four"), Some(4));
}

#[test]
fn zero_parent_scale_advance_is_zero() {
    let child = Font::new(1000, 1000, Some(full_parent(0)));
    assert_eq!(Defaults.get_glyph_h_advance(&child, 5), 0);
    assert_eq!(Defaults.get_font_h_extents(&child), None);
}

#[test]
fn overriding_one_query_keeps_the_others_default() {
    let parent = full_parent(1000);
    let child = Font::new(2000, 2000, Some(parent));
    let one = AdvanceOnly;
    let d = Defaults;
    assert_eq!(one.get_glyph_h_advance(&child, 5), 7);
    assert_eq!(d.get_glyph_h_advance(&child, 5), 100);
    assert_eq!(one.get_glyph_v_advance(&child, 5), d.get_glyph_v_advance(&child, 5));
    assert_eq!(one.get_font_h_extents(&child), d.get_font_h_extents(&child));
    assert_eq!(one.get_font_v_extents(&child), d.get_font_v_extents(&child));
    assert_eq!(one.get_nominal_glyph(&child, 'x'), d.get_nominal_glyph(&child, 'x'));
    assert_eq!(one.get_variation_glyph(&child, 'x', 'y'), d.get_variation_glyph(&child, 'x', 'y'));
    assert_eq!(one.get_glyph_h_origin(&child, 5), d.get_glyph_h_origin(&child, 5));
    assert_eq!(one.get_glyph_v_origin(&child, 5), d.get_glyph_v_origin(&child, 5));
    assert_eq!(one.get_glyph_extents(&child, 5), d.get_glyph_extents(&child, 5));
    assert_eq!(one.get_glyph_contour_point(&child, 5, 1), d.get_glyph_contour_point(&child, 5, 1));
    assert_eq!(one.get_glyph_name(&child, 5), d.get_glyph_name(&child, 5));
    assert_eq!(one.get_glyph_from_name(&child, "ab"), d.get_glyph_from_name(&child, "ab"));
}

#[test]
fn custom_font_answers_as_its_provider() {
    let custom = CustomFont { data: Full, font: Font::new(1000, 1000, Some(EmptyFont)) };
    let direct = &custom.font;
    assert_eq!(custom.scale(), (1000, 1000));
    assert_eq!(custom.font_h_extents(), Full.get_font_h_extents(direct));
    assert_eq!(custom.font_v_extents(), Full.get_font_v_extents(direct));
    assert_eq!(custom.nominal_glyph('q'), Full.get_nominal_glyph(direct, 'q'));
    assert_eq!(custom.variation_glyph('q', 'r'), Full.get_variation_glyph(direct, 'q', 'r'));
    assert_eq!(custom.glyph_h_advance(9), Full.get_glyph_h_advance(direct, 9));
    assert_eq!(custom.glyph_v_advance(9), Full.get_glyph_v_advance(direct, 9));
    assert_eq!(custom.glyph_h_origin(9), Full.get_glyph_h_origin(direct, 9));
    assert_eq!(custom.glyph_v_origin(9), Full.get_glyph_v_origin(direct, 9));
    assert_eq!(custom.glyph_extents(9), Full.get_glyph_extents(direct, 9));
    assert_eq!(custom.glyph_contour_point(9, 2), Full.get_glyph_contour_point(direct, 9, 2));
    assert_eq!(custom.glyph_name(9), Full.get_glyph_name(direct, 9));
    assert_eq!(custom.glyph_from_name("abc"), Full.get_glyph_from_name(direct, "abc"));
}

#[test]
fn delegation_runs_through_two_levels() {
    let middle = CustomFont { data: Defaults, font: Font::new(2000, 2000, Some(full_parent(1000))) };
    let top = Font::new(4000, 4000, Some(middle));
    assert_eq!(Defaults.get_glyph_h_advance(&top, 3), 120);
    assert_eq!(
        Defaults.get_font_h_extents(&top),
        Some(FontExtents { ascender: 3200, descender: -800, line_gap: 400 })
    );
}

#[test]
fn font_accessors() {
    let font = Font::new(3, 4, Some(EmptyFont));
    assert_eq!(font.scale(), (3, 4));
    assert_eq!(font.parent(), Some(&EmptyFont));
    let orphan: Font<EmptyFont> = Font::new(3, 4, None);
    assert_eq!(orphan.parent(), None);
    assert_eq!(EmptyFont.scale(), (0, 0));
    assert_eq!(EmptyFont.glyph_v_advance(1), 0);
}
