use vstd::prelude::*;
use crate::color::Color;
use crate::transform::{
    lemma_coord_mul_bound, lemma_trunc_div_bound, trunc_div, Transform, COORD_LIMIT, UNIT,
};

verus! {

/// Because half the font size does not centre a string vertically, the
/// baseline offset scales the font size by this ratio instead (six tenths,
/// in `UNIT` fixed point).
pub const FONT_SIZE_HEIGHT_RATIO: i64 = 6000;

/// What a text label is built from: its colour, its content, its font size
/// in subunits, and the order the host renders it in.
#[derive(PartialEq, Eq, Debug)]
pub struct TextConfig {
    pub color: Color,
    pub text: String,
    pub font_size: i64,

    pub render_order: i32,
}

impl TextConfig {
    /// The font size is within the coordinate bound, so the baseline
    /// arithmetic below stays inside `i64`.
    pub open spec fn valid(&self) -> bool {
        -COORD_LIMIT <= self.font_size <= COORD_LIMIT
    }
}

/// A static text label centred on a transform.
pub struct Text {
    pub transform: Transform,
    pub config: TextConfig,
}

/// The parameters of one draw-string call on the host render surface:
/// the string, its anchor in subunits, its font size and its colour.
pub struct TextDraw {
    pub text: String,
    pub x: i64,
    pub y: i64,
    pub font_size: i64,
    pub color: Color,
}

/// The vertical distance from the centre of the transform down to the
/// string's baseline: the font size scaled by `FONT_SIZE_HEIGHT_RATIO`,
/// halved.
pub open spec fn spec_baseline_offset(font_size: i64) -> int {
    trunc_div(font_size * (FONT_SIZE_HEIGHT_RATIO as int), 2 * (UNIT as int))
}

impl Text {
    /// A label that renders `config` at the centre of `transform`.
    pub fn new(transform: Transform, config: TextConfig) -> (t: Text)
        ensures
            t.transform == transform,
            t.config == config,
    {
        Text { transform, config }
    }

    /// The draw-string call this label emits: the text anchored at the
    /// transform's centre, lowered by the baseline offset of the font size.
    pub fn render(&self) -> (d: TextDraw)
        requires
            self.transform.valid(),
            self.config.valid(),
        ensures
            d.text@ == self.config.text@,
            d.x == self.transform.spec_center_x(),
            d.y == self.transform.spec_center_y() - spec_baseline_offset(self.config.font_size),
            d.font_size == self.config.font_size,
            d.color == self.config.color,
    {
        proof {
            lemma_coord_mul_bound(self.transform.pivot.y as int, self.transform.size.y as int);
            lemma_trunc_div_bound(
                self.transform.pivot.y * self.transform.size.y,
                UNIT as int,
                0x4000_0000_0000_0000,
            );
            lemma_trunc_div_bound(self.transform.size.y as int, 2, 0x8000_0000);
            lemma_coord_mul_bound(self.config.font_size as int, FONT_SIZE_HEIGHT_RATIO as int);
            lemma_trunc_div_bound(
                self.config.font_size * FONT_SIZE_HEIGHT_RATIO,
                2 * (UNIT as int),
                0x4000_0000_0000_0000,
            );
        }
        let center = self.transform.center();
        let baseline_offset: i64 = (self.config.font_size * FONT_SIZE_HEIGHT_RATIO) / (2 * UNIT);
        TextDraw {
            text: self.config.text.clone(),
            x: center.x,
            y: center.y - baseline_offset,
            font_size: self.config.font_size,
            color: self.config.color,
        }
    }

    /// The order the host's render scheduler draws this label in.
    pub fn render_order(&self) -> (r: i32)
        ensures
            r == self.config.render_order,
    {
        self.config.render_order
    }
}

} // verus!
