//! The panel's size and the metrics of the fonts a screen can be laid out for.

use vstd::prelude::*;

verus! {

/// Height of the panel in pixels.
pub const SCREEN_HEIGHT: u16 = 320;

/// Width of the panel in pixels.
pub const SCREEN_WIDTH: u16 = 320;

/// How many fonts there are to choose from.
pub const FONT_COUNT: usize = 7;

/// The font a screen starts with.
pub const DEFAULT_FONT: usize = 2;

/// The metrics of a monospace font, in pixels.
#[derive(Clone, Copy, PartialEq, Eq, Debug, Structural)]
pub struct Font {
    pub char_width: u32,
    pub char_height: u32,
    pub char_spacing: u32,
    pub baseline: u32,
}

impl Font {
    /// Width of one cell: a glyph and the gap after it.
    pub open spec fn cell_width(self) -> int {
        self.char_width + self.char_spacing
    }

    /// Height of one cell.
    pub open spec fn cell_height(self) -> int {
        self.char_height as int
    }

    /// At least one cell fits on the panel in each direction, and the baseline
    /// lies inside the cell.
    pub open spec fn wf(self) -> bool {
        &&& 1 <= self.cell_width() <= SCREEN_WIDTH
        &&& 1 <= self.cell_height() <= SCREEN_HEIGHT
        &&& self.baseline <= self.char_height
    }

    /// How many cells fit across the panel.
    pub open spec fn columns(self) -> int {
        SCREEN_WIDTH as int / self.cell_width()
    }

    /// How many cells fit down the panel.
    pub open spec fn lines(self) -> int {
        SCREEN_HEIGHT as int / self.cell_height()
    }

    /// Metrics of the ProFont cut with the given index, from the smallest (0)
    /// to the largest (6); `None` for any other index.
    pub fn profont(index: usize) -> (font: Option<Font>)
        ensures
            index < FONT_COUNT ==> font == Some(profont_table()[index as int]),
            index >= FONT_COUNT ==> font is None,
            font matches Some(f) ==> f.wf(),
    {
        if index < FONT_COUNT {
            Some(profont_metrics(index))
        } else {
            None
        }
    }
}

/// The metrics of the seven ProFont cuts, smallest first.
pub open spec fn profont_table() -> Seq<Font> {
    seq![
        Font { char_width: 5, char_height: 10, char_spacing: 0, baseline: 7 },
        Font { char_width: 6, char_height: 11, char_spacing: 0, baseline: 8 },
        Font { char_width: 6, char_height: 12, char_spacing: 1, baseline: 9 },
        Font { char_width: 7, char_height: 15, char_spacing: 1, baseline: 11 },
        Font { char_width: 10, char_height: 17, char_spacing: 0, baseline: 13 },
        Font { char_width: 12, char_height: 22, char_spacing: 0, baseline: 17 },
        Font { char_width: 16, char_height: 29, char_spacing: 0, baseline: 24 },
    ]
}

/// Reads the metrics of one of profont's `PROFONT_7_POINT`, `PROFONT_9_POINT`,
/// `PROFONT_10_POINT`, `PROFONT_12_POINT`, `PROFONT_14_POINT`,
/// `PROFONT_18_POINT` and `PROFONT_24_POINT`, in that order. Trusted: the
/// numbers in `profont_table` are the `character_size`, `character_spacing`
/// and `baseline` that the crate declares for each.
#[verifier::external_body]
pub(crate) fn profont_metrics(index: usize) -> (font: Font)
    requires
        index < FONT_COUNT,
    ensures
        font == profont_table()[index as int],
{
    let fonts = [
        &profont::PROFONT_7_POINT,
        &profont::PROFONT_9_POINT,
        &profont::PROFONT_10_POINT,
        &profont::PROFONT_12_POINT,
        &profont::PROFONT_14_POINT,
        &profont::PROFONT_18_POINT,
        &profont::PROFONT_24_POINT,
    ];
    let (size, spacing, baseline) = (fonts[index].character_size, fonts[index].character_spacing, fonts[index].baseline);
    Font { char_width: size.width, char_height: size.height, char_spacing: spacing, baseline }
}

} // verus!
