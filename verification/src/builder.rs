//! The builder that configures a bar before any progress is made.

use crate::bar::Bar;
use crate::model::BarView;
use vstd::prelude::*;

verus! {

/// The configuration of a bar that is yet to be built.
///
/// Each setter takes the builder and gives it back with one entry changed.
/// Nothing is validated: a `total` or a `width` of zero is accepted.
pub struct BarBuilder {
    /// The amount of progress that counts as 100%.
    pub total: usize,
    /// The number of cells between the two brackets.
    pub width: usize,
    /// The glyph of a cell that progress has not reached.
    pub empty_char: char,
    /// The glyph of a cell that progress has passed.
    pub full_char: char,
    /// The glyph of the cell at the edge of the filled region, where one was
    /// chosen; `None` stands for whatever `full_char` is when the bar is built.
    pub leading_char: Option<char>,
    /// Whether the percentage follows the bar.
    pub include_percent: bool,
    /// Whether `current_partial/total` follows the bar.
    pub include_numbers: bool,
}

impl Default for BarBuilder {
    /// The same builder as [`BarBuilder::new`] gives.
    fn default() -> (builder: Self)
        ensures
            builder == BarBuilder::initial(),
    {
        BarBuilder::new()
    }
}

impl BarBuilder {
    /// The builder before any setter was called: 100 in total, 50 cells,
    /// blocks for the filled cells and spaces for the empty ones, no glyph
    /// chosen for the leading cell, neither percentage nor numbers.
    pub open spec fn initial() -> BarBuilder {
        BarBuilder {
            total: 100,
            width: 50,
            empty_char: ' ',
            full_char: '\u{2588}',
            leading_char: None,
            include_percent: false,
            include_numbers: false,
        }
    }

    /// The glyph that the leading cell of the built bar shows: the one
    /// chosen, or else `full_char` as it is now.
    pub open spec fn leading_glyph(self) -> char {
        match self.leading_char {
            Some(glyph) => glyph,
            None => self.full_char,
        }
    }

    /// The bar that [`BarBuilder::build`] yields: the configuration as it
    /// is, no progress, and no width reported yet.
    pub open spec fn built(self) -> BarView {
        BarView {
            current_partial: 0,
            total: self.total as nat,
            width: self.width as nat,
            empty_char: self.empty_char,
            full_char: self.full_char,
            leading_char: self.leading_glyph(),
            include_percent: self.include_percent,
            include_numbers: self.include_numbers,
            previous_rendered_width: 0,
        }
    }

    /// A builder with the default configuration.
    pub fn new() -> (builder: Self)
        ensures
            builder == BarBuilder::initial(),
    {
        BarBuilder {
            total: 100,
            width: 50,
            empty_char: ' ',
            full_char: '\u{2588}',
            leading_char: None,
            include_percent: false,
            include_numbers: false,
        }
    }

    /// Sets the amount of progress that counts as 100% (100 by default).
    pub fn total(self, total: usize) -> (builder: BarBuilder)
        ensures
            builder == (BarBuilder { total, ..self }),
    {
        BarBuilder { total, ..self }
    }

    /// Sets the number of cells in the track (50 by default).
    pub fn width(self, width: usize) -> (builder: BarBuilder)
        ensures
            builder == (BarBuilder { width, ..self }),
    {
        BarBuilder { width, ..self }
    }

    /// Sets the glyph of the cells that progress has not reached (a space
    /// by default).
    pub fn empty_char(self, character: char) -> (builder: BarBuilder)
        ensures
            builder == (BarBuilder { empty_char: character, ..self }),
    {
        BarBuilder { empty_char: character, ..self }
    }

    /// Sets the glyph of the cells that progress has passed (a full block by
    /// default). Where no leading glyph is chosen, the leading cell of the
    /// built bar shows this glyph too.
    pub fn full_char(self, character: char) -> (builder: BarBuilder)
        ensures
            builder == (BarBuilder { full_char: character, ..self }),
    {
        BarBuilder { full_char: character, ..self }
    }

    /// Chooses the glyph of the cell at the edge of the filled region. With
    /// `None` the choice is withdrawn, and the leading cell shows whatever
    /// `full_char` is when the bar is built, whether it was set before this
    /// call or after it.
    pub fn leading_char(self, character: Option<char>) -> (builder: BarBuilder)
        ensures
            builder == (BarBuilder { leading_char: character, ..self }),
    {
        BarBuilder { leading_char: character, ..self }
    }

    /// Has the bar show the percentage after the closing bracket.
    pub fn include_percent(self) -> (builder: BarBuilder)
        ensures
            builder == (BarBuilder { include_percent: true, ..self }),
    {
        BarBuilder { include_percent: true, ..self }
    }

    /// Has the bar show `current_partial/total` after the closing bracket,
    /// behind the percentage if that is shown too.
    pub fn include_numbers(self) -> (builder: BarBuilder)
        ensures
            builder == (BarBuilder { include_numbers: true, ..self }),
    {
        BarBuilder { include_numbers: true, ..self }
    }

    /// The configured bar. An older name of [`BarBuilder::build`], kept for
    /// callers that use it.
    pub fn get_bar(self) -> (bar: Bar)
        ensures
            bar@ == self.built(),
    {
        self.build()
    }

    /// The configured bar, with no progress made and no width reported.
    pub fn build(self) -> (bar: Bar)
        ensures
            bar@ == self.built(),
    {
        let leading_char = match self.leading_char {
            Some(glyph) => glyph,
            None => self.full_char,
        };
        Bar {
            current_partial: 0,
            total: self.total,
            width: self.width,
            empty_char: self.empty_char,
            full_char: self.full_char,
            leading_char,
            include_percent: self.include_percent,
            include_numbers: self.include_numbers,
            previous_rendered_width: 0,
        }
    }
}

} // verus!
