//! The progress bar itself: its state, the two operations that change its
//! progress, and the operations that render and measure it.

use crate::model::BarView;
use crate::text::{decimal_len, digit_to_char, push_decimal};
use vstd::prelude::*;

verus! {

/// A progress bar, from which the text of the progress line is obtained.
///
/// A `total` of zero is accepted: such a bar is drawn and measured as a bar
/// at 0%. A `width` of zero is accepted too, and leaves the brackets
/// without a track between them.
pub struct Bar {
    /// The amount of progress made; it may exceed `total`.
    pub current_partial: usize,
    /// The amount of progress that counts as 100%.
    pub total: usize,
    /// The number of cells between the two brackets.
    pub width: usize,
    /// The glyph of a cell that progress has not reached.
    pub empty_char: char,
    /// The glyph of a cell that progress has passed.
    pub full_char: char,
    /// The glyph of the one cell at the edge of the filled region.
    pub leading_char: char,
    /// Whether the percentage follows the bar.
    pub include_percent: bool,
    /// Whether `current_partial/total` follows the bar.
    pub include_numbers: bool,
    /// The width reported just before the latest `update` or `replace`.
    pub previous_rendered_width: usize,
}

impl View for Bar {
    type V = BarView;

    open spec fn view(&self) -> BarView {
        BarView {
            current_partial: self.current_partial as nat,
            total: self.total as nat,
            width: self.width as nat,
            empty_char: self.empty_char,
            full_char: self.full_char,
            leading_char: self.leading_char,
            include_percent: self.include_percent,
            include_numbers: self.include_numbers,
            previous_rendered_width: self.previous_rendered_width as nat,
        }
    }
}

impl Default for Bar {
    /// A bar of 50 cells at 0 of 100, drawn with blocks and spaces, with
    /// neither percentage nor numbers.
    fn default() -> (bar: Self)
        ensures
            bar@ == BarView::initial(),
    {
        Bar {
            current_partial: 0,
            total: 100,
            width: 50,
            empty_char: ' ',
            full_char: '\u{2588}',
            leading_char: '\u{2588}',
            include_percent: false,
            include_numbers: false,
            previous_rendered_width: 0,
        }
    }
}

impl Bar {
    /// Adds `to_add` to the progress, which stops at `usize::MAX`, after
    /// noting the width that the bar reported until now.
    pub fn update(&mut self, to_add: usize)
        ensures
            final(self)@ == old(self)@.updated(to_add as nat),
    {
        self.previous_rendered_width = self.get_width();
        self.current_partial = self.current_partial.saturating_add(to_add);
    }

    /// Sets the progress to `new_progress`, after noting the width that the
    /// bar reported until now.
    pub fn replace(&mut self, new_progress: usize)
        ensures
            final(self)@ == old(self)@.replaced(new_progress as nat),
    {
        self.previous_rendered_width = self.get_width();
        self.current_partial = new_progress;
    }

    /// The estimated number of characters in the rendering: brackets, track,
    /// numbers and the allowance for the percentage. The result is
    /// `usize::MAX` where the estimate exceeds it.
    pub fn get_width(&self) -> (width: usize)
        ensures
            width == self@.reported_width(),
    {
        let mut width: u128 = self.width as u128 + 2;
        if self.include_numbers {
            let total_len = decimal_len(self.total as u128);
            let partial_len = decimal_len(self.current_partial as u128);
            width = width + (total_len as u128 + partial_len as u128 + 2);
        }
        if self.include_percent {
            let current = self.current_partial as u128;
            let total = self.total as u128;
            if total > 0 && current * 100 >= 95 * total {
                width = width + 8;
            } else if total > 0 && current * 1000 > 95 * total {
                width = width + 7;
            } else {
                width = width + 6;
            }
        }
        if width > usize::MAX as u128 {
            usize::MAX
        } else {
            width as usize
        }
    }

    /// The width that the bar reported just before the latest `update` or
    /// `replace`, and 0 for a bar as it was built: what a caller has to
    /// erase before printing the bar anew.
    pub fn get_last_width(&self) -> (width: usize)
        ensures
            width == self@.previous_rendered_width,
    {
        self.previous_rendered_width
    }

    /// The percentage in hundredths of a percent, rounded to the nearest
    /// integer, a tie going to the even one; 0 where `total` is zero.
    fn percent_hundredths(&self) -> (h: u128)
        ensures
            h == self@.hundredths(),
    {
        if self.total == 0 {
            0
        } else {
            let total = self.total as u128;
            let scaled: u128 = 10000 * (self.current_partial as u128);
            let quotient = scaled / total;
            let rest = scaled % total;
            if 2 * rest > total || (2 * rest == total && quotient % 2 == 1) {
                quotient + 1
            } else {
                quotient
            }
        }
    }

    /// Appends the percentage with two decimals to `s`.
    fn push_percent(&self, s: &mut String)
        ensures
            final(s)@ == old(s)@ + self@.percent_text(),
    {
        let h = self.percent_hundredths();
        s.push(' ');
        push_decimal(s, h / 100);
        s.push('.');
        s.push(digit_to_char(((h / 10) % 10) as u8));
        s.push(digit_to_char((h % 10) as u8));
        s.push('%');
        assert(s@ =~= old(s)@ + self@.percent_text());
    }

    /// Appends the two amounts, separated by a slash, to `s`.
    fn push_numbers(&self, s: &mut String)
        ensures
            final(s)@ == old(s)@ + self@.numbers_text(),
    {
        s.push(' ');
        push_decimal(s, self.current_partial as u128);
        s.push('/');
        push_decimal(s, self.total as u128);
        assert(s@ =~= old(s)@ + self@.numbers_text());
    }

    /// Appends the cells of the track to `s`.
    fn push_track(&self, s: &mut String)
        ensures
            final(s)@ == old(s)@ + self@.track(),
    {
        let total = self.total as u128;
        assert(self.width * self.current_partial <= u128::MAX) by (nonlinear_arith)
            requires
                self.width <= u64::MAX,
                self.current_partial <= u64::MAX,
        ;
        let fill: u128 = (self.width as u128) * (self.current_partial as u128);
        let mut i: usize = 0;
        while i < self.width
            invariant
                i <= self.width,
                total == self.total,
                fill == self.width * self.current_partial,
                s@ == old(s)@ + self@.track().subrange(0, i as int),
            decreases self.width - i,
        {
            assert(i * total <= (i + 1) * total <= u128::MAX) by (nonlinear_arith)
                requires
                    0 <= i,
                    i + 1 <= u64::MAX,
                    0 <= total <= u64::MAX,
            ;
            let glyph = if total > 0 && (i as u128 + 1) * total < fill {
                self.full_char
            } else if total > 0 && (i as u128) * total < fill {
                self.leading_char
            } else {
                self.empty_char
            };
            assert(glyph == self@.cell(i as int));
            assert(self@.track().subrange(0, i + 1) =~= self@.track().subrange(0, i as int).push(
                glyph,
            ));
            s.push(glyph);
            i = i + 1;
        }
        assert(self@.track().subrange(0, i as int) =~= self@.track());
    }

    /// The text of the bar: the track between square brackets, then the
    /// percentage with two decimals if the bar shows it, then the two
    /// amounts if the bar shows them. The bar is left as it is.
    pub fn render(&self) -> (text: String)
        ensures
            text@ == self@.text(),
    {
        let mut text = String::new();
        text.push('[');
        self.push_track(&mut text);
        text.push(']');
        if self.include_percent {
            self.push_percent(&mut text);
        }
        if self.include_numbers {
            self.push_numbers(&mut text);
        }
        assert(text@ =~= self@.text());
        text
    }

    /// The text of the bar, as [`Bar::render`] gives it.
    pub fn to_string(&self) -> (text: String)
        ensures
            text@ == self@.text(),
    {
        self.render()
    }
}

} // verus!
