//! The mathematical model of a progress bar: what it holds, the text it
//! stands for, and how a change of progress transforms it.
//!
//! The amounts of the model are natural numbers without an upper limit; the
//! limit of the machine enters only where a bar reports a width or adds to
//! its progress. The ratio `current_partial / total` is taken exactly, as a
//! fraction of two integers; nothing is rounded before a comparison. A bar
//! whose `total` is zero has no ratio, and is drawn and measured as a bar at
//! 0%.

use crate::text::{decimal, digit_char};
use vstd::prelude::*;

verus! {

/// Everything a bar holds, as mathematical values.
pub struct BarView {
    /// The amount of progress made; it may exceed `total`.
    pub current_partial: nat,
    /// The amount of progress that counts as 100%.
    pub total: nat,
    /// The number of cells between the two brackets.
    pub width: nat,
    /// The glyph of a cell that progress has not reached.
    pub empty_char: char,
    /// The glyph of a cell that progress has passed.
    pub full_char: char,
    /// The glyph of the one cell at the edge of the filled region.
    pub leading_char: char,
    /// Whether the percentage follows the bar.
    pub include_percent: bool,
    /// Whether `current_partial/total` follows the bar.
    pub include_numbers: bool,
    /// The width reported just before the latest change of progress.
    pub previous_rendered_width: nat,
}

impl BarView {
    /// The bar that a builder yields when nothing was configured.
    pub open spec fn initial() -> BarView {
        BarView {
            current_partial: 0,
            total: 100,
            width: 50,
            empty_char: ' ',
            full_char: '\u{2588}',
            leading_char: '\u{2588}',
            include_percent: false,
            include_numbers: false,
            previous_rendered_width: 0,
        }
    }

    /// Whether `current_partial / total` is at least `num / den`.
    pub open spec fn ratio_at_least(self, num: int, den: int) -> bool
        recommends
            den > 0,
    {
        self.total > 0 && self.current_partial * den >= num * self.total
    }

    /// Whether `current_partial / total` is more than `num / den`.
    pub open spec fn ratio_above(self, num: int, den: int) -> bool
        recommends
            den > 0,
    {
        self.total > 0 && self.current_partial * den > num * self.total
    }

    /// Whether column `i` lies below `fill - 1`, where `fill` is the ratio
    /// times the width of the track: `i + 1 < width * current_partial / total`.
    pub open spec fn is_full(self, i: int) -> bool {
        self.total > 0 && (i + 1) * self.total < self.width * self.current_partial
    }

    /// Whether column `i` lies below `fill`:
    /// `i < width * current_partial / total`.
    pub open spec fn is_reached(self, i: int) -> bool {
        self.total > 0 && i * self.total < self.width * self.current_partial
    }

    /// The glyph in column `i` of the track: `full_char` below `fill - 1`,
    /// `leading_char` from there up to `fill`, and `empty_char` beyond.
    pub open spec fn cell(self, i: int) -> char {
        if self.is_full(i) {
            self.full_char
        } else if self.is_reached(i) {
            self.leading_char
        } else {
            self.empty_char
        }
    }

    /// The cells between the brackets.
    pub open spec fn track(self) -> Seq<char> {
        Seq::new(self.width, |i: int| self.cell(i))
    }

    /// The percentage in hundredths of a percent: `10000 * current_partial /
    /// total`, rounded to the nearest integer, a tie going to the even one.
    pub open spec fn hundredths(self) -> nat {
        if self.total == 0 {
            0
        } else {
            let scaled = 10000 * self.current_partial;
            let quotient = scaled / self.total;
            let rest = scaled % self.total;
            if 2 * rest > self.total || (2 * rest == self.total && quotient % 2 == 1) {
                quotient + 1
            } else {
                quotient
            }
        }
    }

    /// The percentage with two decimals: a space, the integer part, a point,
    /// two digits and a percent sign.
    pub open spec fn percent_text(self) -> Seq<char> {
        let h = self.hundredths();
        seq![' '] + decimal(h / 100) + seq![
            '.',
            digit_char(((h / 10) % 10) as int),
            digit_char((h % 10) as int),
            '%',
        ]
    }

    /// The two amounts: a space, `current_partial`, a slash and `total`.
    pub open spec fn numbers_text(self) -> Seq<char> {
        seq![' '] + decimal(self.current_partial) + seq!['/'] + decimal(self.total)
    }

    /// What follows the closing bracket: the percentage, if asked for, then
    /// the numbers, if asked for.
    pub open spec fn suffix(self) -> Seq<char> {
        (if self.include_percent {
            self.percent_text()
        } else {
            Seq::<char>::empty()
        }) + (if self.include_numbers {
            self.numbers_text()
        } else {
            Seq::<char>::empty()
        })
    }

    /// The whole rendering: the track between brackets, then the suffix.
    pub open spec fn text(self) -> Seq<char> {
        seq!['['] + self.track() + seq![']'] + self.suffix()
    }

    /// The room that the width estimate sets aside for the percentage. It
    /// goes by the ratio alone: 8 columns from 95% on, 7 above 9.5%, and 6
    /// below that.
    pub open spec fn percent_allowance(self) -> int {
        if self.ratio_at_least(95, 100) {
            8
        } else if self.ratio_above(95, 1000) {
            7
        } else {
            6
        }
    }

    /// The estimate of how many characters the rendering takes: the track
    /// and its brackets, the numbers as they are written, and the allowance
    /// for the percentage.
    pub open spec fn estimated_width(self) -> int {
        self.width + 2 + (if self.include_numbers {
            decimal(self.total).len() + decimal(self.current_partial).len() + 2
        } else {
            0
        }) + (if self.include_percent {
            self.percent_allowance()
        } else {
            0
        })
    }

    /// The estimate as the bar reports it: `usize::MAX` where the estimate
    /// is larger than that.
    pub open spec fn reported_width(self) -> nat {
        if self.estimated_width() > usize::MAX {
            usize::MAX as nat
        } else {
            self.estimated_width() as nat
        }
    }

    /// The bar after `delta` more progress: the width reported until now is
    /// kept as `previous_rendered_width`, and `current_partial` grows by
    /// `delta`, stopping at `usize::MAX`.
    pub open spec fn updated(self, delta: nat) -> BarView {
        BarView {
            current_partial: if self.current_partial + delta > usize::MAX {
                usize::MAX as nat
            } else {
                self.current_partial + delta
            },
            previous_rendered_width: self.reported_width(),
            ..self
        }
    }

    /// The bar after its progress was set to `value`: the width reported
    /// until now is kept as `previous_rendered_width`.
    pub open spec fn replaced(self, value: nat) -> BarView {
        BarView { current_partial: value, previous_rendered_width: self.reported_width(), ..self }
    }
}

} // verus!
