//! What holds of every bar: the shape of the rendered text, the shape of the
//! track, and how the reported widths follow one another.

use crate::bar::Bar;
use crate::builder::BarBuilder;
use crate::model::BarView;
use crate::text::{decimal, lemma_decimal_len};
use vstd::prelude::*;

verus! {

/// The rendering opens with `[`, and `]` stands right behind the track. What
/// follows the closing bracket is the suffix and nothing else, so a bar that
/// shows neither percentage nor numbers ends with `]`.
pub proof fn lemma_text_brackets(v: BarView)
    ensures
        v.text().len() == v.width + 2 + v.suffix().len(),
        v.text()[0] == '[',
        v.text()[v.width as int + 1] == ']',
        v.text().subrange(v.width as int + 2, v.text().len() as int) == v.suffix(),
        !v.include_percent && !v.include_numbers ==> v.text().last() == ']',
{
    assert(v.text().subrange(v.width as int + 2, v.text().len() as int) =~= v.suffix());
}

/// Between the two brackets stands the track, which has exactly `width`
/// cells whatever the progress is, each of them the glyph of its column.
pub proof fn lemma_track_between_brackets(v: BarView)
    ensures
        v.track().len() == v.width,
        v.text().subrange(1, v.width as int + 1) == v.track(),
        forall|i: int| 0 <= i < v.width ==> v.text()[i + 1] == v.cell(i),
{
    assert(v.text().subrange(1, v.width as int + 1) =~= v.track());
}

/// Each cell shows one of the three glyphs of the bar.
pub proof fn lemma_cell_glyphs(v: BarView, i: int)
    ensures
        v.cell(i) == v.full_char || v.cell(i) == v.leading_char || v.cell(i) == v.empty_char,
{
}

/// The track is a run of full cells, then at most one leading cell, then
/// empty cells: a full cell is reached, every cell before a full one is
/// full, and every cell before a reached one is full.
pub proof fn lemma_track_shape(v: BarView, i: int, j: int)
    requires
        0 <= i < j,
    ensures
        v.is_full(i) ==> v.is_reached(i),
        v.is_full(j) ==> v.is_full(i),
        v.is_reached(j) ==> v.is_full(i),
{
    let t = v.total as int;
    assert(i * t <= (i + 1) * t <= j * t <= (j + 1) * t) by (nonlinear_arith)
        requires
            0 <= i < j,
            0 <= t,
    ;
}

/// A bar without progress, or with a total of zero, has an empty track: no
/// cell of it is reached.
pub proof fn lemma_track_empty(v: BarView, i: int)
    requires
        v.current_partial == 0 || v.total == 0,
        0 <= i,
    ensures
        v.cell(i) == v.empty_char,
{
    let t = v.total as int;
    assert(i * t >= 0) by (nonlinear_arith)
        requires
            0 <= i,
            0 <= t,
    ;
    assert(v.width * v.current_partial == 0 || v.total == 0) by (nonlinear_arith)
        requires
            v.current_partial == 0 || v.total == 0,
    ;
}

/// Rendering reads the bar and changes nothing, so two renderings of one
/// bar with no change of progress between them give the same text.
pub proof fn lemma_render_repeatable(bar: Bar, first: String, second: String)
    requires
        first@ == bar@.text(),
        second@ == bar@.text(),
    ensures
        first@ == second@,
{
}

/// The rendering and the reported width go by the progress and the
/// configuration alone: the width noted at the latest change plays no part.
pub proof fn lemma_text_ignores_last_width(v: BarView, previous_rendered_width: nat)
    ensures
        (BarView { previous_rendered_width, ..v }).text() == v.text(),
        (BarView { previous_rendered_width, ..v }).reported_width() == v.reported_width(),
{
    let w = BarView { previous_rendered_width, ..v };
    assert(w.track() =~= v.track());
}

/// A bar that was just built, however it was configured, has no width to
/// report from before: its last width is 0.
pub proof fn lemma_built_last_width(builder: BarBuilder)
    ensures
        builder.built().previous_rendered_width == 0,
        builder.built().current_partial == 0,
{
}

/// After `update` the last width is the width that the bar reported before
/// the call, and everything but the progress and that width is as it was.
pub proof fn lemma_last_width_after_update(v: BarView, delta: nat)
    ensures
        v.updated(delta).previous_rendered_width == v.reported_width(),
        v.updated(delta) == (BarView {
            current_partial: v.updated(delta).current_partial,
            previous_rendered_width: v.reported_width(),
            ..v
        }),
        v.current_partial + delta <= usize::MAX ==> v.updated(delta).current_partial
            == v.current_partial + delta,
{
}

/// After `replace` the last width is the width that the bar reported before
/// the call, and the progress is the value given.
pub proof fn lemma_last_width_after_replace(v: BarView, value: nat)
    ensures
        v.replaced(value).previous_rendered_width == v.reported_width(),
        v.replaced(value).current_partial == value,
{
}

/// Adding progress in two steps reaches the same progress as adding the
/// sum in one step.
pub proof fn lemma_update_adds(v: BarView, first: nat, second: nat)
    ensures
        v.updated(first).updated(second).current_partial == v.updated(
            first + second,
        ).current_partial,
{
}

/// For a bar that does not show the percentage, the estimated width is the
/// exact number of characters in the rendering.
pub proof fn lemma_width_exact_without_percent(v: BarView)
    requires
        !v.include_percent,
    ensures
        v.estimated_width() == v.text().len(),
{
    lemma_text_brackets(v);
}

/// The percentage takes five characters beside its integer part, so at
/// least six in all; up to 9.5% it takes exactly the six that the estimate
/// allows for it.
pub proof fn lemma_percent_text_len(v: BarView)
    ensures
        v.percent_text().len() == decimal(v.hundredths() / 100).len() + 5,
        v.percent_text().len() >= 6,
        !v.ratio_above(95, 1000) ==> v.percent_text().len() == v.percent_allowance(),
{
    let h = v.hundredths();
    lemma_decimal_len(h / 100);
    if !v.ratio_above(95, 1000) && v.total > 0 {
        lemma_hundredths_bounds(v);
        let t = v.total as int;
        let c = v.current_partial as int;
        assert(h < 1000) by (nonlinear_arith)
            requires
                t > 0,
                c * 1000 <= 95 * t,
                2 * (h * t) <= 2 * (10000 * c) + t,
        ;
    }
}

/// The hundredths of a percent lie within half a unit of the exact value
/// `10000 * current_partial / total`.
pub proof fn lemma_hundredths_bounds(v: BarView)
    requires
        v.total > 0,
    ensures
        2 * (v.hundredths() * v.total) <= 2 * (10000 * v.current_partial) + v.total,
        2 * (v.hundredths() * v.total) + v.total >= 2 * (10000 * v.current_partial),
{
    let total = v.total as int;
    let scaled = 10000 * v.current_partial as int;
    let quotient = scaled / total;
    let rest = scaled % total;
    vstd::arithmetic::div_mod::lemma_fundamental_div_mod(scaled, total);
    assert(0 <= rest < total);
    assert(scaled == total * quotient + rest);
    assert((quotient + 1) * total == total * quotient + total) by (nonlinear_arith);
    assert(quotient * total == total * quotient) by (nonlinear_arith);
}

} // verus!
