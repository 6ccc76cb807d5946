//! Progress bars rendered as text, for a terminal front end to print.
//!
//! A [`Bar`] holds an amount of progress and a total, and renders them as a
//! line such as `[#####     ] 50.00% 5/10`. A [`BarBuilder`] configures one.
//!
//! Nothing here prints or moves a cursor. All arithmetic is on integers: the
//! ratio of progress to total is exact, the percentage is rounded to two
//! decimals with ties to even, a total of zero counts as 0%, and progress
//! added beyond `usize::MAX` stays at `usize::MAX`.

pub mod bar;
pub mod builder;
pub mod laws;
pub mod model;
pub mod text;

pub use bar::Bar;
pub use builder::BarBuilder;
pub use model::BarView;
