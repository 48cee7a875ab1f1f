//! Selection-scoped scaling state for a small set of named, coloured boxes,
//! and the geometry of the canvas that shows the selected one.
//!
//! All quantities are exact: a scale factor is a whole number of millionths,
//! and canvas geometry is expressed in fine units, a fixed fraction of one
//! length unit, so that no result is ever rounded.

pub mod app_data;
pub mod canvas;
pub mod collection;
pub mod color;
pub mod scale;
pub mod test_box;
