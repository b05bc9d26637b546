//! Image conversion and resizing: argument parsing, resize geometry,
//! output-format selection and the decode / resize / encode pipeline.

pub mod convert;
pub mod formats;
pub mod geometry;
pub mod imaging;
pub mod laws;
pub mod options;
pub mod text;
