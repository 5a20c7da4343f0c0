//! Layout and rendering of a grid of coloured, bordered, optionally linked
//! cells as an SVG document, with label bands on the sides of the grid and a
//! calendar view of one year.
//!
//! A rendering is the bytes of a document: [`tile`] draws a grid,
//! [`metadata_tile`] a grid with its bands, [`year_line`] the calendar of a
//! year. Each of them states which bytes these are, down to what is handed
//! to `quick_xml` for each element, and asks that every coordinate of the
//! layout can be held in 32 bits: [`measure_tile`], [`fits_metadata`] and
//! [`fits_year`] tell whether they can.

pub mod color;
pub mod config;
pub mod data_traits;
pub mod decimal;
pub mod metadata;
pub mod pieces;
pub mod tile;
pub mod year;

pub use color::Color;
pub use config::{coordinate, Config, ConfigBuilder, Mode};
pub use data_traits::{Element, ElementLink, Info, Metadata};
pub use metadata::{fits_metadata, metadata_tile, Axis};
pub use tile::{measure_tile, tile};
pub use year::{fits_year, year_line, CalendarCell, Date, DateDataSource};
