//! The layout configuration and the coordinate model: the map from a
//! position in the grid to a position in pixels.

use crate::decimal::{decimal, decimal_digits};
use vstd::prelude::*;

verus! {

/// Which screen axis the first grid axis (the outer sequence) runs along.
#[derive(Clone, Copy, Debug, PartialEq, Eq, Structural)]
pub enum Mode {
    /// The first axis is vertical: an outer group is a row.
    RowColumn,
    /// The first axis is horizontal: an outer group is a column.
    ColumnRow,
}

impl Mode {
    /// The other orientation.
    pub open spec fn swapped(self) -> Mode {
        match self {
            Mode::RowColumn => Mode::ColumnRow,
            Mode::ColumnRow => Mode::RowColumn,
        }
    }
}

impl Default for Mode {
    fn default() -> (mode: Mode)
        ensures
            mode == Mode::RowColumn,
    {
        Mode::RowColumn
    }
}

/// The layout of one rendering: pixel origin, cell size, gap between cells,
/// stroke width, corner radius and orientation.
#[derive(Clone, Copy, Debug, PartialEq, Eq, Structural)]
pub struct Config {
    pub offset_x: u32,
    pub offset_y: u32,
    pub size_x: u32,
    pub size_y: u32,
    pub padding_x: u32,
    pub padding_y: u32,
    pub border: u32,
    pub rounding: u32,
    pub mode: Mode,
}

/// The pixel coordinate of the cell with index `base` along one axis.
pub open spec fn coordinate_of(base: int, size: int, padding: int, offset: int) -> int {
    offset + base * (size + padding)
}

/// Computes `offset + base * (size + padding)`.
pub fn coordinate(base: u32, size: u32, padding: u32, offset: u32) -> (pixel: u32)
    requires
        coordinate_of(base as int, size as int, padding as int, offset as int) <= u32::MAX,
    ensures
        pixel == coordinate_of(base as int, size as int, padding as int, offset as int),
{
    let step: u64 = size as u64 + padding as u64;
    assert(base as u64 * step == base * (size + padding) && base * (size + padding) >= 0)
        by (nonlinear_arith)
        requires
            step == size + padding,
    ;
    let advance: u64 = base as u64 * step;
    (offset as u64 + advance) as u32
}

/// Whether `offset + base * (size + padding)` can be held in 32 bits.
pub fn coordinate_fits(base: u32, size: u32, padding: u32, offset: u32) -> (fits: bool)
    ensures
        fits == (coordinate_of(base as int, size as int, padding as int, offset as int)
            <= u32::MAX),
{
    let step: u128 = size as u128 + padding as u128;
    assert(base as u128 * step == base * (size + padding) && 0 <= base * (size + padding)
        <= 0xffff_ffff * 0x1_ffff_fffe) by (nonlinear_arith)
        requires
            step == size + padding,
            size <= 0xffff_ffff,
            padding <= 0xffff_ffff,
            base <= 0xffff_ffff,
    ;
    let advance: u128 = base as u128 * step;
    offset as u128 + advance <= u32::MAX as u128
}

/// The coordinate does not decrease when the index grows.
pub proof fn lemma_coordinate_monotonic(low: int, high: int, size: int, padding: int, offset: int)
    requires
        0 <= low <= high,
        0 <= size,
        0 <= padding,
    ensures
        coordinate_of(low, size, padding, offset) <= coordinate_of(high, size, padding, offset),
{
    assert(low * (size + padding) <= high * (size + padding)) by (nonlinear_arith)
        requires
            0 <= low <= high,
            0 <= size + padding,
    ;
}

impl Config {
    /// The configuration that a builder starts from.
    pub open spec fn standard() -> Config {
        Config {
            offset_x: 0,
            offset_y: 0,
            size_x: 15,
            size_y: 15,
            padding_x: 5,
            padding_y: 5,
            border: 1,
            rounding: 3,
            mode: Mode::RowColumn,
        }
    }

    /// The horizontal pixel coordinate of the cell with horizontal index
    /// `index`.
    pub open spec fn x_of(self, index: int) -> int {
        coordinate_of(index, self.size_x as int, self.padding_x as int, self.offset_x as int)
    }

    /// The vertical pixel coordinate of the cell with vertical index `index`.
    pub open spec fn y_of(self, index: int) -> int {
        coordinate_of(index, self.size_y as int, self.padding_y as int, self.offset_y as int)
    }

    /// The horizontal index of the cell at `first` along the first axis and
    /// `second` along the second.
    pub open spec fn column(self, first: int, second: int) -> int {
        match self.mode {
            Mode::RowColumn => second,
            Mode::ColumnRow => first,
        }
    }

    /// The vertical index of the cell at `first` along the first axis and
    /// `second` along the second.
    pub open spec fn row(self, first: int, second: int) -> int {
        match self.mode {
            Mode::RowColumn => first,
            Mode::ColumnRow => second,
        }
    }

    /// The pixel position `(x, y)` of the cell at `(first, second)`.
    pub open spec fn position(self, first: int, second: int) -> (int, int) {
        (self.x_of(self.column(first, second)), self.y_of(self.row(first, second)))
    }

    /// Whether both pixel coordinates of the cell at `(first, second)` can
    /// be held in 32 bits.
    pub open spec fn fits(self, first: int, second: int) -> bool {
        self.position(first, second).0 <= u32::MAX && self.position(first, second).1 <= u32::MAX
    }

    /// The pixel origin along the first axis.
    pub open spec fn first_offset(self) -> int {
        match self.mode {
            Mode::RowColumn => self.offset_y as int,
            Mode::ColumnRow => self.offset_x as int,
        }
    }

    /// The pixel origin along the second axis.
    pub open spec fn second_offset(self) -> int {
        match self.mode {
            Mode::RowColumn => self.offset_x as int,
            Mode::ColumnRow => self.offset_y as int,
        }
    }

    /// This configuration with the origin along the first axis at `offset`.
    pub open spec fn with_first_offset(self, offset: int) -> Config {
        match self.mode {
            Mode::RowColumn => Config { offset_y: offset as u32, ..self },
            Mode::ColumnRow => Config { offset_x: offset as u32, ..self },
        }
    }

    /// This configuration with the origin along the second axis at `offset`.
    pub open spec fn with_second_offset(self, offset: int) -> Config {
        match self.mode {
            Mode::RowColumn => Config { offset_x: offset as u32, ..self },
            Mode::ColumnRow => Config { offset_y: offset as u32, ..self },
        }
    }

    /// The pixel coordinate along the first axis of the cell with index
    /// `index` on that axis.
    pub open spec fn first_coordinate(self, index: int) -> int {
        match self.mode {
            Mode::RowColumn => self.y_of(index),
            Mode::ColumnRow => self.x_of(index),
        }
    }

    /// The pixel coordinate along the second axis of the cell with index
    /// `index` on that axis.
    pub open spec fn second_coordinate(self, index: int) -> int {
        match self.mode {
            Mode::RowColumn => self.x_of(index),
            Mode::ColumnRow => self.y_of(index),
        }
    }

    /// This configuration in the orientation `mode`.
    pub open spec fn with_mode(self, mode: Mode) -> Config {
        Config { mode, ..self }
    }

    /// The width of a cell, as it is written in the document.
    pub fn size_x(&self) -> (text: String)
        ensures
            text@ == decimal_digits(self.size_x as nat),
    {
        decimal(self.size_x)
    }

    /// The height of a cell, as it is written in the document.
    pub fn size_y(&self) -> (text: String)
        ensures
            text@ == decimal_digits(self.size_y as nat),
    {
        decimal(self.size_y)
    }

    /// The horizontal pixel coordinate of the cell with horizontal index
    /// `value`.
    pub fn coordinate_x(&self, value: u32) -> (pixel: u32)
        requires
            self.x_of(value as int) <= u32::MAX,
        ensures
            pixel == self.x_of(value as int),
    {
        coordinate(value, self.size_x, self.padding_x, self.offset_x)
    }

    /// The vertical pixel coordinate of the cell with vertical index `value`.
    pub fn coordinate_y(&self, value: u32) -> (pixel: u32)
        requires
            self.y_of(value as int) <= u32::MAX,
        ensures
            pixel == self.y_of(value as int),
    {
        coordinate(value, self.size_y, self.padding_y, self.offset_y)
    }

    /// Whether [`Config::positions`] can place the cell at
    /// `(first, second)`.
    pub fn can_place(&self, first: u32, second: u32) -> (fits: bool)
        ensures
            fits == self.fits(first as int, second as int),
    {
        let (x, y) = match self.mode {
            Mode::RowColumn => (second, first),
            Mode::ColumnRow => (first, second),
        };
        coordinate_fits(x, self.size_x, self.padding_x, self.offset_x) && coordinate_fits(
            y,
            self.size_y,
            self.padding_y,
            self.offset_y,
        )
    }

    /// The pixel position of the cell at `(first, second)`, each coordinate
    /// as it is written in the document.
    pub fn positions(&self, first: u32, second: u32) -> (position: (String, String))
        requires
            self.fits(first as int, second as int),
        ensures
            position.0@ == decimal_digits(self.position(first as int, second as int).0 as nat),
            position.1@ == decimal_digits(self.position(first as int, second as int).1 as nat),
    {
        let (x, y) = match self.mode {
            Mode::RowColumn => (second, first),
            Mode::ColumnRow => (first, second),
        };
        let xc = self.coordinate_x(x);
        let yc = self.coordinate_y(y);
        let xs = decimal(xc);
        let ys = decimal(yc);
        (xs, ys)
    }

    /// Moves the origin along the first axis by `item` pixels, to make room
    /// for a band before the grid.
    pub fn set_metadata_first_offset(&mut self, item: u32)
        requires
            old(self).first_offset() + item <= u32::MAX,
        ensures
            *final(self) == old(self).with_first_offset(old(self).first_offset() + item),
    {
        match self.mode {
            Mode::RowColumn => self.offset_y += item,
            Mode::ColumnRow => self.offset_x += item,
        };
    }

    /// Puts the origin along the first axis where a group with index
    /// `max_first` would stand: just after a grid of `max_first` groups.
    pub fn set_metadata_after_first_offset(&mut self, max_first: u32)
        requires
            old(self).first_coordinate(max_first as int) <= u32::MAX,
        ensures
            *final(self) == old(self).with_first_offset(
                old(self).first_coordinate(max_first as int),
            ),
    {
        match self.mode {
            Mode::RowColumn => self.offset_y = self.coordinate_y(max_first),
            Mode::ColumnRow => self.offset_x = self.coordinate_x(max_first),
        };
    }

    /// Moves the origin along the second axis by `item` pixels, to make room
    /// for a band before the grid.
    pub fn set_metadata_second_offset(&mut self, item: u32)
        requires
            old(self).second_offset() + item <= u32::MAX,
        ensures
            *final(self) == old(self).with_second_offset(old(self).second_offset() + item),
    {
        match self.mode {
            Mode::RowColumn => self.offset_x += item,
            Mode::ColumnRow => self.offset_y += item,
        };
    }

    /// Puts the origin along the second axis where a cell with index
    /// `max_second` would stand: just after the longest group of the grid.
    pub fn set_metadata_after_second_offset(&mut self, max_second: u32)
        requires
            old(self).second_coordinate(max_second as int) <= u32::MAX,
        ensures
            *final(self) == old(self).with_second_offset(
                old(self).second_coordinate(max_second as int),
            ),
    {
        match self.mode {
            Mode::RowColumn => self.offset_x = self.coordinate_x(max_second),
            Mode::ColumnRow => self.offset_y = self.coordinate_y(max_second),
        };
    }

    /// This configuration moved along the first axis as
    /// [`Config::set_metadata_first_offset`] moves it, where the new origin
    /// can be held in 32 bits.
    pub fn checked_first_offset(&self, item: u32) -> (moved: Option<Config>)
        ensures
            moved == if self.first_offset() + item <= u32::MAX {
                Some(self.with_first_offset(self.first_offset() + item))
            } else {
                None
            },
    {
        let mut moved = *self;
        match self.mode {
            Mode::RowColumn => match self.offset_y.checked_add(item) {
                Some(offset) => {
                    moved.offset_y = offset;
                    Some(moved)
                },
                None => None,
            },
            Mode::ColumnRow => match self.offset_x.checked_add(item) {
                Some(offset) => {
                    moved.offset_x = offset;
                    Some(moved)
                },
                None => None,
            },
        }
    }

    /// This configuration moved along the second axis as
    /// [`Config::set_metadata_second_offset`] moves it, where the new origin
    /// can be held in 32 bits.
    pub fn checked_second_offset(&self, item: u32) -> (moved: Option<Config>)
        ensures
            moved == if self.second_offset() + item <= u32::MAX {
                Some(self.with_second_offset(self.second_offset() + item))
            } else {
                None
            },
    {
        let mut moved = *self;
        match self.mode {
            Mode::RowColumn => match self.offset_x.checked_add(item) {
                Some(offset) => {
                    moved.offset_x = offset;
                    Some(moved)
                },
                None => None,
            },
            Mode::ColumnRow => match self.offset_y.checked_add(item) {
                Some(offset) => {
                    moved.offset_y = offset;
                    Some(moved)
                },
                None => None,
            },
        }
    }

    /// This configuration moved along the first axis as
    /// [`Config::set_metadata_after_first_offset`] moves it, where the new
    /// origin can be held in 32 bits.
    pub fn checked_after_first_offset(&self, max_first: u32) -> (moved: Option<Config>)
        ensures
            moved == if self.first_coordinate(max_first as int) <= u32::MAX {
                Some(self.with_first_offset(self.first_coordinate(max_first as int)))
            } else {
                None
            },
    {
        let mut moved = *self;
        match self.mode {
            Mode::RowColumn => {
                if coordinate_fits(max_first, self.size_y, self.padding_y, self.offset_y) {
                    moved.set_metadata_after_first_offset(max_first);
                    Some(moved)
                } else {
                    None
                }
            },
            Mode::ColumnRow => {
                if coordinate_fits(max_first, self.size_x, self.padding_x, self.offset_x) {
                    moved.set_metadata_after_first_offset(max_first);
                    Some(moved)
                } else {
                    None
                }
            },
        }
    }

    /// This configuration moved along the second axis as
    /// [`Config::set_metadata_after_second_offset`] moves it, where the new
    /// origin can be held in 32 bits.
    pub fn checked_after_second_offset(&self, max_second: u32) -> (moved: Option<Config>)
        ensures
            moved == if self.second_coordinate(max_second as int) <= u32::MAX {
                Some(self.with_second_offset(self.second_coordinate(max_second as int)))
            } else {
                None
            },
    {
        let mut moved = *self;
        match self.mode {
            Mode::RowColumn => {
                if coordinate_fits(max_second, self.size_x, self.padding_x, self.offset_x) {
                    moved.set_metadata_after_second_offset(max_second);
                    Some(moved)
                } else {
                    None
                }
            },
            Mode::ColumnRow => {
                if coordinate_fits(max_second, self.size_y, self.padding_y, self.offset_y) {
                    moved.set_metadata_after_second_offset(max_second);
                    Some(moved)
                } else {
                    None
                }
            },
        }
    }

    /// The stroke width, as it is written in the document.
    pub fn border(&self) -> (text: String)
        ensures
            text@ == decimal_digits(self.border as nat),
    {
        decimal(self.border)
    }

    /// The corner radius, as it is written in the document.
    pub fn rounding(&self) -> (text: String)
        ensures
            text@ == decimal_digits(self.rounding as nat),
    {
        decimal(self.rounding)
    }

    /// Changes the orientation and nothing else.
    pub fn set_mode(&mut self, mode: Mode)
        ensures
            *final(self) == old(self).with_mode(mode),
    {
        self.mode = mode;
    }
}

/// Builds a configuration: each field keeps its standard value unless it
/// is set.
pub struct ConfigBuilder {
    config: Config,
}

impl View for ConfigBuilder {
    type V = Config;

    closed spec fn view(&self) -> Config {
        self.config
    }
}

impl Config {
    /// Starts a configuration from the standard one: origin 0, cells of 15
    /// by 15 pixels with gaps of 5, stroke width 1, corner radius 3, the
    /// first axis vertical.
    pub fn new() -> (builder: ConfigBuilder)
        ensures
            builder@ == Config::standard(),
    {
        ConfigBuilder {
            config: Config {
                offset_x: 0,
                offset_y: 0,
                size_x: 15,
                size_y: 15,
                padding_x: 5,
                padding_y: 5,
                border: 1,
                rounding: 3,
                mode: Mode::RowColumn,
            },
        }
    }
}

impl ConfigBuilder {
    /// The horizontal pixel origin.
    pub fn offset_x(self, value: u32) -> (builder: ConfigBuilder)
        ensures
            builder@ == (Config { offset_x: value, ..self@ }),
    {
        let mut config = self.config;
        config.offset_x = value;
        ConfigBuilder { config }
    }

    /// The vertical pixel origin.
    pub fn offset_y(self, value: u32) -> (builder: ConfigBuilder)
        ensures
            builder@ == (Config { offset_y: value, ..self@ }),
    {
        let mut config = self.config;
        config.offset_y = value;
        ConfigBuilder { config }
    }

    /// The width of a cell.
    pub fn size_x(self, value: u32) -> (builder: ConfigBuilder)
        ensures
            builder@ == (Config { size_x: value, ..self@ }),
    {
        let mut config = self.config;
        config.size_x = value;
        ConfigBuilder { config }
    }

    /// The height of a cell.
    pub fn size_y(self, value: u32) -> (builder: ConfigBuilder)
        ensures
            builder@ == (Config { size_y: value, ..self@ }),
    {
        let mut config = self.config;
        config.size_y = value;
        ConfigBuilder { config }
    }

    /// The horizontal gap between cells.
    pub fn padding_x(self, value: u32) -> (builder: ConfigBuilder)
        ensures
            builder@ == (Config { padding_x: value, ..self@ }),
    {
        let mut config = self.config;
        config.padding_x = value;
        ConfigBuilder { config }
    }

    /// The vertical gap between cells.
    pub fn padding_y(self, value: u32) -> (builder: ConfigBuilder)
        ensures
            builder@ == (Config { padding_y: value, ..self@ }),
    {
        let mut config = self.config;
        config.padding_y = value;
        ConfigBuilder { config }
    }

    /// The stroke width.
    pub fn border(self, value: u32) -> (builder: ConfigBuilder)
        ensures
            builder@ == (Config { border: value, ..self@ }),
    {
        let mut config = self.config;
        config.border = value;
        ConfigBuilder { config }
    }

    /// The corner radius.
    pub fn rounding(self, value: u32) -> (builder: ConfigBuilder)
        ensures
            builder@ == (Config { rounding: value, ..self@ }),
    {
        let mut config = self.config;
        config.rounding = value;
        ConfigBuilder { config }
    }

    /// The orientation.
    pub fn mode(self, value: Mode) -> (builder: ConfigBuilder)
        ensures
            builder@ == self@.with_mode(value),
    {
        let mut config = self.config;
        config.mode = value;
        ConfigBuilder { config }
    }

    /// The configuration as it was built.
    pub fn build(self) -> (config: Config)
        ensures
            config == self@,
    {
        self.config
    }
}

/// A cell's position does not move towards the origin when either of its
/// indices grows.
pub proof fn lemma_position_monotonic(
    config: Config,
    first: int,
    second: int,
    further_first: int,
    further_second: int,
)
    requires
        0 <= first <= further_first,
        0 <= second <= further_second,
    ensures
        config.position(first, second).0 <= config.position(further_first, further_second).0,
        config.position(first, second).1 <= config.position(further_first, further_second).1,
        config.fits(further_first, further_second) ==> config.fits(first, second),
{
    lemma_coordinate_monotonic(
        config.column(first, second),
        config.column(further_first, further_second),
        config.size_x as int,
        config.padding_x as int,
        config.offset_x as int,
    );
    lemma_coordinate_monotonic(
        config.row(first, second),
        config.row(further_first, further_second),
        config.size_y as int,
        config.padding_y as int,
        config.offset_y as int,
    );
}

/// Changing the orientation transposes the layout: the cell at
/// `(first, second)` stands where the cell at `(second, first)` stood.
pub proof fn lemma_mode_swap_transposes(config: Config, first: int, second: int)
    ensures
        config.with_mode(config.mode.swapped()).position(first, second) == config.position(
            second,
            first,
        ),
        config.with_mode(config.mode.swapped()).fits(first, second) == config.fits(second, first),
{
}

} // verus!
