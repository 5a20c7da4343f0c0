//! The calendar of one year as a grid: one group for each week from Sunday
//! to Saturday, seven cells in each, with placeholders before the first
//! day of the year.

use crate::color::Color;
use crate::config::{Config, Mode};
use crate::data_traits::{
    grid_view, group_view, labels_view, CellView, Element, Info, LabelView, Metadata,
};
use crate::metadata::{
    fits_metadata, metadata_fits, metadata_markup, metadata_tile, metadata_view, MetadataView,
};
use crate::pieces::document_markup;
use crate::tile::grid_shape;
use chrono::{Datelike, Days, NaiveDate};
use vstd::prelude::*;
use vstd::string::*;

verus! {

/// The first year that a calendar can be drawn of: the first that `chrono`
/// has dates of.
pub const MIN_YEAR: i32 = -262143;

/// The last year that a calendar can be drawn of: the last week of a
/// calendar may reach into the year after, which is the last that `chrono`
/// has dates of.
pub const MAX_YEAR: i32 = 262141;

/// The greatest number of weeks of a calendar.
pub const MAX_WEEKS: u32 = 54;

/// A day of the proleptic Gregorian calendar.
#[derive(Clone, Copy, Debug, PartialEq, Eq, Structural)]
pub struct Date {
    pub year: i32,
    pub month: u32,
    pub day: u32,
}

/// Whether `year` has 366 days: every fourth year has, but of the years
/// that end a century only every fourth.
pub open spec fn is_leap_year(year: int) -> bool {
    year % 4 == 0 && (year % 100 != 0 || year % 400 == 0)
}

/// The number of days of `year`.
pub open spec fn days_in_year(year: int) -> int {
    if is_leap_year(year) {
        366
    } else {
        365
    }
}

/// The day of the week of January 1 of `year`, counted from Sunday: 0 for a
/// Sunday, 6 for a Saturday. January 1 of the year 1 is a Monday; each year
/// since moves the day on by one, and each leap year since by one more.
pub open spec fn new_year_weekday(year: int) -> int {
    (1 + 5 * ((year - 1) % 4) + 4 * ((year - 1) % 100) + 6 * ((year - 1) % 400)) % 7
}

/// The year, month and day of the date `days` days after January 1 of
/// `year`.
pub uninterp spec fn date_after_new_year(year: int, days: int) -> (int, int, int);

/// The date `days` days after January 1 of `year`.
pub open spec fn date_of(year: int, days: int) -> Date {
    Date {
        year: date_after_new_year(year, days).0 as i32,
        month: date_after_new_year(year, days).1 as u32,
        day: date_after_new_year(year, days).2 as u32,
    }
}

/// `chrono::Weekday::num_days_from_sunday`, of the weekday of January 1 of
/// `year`: a number from 0, for a Sunday, to 6, for a Saturday, which is
/// that of the proleptic Gregorian calendar. `chrono` has this date for
/// every year from `MIN_YEAR` to the year after `MAX_YEAR`.
#[verifier::external_body]
fn weekday_of_new_year(year: i32) -> (weekday: u32)
    requires
        MIN_YEAR <= year <= MAX_YEAR,
    ensures
        weekday == new_year_weekday(year as int),
{
    NaiveDate::from_ymd_opt(year, 1, 1).unwrap().weekday().num_days_from_sunday()
}

/// `chrono::NaiveDate::checked_add_days`, on January 1 of `year`: the date
/// that many days later, which `chrono` has as long as it lies before the
/// end of the year after. No days later is January 1 itself; the date is
/// in `year` as long as the days are fewer than those of `year`, and in the
/// year after from then on.
#[verifier::external_body]
fn day_after_new_year(year: i32, days: u32) -> (date: Date)
    requires
        MIN_YEAR <= year <= MAX_YEAR,
        days < 730,
    ensures
        (date.year as int, date.month as int, date.day as int) == date_after_new_year(
            year as int,
            days as int,
        ),
        days == 0 ==> date == (Date { year, month: 1, day: 1 }),
        date.year == if days < days_in_year(year as int) {
            year as int
        } else {
            year + 1
        },
{
    let first = NaiveDate::from_ymd_opt(year, 1, 1).unwrap();
    let date = first.checked_add_days(Days::new(days as u64)).unwrap();
    Date { year: date.year(), month: date.month(), day: date.day() }
}

/// A cell of the calendar: the cell of a date, or a placeholder where the
/// week has no date of the year.
pub enum CalendarCell<E> {
    Real(E),
    Placeholder,
}

/// The colour of a placeholder, inside and on its border: white.
pub open spec fn placeholder_color() -> Color {
    Color { red: 255, green: 255, blue: 255, alpha: Some(255u8) }
}

impl<E: Element> Element for CalendarCell<E> {
    type Link = E::Link;

    open spec fn spec_get_color(&self) -> Color {
        match self {
            CalendarCell::Real(e) => e.spec_get_color(),
            CalendarCell::Placeholder => placeholder_color(),
        }
    }

    open spec fn spec_get_border_color(&self) -> Color {
        match self {
            CalendarCell::Real(e) => e.spec_get_border_color(),
            CalendarCell::Placeholder => placeholder_color(),
        }
    }

    open spec fn spec_get_link(&self) -> Option<E::Link> {
        match self {
            CalendarCell::Real(e) => e.spec_get_link(),
            CalendarCell::Placeholder => None,
        }
    }

    fn get_color(&self) -> (color: Color) {
        match self {
            CalendarCell::Real(e) => e.get_color(),
            CalendarCell::Placeholder => Color::new(255, 255, 255, Some(255)),
        }
    }

    fn get_border_color(&self) -> (color: Color) {
        match self {
            CalendarCell::Real(e) => e.get_border_color(),
            CalendarCell::Placeholder => Color::new(255, 255, 255, Some(255)),
        }
    }

    fn get_link(&self) -> (link: Option<E::Link>) {
        match self {
            CalendarCell::Real(e) => e.get_link(),
            CalendarCell::Placeholder => None,
        }
    }
}

/// Where the cells of the calendar come from: one for each date.
pub trait DateDataSource<E: Element> {
    /// The cell that [`DateDataSource::get_element`] returns.
    open spec fn spec_get_element(&self, data: Date) -> E {
        arbitrary()
    }

    /// The cell of the date `data`.
    fn get_element(&self, data: Date) -> (element: E)
        ensures
            element == self.spec_get_element(data),
    ;
}

/// One week of the calendar: `empty` placeholders, then the cells of
/// `days` dates in a row, the first of them `start` days after January 1.
#[derive(Clone, Copy, Debug, PartialEq, Eq, Structural)]
pub struct Week {
    pub start: u32,
    pub empty: u32,
    pub days: u32,
}

impl Week {
    /// The week with index `index` of a year whose January 1 is `weekday`
    /// days after a Sunday. The first week holds a placeholder for each of
    /// these days and then the dates from January 1 up to the next Sunday;
    /// every other week holds the seven dates from a Sunday on.
    pub open spec fn plan(index: nat, weekday: nat) -> Week {
        if index == 0 {
            Week { start: 0, empty: weekday as u32, days: (7 - weekday) as u32 }
        } else {
            Week { start: (7 * index - weekday) as u32, empty: 0, days: 7 }
        }
    }

    /// The number of cells of the week.
    pub open spec fn len(self) -> nat {
        (self.empty + self.days) as nat
    }

    /// The week with index `index` of a year whose January 1 is `weekday`
    /// days after a Sunday.
    pub fn new(index: u32, weekday: u32) -> (week: Week)
        requires
            index <= MAX_WEEKS,
            weekday < 7,
        ensures
            week == Week::plan(index as nat, weekday as nat),
    {
        if index == 0 {
            Week { start: 0, empty: weekday, days: 7 - weekday }
        } else {
            Week { start: 7 * index - weekday, empty: 0, days: 7 }
        }
    }

    /// Whether the first date of the week is in `year`: whether it is fewer
    /// days after January 1 than `year` has. January 1 is the first date
    /// of the week that starts no days after it.
    pub fn starts_in(&self, year: i32) -> (is_in: bool)
        requires
            MIN_YEAR <= year <= MAX_YEAR,
            self.start < 730,
        ensures
            is_in == (self.start < days_in_year(year as int)),
            is_in == (date_of(year as int, self.start as int).year == year),
            self.start == 0 ==> date_of(year as int, 0) == (Date { year, month: 1, day: 1 }),
    {
        day_after_new_year(year, self.start).year == year
    }

    /// The cells of the week in `year`: the placeholders, then the cell of
    /// each date from `data_source`, in the order of the dates.
    pub fn cells<E: Element, D: DateDataSource<E>>(
        &self,
        year: i32,
        data_source: &D,
    ) -> (cells: Vec<CalendarCell<E>>)
        requires
            MIN_YEAR <= year <= MAX_YEAR,
            self.start + self.days <= 730,
            self.empty + self.days <= u32::MAX,
        ensures
            cells@ == week_cells(*data_source, year as int, *self),
    {
        let mut cells: Vec<CalendarCell<E>> = Vec::new();
        let mut empty: u32 = 0;
        while empty < self.empty
            invariant
                empty <= self.empty,
                cells@.len() == empty,
                forall|slot: int|
                    0 <= slot < empty ==> cells@[slot] == calendar_cell(
                        *data_source,
                        year as int,
                        *self,
                        slot,
                    ),
            decreases self.empty - empty,
        {
            cells.push(CalendarCell::Placeholder);
            empty += 1;
        }
        let mut day: u32 = 0;
        while day < self.days
            invariant
                MIN_YEAR <= year <= MAX_YEAR,
                self.start + self.days <= 730,
                self.empty + self.days <= u32::MAX,
                day <= self.days,
                cells@.len() == self.empty + day,
                forall|slot: int|
                    0 <= slot < self.empty + day ==> cells@[slot] == calendar_cell(
                        *data_source,
                        year as int,
                        *self,
                        slot,
                    ),
            decreases self.days - day,
        {
            let date = day_after_new_year(year, self.start + day);
            cells.push(CalendarCell::Real(data_source.get_element(date)));
            day += 1;
        }
        assert(cells@ =~= week_cells(*data_source, year as int, *self));
        cells
    }
}

/// The cell at `slot` of `week` in `year`: a placeholder before the first
/// date of the week, then what `source` gives for each date in turn.
pub open spec fn calendar_cell<E: Element, D: DateDataSource<E>>(
    source: D,
    year: int,
    week: Week,
    slot: int,
) -> CalendarCell<E> {
    if slot < week.empty {
        CalendarCell::Placeholder
    } else {
        CalendarCell::Real(source.spec_get_element(date_of(year, week.start + slot - week.empty)))
    }
}

/// The cells of `week` in `year`.
pub open spec fn week_cells<E: Element, D: DateDataSource<E>>(
    source: D,
    year: int,
    week: Week,
) -> Seq<CalendarCell<E>> {
    Seq::new(week.len(), |slot: int| calendar_cell(source, year, week, slot))
}

/// Every week of a calendar has seven cells, placeholders and dates
/// together, and only the first week has placeholders: as many as January 1
/// is days after a Sunday.
pub proof fn lemma_week_has_seven_cells(index: nat, weekday: nat)
    requires
        index <= MAX_WEEKS,
        weekday < 7,
    ensures
        Week::plan(index, weekday).len() == 7,
        Week::plan(index, weekday).empty == if index == 0 {
            weekday
        } else {
            0
        },
{
}

/// The weeks run from Sunday to Saturday: the date in the cell at `slot`
/// of the week with index `index` is `7 * index + slot` days after the
/// Sunday on or before January 1, so that it falls `slot` days after a
/// Sunday itself, and each day from January 1 on has one cell.
pub proof fn lemma_week_is_aligned(index: nat, weekday: nat, slot: nat)
    requires
        index <= MAX_WEEKS,
        weekday < 7,
        Week::plan(index, weekday).empty <= slot < 7,
    ensures
        Week::plan(index, weekday).start + slot - Week::plan(index, weekday).empty == 7 * index
            + slot - weekday,
        (Week::plan(index, weekday).start + slot - Week::plan(index, weekday).empty + weekday) % 7
            == slot,
{
}

/// The number of weeks of the calendar of `year`: the week of January 1,
/// and a week for each Sunday after January 1 that is still in `year`.
/// The first 52 of these Sundays are in every year, and the 53rd in a year
/// of 366 days that starts on a Saturday.
pub open spec fn week_count(year: int) -> nat {
    if is_leap_year(year) && new_year_weekday(year) == 6 {
        54
    } else {
        53
    }
}

/// The weeks of a calendar are those whose first date is in the year: the
/// week with index `index` is one of them if and only if `index` is less
/// than the number of weeks.
pub proof fn lemma_week_count(year: int, index: nat)
    requires
        index <= MAX_WEEKS,
    ensures
        (Week::plan(index, new_year_weekday(year) as nat).start < days_in_year(year)) == (index
            < week_count(year)),
        53 <= week_count(year) <= MAX_WEEKS,
{
}

/// Counts the weeks of the calendar of `year`.
pub fn weeks_in_year(year: i32) -> (weeks: u32)
    requires
        MIN_YEAR <= year <= MAX_YEAR,
    ensures
        weeks == week_count(year as int),
        53 <= weeks <= MAX_WEEKS,
{
    let weekday = weekday_of_new_year(year);
    if Week::new(53, weekday).starts_in(year) {
        54
    } else {
        53
    }
}

/// The cells of the calendar of `year`, week by week.
pub open spec fn year_cells<E: Element, D: DateDataSource<E>>(
    source: D,
    year: int,
) -> Seq<Seq<CalendarCell<E>>> {
    Seq::new(
        week_count(year),
        |index: int|
            week_cells(source, year, Week::plan(index as nat, new_year_weekday(year) as nat)),
    )
}

/// What the document shows of the calendar of `year`.
pub open spec fn year_view<E: Element, D: DateDataSource<E>>(
    source: D,
    year: int,
) -> Seq<Seq<CellView>> {
    Seq::new(week_count(year), |index: int| group_view(year_cells(source, year)[index]))
}

/// Builds the calendar of `year`: the week of January 1, then a week for
/// each Sunday that is still in `year`, each week with its cells.
pub fn year_grid<E: Element, D: DateDataSource<E>>(
    year: i32,
    data_source: &D,
) -> (grid: Vec<Vec<CalendarCell<E>>>)
    requires
        MIN_YEAR <= year <= MAX_YEAR,
    ensures
        grid@.len() == week_count(year as int),
        53 <= grid@.len() <= MAX_WEEKS,
        forall|index: int|
            0 <= index < grid@.len() ==> (#[trigger] grid@[index])@ == year_cells(
                *data_source,
                year as int,
            )[index],
        forall|index: int| 0 <= index < grid@.len() ==> (#[trigger] grid@[index])@.len() == 7,
        0 <= new_year_weekday(year as int) < 7,
        date_of(year as int, 0) == (Date { year, month: 1, day: 1 }),
{
    let weekday = weekday_of_new_year(year);
    let mut grid: Vec<Vec<CalendarCell<E>>> = Vec::new();
    let mut index: u32 = 0;
    let mut week = Week::new(0, weekday);
    while week.starts_in(year)
        invariant
            MIN_YEAR <= year <= MAX_YEAR,
            weekday == new_year_weekday(year as int),
            weekday < 7,
            index <= week_count(year as int),
            week == Week::plan(index as nat, weekday as nat),
            index > 0 ==> date_of(year as int, 0) == (Date { year, month: 1, day: 1 }),
            grid@.len() == index,
            forall|k: int|
                0 <= k < index ==> (#[trigger] grid@[k])@ == week_cells(
                    *data_source,
                    year as int,
                    Week::plan(k as nat, weekday as nat),
                ),
        decreases week_count(year as int) - index,
    {
        proof {
            lemma_week_count(year as int, index as nat);
        }
        grid.push(week.cells(year, data_source));
        index += 1;
        week = Week::new(index, weekday);
    }
    proof {
        lemma_week_count(year as int, index as nat);
    }
    assert forall|k: int| 0 <= k < grid@.len() implies (#[trigger] grid@[k])@.len() == 7 by {
        lemma_week_has_seven_cells(k as nat, weekday as nat);
    }
    grid
}

/// A label of the calendar.
pub struct YearInfo {
    pub block_count: u32,
    pub label: String,
}

impl YearInfo {
    /// The label `label` over `size` cells.
    pub fn new(label: &str, size: u32) -> (info: YearInfo)
        ensures
            info.block_count == size,
            info.label@ == label@,
    {
        YearInfo { block_count: size, label: String::from_str(label) }
    }
}

impl Info for YearInfo {
    open spec fn spec_block_count(&self) -> u32 {
        self.block_count
    }

    open spec fn spec_label(&self) -> Seq<char> {
        self.label@
    }

    fn block_count(&self) -> (count: u32) {
        self.block_count
    }

    fn label(&self) -> (text: &str) {
        self.label.as_str()
    }
}

/// The bands of the calendar: the months along the weeks, and three days
/// of the week along the days.
pub struct YearMetadata {}

/// The labels of the months, each over the weeks it is given.
pub open spec fn month_labels() -> Seq<LabelView> {
    seq![
        LabelView { block_count: 5, label: "Jan"@ },
        LabelView { block_count: 4, label: "Feb"@ },
        LabelView { block_count: 5, label: "Mar"@ },
        LabelView { block_count: 4, label: "Apr"@ },
        LabelView { block_count: 5, label: "May"@ },
        LabelView { block_count: 4, label: "Jun"@ },
        LabelView { block_count: 4, label: "Jul"@ },
        LabelView { block_count: 5, label: "Aug"@ },
        LabelView { block_count: 4, label: "Sep"@ },
        LabelView { block_count: 5, label: "Oct"@ },
        LabelView { block_count: 4, label: "Nov"@ },
        LabelView { block_count: 5, label: "Dec"@ },
    ]
}

/// The labels of the days: Sunday, Wednesday and Saturday.
pub open spec fn day_labels() -> Seq<LabelView> {
    seq![
        LabelView { block_count: 3, label: "S"@ },
        LabelView { block_count: 3, label: "T"@ },
        LabelView { block_count: 1, label: "S"@ },
    ]
}

impl Metadata<YearInfo> for YearMetadata {
    open spec fn spec_left_size(&self) -> u32 {
        40
    }

    open spec fn spec_top_size(&self) -> u32 {
        40
    }

    open spec fn spec_left(&self) -> Option<Seq<LabelView>> {
        Some(month_labels())
    }

    open spec fn spec_top(&self) -> Option<Seq<LabelView>> {
        Some(day_labels())
    }

    open spec fn spec_right(&self) -> Option<Seq<LabelView>> {
        None
    }

    open spec fn spec_bottom(&self) -> Option<Seq<LabelView>> {
        None
    }

    fn left_size(&self) -> (size: u32) {
        40
    }

    fn top_size(&self) -> (size: u32) {
        40
    }

    fn left(&self) -> (band: Option<Vec<YearInfo>>) {
        let entries = vec![
            YearInfo::new("Jan", 5),
            YearInfo::new("Feb", 4),
            YearInfo::new("Mar", 5),
            YearInfo::new("Apr", 4),
            YearInfo::new("May", 5),
            YearInfo::new("Jun", 4),
            YearInfo::new("Jul", 4),
            YearInfo::new("Aug", 5),
            YearInfo::new("Sep", 4),
            YearInfo::new("Oct", 5),
            YearInfo::new("Nov", 4),
            YearInfo::new("Dec", 5),
        ];
        assert(labels_view(entries@) =~= month_labels());
        Some(entries)
    }

    fn top(&self) -> (band: Option<Vec<YearInfo>>) {
        let entries = vec![YearInfo::new("S", 3), YearInfo::new("T", 3), YearInfo::new("S", 1)];
        assert(labels_view(entries@) =~= day_labels());
        Some(entries)
    }

    fn right(&self) -> (band: Option<Vec<YearInfo>>) {
        None
    }

    fn bottom(&self) -> (band: Option<Vec<YearInfo>>) {
        None
    }
}

/// What the renderer reads of the bands of the calendar.
pub open spec fn year_metadata() -> MetadataView {
    metadata_view::<YearInfo, YearMetadata>(YearMetadata {  })
}

/// The lengths of the weeks of a calendar of `weeks` weeks.
pub open spec fn year_shape(weeks: nat) -> Seq<nat> {
    Seq::new(weeks, |index: int| 7nat)
}

/// Whether a calendar of `weeks` weeks can be written under `config`, with
/// the weeks along the horizontal axis.
pub open spec fn year_fits(config: Config, weeks: nat) -> bool {
    metadata_fits(config.with_mode(Mode::ColumnRow), year_metadata(), year_shape(weeks))
}

/// Renders the calendar of `year` as a document: the weeks side by side,
/// whatever the orientation of `config`, under the months and beside the
/// days.
pub fn year_line<E: Element, D: DateDataSource<E>>(
    year: i32,
    data_source: D,
    config: Config,
) -> (document: Vec<u8>)
    requires
        MIN_YEAR <= year <= MAX_YEAR,
        year_fits(config, week_count(year as int)),
    ensures
        document@ == document_markup(
            metadata_markup(
                config.with_mode(Mode::ColumnRow),
                year_metadata(),
                year_view(data_source, year as int),
            ),
        ),
{
    let mut config = config;
    config.mode = Mode::ColumnRow;
    let metadata = YearMetadata {  };
    let grid = year_grid(year, &data_source);
    assert(grid_shape(grid@) =~= year_shape(week_count(year as int)));
    assert(grid_view(grid@) =~= year_view(data_source, year as int));
    metadata_tile(config, metadata, grid)
}

/// Whether [`year_line`] can render the calendar of `year` under `config`.
pub fn fits_year(year: i32, config: &Config) -> (fits: bool)
    requires
        MIN_YEAR <= year <= MAX_YEAR,
    ensures
        fits == year_fits(*config, week_count(year as int)),
{
    let weeks = weeks_in_year(year);
    let mut config = *config;
    config.mode = Mode::ColumnRow;
    let mut blank: Vec<Vec<CalendarCell<(Color, Color, Option<(String, String)>)>>> = Vec::new();
    let mut index: u32 = 0;
    while index < weeks
        invariant
            index <= weeks,
            blank@.len() == index,
            forall|k: int| 0 <= k < index ==> (#[trigger] blank@[k])@.len() == 7,
        decreases weeks - index,
    {
        let mut week: Vec<CalendarCell<(Color, Color, Option<(String, String)>)>> = Vec::new();
        let mut slot: u32 = 0;
        while slot < 7
            invariant
                slot <= 7,
                week@.len() == slot,
            decreases 7 - slot,
        {
            week.push(CalendarCell::Placeholder);
            slot += 1;
        }
        blank.push(week);
        index += 1;
    }
    assert(grid_shape(blank@) =~= year_shape(weeks as nat));
    fits_metadata(&config, &YearMetadata {  }, &blank)
}

} // verus!
