use chrono::{Datelike, Days, NaiveDate};
use tileline::year::{
    weeks_in_year, year_grid, Week, YearInfo, YearMetadata, MAX_WEEKS, MAX_YEAR, MIN_YEAR,
};
use tileline::{
    fits_year, year_line, CalendarCell, Color, Config, Date, DateDataSource, Element,
    ElementLink, Info, Metadata, Mode,
};

struct Link(String, String);

impl ElementLink for Link {
    fn link(&self) -> String {
        self.0.clone()
    }

    fn title(&self) -> String {
        self.1.clone()
    }
}

struct DateElement {
    color: Color,
    date: Date,
}

impl Element for DateElement {
    type Link = Link;

    fn get_color(&self) -> Color {
        self.color
    }

    fn get_border_color(&self) -> Color {
        self.color
    }

    fn get_link(&self) -> Option<Link> {
        let date = format!("{:04}-{:02}-{:02}", self.date.year, self.date.month, self.date.day);
        Some(Link(date, "bbb".to_owned()))
    }
}

struct YearDatasource {}

impl DateDataSource<DateElement> for YearDatasource {
    fn get_element(&self, data: Date) -> DateElement {
        if data.day % 2 == 0 {
            DateElement { color: Color::new(0, 0, 100, None), date: data }
        } else {
            DateElement { color: Color::new(0, 100, 0, None), date: data }
        }
    }
}

fn new_year(year: i32) -> NaiveDate {
    NaiveDate::from_ymd_opt(year, 1, 1).unwrap()
}

fn later(year: i32, days: u32) -> Date {
    let date = new_year(year).checked_add_days(Days::new(days as u64)).unwrap();
    Date { year: date.year(), month: date.month(), day: date.day() }
}

fn dates(week: &Vec<CalendarCell<DateElement>>) -> Vec<Option<Date>> {
    week.iter()
        .map(|cell| match cell {
            CalendarCell::Real(element) => Some(element.date),
            CalendarCell::Placeholder => None,
        })
        .collect()
}

fn weeks_of(year: i32) -> usize {
    let weekday = new_year(year).weekday().num_days_from_sunday();
    if new_year(year).leap_year() && weekday == 6 {
        54
    } else {
        53
    }
}

fn check_year(year: i32) {
    let weekday = new_year(year).weekday().num_days_from_sunday();
    let grid = year_grid(year, &YearDatasource {});
    assert_eq!(grid.len(), weeks_of(year));
    assert_eq!(weeks_in_year(year) as usize, weeks_of(year));
    let mut next = Some(new_year(year));
    for (index, week) in grid.iter().enumerate() {
        let found = dates(week);
        assert_eq!(found.len(), 7);
        for (slot, date) in found.iter().enumerate() {
            if index == 0 && (slot as u32) < weekday {
                assert_eq!(*date, None);
            } else {
                // the dates follow one another from January 1, each in the column of its weekday
                let expected = next.unwrap();
                assert_eq!(*date, Some(later(year, (7 * index + slot) as u32 - weekday)));
                assert_eq!(naive(date.unwrap()), expected);
                assert_eq!(expected.weekday().num_days_from_sunday() as usize, slot);
                next = expected.succ_opt();
            }
        }
    }
    // the calendar ends with the Saturday on or after December 31
    let end = next.unwrap().pred_opt().unwrap();
    assert_eq!(end.weekday().num_days_from_sunday(), 6);
    assert!(end >= NaiveDate::from_ymd_opt(year, 12, 31).unwrap());
    assert!(end < NaiveDate::from_ymd_opt(year + 1, 1, 7).unwrap());
}

fn naive(date: Date) -> NaiveDate {
    NaiveDate::from_ymd_opt(date.year, date.month, date.day).unwrap()
}

#[test]
fn a_year_that_starts_on_a_sunday_has_no_placeholder() {
    let grid = year_grid(2023, &YearDatasource {});
    let first = dates(&grid[0]);
    assert_eq!(first[0], Some(Date { year: 2023, month: 1, day: 1 }));
    assert_eq!(first[6], Some(Date { year: 2023, month: 1, day: 7 }));
    assert!(first.iter().all(|slot| slot.is_some()));
}

#[test]
fn a_year_that_starts_on_a_wednesday_has_three_placeholders() {
    let grid = year_grid(2025, &YearDatasource {});
    let first = dates(&grid[0]);
    assert_eq!(
        first,
        vec![
            None,
            None,
            None,
            Some(Date { year: 2025, month: 1, day: 1 }),
            Some(Date { year: 2025, month: 1, day: 2 }),
            Some(Date { year: 2025, month: 1, day: 3 }),
            Some(Date { year: 2025, month: 1, day: 4 }),
        ]
    );
}

#[test]
fn every_week_has_seven_cells() {
    for year in 1999..2031 {
        let grid = year_grid(year, &YearDatasource {});
        assert!(grid.len() == 53 || grid.len() == MAX_WEEKS as usize);
        assert!(grid.iter().all(|week| week.len() == 7));
    }
}

#[test]
fn years_of_every_first_weekday_follow_the_calendar() {
    // Sunday to Saturday, then a leap year for each kind of start
    for year in [2017, 2018, 2019, 2025, 2015, 2021, 2022] {
        check_year(year);
    }
    for year in [2012, 1996, 2008, 2020, 2004, 2016, 2000, 2024] {
        assert!(new_year(year).leap_year());
        check_year(year);
    }
}

#[test]
fn years_far_from_today_follow_the_calendar() {
    for year in [MIN_YEAR, -400, -1, 0, 1, 4, 1582, 1600, 1900, 2100, 9999, MAX_YEAR] {
        check_year(year);
    }
}

fn is_leap(year: i64) -> bool {
    year.rem_euclid(4) == 0 && (year.rem_euclid(100) != 0 || year.rem_euclid(400) == 0)
}

fn first_weekday(year: i64) -> u32 {
    let before = year - 1;
    let sum = 1 + 5 * before.rem_euclid(4) + 4 * before.rem_euclid(100) + 6 * before.rem_euclid(400);
    sum.rem_euclid(7) as u32
}

fn check_rules(year: i32) {
    let chrono_weekday = new_year(year).weekday().num_days_from_sunday();
    assert_eq!(first_weekday(year as i64), chrono_weekday);
    assert_eq!(is_leap(year as i64), new_year(year).leap_year());
    assert_eq!(Week::new(0, 0).starts_in(year), true);
    assert_eq!(Week { start: 364, empty: 0, days: 1 }.starts_in(year), true);
    assert_eq!(Week { start: 365, empty: 0, days: 1 }.starts_in(year), is_leap(year as i64));
    assert_eq!(Week { start: 366, empty: 0, days: 1 }.starts_in(year), false);
    assert_eq!(Week { start: 729, empty: 0, days: 1 }.starts_in(year), false);
    let weeks = if is_leap(year as i64) && first_weekday(year as i64) == 6 { 54 } else { 53 };
    assert_eq!(weeks_in_year(year), weeks);
}

#[test]
fn the_first_weekday_and_the_length_of_a_year_follow_the_gregorian_rules() {
    for year in -4100..4100 {
        check_rules(year);
    }
    for step in 0..2000 {
        check_rules(MIN_YEAR + step);
        check_rules(MAX_YEAR - step);
        check_rules(MIN_YEAR + step * 211);
    }
}

#[test]
fn the_placeholders_of_a_year_are_the_days_from_sunday_to_new_year() {
    for year in [-401, -400, -1, 0, 1, 1900, 1999, 2000, 2023, 2024, 2025, 2100, MIN_YEAR, MAX_YEAR] {
        let grid = year_grid(year, &YearDatasource {});
        let placeholders = dates(&grid[0]).iter().filter(|slot| slot.is_none()).count();
        assert_eq!(placeholders as u32, first_weekday(year as i64));
        let weeks = if is_leap(year as i64) && first_weekday(year as i64) == 6 { 54 } else { 53 };
        assert_eq!(grid.len(), weeks);
    }
}

#[test]
fn the_first_weekdays_are_all_there() {
    let mut seen = [false; 7];
    for year in [2017, 2018, 2019, 2025, 2015, 2021, 2022] {
        let grid = year_grid(year, &YearDatasource {});
        let placeholders = dates(&grid[0]).iter().filter(|slot| slot.is_none()).count();
        seen[placeholders] = true;
    }
    assert_eq!(seen, [true; 7]);
}

#[test]
fn the_last_week_starts_in_the_year() {
    let grid = year_grid(2023, &YearDatasource {});
    assert_eq!(grid.len(), 53);
    let last = dates(&grid[52]);
    assert_eq!(last[0], Some(Date { year: 2023, month: 12, day: 31 }));
    assert_eq!(last[6], Some(Date { year: 2024, month: 1, day: 6 }));
    let grid = year_grid(2024, &YearDatasource {});
    assert_eq!(grid.len(), 53);
    let last = dates(&grid[52]);
    assert_eq!(last[0], Some(Date { year: 2024, month: 12, day: 29 }));
    assert_eq!(last[2], Some(Date { year: 2024, month: 12, day: 31 }));
    assert_eq!(last[6], Some(Date { year: 2025, month: 1, day: 4 }));
}

#[test]
fn the_second_week_starts_on_the_first_sunday_after_new_year() {
    let grid = year_grid(2025, &YearDatasource {});
    let second = dates(&grid[1]);
    assert_eq!(second[0], Some(Date { year: 2025, month: 1, day: 5 }));
    assert_eq!(second[6], Some(Date { year: 2025, month: 1, day: 11 }));
    let grid = year_grid(2023, &YearDatasource {});
    let second = dates(&grid[1]);
    assert_eq!(second[0], Some(Date { year: 2023, month: 1, day: 8 }));
}

#[test]
fn a_leap_year_that_starts_on_a_saturday_has_one_week_more() {
    for year in [2000, 2028] {
        let grid = year_grid(year, &YearDatasource {});
        assert_eq!(grid.len(), 54);
        assert_eq!(weeks_in_year(year), 54);
        let first = dates(&grid[0]);
        assert_eq!(first[5], None);
        assert_eq!(first[6], Some(Date { year, month: 1, day: 1 }));
        let last = dates(&grid[53]);
        assert_eq!(last[0], Some(Date { year, month: 12, day: 31 }));
        assert_eq!(last[1], Some(Date { year: year + 1, month: 1, day: 1 }));
    }
    // a common year that starts on a Saturday ends on one
    let grid = year_grid(2022, &YearDatasource {});
    assert_eq!(grid.len(), 53);
    assert_eq!(dates(&grid[52])[6], Some(Date { year: 2022, month: 12, day: 31 }));
}

#[test]
fn the_years_at_the_ends_of_the_range_have_calendars() {
    assert_eq!(year_grid(MIN_YEAR, &YearDatasource {}).len(), weeks_of(MIN_YEAR));
    assert_eq!(year_grid(MAX_YEAR, &YearDatasource {}).len(), weeks_of(MAX_YEAR));
    assert!(NaiveDate::from_ymd_opt(MIN_YEAR - 1, 1, 1).is_none());
    assert!(NaiveDate::from_ymd_opt(MAX_YEAR + 2, 1, 1).is_none());
    assert!(NaiveDate::from_ymd_opt(MAX_YEAR + 1, 12, 31).is_some());
    let last = dates(&year_grid(MAX_YEAR, &YearDatasource {})[52]);
    assert!(last[6].unwrap().year >= MAX_YEAR);
}

#[test]
fn a_week_is_planned_from_its_index_and_the_first_weekday() {
    assert_eq!(Week::new(0, 0), Week { start: 0, empty: 0, days: 7 });
    assert_eq!(Week::new(0, 3), Week { start: 0, empty: 3, days: 4 });
    assert_eq!(Week::new(0, 6), Week { start: 0, empty: 6, days: 1 });
    assert_eq!(Week::new(1, 0), Week { start: 7, empty: 0, days: 7 });
    assert_eq!(Week::new(1, 3), Week { start: 4, empty: 0, days: 7 });
    assert_eq!(Week::new(52, 6), Week { start: 358, empty: 0, days: 7 });
    assert_eq!(Week::new(53, 6), Week { start: 365, empty: 0, days: 7 });
    assert_eq!(Week::new(54, 0), Week { start: 378, empty: 0, days: 7 });
}

#[test]
fn a_week_belongs_to_the_year_of_its_first_date() {
    assert!(Week::new(0, 0).starts_in(2023));
    assert!(Week::new(52, 0).starts_in(2023));
    assert!(!Week::new(53, 0).starts_in(2023));
    assert!(Week::new(52, 3).starts_in(2025));
    assert!(!Week::new(53, 3).starts_in(2025));
    assert!(Week::new(53, 6).starts_in(2000));
    assert!(!Week::new(54, 6).starts_in(2000));
    assert!(!Week::new(53, 6).starts_in(2022));
    assert!(!Week::new(53, 5).starts_in(2016));
    assert!(Week { start: 365, empty: 0, days: 7 }.starts_in(2024));
    assert!(!Week { start: 365, empty: 0, days: 7 }.starts_in(2023));
    assert!(!Week { start: 729, empty: 0, days: 1 }.starts_in(2023));
}

#[test]
fn a_placeholder_is_white_and_has_no_link() {
    let cell: CalendarCell<DateElement> = CalendarCell::Placeholder;
    assert_eq!(cell.get_color(), Color::new(255, 255, 255, Some(255)));
    assert_eq!(cell.get_border_color(), Color::new(255, 255, 255, Some(255)));
    assert!(cell.get_link().is_none());
    assert_eq!(cell.get_color().to_hex_string(), "#ffffff");
}

#[test]
fn a_real_cell_shows_its_element() {
    let date = Date { year: 2023, month: 5, day: 4 };
    let cell = CalendarCell::Real(YearDatasource {}.get_element(date));
    assert_eq!(cell.get_color(), Color::new(0, 0, 100, None));
    assert_eq!(cell.get_border_color(), Color::new(0, 0, 100, None));
    let link = cell.get_link().unwrap();
    assert_eq!(link.link(), "2023-05-04");
    assert_eq!(link.title(), "bbb");
}

#[test]
fn the_bands_of_the_calendar_are_months_and_days() {
    let metadata = YearMetadata {};
    assert_eq!(metadata.left_size(), 40);
    assert_eq!(metadata.top_size(), 40);
    let months: Vec<(String, u32)> = metadata
        .left()
        .unwrap()
        .iter()
        .map(|info| (info.label().to_owned(), info.block_count()))
        .collect();
    let expected = [
        ("Jan", 5),
        ("Feb", 4),
        ("Mar", 5),
        ("Apr", 4),
        ("May", 5),
        ("Jun", 4),
        ("Jul", 4),
        ("Aug", 5),
        ("Sep", 4),
        ("Oct", 5),
        ("Nov", 4),
        ("Dec", 5),
    ];
    assert_eq!(months.len(), 12);
    for (found, wanted) in months.iter().zip(expected.iter()) {
        assert_eq!(found.0, wanted.0);
        assert_eq!(found.1, wanted.1);
    }
    let days: Vec<(String, u32)> = metadata
        .top()
        .unwrap()
        .iter()
        .map(|info| (info.label().to_owned(), info.block_count()))
        .collect();
    assert_eq!(
        days,
        vec![("S".to_owned(), 3), ("T".to_owned(), 3), ("S".to_owned(), 1)]
    );
    assert!(metadata.right().is_none());
    assert!(metadata.bottom().is_none());
    let info = YearInfo::new("Week", 9);
    assert_eq!(info.label(), "Week");
    assert_eq!(info.block_count(), 9);
}

const HEAD: &str = "<?xml version=\"1.0\" encoding=\"UTF-8\" standalone=\"no\"?>\
<!DOCTYPE svg PUBLIC \"-//W3C//DTD SVG 1.1//EN\" \"http://www.w3.org/Graphics/SVG/1.1/DTD/svg11.dtd\">\
<svg version=\"1.1\" xmlns=\"http://www.w3.org/2000/svg\" xmlns:xlink=\"http://www.w3.org/1999/xlink\">";

fn label(x: u32, y: u32, text: &str) -> String {
    format!("<text x=\"{}\" y=\"{}\" dominant-baseline=\"hanging\">{}</text>", x, y, text)
}

fn year_document(year: i32, config: &Config) -> String {
    let step_x = config.size_x + config.padding_x;
    let step_y = config.size_y + config.padding_y;
    let mut expected = String::from(HEAD);
    // the months run along the weeks, 40 pixels in
    let months = [
        ("Jan", 5),
        ("Feb", 4),
        ("Mar", 5),
        ("Apr", 4),
        ("May", 5),
        ("Jun", 4),
        ("Jul", 4),
        ("Aug", 5),
        ("Sep", 4),
        ("Oct", 5),
        ("Nov", 4),
        ("Dec", 5),
    ];
    let mut week = 0;
    for (name, span) in months {
        expected += &label(config.offset_x + 40 + week * step_x, config.offset_y, name);
        week += span;
    }
    // the days run down the side, 40 pixels down
    let mut day = 0;
    for (name, span) in [("S", 3), ("T", 3), ("S", 1)] {
        expected += &label(config.offset_x, config.offset_y + 40 + day * step_y, name);
        day += span;
    }
    let weekday = new_year(year).weekday().num_days_from_sunday();
    for week in 0..weeks_of(year) as u32 {
        for slot in 0..7 {
            let x = config.offset_x + 40 + week * step_x;
            let y = config.offset_y + 40 + slot * step_y;
            let shape = format!(
                "x=\"{}\" y=\"{}\" rx=\"{}\" ry=\"{}\" width=\"{}\" height=\"{}\"",
                x, y, config.rounding, config.rounding, config.size_x, config.size_y
            );
            if week == 0 && slot < weekday {
                expected += &format!(
                    "<rect {} style=\"fill:#ffffff;stroke-width:{};stroke:#ffffff\"/>",
                    shape, config.border
                );
            } else {
                let days = 7 * week + slot - weekday;
                let date = new_year(year).checked_add_days(Days::new(days as u64)).unwrap();
                let colour = if date.day() % 2 == 0 { "#000064" } else { "#006400" };
                expected += &format!(
                    "<a xlink:href=\"{}\" xlink:title=\"bbb\">\
<rect {} style=\"fill:{};stroke-width:{};stroke:{}\"/></a>",
                    date, shape, colour, config.border, colour
                );
            }
        }
    }
    expected += "</svg>";
    expected
}

#[test]
fn test_year_line() {
    let config = Config::new().build();
    assert!(fits_year(2023, &config));
    let out = year_line(2023, YearDatasource {}, config);
    assert_eq!(String::from_utf8(out).unwrap(), year_document(2023, &config));
}

#[test]
fn a_calendar_of_any_year_is_a_document() {
    let config = Config::new().build();
    for year in [2000, 2024, 2025, 2028] {
        assert!(fits_year(year, &config));
        let out = year_line(year, YearDatasource {}, config);
        assert_eq!(String::from_utf8(out).unwrap(), year_document(year, &config));
    }
}

#[test]
fn a_calendar_keeps_its_weeks_side_by_side() {
    let config = Config::new().offset_x(3).offset_y(9).size_y(11).border(2).build();
    assert!(fits_year(2025, &config));
    let upright = year_line(2025, YearDatasource {}, config);
    let sideways = year_line(2025, YearDatasource {}, Config { mode: Mode::ColumnRow, ..config });
    assert_eq!(upright, sideways);
    assert_eq!(String::from_utf8(upright).unwrap(), year_document(2025, &config));
}

#[test]
fn a_calendar_needs_room_for_its_weeks() {
    let wide = Config::new().offset_x(u32::MAX - 40 - 52 * 20).build();
    assert!(fits_year(2023, &wide));
    let out = String::from_utf8(year_line(2023, YearDatasource {}, wide)).unwrap();
    assert_eq!(out, year_document(2023, &wide));
    let too_wide = Config::new().offset_x(u32::MAX - 40 - 52 * 20 + 1).build();
    assert!(!fits_year(2023, &too_wide));
    // one week more in a leap year that starts on a Saturday
    assert!(!fits_year(2000, &wide));
    let wider = Config::new().offset_x(u32::MAX - 40 - 53 * 20).build();
    assert!(fits_year(2000, &wider));
    let tall = Config::new().offset_y(u32::MAX - 40 - 6 * 20).build();
    assert!(fits_year(2023, &tall));
    let too_tall = Config::new().offset_y(u32::MAX - 40 - 6 * 20 + 1).build();
    assert!(!fits_year(2023, &too_tall));
}
