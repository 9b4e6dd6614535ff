use fabrica::schedule::{
    day_name, days_to_names, format_clock, parse_days, parse_schedule, parse_single_day, parse_time,
    parse_time_range, ParsedSchedule, ScheduleError,
};

fn time(input: &str) -> Result<String, String> {
    parse_time(input).map_err(|e| e.message())
}

fn days(input: &str) -> Result<Vec<u8>, String> {
    parse_days(input).map_err(|e| e.message())
}

fn schedule(input: &str) -> Result<String, String> {
    match parse_schedule(input) {
        Ok(ParsedSchedule::Weekly { days, start, end }) => Ok(format!("{:?} {}-{}", days, start, end)),
        Ok(ParsedSchedule::TodayRange { start, end }) => Ok(format!("today {}-{}", start, end)),
        Ok(ParsedSchedule::TodayUntil { end }) => Ok(format!("until {}", end)),
        Err(e) => Err(e.message()),
    }
}

fn ok(s: &str) -> Result<String, String> {
    Ok(s.to_string())
}

fn err<T>(s: &str) -> Result<T, String> {
    Err(s.to_string())
}

#[test]
fn times_on_the_24_hour_clock() {
    assert_eq!(time("9:30"), ok("09:30"));
    assert_eq!(time("23:30"), ok("23:30"));
    assert_eq!(time(" 0:00 "), ok("00:00"));
    assert_eq!(time("17"), ok("17:00"));
    assert_eq!(time("7"), ok("07:00"));
    assert_eq!(time("+7:+5"), ok("07:05"));
    assert_eq!(time("24:00"), err("Invalid time format: 24:00"));
    assert_eq!(time("12:60"), err("Invalid time format: 12:60"));
    assert_eq!(time("24"), err("Invalid time format: 24"));
    assert_eq!(time("12:30:45"), err("Invalid time format: 12:30:45"));
    assert_eq!(time("noon"), err("Invalid time format: noon"));
    assert_eq!(time(""), err("Invalid time format: "));
    assert_eq!(time("9 :30"), err("Invalid time format: 9 :30"));
}

#[test]
fn times_with_am_and_pm() {
    assert_eq!(time("5pm"), ok("17:00"));
    assert_eq!(time("5:30pm"), ok("17:30"));
    assert_eq!(time("5 PM"), ok("17:00"));
    assert_eq!(time("5:30 pm"), ok("17:30"));
    assert_eq!(time("12am"), ok("00:00"));
    assert_eq!(time("12pm"), ok("12:00"));
    assert_eq!(time("12:15am"), ok("00:15"));
    assert_eq!(time("0pm"), ok("12:00"));
    assert_eq!(time("9am"), ok("09:00"));
    assert_eq!(time("5pmpm"), ok("17:00"));
    assert_eq!(time("13pm"), err("Invalid time: 13pm"));
    assert_eq!(time("5:60pm"), err("Invalid time: 5:60pm"));
    assert_eq!(time("5:3:0pm"), err("Invalid time format: 5:3:0pm"));
    assert_eq!(time("xpm"), err("Invalid hour: x"));
    assert_eq!(time("pm"), err("Invalid hour: "));
    assert_eq!(time("5:xpm"), err("Invalid minute: x"));
    assert_eq!(time("5 :30pm"), err("Invalid hour: 5 "));
    assert_eq!(time("300am"), err("Invalid hour: 300"));
}

#[test]
fn clock_is_written_in_two_digits() {
    assert_eq!(format_clock(0, 0), "00:00");
    assert_eq!(format_clock(9, 5), "09:05");
    assert_eq!(format_clock(23, 59), "23:59");
}

#[test]
fn ranges_of_times() {
    let range = |input: &str| parse_time_range(input).map_err(|e| e.message());
    assert_eq!(range("9:30 to 23:30"), Ok(("09:30".to_string(), "23:30".to_string())));
    assert_eq!(range("9-5pm"), Ok(("09:00".to_string(), "17:00".to_string())));
    assert_eq!(range("9am  to  5pm"), Ok(("09:00".to_string(), "17:00".to_string())));
    assert_eq!(range("9:30 - 17:00"), Ok(("09:30".to_string(), "17:00".to_string())));
    assert_eq!(range("9 to 10 to 11"), err("Expected format: HH:MM to HH:MM"));
    assert_eq!(range("9 10"), err("Expected format: HH:MM to HH:MM"));
    assert_eq!(range("9-10-11"), err("Expected format: HH:MM to HH:MM"));
    assert_eq!(range(""), err("Expected format: HH:MM to HH:MM"));
    assert_eq!(range("x to 5"), err("Invalid time format: x"));
    assert_eq!(range("9 to y"), err("Invalid time format: y"));
    assert_eq!(range("x to y"), err("Invalid time format: x"));
    assert_eq!(range("9 to to 5"), err("Invalid time format: to 5"));
}

#[test]
fn single_days() {
    let day = |input: &str| parse_single_day(input).map_err(|e| e.message());
    let names = [
        (vec!["m", "mon", "monday", "MONDAY"], 0),
        (vec!["tu", "tue", "tues", "tuesday"], 1),
        (vec!["w", "wed", "Wednesday"], 2),
        (vec!["th", "thu", "thur", "thurs", "thursday"], 3),
        (vec!["f", "fri", "friday"], 4),
        (vec!["sa", "sat", "saturday"], 5),
        (vec!["su", "sun", "sunday"], 6),
    ];
    for (words, number) in names {
        for word in words {
            assert_eq!(day(word), Ok(number));
        }
    }
    assert_eq!(day("t"), err("Unknown day: t"));
    assert_eq!(day("Funday"), err("Unknown day: Funday"));
    assert_eq!(day(""), err("Unknown day: "));
}

#[test]
fn spans_and_lists_of_days() {
    assert_eq!(days("m-f"), Ok(vec![0, 1, 2, 3, 4]));
    assert_eq!(days("Mon - Wed"), Ok(vec![0, 1, 2]));
    assert_eq!(days("fri-mon"), Ok(vec![4, 5, 6, 0]));
    assert_eq!(days("sun-sun"), Ok(vec![6]));
    assert_eq!(days("su-m"), Ok(vec![6, 0]));
    assert_eq!(days("mon,tue,wed,thu,fri"), Ok(vec![0, 1, 2, 3, 4]));
    assert_eq!(days("fri, mon ,wed,mon"), Ok(vec![0, 2, 4]));
    assert_eq!(days("sat"), Ok(vec![5]));
    assert_eq!(days("m-x"), err("Unknown day: x"));
    assert_eq!(days("x-y"), err("Unknown day: x"));
    assert_eq!(days("m-w-f"), err("Unknown day: m-w-f"));
    assert_eq!(days("mon,x,y"), err("Unknown day: x"));
    assert_eq!(days("mon,,tue"), err("Unknown day: "));
    assert_eq!(days("m-f,sa"), err("Unknown day: m-f"));
    assert_eq!(days(""), err("Unknown day: "));
}

#[test]
fn whole_schedules() {
    assert_eq!(schedule("Mon,Tue,Wed,Thu,Fri 9:30 to 23:30"), ok("[0, 1, 2, 3, 4] 09:30-23:30"));
    assert_eq!(schedule("M-F 9:30 to 23:30"), ok("[0, 1, 2, 3, 4] 09:30-23:30"));
    assert_eq!(schedule("sat,sun 10 to 2pm"), ok("[5, 6] 10:00-14:00"));
    assert_eq!(schedule("today 9:30 to 23:30"), ok("today 09:30-23:30"));
    assert_eq!(schedule("today until 23:30"), ok("until 23:30"));
    assert_eq!(schedule("  Until 5PM "), ok("until 17:00"));
    assert_eq!(schedule("TODAY 9-5pm"), ok("today 09:00-17:00"));
    assert_eq!(schedule("until"), err("Could not find time in schedule"));
    assert_eq!(schedule(""), err("Could not find time in schedule"));
    assert_eq!(schedule("whenever"), err("Could not find time in schedule"));
    assert_eq!(schedule("until later"), err("Invalid time format: later"));
    assert_eq!(schedule("today 9"), err("Expected format: HH:MM to HH:MM"));
    assert_eq!(schedule("xyz 9 to 5"), err("Unknown day: xyz"));
    assert_eq!(schedule("mon 9 to 25"), err("Invalid time format: 25"));
    assert_eq!(schedule("9 to 5"), err("Unknown day: "));
    assert!(matches!(parse_schedule("nothing"), Err(ScheduleError::NoTime)));
}

#[test]
fn names_of_days() {
    let names = ["Monday", "Tuesday", "Wednesday", "Thursday", "Friday", "Saturday", "Sunday"];
    for (day, name) in names.iter().enumerate() {
        assert_eq!(day_name(day as u8), *name);
    }
    assert_eq!(day_name(7), "Unknown");
    assert_eq!(days_to_names(&[0, 1, 2, 3, 4]), "Mon-Fri");
    assert_eq!(days_to_names(&[0, 1, 2, 3, 4, 5, 6]), "Every day");
    assert_eq!(days_to_names(&[5, 6]), "Sat-Sun");
    assert_eq!(days_to_names(&[0, 2, 4]), "Mon, Wed, Fri");
    assert_eq!(days_to_names(&[6]), "Sun");
    assert_eq!(days_to_names(&[4, 5, 6, 0]), "Fri, Sat, Sun, Mon");
    assert_eq!(days_to_names(&[1, 9]), "Tue, ?");
    assert_eq!(days_to_names(&[]), "");
}
