use rs_coffee::api::handlers_drinks::requested_drink_names;
use rs_coffee::schemas::drink::{
    find_drink_number, next_file_number, parse_file_name, FileNameError, Menu,
};
use rs_coffee::schemas::event::{Event, EventBuffer, LevelFilter};
use rs_coffee::schemas::shot::{validate_output, validate_percentage, validate_percentage_sum};
use rs_coffee::schemas::Error;

#[test]
fn event_constructors_set_level() {
    let e = Event::warn("boiler", "too hot".to_string());
    assert_eq!(e.level, LevelFilter::Warn);
    assert_eq!(e.source, "boiler");
    assert_eq!(e.message, "too hot");
    assert_eq!(Event::panic("a", String::new()).level, LevelFilter::Panic);
    assert_eq!(Event::trace("a", String::new()).level, LevelFilter::Trace);
}

#[test]
fn event_buffer_keeps_order() {
    let mut b = EventBuffer::new();
    b.info("main", "one".to_string());
    b.error("main", "two".to_string());
    b.debug("main", "three".to_string());
    b.push(Event::trace("x", "four".to_string()));
    let levels: Vec<LevelFilter> = b.events.iter().map(|e| e.level.clone()).collect();
    assert_eq!(
        levels,
        vec![LevelFilter::Info, LevelFilter::Error, LevelFilter::Debug, LevelFilter::Trace]
    );
    assert_eq!(b.events[1].message, "two");
    b.panic("p", "five".to_string());
    b.warn("w", "six".to_string());
    assert_eq!(b.events.len(), 6);
    assert_eq!(b.events[5].level, LevelFilter::Warn);
}

#[test]
fn levels_are_ordered_by_severity() {
    assert_eq!(u8::from(&LevelFilter::Panic), 0);
    assert_eq!(u8::from(&LevelFilter::Info), 3);
    assert_eq!(u8::from(&LevelFilter::Trace), 5);
    assert!(LevelFilter::Panic < LevelFilter::Error);
    assert!(LevelFilter::Debug > LevelFilter::Info);
    assert!(!(LevelFilter::Warn > LevelFilter::Info));
    assert_eq!(LevelFilter::Info.partial_cmp(&LevelFilter::Info), Some(std::cmp::Ordering::Equal));
    assert_eq!(LevelFilter::Error.name(), "Error");
}

fn menu_of(entries: &[(u32, &str)]) -> Menu {
    let mut m = Menu::new();
    for (k, v) in entries {
        m.insert(*k, v.to_string());
    }
    m
}

#[test]
fn next_file_fills_the_first_gap() {
    assert_eq!(next_file_number(&Menu::new()), 0);
    assert_eq!(next_file_number(&menu_of(&[(0, "a"), (1, "b"), (2, "c")])), 3);
    assert_eq!(next_file_number(&menu_of(&[(0, "a"), (2, "c")])), 1);
    assert_eq!(next_file_number(&menu_of(&[(5, "a")])), 0);
}

#[test]
fn drinks_are_found_by_name() {
    let m = menu_of(&[(3, "latte"), (1, "espresso"), (7, "latte")]);
    assert_eq!(find_drink_number("latte", &m), Some(3));
    assert_eq!(find_drink_number("espresso", &m), Some(1));
    assert_eq!(find_drink_number("mocha", &m), None);
}

#[test]
fn drink_file_names() {
    assert_eq!(parse_file_name("12.JSN"), Ok(12));
    assert_eq!(parse_file_name("7"), Ok(7));
    assert_eq!(parse_file_name("+4.JSN"), Ok(4));
    assert_eq!(parse_file_name("3.TXT"), Err(FileNameError::InvalidExtension));
    assert_eq!(parse_file_name("a.JSN"), Err(FileNameError::InvalidNumber));
    assert_eq!(parse_file_name(".JSN"), Err(FileNameError::InvalidNumber));
    assert_eq!(parse_file_name("99999999999.JSN"), Err(FileNameError::InvalidNumber));
}

#[test]
fn drink_query_names() {
    assert_eq!(requested_drink_names("/api/v1/coffee/drink"), None);
    assert_eq!(
        requested_drink_names("/api/v1/coffee/drink?name=latte&x=1&name=flat"),
        Some(vec!["latte".to_string(), "flat".to_string()])
    );
    assert_eq!(requested_drink_names("/d?name=a=b&name"), Some(vec![]));
    assert_eq!(requested_drink_names("/d?"), Some(vec![]));
}

fn message(e: Error) -> String {
    match e {
        Error::MissingOutputSpecifier => "MissingOutputSpecifier".to_string(),
        Error::MissingProfile => "MissingProfile".to_string(),
        Error::InvalidProfile(m) => format!("InvalidProfile: {}", m),
        Error::OutOfBounds(m) => format!("OutOfBounds: {}", m),
    }
}

#[test]
fn shot_output_checks() {
    assert_eq!(message(validate_output(false, false, 1).unwrap_err()), "MissingOutputSpecifier");
    assert_eq!(
        message(validate_output(true, true, 1).unwrap_err()),
        "InvalidProfile: Cannot specify both weight and time"
    );
    assert_eq!(message(validate_output(true, false, 0).unwrap_err()), "MissingProfile");
    assert!(validate_output(false, true, 2).is_ok());
}

#[test]
fn shot_percentage_checks() {
    assert!(validate_percentage(100).is_ok());
    assert_eq!(
        message(validate_percentage(101).unwrap_err()),
        "InvalidProfile: Invalid percentage: 101"
    );
    assert!(validate_percentage_sum(&vec![30, 70]).is_ok());
    assert_eq!(
        message(validate_percentage_sum(&vec![30, 60]).unwrap_err()),
        "InvalidProfile: Profile percentages do not sum to 100: 90"
    );
    assert_eq!(Error::MissingProfile.to_text(), "Shot must have at least one profile");
    assert_eq!(
        Error::OutOfBounds("x".to_string()).to_text(),
        "Value out of bounds: x"
    );
}
