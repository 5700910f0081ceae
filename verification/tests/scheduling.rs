use natgeo_wallpapers::PhotoError;
use natgeo_wallpapers::ScheduleChoice;
use natgeo_wallpapers::ScheduleType;
use natgeo_wallpapers::WallpaperMode;
use natgeo_wallpapers::is_valid_interval;
use natgeo_wallpapers::is_valid_time;
use natgeo_wallpapers::parse_schedule;
use natgeo_wallpapers::schedule_description;
use natgeo_wallpapers::schedule_menu_choice;
use natgeo_wallpapers::service_unit_text;
use natgeo_wallpapers::set_command_args;
use natgeo_wallpapers::timer_unit_text;

#[test]
fn valid_times_have_the_hh_mm_shape() {
    assert!(is_valid_time("02:00"));
    assert!(is_valid_time("23:59"));
    assert!(is_valid_time("0:000"));
    assert!(!is_valid_time("24:00"));
    assert!(!is_valid_time("12:60"));
    assert!(!is_valid_time("2:00"));
    assert!(!is_valid_time("12-00"));
    assert!(!is_valid_time("ab:cd"));
    assert!(!is_valid_time(""));
}

#[test]
fn valid_intervals_pair_numbers_with_units() {
    assert!(is_valid_interval("1h"));
    assert!(is_valid_interval("30m"));
    assert!(is_valid_interval("2h30m"));
    assert!(is_valid_interval("1h30"));
    assert!(!is_valid_interval(""));
    assert!(!is_valid_interval("h"));
    assert!(!is_valid_interval("90"));
    assert!(!is_valid_interval("1H"));
    assert!(!is_valid_interval("1h 30m"));
}

#[test]
fn parse_schedule_prefers_a_daily_time() {
    match parse_schedule("22:45") {
        Ok(ScheduleType::DailyTime(t)) => assert_eq!(t, "22:45"),
        other => panic!("expected a daily time, got {:?}", other),
    }
    match parse_schedule("2h") {
        Ok(ScheduleType::Interval(i)) => assert_eq!(i, "2h"),
        other => panic!("expected an interval, got {:?}", other),
    }
    match parse_schedule("sometime") {
        Err(PhotoError::Command(m)) => {
            assert!(m.contains("Invalid time/interval format"));
        }
        other => panic!("expected a rejection, got {:?}", other),
    }
}

#[test]
fn menu_choices_map_to_schedules() {
    assert!(matches!(
        schedule_menu_choice("1"),
        ScheduleChoice::Chosen(ScheduleType::DailyTime(t)) if t == "02:00"
    ));
    assert!(matches!(
        schedule_menu_choice("2\n"),
        ScheduleChoice::Chosen(ScheduleType::Interval(t)) if t == "1h"
    ));
    assert!(matches!(
        schedule_menu_choice(" 3 "),
        ScheduleChoice::Chosen(ScheduleType::Interval(t)) if t == "30m"
    ));
    assert!(matches!(schedule_menu_choice("4"), ScheduleChoice::AskTime));
    assert!(matches!(
        schedule_menu_choice("5"),
        ScheduleChoice::AskInterval
    ));
    assert!(matches!(schedule_menu_choice("6"), ScheduleChoice::Cancel));
    assert!(matches!(schedule_menu_choice("7"), ScheduleChoice::Invalid));
    assert!(matches!(schedule_menu_choice(""), ScheduleChoice::Invalid));
}

#[test]
fn set_args_list_the_chosen_options() {
    assert_eq!(set_command_args(false, None, false), "set");
    assert_eq!(set_command_args(true, None, false), "set --random");
    assert_eq!(
        set_command_args(true, Some("/my photos"), true),
        "set --random --path '/my photos' --lock-screen"
    );
    assert_eq!(set_command_args(false, None, true), "set --lock-screen");
}

#[test]
fn service_unit_retries_the_cycle() {
    let text = service_unit_text("/usr/bin/wall", "set --random");
    let expected = "[Unit]\nDescription=Download and set National Geographic Photo of the Day as wallpaper\nAfter=network-online.target network.target\nWants=network-online.target\n\n[Service]\nType=oneshot\nExecStart=/bin/sh -c 'for i in 1 2 3; do /usr/bin/wall download && /usr/bin/wall set --random && exit 0 || sleep 60; done; exit 1'\n";
    assert_eq!(text, expected);
}

#[test]
fn timer_unit_follows_the_schedule_kind() {
    let daily = timer_unit_text(&ScheduleType::DailyTime("02:00".to_string()));
    assert!(daily.contains("OnCalendar=*-*-* 02:00:00\n"));
    assert!(daily.contains("OnBootSec=2min"));
    let every = timer_unit_text(&ScheduleType::Interval("1h".to_string()));
    assert!(every.contains("OnUnitActiveSec=1h\n"));
    assert!(every.contains("OnBootSec=1min"));
}

#[test]
fn schedules_are_described_in_one_phrase() {
    assert_eq!(
        schedule_description(&ScheduleType::DailyTime("02:00".to_string())),
        "02:00 daily"
    );
    assert_eq!(
        schedule_description(&ScheduleType::Interval("30m".to_string())),
        "every 30m"
    );
}

#[test]
fn mode_labels_match_the_command_line() {
    assert_eq!(WallpaperMode::Monitors.label(), "monitors");
    assert_eq!(WallpaperMode::VirtualDesktops.label(), "virtual-desktops");
    assert_eq!(WallpaperMode::Both.label(), "both");
}

#[test]
fn error_messages_name_their_kind() {
    assert_eq!(
        PhotoError::NoPhotos("nothing here".to_string()).message(),
        "No photos found: nothing here"
    );
    assert_eq!(
        PhotoError::Wallpaper("tool failed".to_string()).message(),
        "Wallpaper error: tool failed"
    );
    assert_eq!(
        PhotoError::Command("oops".to_string()).message(),
        "Command execution error: oops"
    );
    assert_eq!(
        PhotoError::Network("timed out".to_string()).message(),
        "Network error: timed out"
    );
    assert_eq!(
        PhotoError::Json("bad token".to_string()).message(),
        "JSON parsing error: bad token"
    );
    assert_eq!(
        PhotoError::File("permission denied".to_string()).message(),
        "File operation error: permission denied"
    );
    assert_eq!(
        PhotoError::InvalidContentType("text/html".to_string()).message(),
        "Invalid content type: text/html"
    );
}
