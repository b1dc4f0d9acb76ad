//! The clock's panel, notifications and style sheets.

use vibepanel::control_panel::{refresh_time_labels, refresh_weather_label, LocalTime};
use vibepanel::notification_common::{
    char_boundary, choose_icon, format_timestamp, image_source, looked_up_icon,
    notification_image_format, plan_notification_image, truncate_body, IconChoice, ImageInfo,
    ImagePlan, ImageSource, PixelFormat,
};

fn labels(year: i32, month: u32, day: u32, hour: u32, minute: u32) -> Option<(String, String)> {
    refresh_time_labels(LocalTime { year, month, day, hour, minute })
}

#[test]
fn time_and_date_are_spelled_out() {
    assert_eq!(
        labels(2024, 2, 29, 7, 5),
        Some(("07:05".to_string(), "Thursday, February 29".to_string()))
    );
    assert_eq!(
        labels(2000, 1, 1, 0, 0),
        Some(("00:00".to_string(), "Saturday, January 1".to_string()))
    );
    assert_eq!(
        labels(1999, 12, 31, 23, 59),
        Some(("23:59".to_string(), "Friday, December 31".to_string()))
    );
}

#[test]
fn moments_that_do_not_exist_have_no_labels() {
    assert_eq!(labels(2023, 2, 29, 12, 0), None);
    assert_eq!(labels(1900, 2, 29, 12, 0), None);
    assert_eq!(labels(2024, 13, 1, 12, 0), None);
    assert_eq!(labels(2024, 0, 1, 12, 0), None);
    assert_eq!(labels(2024, 4, 31, 12, 0), None);
    assert_eq!(labels(2024, 4, 30, 24, 0), None);
    assert_eq!(labels(2024, 4, 30, 12, 60), None);
    assert_eq!(labels(262143, 1, 1, 0, 0), None);
    assert_eq!(labels(-262144, 12, 31, 0, 0), None);
}

#[test]
fn weekdays_follow_each_other_over_four_hundred_years() {
    let names = ["Monday", "Tuesday", "Wednesday", "Thursday", "Friday", "Saturday", "Sunday"];
    // The first of January 1601 was a Monday.
    let mut day_number: usize = 0;
    for year in 1601..2001 {
        for month in 1..=12 {
            let mut day = 1;
            while let Some((_, date)) = labels(year, month, day, 0, 0) {
                assert!(date.starts_with(names[day_number % 7]), "{year}-{month}-{day}: {date}");
                day_number += 1;
                day += 1;
            }
        }
    }
    assert_eq!(day_number, 146097);
}

#[test]
fn weather_is_what_a_successful_command_prints() {
    assert_eq!(refresh_weather_label(true, b" 12 C\n".to_vec()), Some("12 C".to_string()));
    assert_eq!(
        refresh_weather_label(true, "12\u{b0}".as_bytes().to_vec()),
        Some("12\u{b0}".to_string())
    );
    assert_eq!(refresh_weather_label(false, b"12 C".to_vec()), None);
    assert_eq!(refresh_weather_label(true, b" \n".to_vec()), None);
    assert_eq!(refresh_weather_label(true, vec![0xff, 0xfe]), None);
}

#[test]
fn timestamps_are_rounded_down() {
    assert_eq!(format_timestamp(0), "Just now");
    assert_eq!(format_timestamp(59), "Just now");
    assert_eq!(format_timestamp(60), "1m ago");
    assert_eq!(format_timestamp(3599), "59m ago");
    assert_eq!(format_timestamp(3600), "1h ago");
    assert_eq!(format_timestamp(86399), "23h ago");
    assert_eq!(format_timestamp(86400), "1d ago");
    assert_eq!(format_timestamp(-5), "Just now");
}

#[test]
fn long_bodies_are_cut_and_joined() {
    assert_eq!(truncate_body("short", 10), "short");
    assert_eq!(truncate_body("two\nlines", 20), "two lines");
    let long = truncate_body("abcdefghij", 4);
    assert_eq!(long, "abcd...");
    let accents = truncate_body("\u{e9}\u{e9}\u{e9}\u{e9}", 2);
    assert_eq!(accents, "\u{e9}\u{e9}...");
}

#[test]
fn boundaries_are_byte_positions() {
    assert_eq!(char_boundary("a\u{e9}b", 0), 0);
    assert_eq!(char_boundary("a\u{e9}b", 1), 1);
    assert_eq!(char_boundary("a\u{e9}b", 2), 3);
    assert_eq!(char_boundary("a\u{e9}b", 9), 4);
}

#[test]
fn sources_are_files_or_icon_names() {
    assert!(matches!(image_source("file:///tmp/x.png"), ImageSource::File(p) if p == "/tmp/x.png"));
    assert!(matches!(image_source("/tmp/x.png"), ImageSource::File(p) if p == "/tmp/x.png"));
    assert!(matches!(image_source("mail-unread"), ImageSource::IconName(n) if n == "mail-unread"));
    assert!(matches!(looked_up_icon("/usr/x.svg"), ImageSource::File(p) if p == "/usr/x.svg"));
}

#[test]
fn icons_come_from_the_notification_first() {
    assert!(matches!(choose_icon("bell", "Mail", Some("mail.desktop")), IconChoice::Known(n) if n == "bell"));
    assert!(matches!(choose_icon("", "Mail", Some("thunderbird")), IconChoice::LookUp(n) if n == "thunderbird"));
    assert!(matches!(choose_icon("", "Mail", None), IconChoice::LookUp(n) if n == "Mail"));
    assert!(matches!(choose_icon("", "", None), IconChoice::Known(n) if n == "dialog-information-symbolic"));
    assert!(matches!(looked_up_icon(""), ImageSource::IconName(n) if n == "dialog-information-symbolic"));
}

#[test]
fn raw_pixels_need_a_size_and_bytes() {
    let img = |channels, has_alpha, bytes| ImageInfo { width: 2, height: 2, has_alpha, channels, bytes };
    assert_eq!(notification_image_format(img(4, true, 16)), Some(PixelFormat::Rgba));
    assert_eq!(notification_image_format(img(3, false, 12)), Some(PixelFormat::Rgb));
    assert_eq!(notification_image_format(img(4, false, 16)), Some(PixelFormat::Rgb));
    assert_eq!(notification_image_format(img(4, true, 0)), None);
    assert_eq!(notification_image_format(ImageInfo { width: 0, ..img(4, true, 16) }), None);
    assert!(matches!(
        plan_notification_image(Some(img(4, true, 16)), Some("/x.png"), "bell", "Mail", None),
        ImagePlan::Pixels(PixelFormat::Rgba)
    ));
    assert!(matches!(
        plan_notification_image(None, Some("/x.png"), "bell", "Mail", None),
        ImagePlan::Source(ImageSource::File(p)) if p == "/x.png"
    ));
    assert!(matches!(
        plan_notification_image(None, None, "bell", "Mail", None),
        ImagePlan::Icon(IconChoice::Known(n)) if n == "bell"
    ));
}
