use hltb::{
    decimal_string, get_accuracy_color, join_words, retired_percent, summary_line,
    terminal_image_dimensions, image_padding, thumbnail_url, cursor_right, cursor_up, Duration,
    DurationFormatter,
};

fn fmt(secs: u64) -> String {
    Duration::from_secs(secs).format()
}

#[test]
fn durations_format_as_specified() {
    assert_eq!(fmt(45), "45s");
    assert_eq!(fmt(90), "1.5m");
    assert_eq!(fmt(100), "1.5m");
    assert_eq!(fmt(5400), "1.5h");
    assert_eq!(fmt(7200), "2h");
}

#[test]
fn duration_unit_edges() {
    assert_eq!(fmt(0), "0s");
    assert_eq!(fmt(59), "59s");
    assert_eq!(fmt(60), "1m");
    assert_eq!(fmt(74), "1m");
    assert_eq!(fmt(75), "1.5m");
    assert_eq!(fmt(3599), "60m");
    assert_eq!(fmt(3600), "1h");
    assert_eq!(fmt(361800), "100.5h");
    assert_eq!(Duration::from_secs(12).as_secs(), 12);
}

#[test]
fn summary_line_pluralizes() {
    assert_eq!(summary_line(1), "Found 1 Game");
    assert_eq!(summary_line(0), "Found 0 Games");
    assert_eq!(summary_line(5), "Found 5 Games");
}

#[test]
fn accuracy_color_buckets() {
    assert_ne!(get_accuracy_color(4), get_accuracy_color(5));
    assert_eq!(get_accuracy_color(1000), get_accuracy_color(30));
    assert_eq!(get_accuracy_color(0), (255, 58, 58));
    assert_eq!(get_accuracy_color(9), (204, 59, 81));
    assert_eq!(get_accuracy_color(10), (130, 73, 133));
    assert_eq!(get_accuracy_color(19), (86, 80, 161));
    assert_eq!(get_accuracy_color(20), (72, 92, 171));
    assert_eq!(get_accuracy_color(29), (58, 109, 181));
    assert_eq!(get_accuracy_color(30), (40, 127, 194));
    for edge in [5u32, 10, 15, 20, 25, 30] {
        assert_ne!(get_accuracy_color(edge - 1), get_accuracy_color(edge));
    }
}

#[test]
fn retired_share_to_one_decimal() {
    assert_eq!(retired_percent(1, 2, 1), "25.0%");
    assert_eq!(retired_percent(1, 2, 0), "33.3%");
    assert_eq!(retired_percent(2, 1, 0), "66.7%");
    assert_eq!(retired_percent(5, 0, 0), "100.0%");
    assert_eq!(retired_percent(0, 0, 0), "NaN%");
}

#[test]
fn wide_thumbnail_dimensions() {
    assert_eq!(terminal_image_dimensions(200, 100), (14, 3));
}

#[test]
fn tall_and_square_thumbnail_dimensions() {
    assert_eq!(terminal_image_dimensions(100, 100), (10, 5));
    assert_eq!(terminal_image_dimensions(100, 200), (10, 9));
    assert_eq!(terminal_image_dimensions(u32::MAX, 1), (u32::MAX, 3));
}

#[test]
fn padding_below_thumbnail() {
    assert_eq!(image_padding(5, 3), 2);
    assert_eq!(image_padding(3, 5), 0);
    assert_eq!(image_padding(4, 4), 0);
}

#[test]
fn small_text_helpers() {
    assert_eq!(decimal_string(0), "0");
    assert_eq!(decimal_string(18446744073709551615), "18446744073709551615");
    let words = vec!["the".to_string(), "witcher".to_string(), "3".to_string()];
    assert_eq!(join_words(&words), "the witcher 3");
    assert_eq!(join_words(&Vec::new()), "");
    assert_eq!(thumbnail_url("abc.jpg"), "https://howlongtobeat.com/games/abc.jpg?width=100");
    assert_eq!(cursor_right(0), "");
    assert_eq!(cursor_right(11), "\x1b[11C");
    assert_eq!(cursor_up(3), "\x1b[3A");
}
