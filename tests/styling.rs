use hltb::{
    developer_line, display_time_component, display_time_components, format_with_color,
    title_line, Duration, Game,
};

/// The foreground codes colored writes for a 24-bit color: the 24-bit form,
/// or a basic code where the terminal does not announce 24-bit support.
fn is_fg(codes: &str, rgb: (u8, u8, u8)) -> bool {
    let b = codes.as_bytes();
    codes == format!("38;2;{};{};{}", rgb.0, rgb.1, rgb.2)
        || (b.len() == 2 && (b[0] == b'3' || b[0] == b'9') && (b'0'..=b'7').contains(&b[1]))
}

/// Splits `ESC[codes m text ESC[0m` into codes and text.
fn unwrap_span(s: &str) -> (String, String) {
    assert!(s.starts_with("\x1b["));
    assert!(s.ends_with("\x1b[0m"));
    let inner = &s[2..s.len() - 4];
    let m = inner.find('m').unwrap();
    (inner[..m].to_string(), inner[m + 1..].to_string())
}

#[test]
fn colored_duration_uses_accuracy_color() {
    let s = format_with_color("1h", 40, true);
    let (codes, text) = unwrap_span(&s);
    assert_eq!(text, "1h");
    assert!(is_fg(&codes, (40, 127, 194)));
    let s = format_with_color("1h", 4, true);
    let (codes, _) = unwrap_span(&s);
    assert!(is_fg(&codes, (255, 58, 58)));
    assert_eq!(format_with_color("1h", 40, false), "1h");
}

#[test]
fn matching_title_is_bold_green() {
    let words = vec!["celeste".to_string()];
    assert_eq!(title_line(&words, "CELESTE", 0, true), "\x1b[1;32mCELESTE\x1b[0m");
    assert_eq!(title_line(&words, "Celeste 2", 0, true), "\x1b[1mCeleste 2\x1b[0m");
}

#[test]
fn steam_label_is_blue_underlined() {
    let words = vec!["x".to_string()];
    let t = title_line(&words, "Celeste", 1, true);
    assert!(t.contains("\x1b[4;34m[Steam Store Page]\x1b[0m"));
}

#[test]
fn gray_labels_and_notes() {
    let (codes, text) = unwrap_span(&developer_line("Team", true)[..]
        .strip_suffix(" Team")
        .unwrap());
    assert_eq!(text, "Developer:");
    assert!(is_fg(&codes, (200, 200, 200)));
    let line = display_time_component(0, "Main:", 3, "1h", true, true).unwrap();
    let parts: Vec<&str> = line.split("\x1b[0m").collect();
    assert_eq!(parts.len(), 4);
    assert!(parts[0].ends_with("mMain:"));
    assert!(parts[2].ends_with("m\t(3)"));
}

#[test]
fn colored_statistic_lines() {
    let d = Duration::from_secs(5400);
    let g = Game {
        game_id: 1,
        game_name: "G".to_string(),
        game_name_date: 0,
        game_alias: String::new(),
        game_type: String::new(),
        game_image: String::new(),
        comp_lvl_combine: 0,
        comp_lvl_sp: 0,
        comp_lvl_co: 0,
        comp_lvl_mp: 0,
        comp_lvl_spd: 0,
        comp_main: d,
        comp_plus: d,
        comp_100: d,
        comp_all: d,
        comp_main_count: 12,
        comp_plus_count: 0,
        comp_100_count: 0,
        comp_all_count: 0,
        invested_co: d,
        invested_mp: d,
        invested_co_count: 0,
        invested_mp_count: 0,
        count_comp: 0,
        count_speedrun: 0,
        count_backlog: 0,
        count_review: 0,
        review_score: 0,
        count_playing: 0,
        count_retired: 0,
        profile_dev: String::new(),
        profile_popular: 0,
        profile_steam: 0,
        profile_platform: String::new(),
        release_world: 0,
    };
    let lines = display_time_components(0, &g, false, true);
    assert_eq!(lines.len(), 1);
    let parts: Vec<&str> = lines[0].split("\x1b[0m").collect();
    let (codes, text) = unwrap_span(&format!("{}\x1b[0m", parts[1].trim_start()));
    assert_eq!(text, "1.5h");
    assert!(is_fg(&codes, (130, 73, 133)));
}

#[test]
fn style_resumes_after_inner_reset() {
    let words = vec!["q".to_string()];
    assert_eq!(
        title_line(&words, "a\x1b[0mb", 0, true),
        "\x1b[1ma\x1b[0m\x1b[1mb\x1b[0m"
    );
    let s = format_with_color("a\x1b[0mb", 40, true);
    let (codes, _) = unwrap_span(&s);
    assert_eq!(
        s,
        format!("\x1b[{c}ma\x1b[0m\x1b[{c}mb\x1b[0m", c = codes)
    );
    assert!(is_fg(&codes, (40, 127, 194)));
}
