use hltb::{
    compose_time_line, developer_line, display_time_component, display_time_components,
    engagement_line, format_with_color, padding_widths, search_matches_name, time_components,
    title_line, folded_match, Duration, Game,
};

fn game(combine: i64, times: [(u64, u32); 6]) -> Game {
    Game {
        game_id: 1,
        game_name: "Hollow Knight".to_string(),
        game_name_date: 0,
        game_alias: String::new(),
        game_type: "game".to_string(),
        game_image: "hk.jpg".to_string(),
        comp_lvl_combine: combine,
        comp_lvl_sp: 1,
        comp_lvl_co: 0,
        comp_lvl_mp: 0,
        comp_lvl_spd: 0,
        comp_main: Duration::from_secs(times[0].0),
        comp_plus: Duration::from_secs(times[1].0),
        comp_100: Duration::from_secs(times[2].0),
        comp_all: Duration::from_secs(times[3].0),
        comp_main_count: times[0].1,
        comp_plus_count: times[1].1,
        comp_100_count: times[2].1,
        comp_all_count: times[3].1,
        invested_co: Duration::from_secs(times[4].0),
        invested_mp: Duration::from_secs(times[5].0),
        invested_co_count: times[4].1,
        invested_mp_count: times[5].1,
        count_comp: 2,
        count_speedrun: 0,
        count_backlog: 1,
        count_review: 0,
        review_score: 90,
        count_playing: 7,
        count_retired: 1,
        profile_dev: "Team Cherry".to_string(),
        profile_popular: 0,
        profile_steam: 367520,
        profile_platform: "PC".to_string(),
        release_world: 2017,
    }
}

const ALL: [(u64, u32); 6] = [(45, 3), (361800, 7), (7200, 1), (5400, 4), (90, 2), (100, 9)];

#[test]
fn combined_record_shows_solo_coop_versus() {
    let comps = time_components(&game(1, ALL));
    let labels: Vec<&str> = comps.iter().map(|c| c.label).collect();
    assert_eq!(labels, vec!["Solo: ", "Co-op:", "Vs.  :"]);
    assert_eq!(comps[0].time, "1.5h");
    assert_eq!(comps[1].time, "1.5m");
    assert_eq!(comps[2].count, 9);
}

#[test]
fn other_records_show_main_extra_completionist() {
    for combine in [0i64, 2, -1] {
        let comps = time_components(&game(combine, ALL));
        let labels: Vec<&str> = comps.iter().map(|c| c.label).collect();
        assert_eq!(labels, vec!["Main Story:   ", "Main + Extra: ", "Completionist:"]);
    }
}

#[test]
fn zero_count_statistics_are_hidden() {
    let mut t = ALL;
    t[1].1 = 0;
    let g = game(0, t);
    let comps = time_components(&g);
    let labels: Vec<&str> = comps.iter().map(|c| c.label).collect();
    assert_eq!(labels, vec!["Main Story:   ", "Completionist:"]);
    let lines = display_time_components(0, &g, false, false);
    assert_eq!(lines, vec!["Main Story:    45s", "Completionist: 2h"]);
    let none = game(0, [(45, 0), (60, 0), (70, 0), (5400, 4), (90, 2), (100, 9)]);
    assert!(display_time_components(0, &none, true, false).is_empty());
}

#[test]
fn counts_line_up_after_padding() {
    let g = game(0, [(45, 3), (361800, 7), (0, 0), (0, 0), (0, 0), (0, 0)]);
    let lines = display_time_components(0, &g, true, false);
    assert_eq!(lines, vec!["Main Story:    45s    (3)", "Main + Extra:  100.5h (7)"]);
    let widths = padding_widths(&vec!["45s".to_string(), "100.5h".to_string()]);
    assert_eq!(widths, vec![3, 0]);
}

#[test]
fn indentation_moves_the_cursor() {
    let g = game(1, [(0, 0), (0, 0), (0, 0), (5400, 4), (0, 0), (0, 0)]);
    let lines = display_time_components(15, &g, false, false);
    assert_eq!(lines, vec!["\x1b[15CSolo:  1.5h"]);
    assert_eq!(compose_time_line(0, "A:", "1h", Some((2, "(1)"))), "A: 1h   (1)");
}

#[test]
fn legacy_component_line() {
    assert_eq!(display_time_component(0, "Main:", 0, "1h", true, false), None);
    assert_eq!(display_time_component(0, "Main:", 3, "1h", false, false), Some("Main: 1h".to_string()));
    assert_eq!(display_time_component(2, "Main:", 3, "1h", true, false), Some("\x1b[2CMain: 1h\t(3)".to_string()));
}

#[test]
fn name_match_ignores_case() {
    let words = vec!["hollow".to_string(), "KNIGHT".to_string()];
    assert!(search_matches_name(&words, "Hollow Knight"));
    assert!(!search_matches_name(&words, "Hollow Knight: Silksong"));
    assert!(!search_matches_name(&vec!["hollow".to_string()], "Hollow Knight"));
    assert!(folded_match(&"abc".to_string(), &"abc".to_string()));
    assert!(!folded_match(&"abc".to_string(), &"abd".to_string()));
}

#[test]
fn escape_in_name_kept_without_styling() {
    let words = vec!["x".to_string()];
    assert_eq!(title_line(&words, "a\x1b[0mb", 0, false), "a\x1b[0mb");
}

#[test]
fn title_line_without_styling() {
    let words = vec!["celeste".to_string()];
    assert_eq!(title_line(&words, "Celeste", 0, false), "Celeste");
    assert_eq!(
        title_line(&words, "Celeste", 504230, false),
        "Celeste \x1b]8;;https://store.steampowered.com/app/504230\x1b\\[Steam Store Page]\x1b]8;;\x1b\\"
    );
}

#[test]
fn detail_lines_without_styling() {
    let g = game(0, ALL);
    assert_eq!(developer_line(&g.profile_dev, false), "Developer: Team Cherry");
    assert_eq!(
        engagement_line(&g, false),
        "Playing: 7, Backlogs: 1, Retired: 25.0%, Rating: 90%, Beat: 2"
    );
    assert_eq!(format_with_color("1h", 3, false), "1h");
}
