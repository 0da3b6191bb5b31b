use hltb::{
    build_body, modifier, normalize_search_terms, Args, Flow, Genre, Perspective, Platform, Range,
    SortCategory, ToggleOption,
};

fn args(dlc: bool, no_dlc: bool) -> Args {
    Args {
        search: vec!["hollow".to_string(), "knight".to_string()],
        size: 5,
        color: ToggleOption::Always,
        sort: SortCategory::MostPopular,
        reverse: false,
        range_year: Range { min: None, max: None },
        platform: Platform::All,
        perspective: Perspective::All,
        flow: Flow::All,
        genre: Genre::All,
        range_time: Range { min: Some(10), max: None },
        dlc,
        no_dlc,
        images: false,
        json: false,
        info: false,
    }
}

#[test]
fn modifier_without_flags_is_literal_sentinel() {
    assert_eq!(build_body(&args(false, false)).search_options.games.modifier, "Modifiers");
    assert_eq!(modifier(false, false), "Modifiers");
}

#[test]
fn modifier_for_dlc_flags() {
    assert_eq!(build_body(&args(true, false)).search_options.games.modifier, "only_dlc");
    assert_eq!(build_body(&args(false, true)).search_options.games.modifier, "hide_dlc");
}

#[test]
fn body_carries_constants_and_options() {
    let mut a = args(false, false);
    a.reverse = true;
    a.platform = Platform::XboxSeriesXS;
    a.genre = Genre::FullMotionVideo;
    a.flow = Flow::PointAndClick;
    a.perspective = Perspective::FirstPerson;
    a.sort = SortCategory::MainExtras;
    let b = build_body(&a);
    assert_eq!(b.search_type, "games");
    assert_eq!(b.search_terms, vec!["hollow".to_string(), "knight".to_string()]);
    assert_eq!(b.search_page, 1);
    assert_eq!(b.size, 5);
    assert!(b.use_cache);
    assert_eq!(b.search_options.filter, "");
    assert_eq!(b.search_options.sort, 1);
    let g = &b.search_options.games;
    assert_eq!(g.user_id, 0);
    assert_eq!(g.platform, "Xbox Series X/S");
    assert_eq!(g.sort_category, "mainp");
    assert_eq!(g.range_category, "main");
    assert_eq!(g.range_time, Range { min: Some(10), max: None });
    assert_eq!(g.range_year, Range { min: None, max: None });
    assert_eq!(g.gameplay.perspective, "First-Person");
    assert_eq!(g.gameplay.flow, "Point-and-Click");
    assert_eq!(g.gameplay.genre, "Full Motion Video (FMV)");
}

#[test]
fn all_filters_are_empty_strings() {
    let b = build_body(&args(false, false));
    assert_eq!(b.search_options.sort, 0);
    assert_eq!(b.search_options.games.platform, "");
    assert_eq!(b.search_options.games.sort_category, "popular");
    assert_eq!(b.search_options.games.gameplay.genre, "");
}

#[test]
fn search_words_are_split_on_whitespace() {
    let words = vec!["foo bar".to_string(), "baz".to_string()];
    assert_eq!(normalize_search_terms(&words), vec!["foo", "bar", "baz"]);
}

#[test]
fn tab_and_unicode_whitespace_split_words() {
    let words = vec!["foo\tbar".to_string(), "x\u{3000}y".to_string(), "z".to_string()];
    assert_eq!(normalize_search_terms(&words), vec!["foo", "bar", "x", "y", "z"]);
}

#[test]
fn search_word_splitting_edge_cases() {
    let words = vec!["  a\t b  ".to_string(), "c\td".to_string(), "".to_string()];
    assert_eq!(normalize_search_terms(&words), vec!["a", "b", "c", "d", ""]);
    assert!(normalize_search_terms(&Vec::new()).is_empty());
}
