//! Building blocks of a terminal client for a game completion-time service:
//! option values, request bodies, duration formatting and the text of every
//! report line, each stated and proved against a contract.

mod color;
mod components;
mod duration;
mod options;
mod range;
mod report;
mod request;
mod response;
mod search_hash;
mod text;

pub use color::{format_with_color, get_accuracy_color, lemma_accuracy_buckets};
pub use components::{
    compose_time_line, display_time_components, lemma_notes_aligned, lemma_shape_selection,
    lemma_zero_counts_hidden, padding_widths, time_components, TimeComponent,
};
pub use duration::{Duration, DurationFormatter};
pub use options::{Flow, Genre, Perspective, Platform, SortCategory, ToggleOption};
pub use range::{parse_range, parse_range_time, parse_range_year, Range};
pub use report::{
    compose_title, cursor_right, cursor_up, developer_line, display_time_component,
    engagement_line, folded_match, image_padding, retired_percent, search_matches_name,
    summary_line, terminal_image_dimensions, thumbnail_url, title_line,
};
pub use request::{
    build_body, modifier, normalize_search_terms, Args, Body, Gameplay, Games, SearchOptions,
};
pub use response::{Game, PostResult};
pub use search_hash::{app_script_path, app_script_url, search_hash};
pub use text::{decimal_string, join_words};
