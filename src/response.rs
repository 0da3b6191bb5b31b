//! The search response: one record per matched game.

use vstd::prelude::*;
use crate::duration::Duration;

verus! {

/// One matched game as the service describes it.
#[derive(Clone, Debug)]
pub struct Game {
    pub game_id: i64,
    pub game_name: String,
    pub game_name_date: i64,
    pub game_alias: String,
    pub game_type: String,
    pub game_image: String,
    pub comp_lvl_combine: i64,
    pub comp_lvl_sp: u8,
    pub comp_lvl_co: u8,
    pub comp_lvl_mp: u8,
    pub comp_lvl_spd: u8,
    pub comp_main: Duration,
    pub comp_plus: Duration,
    pub comp_100: Duration,
    pub comp_all: Duration,
    pub comp_main_count: u32,
    pub comp_plus_count: u32,
    pub comp_100_count: u32,
    pub comp_all_count: u32,
    pub invested_co: Duration,
    pub invested_mp: Duration,
    pub invested_co_count: u32,
    pub invested_mp_count: u32,
    pub count_comp: u32,
    pub count_speedrun: u32,
    pub count_backlog: u32,
    pub count_review: u32,
    pub review_score: u8,
    pub count_playing: u32,
    pub count_retired: u32,
    pub profile_dev: String,
    pub profile_popular: u32,
    pub profile_steam: u32,
    pub profile_platform: String,
    pub release_world: u16,
}

/// A whole search response.
#[derive(Clone, Debug)]
pub struct PostResult {
    pub color: String,
    pub title: String,
    pub category: String,
    pub count: u32,
    pub page_current: i64,
    pub page_total: i64,
    pub page_size: i64,
    pub data: Vec<Game>,
    pub user_data: Vec<String>,
    pub display_modifier: Option<String>,
}

} // verus!
