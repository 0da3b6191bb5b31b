//! The option values: color mode and the closed sets of sort orders and
//! filters, each with the name the service knows it by.

use vstd::prelude::*;

verus! {

/// Whether output is styled.
#[derive(Clone, Copy, Debug, PartialEq, Eq, Structural)]
pub enum ToggleOption {
    Always,
    Never,
}
/// The order the service sorts results in.
#[derive(Clone, Copy, Debug, PartialEq, Eq, Structural)]
pub enum SortCategory {
    Name,
    Main,
    MainExtras,
    Completionist,
    AverageTime,
    TopRated,
    MostPopular,
    MostBacklogs,
    MostSubmissions,
    MostPlayed,
    MostSpeedruns,
    MostReviews,
    ReleaseDate,
}

impl SortCategory {
    /// The name the service knows this value by.
    pub open spec fn wire(self) -> Seq<char> {
        match self {
            SortCategory::Name => "name"@,
            SortCategory::Main => "main"@,
            SortCategory::MainExtras => "mainp"@,
            SortCategory::Completionist => "comp"@,
            SortCategory::AverageTime => "averagea"@,
            SortCategory::TopRated => "rating"@,
            SortCategory::MostPopular => "popular"@,
            SortCategory::MostBacklogs => "backlog"@,
            SortCategory::MostSubmissions => "usersp"@,
            SortCategory::MostPlayed => "playing"@,
            SortCategory::MostSpeedruns => "speedruns"@,
            SortCategory::MostReviews => "reviews"@,
            SortCategory::ReleaseDate => "release"@,
        }
    }

    /// The name the service knows this value by.
    pub fn as_str(&self) -> (r: &'static str)
        ensures
            r@ == self.wire(),
    {
        match self {
            SortCategory::Name => "name",
            SortCategory::Main => "main",
            SortCategory::MainExtras => "mainp",
            SortCategory::Completionist => "comp",
            SortCategory::AverageTime => "averagea",
            SortCategory::TopRated => "rating",
            SortCategory::MostPopular => "popular",
            SortCategory::MostBacklogs => "backlog",
            SortCategory::MostSubmissions => "usersp",
            SortCategory::MostPlayed => "playing",
            SortCategory::MostSpeedruns => "speedruns",
            SortCategory::MostReviews => "reviews",
            SortCategory::ReleaseDate => "release",
        }
    }
}

/// The platform filter; `All` applies none.
#[derive(Clone, Copy, Debug, PartialEq, Eq, Structural)]
pub enum Platform {
    All,
    Emulated,
    Nintendo3DS,
    NintendoSwitch,
    PC,
    PlayStation3,
    PlayStation4,
    PlayStation5,
    PlayStationNow,
    WiiU,
    Xbox360,
    XboxOne,
    XboxSeriesXS,
}

impl Platform {
    /// The name the service knows this value by.
    pub open spec fn wire(self) -> Seq<char> {
        match self {
            Platform::All => ""@,
            Platform::Emulated => "Emulated"@,
            Platform::Nintendo3DS => "Nintendo 3DS"@,
            Platform::NintendoSwitch => "Nintendo Switch"@,
            Platform::PC => "PC"@,
            Platform::PlayStation3 => "PlayStation 3"@,
            Platform::PlayStation4 => "PlayStation 4"@,
            Platform::PlayStation5 => "PlayStation 5"@,
            Platform::PlayStationNow => "PlayStation Now"@,
            Platform::WiiU => "Wii U"@,
            Platform::Xbox360 => "Xbox 360"@,
            Platform::XboxOne => "Xbox One"@,
            Platform::XboxSeriesXS => "Xbox Series X/S"@,
        }
    }

    /// The name the service knows this value by.
    pub fn as_str(&self) -> (r: &'static str)
        ensures
            r@ == self.wire(),
    {
        match self {
            Platform::All => "",
            Platform::Emulated => "Emulated",
            Platform::Nintendo3DS => "Nintendo 3DS",
            Platform::NintendoSwitch => "Nintendo Switch",
            Platform::PC => "PC",
            Platform::PlayStation3 => "PlayStation 3",
            Platform::PlayStation4 => "PlayStation 4",
            Platform::PlayStation5 => "PlayStation 5",
            Platform::PlayStationNow => "PlayStation Now",
            Platform::WiiU => "Wii U",
            Platform::Xbox360 => "Xbox 360",
            Platform::XboxOne => "Xbox One",
            Platform::XboxSeriesXS => "Xbox Series X/S",
        }
    }
}

/// The perspective filter; `All` applies none.
#[derive(Clone, Copy, Debug, PartialEq, Eq, Structural)]
pub enum Perspective {
    All,
    FirstPerson,
    Isometric,
    Side,
    Text,
    ThirdPerson,
    TopDown,
    VirtualReality,
}

impl Perspective {
    /// The name the service knows this value by.
    pub open spec fn wire(self) -> Seq<char> {
        match self {
            Perspective::All => ""@,
            Perspective::FirstPerson => "First-Person"@,
            Perspective::Isometric => "Isometric"@,
            Perspective::Side => "Side"@,
            Perspective::Text => "Text"@,
            Perspective::ThirdPerson => "Third-Person"@,
            Perspective::TopDown => "Top-Down"@,
            Perspective::VirtualReality => "Virtual Reality"@,
        }
    }

    /// The name the service knows this value by.
    pub fn as_str(&self) -> (r: &'static str)
        ensures
            r@ == self.wire(),
    {
        match self {
            Perspective::All => "",
            Perspective::FirstPerson => "First-Person",
            Perspective::Isometric => "Isometric",
            Perspective::Side => "Side",
            Perspective::Text => "Text",
            Perspective::ThirdPerson => "Third-Person",
            Perspective::TopDown => "Top-Down",
            Perspective::VirtualReality => "Virtual Reality",
        }
    }
}

/// The pacing filter; `All` applies none.
#[derive(Clone, Copy, Debug, PartialEq, Eq, Structural)]
pub enum Flow {
    All,
    Incremental,
    MassivelyMultiplayer,
    Multidirectional,
    OnRails,
    PointAndClick,
    RealTime,
    Scrolling,
    TurnBased,
}

impl Flow {
    /// The name the service knows this value by.
    pub open spec fn wire(self) -> Seq<char> {
        match self {
            Flow::All => ""@,
            Flow::Incremental => "Incremental"@,
            Flow::MassivelyMultiplayer => "Massively Multiplayer"@,
            Flow::Multidirectional => "Multidirectional"@,
            Flow::OnRails => "On-Rails"@,
            Flow::PointAndClick => "Point-and-Click"@,
            Flow::RealTime => "Real-Time"@,
            Flow::Scrolling => "Scrolling"@,
            Flow::TurnBased => "Turn-Based"@,
        }
    }

    /// The name the service knows this value by.
    pub fn as_str(&self) -> (r: &'static str)
        ensures
            r@ == self.wire(),
    {
        match self {
            Flow::All => "",
            Flow::Incremental => "Incremental",
            Flow::MassivelyMultiplayer => "Massively Multiplayer",
            Flow::Multidirectional => "Multidirectional",
            Flow::OnRails => "On-Rails",
            Flow::PointAndClick => "Point-and-Click",
            Flow::RealTime => "Real-Time",
            Flow::Scrolling => "Scrolling",
            Flow::TurnBased => "Turn-Based",
        }
    }
}

/// The genre filter; `All` applies none.
#[derive(Clone, Copy, Debug, PartialEq, Eq, Structural)]
pub enum Genre {
    All,
    Action,
    Adventure,
    Arcade,
    BattleArena,
    BeatEmUp,
    BoardGame,
    Breakout,
    CardGame,
    CityBuilding,
    Compilation,
    Educational,
    Fighting,
    Fitness,
    Flight,
    FullMotionVideo,
    HackAndSlash,
    HiddenObject,
    Horror,
    InteractiveArt,
    Management,
    MusicRhythm,
    OpenWorld,
    Party,
    Pinball,
    Platform,
    Puzzle,
    RacingDriving,
    Roguelike,
    RolePlaying,
    Sandbox,
    Shooter,
    Simulation,
    Social,
    Sports,
    Stealth,
    StrategyTactical,
    Survival,
    TowerDefense,
    Trivia,
    VehicularCombat,
    VisualNovel,
}

impl Genre {
    /// The name the service knows this value by.
    pub open spec fn wire(self) -> Seq<char> {
        match self {
            Genre::All => ""@,
            Genre::Action => "Action"@,
            Genre::Adventure => "Adventure"@,
            Genre::Arcade => "Arcade"@,
            Genre::BattleArena => "Battle Arena"@,
            Genre::BeatEmUp => "Beat em Up"@,
            Genre::BoardGame => "Board Game"@,
            Genre::Breakout => "Breakout"@,
            Genre::CardGame => "Card Game"@,
            Genre::CityBuilding => "City-Building"@,
            Genre::Compilation => "Compilation"@,
            Genre::Educational => "Educational"@,
            Genre::Fighting => "Fighting"@,
            Genre::Fitness => "Fitness"@,
            Genre::Flight => "Flight"@,
            Genre::FullMotionVideo => "Full Motion Video (FMV)"@,
            Genre::HackAndSlash => "Hack and Slash"@,
            Genre::HiddenObject => "Hidden Object"@,
            Genre::Horror => "Horror"@,
            Genre::InteractiveArt => "Interactive Art"@,
            Genre::Management => "Management"@,
            Genre::MusicRhythm => "Music/Rhythm"@,
            Genre::OpenWorld => "Open World"@,
            Genre::Party => "Party"@,
            Genre::Pinball => "Pinball"@,
            Genre::Platform => "Platform"@,
            Genre::Puzzle => "Puzzle"@,
            Genre::RacingDriving => "Racing/Driving"@,
            Genre::Roguelike => "Roguelike"@,
            Genre::RolePlaying => "Role-Playing"@,
            Genre::Sandbox => "Sandbox"@,
            Genre::Shooter => "Shooter"@,
            Genre::Simulation => "Simulation"@,
            Genre::Social => "Social"@,
            Genre::Sports => "Sports"@,
            Genre::Stealth => "Stealth"@,
            Genre::StrategyTactical => "Strategy/Tactical"@,
            Genre::Survival => "Survival"@,
            Genre::TowerDefense => "Tower Defense"@,
            Genre::Trivia => "Trivia"@,
            Genre::VehicularCombat => "Vehicular Combat"@,
            Genre::VisualNovel => "Visual Novel"@,
        }
    }

    /// The name the service knows this value by.
    pub fn as_str(&self) -> (r: &'static str)
        ensures
            r@ == self.wire(),
    {
        match self {
            Genre::All => "",
            Genre::Action => "Action",
            Genre::Adventure => "Adventure",
            Genre::Arcade => "Arcade",
            Genre::BattleArena => "Battle Arena",
            Genre::BeatEmUp => "Beat em Up",
            Genre::BoardGame => "Board Game",
            Genre::Breakout => "Breakout",
            Genre::CardGame => "Card Game",
            Genre::CityBuilding => "City-Building",
            Genre::Compilation => "Compilation",
            Genre::Educational => "Educational",
            Genre::Fighting => "Fighting",
            Genre::Fitness => "Fitness",
            Genre::Flight => "Flight",
            Genre::FullMotionVideo => "Full Motion Video (FMV)",
            Genre::HackAndSlash => "Hack and Slash",
            Genre::HiddenObject => "Hidden Object",
            Genre::Horror => "Horror",
            Genre::InteractiveArt => "Interactive Art",
            Genre::Management => "Management",
            Genre::MusicRhythm => "Music/Rhythm",
            Genre::OpenWorld => "Open World",
            Genre::Party => "Party",
            Genre::Pinball => "Pinball",
            Genre::Platform => "Platform",
            Genre::Puzzle => "Puzzle",
            Genre::RacingDriving => "Racing/Driving",
            Genre::Roguelike => "Roguelike",
            Genre::RolePlaying => "Role-Playing",
            Genre::Sandbox => "Sandbox",
            Genre::Shooter => "Shooter",
            Genre::Simulation => "Simulation",
            Genre::Social => "Social",
            Genre::Sports => "Sports",
            Genre::Stealth => "Stealth",
            Genre::StrategyTactical => "Strategy/Tactical",
            Genre::Survival => "Survival",
            Genre::TowerDefense => "Tower Defense",
            Genre::Trivia => "Trivia",
            Genre::VehicularCombat => "Vehicular Combat",
            Genre::VisualNovel => "Visual Novel",
        }
    }
}

} // verus!
