//! The mirror: what a user picks in the menus of the `watch` command, and
//! what each pick leads to.

use vstd::prelude::*;
use vstd::string::StringExecFns;
use crate::decimal::{push_signed_decimal, signed_decimal};
use crate::encoding::{lowercase, to_lowercase};
use crate::text::{chars_of, has_prefix, slice_chars, starts_with, str_eq, string_of};

verus! {

/// What the identifier of the menu of movies begins with.
pub const MOVIE_MENU_LEAD: &'static str = "movieSelect:";

/// The identifier of the menu of seasons.
pub const SEASON_MENU_ID: &'static str = "seasonSelect";

/// The identifier of the menu of episodes.
pub const EPISODE_MENU_ID: &'static str = "episodeSelect";

/// A service whose player can be mirrored.
#[derive(Clone, Copy, Debug, PartialEq, Eq, Structural)]
pub enum StreamingService {
    Fasel,
    Netflix,
}

/// One season in the menu of seasons.
#[derive(Clone, Debug)]
pub struct SeasonOption {
    pub title: String,
    pub season_id: String,
}

/// What a service says of a title: whether it is a show, and its seasons.
#[derive(Clone, Debug)]
pub struct ShowResult {
    pub is_show: bool,
    pub movie_id: String,
    pub seasons: Vec<SeasonOption>,
}

/// One result of a search on a service.
#[derive(Clone, Debug)]
pub struct SearchHit {
    pub link: String,
    pub image_url: String,
    pub title: String,
    pub show: ShowResult,
}

/// One episode of a season.
#[derive(Clone, Debug)]
pub struct Episode {
    pub number: i64,
    pub title: String,
    pub video_id: i64,
}

/// One entry of a menu.
#[derive(Clone, Debug)]
pub struct MenuOption {
    pub label: String,
    pub value: String,
}

/// What the user did with a menu or a button.
#[derive(Clone, Debug)]
pub enum Component {
    /// A movie was picked in the menu of the service with this label.
    MovieSelect { service: String, movie: String },
    /// A season was picked.
    SeasonSelect { season_id: String },
    /// An episode was picked.
    EpisodeSelect { episode_id: String },
    Pause,
    Stop,
    SkipFront,
    SkipBack,
    /// Nothing that the mirror answers.
    Unknown,
}

/// A component as a mathematical value.
pub enum ComponentModel {
    MovieSelect { service: Seq<char>, movie: Seq<char> },
    SeasonSelect { season_id: Seq<char> },
    EpisodeSelect { episode_id: Seq<char> },
    Pause,
    Stop,
    SkipFront,
    SkipBack,
    Unknown,
}

impl View for Component {
    type V = ComponentModel;

    open spec fn view(&self) -> ComponentModel {
        match self {
            Component::MovieSelect { service, movie } => ComponentModel::MovieSelect {
                service: service@,
                movie: movie@,
            },
            Component::SeasonSelect { season_id } => ComponentModel::SeasonSelect {
                season_id: season_id@,
            },
            Component::EpisodeSelect { episode_id } => ComponentModel::EpisodeSelect {
                episode_id: episode_id@,
            },
            Component::Pause => ComponentModel::Pause,
            Component::Stop => ComponentModel::Stop,
            Component::SkipFront => ComponentModel::SkipFront,
            Component::SkipBack => ComponentModel::SkipBack,
            Component::Unknown => ComponentModel::Unknown,
        }
    }
}

/// What a picked movie leads to.
#[derive(Clone, Debug)]
pub enum MoviePlan {
    /// Nothing: the search found nothing, or the service is not known.
    Nothing,
    /// Mirror the player at this link, and show the controller if asked.
    Stream { link: String, controller: bool },
    /// Show the menu of seasons.
    SeasonMenu(Vec<MenuOption>),
}

/// The service that a name stands for, whatever its case.
pub open spec fn service_named(name: Seq<char>) -> Option<StreamingService> {
    if lowercase(name) == "fasel"@ {
        Some(StreamingService::Fasel)
    } else if lowercase(name) == "netflix"@ {
        Some(StreamingService::Netflix)
    } else {
        None
    }
}

/// The service with exactly this label.
pub open spec fn service_labelled(label: Seq<char>) -> Option<StreamingService> {
    if label == "Fasel"@ {
        Some(StreamingService::Fasel)
    } else if label == "Netflix"@ {
        Some(StreamingService::Netflix)
    } else {
        None
    }
}

/// The label of a service.
pub open spec fn service_label(service: StreamingService) -> Seq<char> {
    match service {
        StreamingService::Fasel => "Fasel"@,
        StreamingService::Netflix => "Netflix"@,
    }
}

/// What a component with identifier `id` stands for: a menu counts with the
/// first value picked in it, a button only as a button.
pub open spec fn component_of(id: Seq<char>, picked: Option<Seq<char>>, is_button: bool) -> ComponentModel {
    if starts_with(id, MOVIE_MENU_LEAD@) {
        match picked {
            Some(movie) => ComponentModel::MovieSelect {
                service: id.skip(MOVIE_MENU_LEAD@.len() as int),
                movie,
            },
            None => ComponentModel::Unknown,
        }
    } else if id == SEASON_MENU_ID@ {
        match picked {
            Some(season_id) => ComponentModel::SeasonSelect { season_id },
            None => ComponentModel::Unknown,
        }
    } else if id == EPISODE_MENU_ID@ {
        match picked {
            Some(episode_id) => ComponentModel::EpisodeSelect { episode_id },
            None => ComponentModel::Unknown,
        }
    } else if !is_button {
        ComponentModel::Unknown
    } else if id == "pause"@ {
        ComponentModel::Pause
    } else if id == "stop"@ {
        ComponentModel::Stop
    } else if id == "skipfront"@ {
        ComponentModel::SkipFront
    } else if id == "skipback"@ {
        ComponentModel::SkipBack
    } else {
        ComponentModel::Unknown
    }
}

/// The label of an episode in the menu of episodes.
pub open spec fn episode_label(number: int, title: Seq<char>) -> Seq<char> {
    "Episode "@ + signed_decimal(number) + " - "@ + title
}

impl StreamingService {
    /// The service that `name` stands for, whatever its case.
    pub fn from_name(name: &str) -> (r: Option<StreamingService>)
        ensures
            r == service_named(name@),
    {
        let lower = to_lowercase(name);
        if str_eq(lower.as_str(), "fasel") {
            Some(StreamingService::Fasel)
        } else if str_eq(lower.as_str(), "netflix") {
            Some(StreamingService::Netflix)
        } else {
            None
        }
    }

    /// The service with exactly the label `label`.
    pub fn from_label(label: &str) -> (r: Option<StreamingService>)
        ensures
            r == service_labelled(label@),
    {
        if str_eq(label, "Fasel") {
            Some(StreamingService::Fasel)
        } else if str_eq(label, "Netflix") {
            Some(StreamingService::Netflix)
        } else {
            None
        }
    }

    /// The label of the service.
    pub fn label(&self) -> (r: &'static str)
        ensures
            r@ == service_label(*self),
    {
        match self {
            StreamingService::Fasel => "Fasel",
            StreamingService::Netflix => "Netflix",
        }
    }
}

/// The identifier of the menu of movies of the service labelled `label`.
pub fn movie_menu_id(label: &str) -> (r: String)
    ensures
        r@ == MOVIE_MENU_LEAD@ + label@,
{
    let mut out = String::from_str(MOVIE_MENU_LEAD);
    out.append(label);
    out
}

/// What a component stands for, from its identifier, the first value picked
/// in it where it is a menu, and whether it is a button.
pub fn classify_component(id: &str, picked: Option<String>, is_button: bool) -> (r: Component)
    ensures
        r@ == component_of(id@, picked.deep_view(), is_button),
{
    let text = chars_of(id);
    let lead = chars_of(MOVIE_MENU_LEAD);
    if has_prefix(text.as_slice(), lead.as_slice()) {
        return match picked {
            Some(movie) => {
                let rest = slice_chars(text.as_slice(), lead.len(), text.len());
                proof {
                    assert(rest@ =~= id@.skip(MOVIE_MENU_LEAD@.len() as int));
                }
                Component::MovieSelect { service: string_of(rest.as_slice()), movie }
            },
            None => Component::Unknown,
        };
    }
    if str_eq(id, SEASON_MENU_ID) {
        return match picked {
            Some(season_id) => Component::SeasonSelect { season_id },
            None => Component::Unknown,
        };
    }
    if str_eq(id, EPISODE_MENU_ID) {
        return match picked {
            Some(episode_id) => Component::EpisodeSelect { episode_id },
            None => Component::Unknown,
        };
    }
    if !is_button {
        Component::Unknown
    } else if str_eq(id, "pause") {
        Component::Pause
    } else if str_eq(id, "stop") {
        Component::Stop
    } else if str_eq(id, "skipfront") {
        Component::SkipFront
    } else if str_eq(id, "skipback") {
        Component::SkipBack
    } else {
        Component::Unknown
    }
}

/// The menu of the first `upto` seasons.
pub open spec fn season_menu(seasons: Seq<SeasonOption>, upto: int) -> Seq<(Seq<char>, Seq<char>)>
    decreases upto,
{
    if upto <= 0 {
        Seq::empty()
    } else {
        season_menu(seasons, upto - 1).push((seasons[upto - 1].title@, seasons[upto - 1].season_id@))
    }
}

/// The menu of the first `upto` episodes.
pub open spec fn episode_menu(episodes: Seq<Episode>, upto: int) -> Seq<(Seq<char>, Seq<char>)>
    decreases upto,
{
    if upto <= 0 {
        Seq::empty()
    } else {
        episode_menu(episodes, upto - 1).push(
            (
                episode_label(episodes[upto - 1].number as int, episodes[upto - 1].title@),
                signed_decimal(episodes[upto - 1].video_id as int),
            ),
        )
    }
}

/// The entries of a menu as pairs of label and value.
pub open spec fn menu_entries(menu: Seq<MenuOption>) -> Seq<(Seq<char>, Seq<char>)> {
    Seq::new(menu.len(), |i: int| (menu[i].label@, menu[i].value@))
}

/// The menu of the seasons of a show: one entry for each season, with its
/// title as label and its identifier as value.
pub fn season_options(seasons: &Vec<SeasonOption>) -> (r: Vec<MenuOption>)
    ensures
        menu_entries(r@) == season_menu(seasons@, seasons@.len() as int),
{
    let mut out: Vec<MenuOption> = Vec::new();
    let mut i: usize = 0;
    while i < seasons.len()
        invariant
            i <= seasons@.len(),
            menu_entries(out@) == season_menu(seasons@, i as int),
        decreases seasons@.len() - i,
    {
        let ghost before = out@;
        let option = MenuOption {
            label: seasons[i].title.clone(),
            value: seasons[i].season_id.clone(),
        };
        out.push(option);
        proof {
            assert(menu_entries(out@) =~= menu_entries(before).push(
                (seasons@[i as int].title@, seasons@[i as int].season_id@),
            ));
        }
        i += 1;
    }
    out
}

/// The menu of the episodes of a season: one entry for each episode, with
/// `Episode {number} - {title}` as label and the identifier of its video as
/// value.
pub fn episode_options(episodes: &Vec<Episode>) -> (r: Vec<MenuOption>)
    ensures
        menu_entries(r@) == episode_menu(episodes@, episodes@.len() as int),
{
    let mut out: Vec<MenuOption> = Vec::new();
    let mut i: usize = 0;
    while i < episodes.len()
        invariant
            i <= episodes@.len(),
            menu_entries(out@) == episode_menu(episodes@, i as int),
        decreases episodes@.len() - i,
    {
        let ghost before = out@;
        let mut number: Vec<char> = Vec::new();
        push_signed_decimal(&mut number, episodes[i].number);
        let mut label = String::from_str("Episode ");
        label.append(string_of(number.as_slice()).as_str());
        label.append(" - ");
        label.append(episodes[i].title.as_str());
        let mut id: Vec<char> = Vec::new();
        push_signed_decimal(&mut id, episodes[i].video_id);
        let option = MenuOption { label, value: string_of(id.as_slice()) };
        out.push(option);
        proof {
            assert(menu_entries(out@) =~= menu_entries(before).push(
                (
                    episode_label(episodes@[i as int].number as int, episodes@[i as int].title@),
                    signed_decimal(episodes@[i as int].video_id as int),
                ),
            ));
        }
        i += 1;
    }
    out
}

/// What a picked movie leads to, from the results of searching for it on
/// `service`: nothing where there are none; on Fasel, the player of the
/// first result; on Netflix, the menu of seasons where the first result is a
/// show, else its player with the controller.
pub fn plan_movie(service: Option<StreamingService>, hits: &Vec<SearchHit>) -> (r: MoviePlan)
    ensures
        match r {
            MoviePlan::Nothing => service is None || hits@.len() == 0,
            MoviePlan::Stream { link, controller } => {
                &&& service is Some
                &&& hits@.len() > 0
                &&& link@ == hits@[0].link@
                &&& controller == (service == Some(StreamingService::Netflix))
                &&& !(service == Some(StreamingService::Netflix) && hits@[0].show.is_show)
            },
            MoviePlan::SeasonMenu(menu) => {
                &&& service == Some(StreamingService::Netflix)
                &&& hits@.len() > 0
                &&& hits@[0].show.is_show
                &&& menu_entries(menu@) == season_menu(
                    hits@[0].show.seasons@,
                    hits@[0].show.seasons@.len() as int,
                )
            },
        },
{
    if hits.len() == 0 {
        return MoviePlan::Nothing;
    }
    match service {
        None => MoviePlan::Nothing,
        Some(StreamingService::Fasel) => MoviePlan::Stream {
            link: hits[0].link.clone(),
            controller: false,
        },
        Some(StreamingService::Netflix) => {
            if hits[0].show.is_show {
                MoviePlan::SeasonMenu(season_options(&hits[0].show.seasons))
            } else {
                MoviePlan::Stream { link: hits[0].link.clone(), controller: true }
            }
        },
    }
}

/// The menu of the first `upto` hits: the title of each as label and as
/// value.
pub open spec fn movie_menu(hits: Seq<SearchHit>, upto: int) -> Seq<(Seq<char>, Seq<char>)>
    decreases upto,
{
    if upto <= 0 {
        Seq::empty()
    } else {
        movie_menu(hits, upto - 1).push((hits[upto - 1].title@, hits[upto - 1].title@))
    }
}

/// The heading over the results of `watch` for `movie`.
pub open spec fn watch_heading_text(movie: Seq<char>) -> Seq<char> {
    "Here are movies for '"@ + movie + "'"@
}

/// The line under the heading, for the service labelled `service`.
pub open spec fn watch_hint_text(service: Seq<char>) -> Seq<char> {
    "Select a movie to watch on "@ + service
}

/// The menu of the results of a search: one entry for each hit, with its
/// title as label and as value.
pub fn movie_options(hits: &Vec<SearchHit>) -> (r: Vec<MenuOption>)
    ensures
        menu_entries(r@) == movie_menu(hits@, hits@.len() as int),
{
    let mut out: Vec<MenuOption> = Vec::new();
    let mut i: usize = 0;
    while i < hits.len()
        invariant
            i <= hits@.len(),
            menu_entries(out@) == movie_menu(hits@, i as int),
        decreases hits@.len() - i,
    {
        let ghost before = out@;
        let option = MenuOption { label: hits[i].title.clone(), value: hits[i].title.clone() };
        out.push(option);
        proof {
            assert(menu_entries(out@) =~= menu_entries(before).push(
                (hits@[i as int].title@, hits@[i as int].title@),
            ));
        }
        i += 1;
    }
    out
}

/// The heading over the results of `watch` for `movie`.
pub fn watch_heading(movie: &str) -> (r: String)
    ensures
        r@ == watch_heading_text(movie@),
{
    let mut out = String::from_str("Here are movies for '");
    out.append(movie);
    out.append("'");
    out
}

/// The line under the heading, for the service labelled `service`.
pub fn watch_hint(service: &str) -> (r: String)
    ensures
        r@ == watch_hint_text(service@),
{
    let mut out = String::from_str("Select a movie to watch on ");
    out.append(service);
    out
}

} // verus!
