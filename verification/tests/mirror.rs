use movie_bot::mirror::{
    classify_component, episode_options, movie_menu_id, plan_movie, season_options, Component,
    Episode, MoviePlan, SearchHit, SeasonOption, ShowResult, StreamingService,
};
use movie_bot::mirror::{movie_options, watch_heading, watch_hint};

fn hit(link: &str, is_show: bool) -> SearchHit {
    SearchHit {
        link: link.to_string(),
        image_url: String::new(),
        title: "T".to_string(),
        show: ShowResult {
            is_show,
            movie_id: "1".to_string(),
            seasons: vec![
                SeasonOption { title: "Season 1".to_string(), season_id: "11".to_string() },
                SeasonOption { title: "Season 2".to_string(), season_id: "22".to_string() },
            ],
        },
    }
}

#[test]
fn services_are_named_in_any_case() {
    assert_eq!(StreamingService::from_name("fasel"), Some(StreamingService::Fasel));
    assert_eq!(StreamingService::from_name("Fasel"), Some(StreamingService::Fasel));
    assert_eq!(StreamingService::from_name("NETFLIX"), Some(StreamingService::Netflix));
    assert_eq!(StreamingService::from_name("shahid"), None);
    assert_eq!(StreamingService::from_name(""), None);
    assert_eq!(StreamingService::from_label("Netflix"), Some(StreamingService::Netflix));
    assert_eq!(StreamingService::from_label("netflix"), None);
    assert_eq!(StreamingService::from_label("Fasel"), Some(StreamingService::Fasel));
    assert_eq!(StreamingService::Fasel.label(), "Fasel");
    assert_eq!(StreamingService::Netflix.label(), "Netflix");
}

#[test]
fn menus_and_buttons_are_told_apart() {
    assert_eq!(movie_menu_id("Netflix"), "movieSelect:Netflix");
    match classify_component("movieSelect:Netflix", Some("Dark".to_string()), false) {
        Component::MovieSelect { service, movie } => {
            assert_eq!(service, "Netflix");
            assert_eq!(movie, "Dark");
        }
        other => panic!("{:?}", other),
    }
    match classify_component("movieSelect:", Some("Dark".to_string()), false) {
        Component::MovieSelect { service, .. } => assert_eq!(service, ""),
        other => panic!("{:?}", other),
    }
    assert!(matches!(classify_component("movieSelect:Netflix", None, false), Component::Unknown));
    match classify_component("seasonSelect", Some("81".to_string()), false) {
        Component::SeasonSelect { season_id } => assert_eq!(season_id, "81"),
        other => panic!("{:?}", other),
    }
    match classify_component("episodeSelect", Some("82".to_string()), false) {
        Component::EpisodeSelect { episode_id } => assert_eq!(episode_id, "82"),
        other => panic!("{:?}", other),
    }
    assert!(matches!(classify_component("pause", None, true), Component::Pause));
    assert!(matches!(classify_component("stop", None, true), Component::Stop));
    assert!(matches!(classify_component("skipfront", None, true), Component::SkipFront));
    assert!(matches!(classify_component("skipback", None, true), Component::SkipBack));
    assert!(matches!(classify_component("pause", None, false), Component::Unknown));
    assert!(matches!(classify_component("back", None, true), Component::Unknown));
    assert!(matches!(classify_component("seasonSelect", None, true), Component::Unknown));
}

#[test]
fn menus_are_built_from_seasons_and_episodes() {
    let seasons = vec![
        SeasonOption { title: "Season 1".to_string(), season_id: "11".to_string() },
        SeasonOption { title: "Unknown Season".to_string(), season_id: "Unknown".to_string() },
    ];
    let menu = season_options(&seasons);
    assert_eq!(menu.len(), 2);
    assert_eq!((menu[0].label.as_str(), menu[0].value.as_str()), ("Season 1", "11"));
    assert_eq!((menu[1].label.as_str(), menu[1].value.as_str()), ("Unknown Season", "Unknown"));
    let episodes = vec![
        Episode { number: 1, title: "Pilot".to_string(), video_id: 700 },
        Episode { number: 0, title: "Unknown".to_string(), video_id: -3 },
    ];
    let menu = episode_options(&episodes);
    assert_eq!((menu[0].label.as_str(), menu[0].value.as_str()), ("Episode 1 - Pilot", "700"));
    assert_eq!((menu[1].label.as_str(), menu[1].value.as_str()), ("Episode 0 - Unknown", "-3"));
    assert!(episode_options(&Vec::new()).is_empty());
}

#[test]
fn a_picked_movie_leads_to_a_player_or_a_menu() {
    match plan_movie(Some(StreamingService::Fasel), &vec![hit("https://f/1", true), hit("https://f/2", false)]) {
        MoviePlan::Stream { link, controller } => {
            assert_eq!(link, "https://f/1");
            assert!(!controller);
        }
        other => panic!("{:?}", other),
    }
    match plan_movie(Some(StreamingService::Netflix), &vec![hit("https://n/1", false)]) {
        MoviePlan::Stream { link, controller } => {
            assert_eq!(link, "https://n/1");
            assert!(controller);
        }
        other => panic!("{:?}", other),
    }
    match plan_movie(Some(StreamingService::Netflix), &vec![hit("https://n/1", true)]) {
        MoviePlan::SeasonMenu(menu) => {
            assert_eq!(menu.len(), 2);
            assert_eq!((menu[1].label.as_str(), menu[1].value.as_str()), ("Season 2", "22"));
        }
        other => panic!("{:?}", other),
    }
    assert!(matches!(plan_movie(Some(StreamingService::Netflix), &Vec::new()), MoviePlan::Nothing));
    assert!(matches!(plan_movie(Some(StreamingService::Fasel), &Vec::new()), MoviePlan::Nothing));
    assert!(matches!(plan_movie(None, &vec![hit("x", false)]), MoviePlan::Nothing));
}

#[test]
fn the_watch_command_lists_the_results() {
    assert_eq!(watch_heading("Dark"), "Here are movies for 'Dark'");
    assert_eq!(watch_hint("Netflix"), "Select a movie to watch on Netflix");
    let mut second = hit("https://n/2", false);
    second.title = "Other".to_string();
    let menu = movie_options(&vec![hit("https://n/1", false), second]);
    assert_eq!(menu.len(), 2);
    assert_eq!((menu[0].label.as_str(), menu[0].value.as_str()), ("T", "T"));
    assert_eq!((menu[1].label.as_str(), menu[1].value.as_str()), ("Other", "Other"));
}
