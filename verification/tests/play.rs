use movie_bot::catalog::{EpisodeSummary, ProviderRecord, SeasonDetail, SeasonSummary, ShowDetail};
use movie_bot::commands::Scene;
use movie_bot::play::{PlayAction, PlayEvent, PlayFlow, PlayStage, PlayStep};
use movie_bot::playback::PlaybackSession;
use movie_bot::resolver::FetchOutcome;
use movie_bot::selection::SelectorState;

fn voice() -> Scene {
    Scene { in_server: true, connected: true, author_channel: Some(77) }
}

fn mirrors() -> Vec<String> {
    vec!["https://a.example".to_string(), "https://b.example".to_string()]
}

fn record(id: i32, title: Option<&str>, name: Option<&str>) -> ProviderRecord {
    ProviderRecord {
        id,
        title: title.map(|s| s.to_string()),
        name: name.map(|s| s.to_string()),
        media_type: String::new(),
        overview: None,
        release_date: None,
        first_air_date: None,
    }
}

fn breaking_bad() -> ShowDetail {
    ShowDetail {
        provider_id: 1396,
        display_name: "Breaking Bad".to_string(),
        season_count: 5,
        seasons: (1..=5)
            .map(|n| SeasonSummary { season_number: n, episode_count: 13, overview: None })
            .collect(),
    }
}

fn season_two() -> SeasonDetail {
    SeasonDetail {
        season_number: 2,
        display_name: "Season 2".to_string(),
        episodes: (1..=13)
            .map(|n| EpisodeSummary { episode_number: n, title: format!("Part {}", n), overview: None })
            .collect(),
    }
}

fn page(body: &str) -> FetchOutcome {
    FetchOutcome::Response { status: 200, body: body.to_string() }
}

fn said(step: &PlayStep) -> Vec<&str> {
    step.say.iter().map(|s| s.as_str()).collect()
}

fn open(id: &str, scene: Scene, key: Option<&str>) -> (PlayFlow, PlayStep) {
    PlayFlow::open(id.to_string(), scene, key.map(|k| k.to_string()), mirrors())
}

fn show_flow() -> (PlayFlow, PlaybackSession) {
    let mut session = PlaybackSession::new();
    let (mut flow, _) = open("tt0903747", voice(), Some("KEY"));
    let _ = flow.handle(
        PlayEvent::Found { movies: Vec::new(), shows: vec![record(1396, None, Some("Breaking Bad"))] },
        &mut session,
    );
    let _ = flow.handle(PlayEvent::ShowLoaded(breaking_bad()), &mut session);
    (flow, session)
}

#[test]
fn an_unlisted_episode_ends_the_flow_before_any_mirror_is_asked() {
    let mut session = PlaybackSession::new();
    let (mut flow, step) = open("tt0903747", voice(), Some("KEY"));
    assert_eq!(flow.stage, PlayStage::Finding);
    match &step.next {
        PlayAction::Request(url) => assert_eq!(
            url,
            "https://api.themoviedb.org/3/find/tt0903747?api_key=KEY&external_source=imdb_id"
        ),
        other => panic!("{:?}", other),
    }
    let step = flow.handle(
        PlayEvent::Found { movies: Vec::new(), shows: vec![record(1396, None, Some("Breaking Bad"))] },
        &mut session,
    );
    assert_eq!(flow.stage, PlayStage::LoadingShow);
    match &step.next {
        PlayAction::Request(url) => {
            assert_eq!(url, "https://api.themoviedb.org/3/tv/1396?api_key=KEY")
        }
        other => panic!("{:?}", other),
    }
    let step = flow.handle(PlayEvent::ShowLoaded(breaking_bad()), &mut session);
    assert_eq!(flow.stage, PlayStage::Choosing);
    assert!(matches!(step.next, PlayAction::AwaitReply));
    assert_eq!(
        said(&step),
        vec![
            "Found TV Show: Breaking Bad. It has 5 seasons.\nAvailable seasons: 1, 2, 3, 4, 5.\n\
             Please reply with the season number (e.g., '1') you want to watch."
        ]
    );
    let step = flow.handle(PlayEvent::Reply("2".to_string()), &mut session);
    assert!(step.say.is_empty());
    match &step.next {
        PlayAction::Request(url) => {
            assert_eq!(url, "https://api.themoviedb.org/3/tv/1396/season/2?api_key=KEY")
        }
        other => panic!("{:?}", other),
    }
    let step = flow.handle(PlayEvent::SeasonLoaded(season_two()), &mut session);
    assert!(matches!(step.next, PlayAction::AwaitReply));
    assert_eq!(
        said(&step),
        vec![
            "Season 2. Episodes (up to 10 shown):\n1. Part 1\n2. Part 2\n3. Part 3\n4. Part 4\n\
             5. Part 5\n6. Part 6\n7. Part 7\n8. Part 8\n9. Part 9\n10. Part 10\n...\n\
             Please reply with the episode number (1-13)."
        ]
    );
    let step = flow.handle(PlayEvent::Reply("99".to_string()), &mut session);
    assert_eq!(said(&step), vec!["Invalid episode number or selection timed out."]);
    assert!(matches!(step.next, PlayAction::End));
    assert_eq!(flow.stage, PlayStage::Ended);
    assert_eq!(flow.selector.as_ref().unwrap().state, SelectorState::Invalid);
    assert!(flow.probe.is_none());
    let step = flow.handle(PlayEvent::Reply("1".to_string()), &mut session);
    assert!(matches!(step.next, PlayAction::Ignore));
    assert!(step.say.is_empty());
    assert_eq!(session.current_title(), None);
}

#[test]
fn a_chosen_episode_is_located_extracted_and_played() {
    let (mut flow, mut session) = show_flow();
    let _ = flow.handle(PlayEvent::Reply("2".to_string()), &mut session);
    let _ = flow.handle(PlayEvent::SeasonLoaded(season_two()), &mut session);
    let step = flow.handle(PlayEvent::Reply("13".to_string()), &mut session);
    assert_eq!(flow.stage, PlayStage::Locating);
    match &step.next {
        PlayAction::Fetch(url) => assert_eq!(url, "https://a.example/embed/tv/1396/2-13"),
        other => panic!("{:?}", other),
    }
    let step = flow.handle(PlayEvent::Fetched(FetchOutcome::Unreachable), &mut session);
    match &step.next {
        PlayAction::Fetch(url) => assert_eq!(url, "https://b.example/embed/tv/1396/2-13"),
        other => panic!("{:?}", other),
    }
    let step = flow.handle(
        PlayEvent::Fetched(page("<iframe src=\"//player.vidsrc.to/e/abc\"></iframe>")),
        &mut session,
    );
    assert_eq!(flow.stage, PlayStage::Extracting);
    match &step.next {
        PlayAction::Fetch(url) => assert_eq!(url, "https://player.vidsrc.to/e/abc"),
        other => panic!("{:?}", other),
    }
    let step = flow.handle(
        PlayEvent::Fetched(page("<script>jw({file:\"https://cdn/x/master.m3u8\"})</script>")),
        &mut session,
    );
    assert_eq!(flow.stage, PlayStage::Starting);
    match &step.next {
        PlayAction::Start { title, media_url } => {
            assert_eq!(title, "Breaking Bad S2E13 (tt0903747)");
            assert_eq!(media_url, "https://cdn/x/master.m3u8");
        }
        other => panic!("{:?}", other),
    }
    assert_eq!(session.current_title(), None);
    session.begin("Earlier".to_string());
    let step = flow.handle(PlayEvent::Started, &mut session);
    assert_eq!(said(&step), vec!["Now playing: Breaking Bad S2E13 (tt0903747)"]);
    assert!(matches!(step.next, PlayAction::End));
    assert_eq!(session.current_title(), Some("Breaking Bad S2E13 (tt0903747)".to_string()));
    assert_eq!(flow.stage, PlayStage::Ended);
}

#[test]
fn a_movie_needs_no_choice() {
    let mut session = PlaybackSession::new();
    let (mut flow, _) = open("tt1375666", voice(), Some("KEY"));
    let step = flow.handle(
        PlayEvent::Found {
            movies: vec![record(27205, Some("Inception"), None)],
            shows: vec![record(1, None, Some("Other"))],
        },
        &mut session,
    );
    assert_eq!(flow.stage, PlayStage::Locating);
    match &step.next {
        PlayAction::Fetch(url) => assert_eq!(url, "https://a.example/embed/movie/27205"),
        other => panic!("{:?}", other),
    }
    let _ = flow.handle(
        PlayEvent::Fetched(page("<iframe src=\"https://2embed.cc/e\"></iframe>")),
        &mut session,
    );
    let step = flow.handle(
        PlayEvent::Fetched(page("<video src=\"https://cdn/i.mp4\"></video>")),
        &mut session,
    );
    match &step.next {
        PlayAction::Start { title, media_url } => {
            assert_eq!(title, "Inception (tt1375666)");
            assert_eq!(media_url, "https://cdn/i.mp4");
        }
        other => panic!("{:?}", other),
    }
}

#[test]
fn a_bad_identifier_ends_the_flow_at_once() {
    let (flow, step) = open("0903747", voice(), Some("KEY"));
    assert_eq!(said(&step), vec!["Invalid IMDB ID format. It should start with 'tt'."]);
    assert!(matches!(step.next, PlayAction::End));
    assert_eq!(flow.stage, PlayStage::Ended);
}

#[test]
fn the_flow_needs_a_server_and_a_voice_channel() {
    let outside = Scene { in_server: false, connected: false, author_channel: Some(1) };
    let (_, step) = open("tt1", outside, Some("KEY"));
    assert_eq!(said(&step), vec!["This command can only be used in a server."]);
    let alone = Scene { in_server: true, connected: false, author_channel: None };
    let (_, step) = open("tt1", alone, Some("KEY"));
    assert_eq!(
        said(&step),
        vec!["You are not in a voice channel. Please join one or use `m!join` first."]
    );
    assert!(matches!(step.next, PlayAction::End));
}

#[test]
fn the_bot_joins_the_author_first() {
    let mut session = PlaybackSession::new();
    let waiting = Scene { in_server: true, connected: false, author_channel: Some(77) };
    let (mut flow, step) = open("tt1", waiting, Some("KEY"));
    assert_eq!(flow.stage, PlayStage::Joining);
    assert!(matches!(step.next, PlayAction::Join { channel: 77 }));
    let step = flow.handle(PlayEvent::Joined, &mut session);
    assert_eq!(said(&step), vec!["Joined your voice channel: <#77>"]);
    assert!(matches!(step.next, PlayAction::Request(_)));
    assert_eq!(flow.stage, PlayStage::Finding);
    let (mut flow, _) = open("tt1", waiting, Some("KEY"));
    let step = flow.handle(PlayEvent::JoinFailed, &mut session);
    assert_eq!(said(&step), vec!["Failed to join your voice channel."]);
    assert_eq!(flow.stage, PlayStage::Ended);
    let (mut flow, _) = open("tt1", waiting, None);
    let step = flow.handle(PlayEvent::Joined, &mut session);
    assert_eq!(
        said(&step),
        vec!["Joined your voice channel: <#77>", "TMDB API key not configured or empty."]
    );
    assert!(matches!(step.next, PlayAction::End));
}

#[test]
fn a_missing_key_is_reported() {
    for key in [None, Some("")] {
        let (flow, step) = open("tt1", voice(), key);
        assert_eq!(said(&step), vec!["TMDB API key not configured or empty."]);
        assert_eq!(flow.stage, PlayStage::Ended);
    }
}

#[test]
fn catalog_failures_end_the_flow_with_a_message() {
    let mut session = PlaybackSession::new();
    let (mut flow, _) = open("tt1", voice(), Some("KEY"));
    let step = flow.handle(PlayEvent::CatalogFailed, &mut session);
    assert_eq!(said(&step), vec!["Error fetching media details."]);
    let (mut flow, _) = open("tt1", voice(), Some("KEY"));
    let step = flow.handle(PlayEvent::Found { movies: Vec::new(), shows: Vec::new() }, &mut session);
    assert_eq!(said(&step), vec!["No media found for that IMDB ID."]);
    let (mut flow, _) = open("tt1", voice(), Some("KEY"));
    let _ = flow.handle(
        PlayEvent::Found { movies: Vec::new(), shows: vec![record(5, None, Some("S"))] },
        &mut session,
    );
    let step = flow.handle(PlayEvent::CatalogFailed, &mut session);
    assert_eq!(said(&step), vec!["Could not fetch TV show details from TMDB."]);
    let (mut flow, mut session) = show_flow();
    let _ = flow.handle(PlayEvent::Reply("2".to_string()), &mut session);
    let step = flow.handle(PlayEvent::CatalogFailed, &mut session);
    assert_eq!(said(&step), vec!["Could not fetch season episodes from TMDB."]);
    assert_eq!(flow.stage, PlayStage::Ended);
}

#[test]
fn no_reply_ends_the_flow() {
    let (mut flow, mut session) = show_flow();
    let step = flow.handle(PlayEvent::NoReply, &mut session);
    assert_eq!(said(&step), vec!["No season selected in time."]);
    assert!(matches!(step.next, PlayAction::End));
    assert_eq!(flow.stage, PlayStage::Ended);
    assert_eq!(flow.selector.as_ref().unwrap().state, SelectorState::TimedOut);
    let step = flow.handle(PlayEvent::Reply("1".to_string()), &mut session);
    assert!(matches!(step.next, PlayAction::Ignore));
}

#[test]
fn a_show_without_seasons_ends_the_flow() {
    let mut session = PlaybackSession::new();
    let (mut flow, _) = open("tt1", voice(), Some("KEY"));
    let _ = flow.handle(
        PlayEvent::Found { movies: Vec::new(), shows: vec![record(5, None, Some("S"))] },
        &mut session,
    );
    let mut show = breaking_bad();
    show.seasons.clear();
    let step = flow.handle(PlayEvent::ShowLoaded(show), &mut session);
    assert_eq!(said(&step), vec!["TV Show: Breaking Bad has no seasons listed on TMDB."]);
    assert_eq!(flow.stage, PlayStage::Ended);
}

#[test]
fn no_locator_and_no_media_are_normal_outcomes() {
    let mut session = PlaybackSession::new();
    let (mut flow, _) = open("tt1", voice(), Some("KEY"));
    let _ = flow.handle(
        PlayEvent::Found { movies: vec![record(9, Some("M"), None)], shows: Vec::new() },
        &mut session,
    );
    let _ = flow.handle(PlayEvent::Fetched(page("<p>nothing</p>")), &mut session);
    let step = flow.handle(
        PlayEvent::Fetched(FetchOutcome::Response { status: 500, body: String::new() }),
        &mut session,
    );
    assert_eq!(
        said(&step),
        vec!["Could not find a VidSrc streaming page for the selected media/episode."]
    );
    assert_eq!(flow.stage, PlayStage::Ended);

    for (outcome, message) in [
        (page("<p>nothing</p>"), "Could not resolve a direct playable media URL."),
        (
            FetchOutcome::Response { status: 404, body: "<video src=\"x.mp4\"></video>".to_string() },
            "Could not resolve a direct playable media URL.",
        ),
        (FetchOutcome::Unreachable, "Error resolving direct media URL."),
    ] {
        let (mut flow, _) = open("tt1", voice(), Some("KEY"));
        let _ = flow.handle(
            PlayEvent::Found { movies: vec![record(9, Some("M"), None)], shows: Vec::new() },
            &mut session,
        );
        let _ = flow.handle(
            PlayEvent::Fetched(page("<iframe src=\"https://2embed.cc/e\"></iframe>")),
            &mut session,
        );
        let step = flow.handle(PlayEvent::Fetched(outcome), &mut session);
        assert_eq!(said(&step), vec![message]);
        assert_eq!(flow.stage, PlayStage::Ended);
    }
}

#[test]
fn a_stream_that_does_not_start_leaves_the_session_alone() {
    for (event, message) in [
        (PlayEvent::StartFailed("boom".to_string()), "Error creating stream source: boom"),
        (PlayEvent::NotConnected, "Not in a voice channel. Use `m!join` first."),
    ] {
        let mut session = PlaybackSession::new();
        session.begin("Earlier".to_string());
        let (mut flow, _) = open("tt1", voice(), Some("KEY"));
        let _ = flow.handle(
            PlayEvent::Found { movies: vec![record(9, Some("M"), None)], shows: Vec::new() },
            &mut session,
        );
        let _ = flow.handle(
            PlayEvent::Fetched(page("<iframe src=\"https://2embed.cc/e\"></iframe>")),
            &mut session,
        );
        let _ = flow.handle(PlayEvent::Fetched(page("<video src=\"x.mp4\"></video>")), &mut session);
        let step = flow.handle(event, &mut session);
        assert_eq!(said(&step), vec![message]);
        assert_eq!(session.current_title(), Some("Earlier".to_string()));
    }
}

#[test]
fn events_out_of_turn_are_ignored() {
    let mut session = PlaybackSession::new();
    let (mut flow, _) = open("tt1", voice(), Some("KEY"));
    for event in [PlayEvent::Started, PlayEvent::Joined, PlayEvent::NoReply, PlayEvent::Fetched(FetchOutcome::Unreachable)] {
        let step = flow.handle(event, &mut session);
        assert!(matches!(step.next, PlayAction::Ignore));
        assert_eq!(flow.stage, PlayStage::Finding);
    }
}
