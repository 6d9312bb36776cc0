use movie_bot::catalog::MediaKind;
use movie_bot::resolver::{
    default_mirrors, embed_of_page, resolve_player_page, status_is_success, title_path,
    upgrade_scheme, FetchOutcome, Probe, ProbeStep,
};
use movie_bot::markup::first_of_list;
use movie_bot::resolver::embed_from_source;

fn page(src: &str) -> FetchOutcome {
    FetchOutcome::Response {
        status: 200,
        body: format!("<html><body><iframe src=\"{}\"></iframe></body></html>", src),
    }
}

fn mirrors() -> Vec<String> {
    vec!["https://a.example".to_string(), "https://b.example".to_string()]
}

#[test]
fn default_mirror_order() {
    assert_eq!(default_mirrors(), vec!["https://vidsrc.to", "https://vidsrc.me"]);
}

#[test]
fn paths_by_kind() {
    assert_eq!(
        title_path(MediaKind::Movie, 27205, None, None),
        Some("/embed/movie/27205".to_string())
    );
    assert_eq!(
        title_path(MediaKind::Movie, 27205, Some(1), Some(2)),
        Some("/embed/movie/27205".to_string())
    );
    assert_eq!(
        title_path(MediaKind::Show, 1396, Some(2), Some(13)),
        Some("/embed/tv/1396/2-13".to_string())
    );
}

#[test]
fn show_without_season_and_episode_has_no_path() {
    assert_eq!(title_path(MediaKind::Show, 1396, None, None), None);
    assert_eq!(title_path(MediaKind::Show, 1396, Some(1), None), None);
    assert_eq!(title_path(MediaKind::Show, 1396, None, Some(1)), None);
}

#[test]
fn scheme_relative_source_is_upgraded() {
    assert_eq!(upgrade_scheme("//player.vidsrc.to/x"), "https://player.vidsrc.to/x");
    assert_eq!(upgrade_scheme("https://player.vidsrc.to/x"), "https://player.vidsrc.to/x");
    assert_eq!(upgrade_scheme("/x"), "/x");
}

#[test]
fn embed_marker_is_found_by_source_fragment() {
    let html = "<html><body><iframe src=\"https://ads.example/x\"></iframe>\
                <iframe src=\"//vidsrc.xyz/player/abc\"></iframe>\
                <iframe src=\"https://2embed.example/second\"></iframe></body></html>";
    assert_eq!(embed_of_page(html), Some("https://vidsrc.xyz/player/abc".to_string()));
    assert_eq!(
        embed_of_page("<html><body><iframe src=\"https://ads.example/x\"></iframe></body></html>"),
        None
    );
    assert_eq!(embed_of_page(""), None);
}

#[test]
fn success_is_any_status_from_200_to_299() {
    assert!(status_is_success(200));
    assert!(status_is_success(299));
    assert!(!status_is_success(199));
    assert!(!status_is_success(300));
    assert!(!status_is_success(404));
}

#[test]
fn first_mirror_with_a_marker_wins() {
    let path = Some("/embed/movie/1".to_string());
    let both = vec![page("https://2embed.example/one"), page("https://2embed.example/two")];
    assert_eq!(
        resolve_player_page(mirrors(), path.clone(), &both),
        Some("https://2embed.example/one".to_string())
    );
    let first_down = vec![FetchOutcome::Unreachable, page("https://2embed.example/two")];
    assert_eq!(
        resolve_player_page(mirrors(), path.clone(), &first_down),
        Some("https://2embed.example/two".to_string())
    );
    let first_refuses = vec![
        FetchOutcome::Response { status: 503, body: "<iframe src=\"https://2embed.example/no\"></iframe>".to_string() },
        page("https://2embed.example/two"),
    ];
    assert_eq!(
        resolve_player_page(mirrors(), path.clone(), &first_refuses),
        Some("https://2embed.example/two".to_string())
    );
    let first_unmarked = vec![page("https://ads.example/x"), page("//player.vidsrc.to/two")];
    assert_eq!(
        resolve_player_page(mirrors(), path.clone(), &first_unmarked),
        Some("https://player.vidsrc.to/two".to_string())
    );
}

#[test]
fn no_mirror_with_a_marker_is_no_locator() {
    let path = Some("/embed/movie/1".to_string());
    let none = vec![FetchOutcome::Unreachable, page("https://ads.example/x")];
    assert_eq!(resolve_player_page(mirrors(), path.clone(), &none), None);
    assert_eq!(resolve_player_page(mirrors(), path.clone(), &Vec::new()), None);
    assert_eq!(resolve_player_page(Vec::new(), path, &vec![page("https://2embed.example/one")]), None);
    assert_eq!(
        resolve_player_page(mirrors(), None, &vec![page("https://2embed.example/one")]),
        None
    );
}

#[test]
fn probe_asks_for_one_mirror_at_a_time() {
    let (mut probe, step) = Probe::start(mirrors(), Some("/embed/tv/9/1-2".to_string()));
    match step {
        ProbeStep::Fetch(url) => assert_eq!(url, "https://a.example/embed/tv/9/1-2"),
        ProbeStep::Finished(_) => panic!("a fetch was due"),
    }
    match probe.advance(&FetchOutcome::Response { status: 404, body: String::new() }) {
        ProbeStep::Fetch(url) => assert_eq!(url, "https://b.example/embed/tv/9/1-2"),
        ProbeStep::Finished(_) => panic!("a second fetch was due"),
    }
    match probe.advance(&page("https://2embed.example/p")) {
        ProbeStep::Finished(found) => assert_eq!(found, Some("https://2embed.example/p".to_string())),
        ProbeStep::Fetch(_) => panic!("the run was over"),
    }
    match probe.advance(&page("https://2embed.example/late")) {
        ProbeStep::Finished(found) => assert_eq!(found, None),
        ProbeStep::Fetch(_) => panic!("the run was over"),
    }
}

#[test]
fn probe_without_path_makes_no_request() {
    let (probe, step) = Probe::start(mirrors(), None);
    assert!(probe.pending.is_none());
    match step {
        ProbeStep::Finished(found) => assert_eq!(found, None),
        ProbeStep::Fetch(_) => panic!("no request was due"),
    }
}

#[test]
fn probe_ends_without_result_after_the_last_mirror() {
    let (mut probe, _) = Probe::start(mirrors(), Some("/p".to_string()));
    let _ = probe.advance(&FetchOutcome::Unreachable);
    match probe.advance(&FetchOutcome::Unreachable) {
        ProbeStep::Finished(found) => assert_eq!(found, None),
        ProbeStep::Fetch(_) => panic!("no mirror was left"),
    }
}

#[test]
fn only_the_first_marked_element_counts() {
    assert_eq!(first_of_list(vec![None, Some("late".to_string())]), None);
    assert_eq!(first_of_list(vec![Some("a".to_string()), Some("b".to_string())]), Some("a".to_string()));
    assert_eq!(first_of_list(Vec::new()), None);
    assert_eq!(embed_from_source(Some("//h/p".to_string())), Some("https://h/p".to_string()));
    assert_eq!(embed_from_source(Some("http://h/p".to_string())), Some("http://h/p".to_string()));
    assert_eq!(embed_from_source(None), None);
}
