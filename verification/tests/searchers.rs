use movie_bot::mirror::ShowResult;
use movie_bot::searchers::{
    Candidate, EpisodeEdge, EpisodeNode, FaselSearcher, NetflixItem, NetflixSearcher,
    NetflixSummary, NetflixVideo, PlaylistPage, PlaylistWalk, SeasonEdge, SeasonNode,
    ShahidPlaylist, ShahidProduct, ShahidSearcher,
};

fn o(s: &str) -> Option<String> {
    Some(s.to_string())
}

fn item(id: Option<&str>, img: Option<&str>, name: Option<&str>) -> NetflixItem {
    NetflixItem {
        summary: Some(NetflixSummary {
            entity_id: id.map(|s| s.to_string()),
            img_url: img.map(|s| s.to_string()),
            display_string: name.map(|s| s.to_string()),
        }),
    }
}

fn product(title: Option<&str>, kind: Option<&str>, url: Option<&str>) -> ShahidProduct {
    ShahidProduct {
        title: title.map(|s| s.to_string()),
        product_type: kind.map(|s| s.to_string()),
        playlists: None,
        url: url.map(|s| s.to_string()),
    }
}

fn json_object(fields: Vec<(&str, serde_json::Value)>) -> serde_json::Value {
    let mut map = serde_json::Map::new();
    for (k, v) in fields {
        map.insert(k.to_string(), v);
    }
    serde_json::Value::Object(map)
}

fn text(s: &str) -> serde_json::Value {
    serde_json::Value::String(s.to_string())
}

fn number(n: u64) -> serde_json::Value {
    serde_json::Value::Number(n.into())
}

#[test]
fn addresses_of_the_services() {
    assert_eq!(FaselSearcher::search_url("dark"), "https://web184.faselhd.cafe/?s=dark");
    assert_eq!(NetflixSearcher::watch_url("80100172"), "https://netflix.com/watch/80100172");
}

#[test]
fn the_search_form_is_form_encoded() {
    let name = "The \"Dark\" & co + é";
    let head = format!(
        "[\"search\",\"query\",\"@@NAPA-49279779-77a7-46f8-a83a-f031d1ef037c\",\"{}\",",
        name
    );
    let fields: Vec<(&str, String)> = vec![
        ("path", format!("{}\"summary\"]", head)),
        ("path", format!("{}{{\"from\":0,\"to\":1}},\"summary\"]", head)),
        ("path", format!("{}{{\"from\":0,\"to\":1}},{{\"from\":0,\"to\":47}},\"summary\"]", head)),
        ("path", format!("{}{{\"from\":0,\"to\":1}},{{\"from\":0,\"to\":47}},\"reference\",[\"availability\",\"episodeCount\",\"inRemindMeList\",\"itemSummary\",\"queue\",\"summary\"]]", head)),
        ("authURL", "1739263844285.2XpQna0eN71gFJg+gzS5ycqyaAo=".to_string()),
    ];
    let expected = serde_urlencoded::to_string(&fields).unwrap();
    let made = NetflixSearcher::create_form_data(name).unwrap();
    assert_eq!(made, expected);
    assert!(made.starts_with("path=%5B%22search%22%2C%22query%22%2C%22%40%40NAPA-49279779"));
    assert!(made.contains("The+%5C%22Dark") || made.contains("The+%22Dark%22+%26+co+%2B+%C3%A9"));
    assert!(made.ends_with("&authURL=1739263844285.2XpQna0eN71gFJg%2BgzS5ycqyaAo%3D"));
}

fn request_of(url: &str) -> serde_json::Value {
    let start = url.find("request=").unwrap() + "request=".len();
    let end = url[start..].find('&').unwrap() + start;
    let decoded = urlencoding::decode(&url[start..end]).unwrap();
    serde_json::from_str(&decoded).unwrap()
}

#[test]
fn the_questions_to_netflix_are_json() {
    let id = "80\"1\\7\n";
    let expected = json_object(vec![
        ("operationName", text("PreviewModalEpisodeSelector")),
        ("variables", json_object(vec![("showId", text(id)), ("seasonCount", number(30))])),
        (
            "extensions",
            json_object(vec![(
                "persistedQuery",
                json_object(vec![
                    ("id", text("7515a9d0-9422-4bbd-b7fe-aefa7f17ef5a")),
                    ("version", number(102)),
                ]),
            )]),
        ),
    ]);
    let made = NetflixSearcher::show_query(id).unwrap();
    assert_eq!(
        made,
        "{\"operationName\":\"PreviewModalEpisodeSelector\",\"variables\":{\"showId\":\"80\\\"1\\\\7\\n\",\"seasonCount\":30},\"extensions\":{\"persistedQuery\":{\"id\":\"7515a9d0-9422-4bbd-b7fe-aefa7f17ef5a\",\"version\":102}}}"
    );
    assert_eq!(serde_json::from_str::<serde_json::Value>(&made).unwrap(), expected);
    let expected = json_object(vec![
        ("operationName", text("PreviewModalEpisodeSelectorSeasonEpisodes")),
        (
            "variables",
            json_object(vec![
                ("seasonId", text("81")),
                ("count", number(30)),
                ("opaqueImageFormat", text("WEBP")),
                ("artworkContext", json_object(vec![])),
            ]),
        ),
        (
            "extensions",
            json_object(vec![(
                "persistedQuery",
                json_object(vec![
                    ("id", text("380568aa-ec71-479c-832e-2e1f0ec13ec2")),
                    ("version", number(102)),
                ]),
            )]),
        ),
    ]);
    let made = NetflixSearcher::episodes_query("81").unwrap();
    assert_eq!(
        made,
        "{\"operationName\":\"PreviewModalEpisodeSelectorSeasonEpisodes\",\"variables\":{\"seasonId\":\"81\",\"count\":30,\"opaqueImageFormat\":\"WEBP\",\"artworkContext\":{}},\"extensions\":{\"persistedQuery\":{\"id\":\"380568aa-ec71-479c-832e-2e1f0ec13ec2\",\"version\":102}}}"
    );
    assert_eq!(serde_json::from_str::<serde_json::Value>(&made).unwrap(), expected);
}

#[test]
fn the_addresses_of_shahid_hold_an_encoded_request() {
    let name = "كامل العدد \"x\"";
    let expected = json_object(vec![
        ("name", text(name)),
        ("pageNumber", number(0)),
        ("pageSize", number(24)),
    ]);
    let url = ShahidSearcher::search_url(name).unwrap();
    assert!(url.starts_with("https://api3.shahid.net/proxy/v2.1/t-search?request=%7B%22name%22%3A%22%D9%83"));
    assert!(url.ends_with("%2C%22pageNumber%22%3A0%2C%22pageSize%22%3A24%7D&exactMatch=false&country=EG"));
    assert_eq!(request_of(&url), expected);
    let request = format!("{{\"name\":{},\"pageNumber\":0,\"pageSize\":24}}", text(name));
    assert_eq!(
        url,
        format!(
            "https://api3.shahid.net/proxy/v2.1/t-search?request={}&exactMatch=false&country=EG",
            urlencoding::encode(&request)
        )
    );
    let expected = json_object(vec![
        ("pageNumber", number(3)),
        ("pageSize", number(6)),
        ("playListId", text("a/b c")),
        (
            "sorts",
            serde_json::Value::Array(vec![json_object(vec![
                ("order", text("DESC")),
                ("type", text("SORTDATE")),
            ])]),
        ),
        ("isDynamicPlaylist", serde_json::Value::Bool(false)),
    ]);
    let url = ShahidSearcher::format_shahid_playlist_url("a/b c", 3).unwrap();
    assert_eq!(request_of(&url), expected);
    assert!(url.contains("%22playListId%22%3A%22a%2Fb%20c%22"));
    assert_eq!(
        ShahidSearcher::format_shahid_playlist_url("p1", 0).unwrap(),
        "https://api3.shahid.net/proxy/v2.1/product/playlist?request=%7B%22pageNumber%22%3A0%2C%22pageSize%22%3A6%2C%22playListId%22%3A%22p1%22%2C%22sorts%22%3A%5B%7B%22order%22%3A%22DESC%22%2C%22type%22%3A%22SORTDATE%22%7D%5D%2C%22isDynamicPlaylist%22%3Afalse%7D&country=EG"
    );
}

#[test]
fn only_results_with_a_poster_are_candidates() {
    let mut items = vec![
        item(Some("1"), Some("https://img/1"), Some("One")),
        item(Some("2"), Some(""), Some("Two")),
        item(Some("3"), None, Some("Three")),
        NetflixItem { summary: None },
        item(None, Some("https://img/5"), None),
    ];
    let found = NetflixSearcher::candidates(&items);
    assert_eq!(found.len(), 2);
    assert_eq!(
        (found[0].entity_id.as_str(), found[0].image_url.as_str(), found[0].title.as_str()),
        ("1", "https://img/1", "One")
    );
    assert_eq!(
        (found[1].entity_id.as_str(), found[1].image_url.as_str(), found[1].title.as_str()),
        ("", "https://img/5", "")
    );
    for n in 10..30 {
        items.push(item(Some(&n.to_string()), Some("https://img/x"), Some("More")));
    }
    let found = NetflixSearcher::candidates(&items);
    assert_eq!(found.len(), 9);
    assert_eq!(found[8].entity_id, "16");
    assert!(NetflixSearcher::candidates(&Vec::new()).is_empty());
}

#[test]
fn a_title_with_seasons_is_a_show() {
    let videos = vec![NetflixVideo {
        season_edges: Some(vec![
            SeasonEdge { node: Some(SeasonNode { title: o("Season 1"), video_id: Some(81) }) },
            SeasonEdge { node: None },
            SeasonEdge { node: Some(SeasonNode { title: None, video_id: None }) },
        ]),
    }];
    let show = NetflixSearcher::is_show("80", Some(&videos));
    assert!(show.is_show);
    assert_eq!(show.movie_id, "80");
    assert_eq!(show.seasons.len(), 2);
    assert_eq!((show.seasons[0].title.as_str(), show.seasons[0].season_id.as_str()), ("Season 1", "81"));
    assert_eq!(
        (show.seasons[1].title.as_str(), show.seasons[1].season_id.as_str()),
        ("Unknown Season", "Unknown")
    );
    let empty_list = vec![NetflixVideo { season_edges: Some(Vec::new()) }];
    assert!(NetflixSearcher::is_show("80", Some(&empty_list)).is_show);
}

#[test]
fn a_title_without_seasons_is_a_movie() {
    for videos in [None, Some(Vec::new()), Some(vec![NetflixVideo { season_edges: None }])] {
        let show = NetflixSearcher::is_show("80", videos.as_ref());
        assert!(!show.is_show);
        assert_eq!(show.movie_id, "80");
        assert!(show.seasons.is_empty());
    }
}

#[test]
fn episodes_are_filled_in_where_netflix_leaves_gaps() {
    let edges = vec![
        EpisodeEdge { node: Some(EpisodeNode { title: o("Pilot"), number: Some(1), video_id: Some(700) }) },
        EpisodeEdge { node: None },
        EpisodeEdge { node: Some(EpisodeNode { title: None, number: None, video_id: None }) },
    ];
    let episodes = NetflixSearcher::get_episodes_for_shows(&edges);
    assert_eq!(episodes.len(), 2);
    assert_eq!((episodes[0].number, episodes[0].title.as_str(), episodes[0].video_id), (1, "Pilot", 700));
    assert_eq!((episodes[1].number, episodes[1].title.as_str(), episodes[1].video_id), (0, "Unknown", 0));
}

#[test]
fn a_netflix_hit_links_to_the_player() {
    let candidate = Candidate {
        entity_id: "80100172".to_string(),
        image_url: "https://img/1".to_string(),
        title: "Dark".to_string(),
    };
    let show = ShowResult { is_show: false, movie_id: "80100172".to_string(), seasons: Vec::new() };
    let hit = NetflixSearcher::search(candidate, show);
    assert_eq!(hit.link, "https://netflix.com/watch/80100172");
    assert_eq!(hit.image_url, "https://img/1");
    assert_eq!(hit.title, "Dark");
    assert!(!hit.show.is_show);
}

#[test]
fn shahid_products_become_hits() {
    let mut show = product(Some("Kamel"), Some("show"), None);
    show.playlists = Some(vec![
        ShahidPlaylist { title: o("Trailers"), id: o("t1") },
        ShahidPlaylist { title: o("Episodes"), id: o("e1") },
        ShahidPlaylist { title: o("Episodes"), id: o("e2") },
    ]);
    let mut broken = product(None, None, None);
    broken.playlists = Some(vec![
        ShahidPlaylist { title: o("Episodes"), id: None },
        ShahidPlaylist { title: o("Episodes"), id: o("late") },
    ]);
    let movie = product(Some("Film"), Some("movie"), None);
    let hits = ShahidSearcher::search(Some(&vec![show, broken, movie])).unwrap();
    assert_eq!(hits.len(), 3);
    assert_eq!(
        (hits[0].title.as_str(), hits[0].playlist_id.as_str(), hits[0].product_type.as_str(), hits[0].is_show),
        ("Kamel", "e1", "show", true)
    );
    assert_eq!(
        (hits[1].title.as_str(), hits[1].playlist_id.as_str(), hits[1].product_type.as_str(), hits[1].is_show),
        ("Unknown", "No ID found", "", false)
    );
    assert_eq!(
        (hits[2].title.as_str(), hits[2].playlist_id.as_str(), hits[2].product_type.as_str(), hits[2].is_show),
        ("Film", "No ID found", "movie", false)
    );
    assert!(ShahidSearcher::search(Some(&Vec::new())).unwrap().is_empty());
    assert_eq!(ShahidSearcher::search(None).unwrap_err(), "No products found");
}

#[test]
fn a_playlist_is_walked_page_by_page() {
    let mut walk = PlaylistWalk::fetch_shahid_playlist("p1".to_string());
    assert_eq!(walk.next_request(), ShahidSearcher::format_shahid_playlist_url("p1", 0));
    walk.absorb(PlaylistPage::Products(Some(vec![
        product(Some("E1"), None, Some("https://s/1")),
        product(None, None, None),
    ])));
    assert!(!walk.done);
    assert_eq!(walk.page, 1);
    assert_eq!(walk.next_request(), ShahidSearcher::format_shahid_playlist_url("p1", 1));
    walk.absorb(PlaylistPage::Products(Some(vec![product(Some("E3"), None, Some("https://s/3"))])));
    assert_eq!(walk.page, 2);
    walk.absorb(PlaylistPage::Products(Some(Vec::new())));
    assert!(walk.done);
    assert_eq!(walk.page, 2);
    assert_eq!(walk.next_request(), None);
    let entries: Vec<(&str, &str)> =
        walk.entries.iter().map(|e| (e.url.as_str(), e.title.as_str())).collect();
    assert_eq!(entries, vec![("https://s/1", "E1"), ("", ""), ("https://s/3", "E3")]);
    walk.absorb(PlaylistPage::Products(Some(vec![product(Some("late"), None, None)])));
    assert_eq!(walk.entries.len(), 3);
}

#[test]
fn a_refused_page_ends_the_walk() {
    let mut walk = PlaylistWalk::fetch_shahid_playlist("p1".to_string());
    walk.absorb(PlaylistPage::Refused);
    assert!(walk.done);
    assert!(walk.entries.is_empty());
    let mut walk = PlaylistWalk::fetch_shahid_playlist("p1".to_string());
    walk.absorb(PlaylistPage::Products(None));
    assert!(walk.done);
}

#[test]
fn fasel_results_pair_posts_with_posters() {
    let html = "<html><body>\
        <div class=\"postDiv\"><a href=\"https://f/1\"><div class=\"imgdiv-class\"><img data-src=\"https://i/1.jpg\"></div>\
        <div class=\"h1\">  فيلم Dark <b>2</b> مترجم </div></a></div>\
        <div class=\"postDiv\"><span>no link</span><div class=\"imgdiv-class\"><img data-src=\"https://i/2.jpg\"></div></div>\
        <div class=\"postDiv\"><a href=\"https://f/3\"><div class=\"imgdiv-class\"><img></div></a></div>\
        </body></html>";
    let hits = FaselSearcher::results(html).unwrap();
    assert_eq!(hits.len(), 2);
    assert_eq!(hits[0].link, "https://f/1");
    assert_eq!(hits[0].image_url, "https://i/1.jpg");
    assert_eq!(hits[0].title, " Dark 2 ");
    assert!(!hits[0].show.is_show);
    assert_eq!(hits[0].show.movie_id, "0");
    assert_eq!(hits[1].link, "https://f/3");
    assert_eq!(hits[1].image_url, "");
    assert_eq!(hits[1].title, "Unknown");
    assert!(FaselSearcher::results("<html></html>").unwrap().is_empty());
}

#[test]
fn fasel_shows_no_more_than_nine_results() {
    let mut html = String::from("<html><body>");
    for n in 0..12 {
        html.push_str(&format!(
            "<div class=\"postDiv\"><a href=\"https://f/{}\"><div class=\"imgdiv-class\"><img data-src=\"i{}\"></div><div class=\"h1\">T{}</div></a></div>",
            n, n, n
        ));
    }
    html.push_str("</body></html>");
    let hits = FaselSearcher::results(&html).unwrap();
    assert_eq!(hits.len(), 9);
    assert_eq!(hits[8].link, "https://f/8");
    assert_eq!(hits[8].image_url, "i8");
    assert_eq!(hits[8].title, "T8");
}
