use movie_bot::catalog::{
    catalog_items, find_url, pick_found, search_results_message, search_url, season_detail_url,
    show_detail_url, year_of_date, CatalogItem, MediaKind, ProviderRecord,
};
use movie_bot::lookups::{
    answer_find, answer_search, key_state, plan_find, plan_search, preview_path_of, KeyState,
    Lookup,
};
use movie_bot::catalog::id_text;

fn record(id: i32, kind: &str, title: Option<&str>, name: Option<&str>) -> ProviderRecord {
    ProviderRecord {
        id,
        title: title.map(|s| s.to_string()),
        name: name.map(|s| s.to_string()),
        media_type: kind.to_string(),
        overview: None,
        release_date: None,
        first_air_date: None,
    }
}

fn inception() -> ProviderRecord {
    let mut r = record(27205, "movie", Some("Inception"), None);
    r.release_date = Some("2010-07-15".to_string());
    r
}

#[test]
fn inception_is_rendered_as_first_result() {
    let items = catalog_items(&vec![inception()]);
    assert_eq!(items.len(), 1);
    assert_eq!(items[0].provider_id, 27205);
    assert_eq!(items[0].kind, MediaKind::Movie);
    assert_eq!(items[0].primary_title, "Inception");
    assert_eq!(items[0].release_year, Some("2010".to_string()));
    assert_eq!(items[0].result_line(1), "1. Movie: Inception (2010)");
    assert_eq!(
        answer_search(Some(&vec![inception()])),
        "Search Results (Top 5):\n1. Movie: Inception (2010)\n"
    );
}

#[test]
fn only_the_first_five_results_are_listed() {
    let mut records = Vec::new();
    for i in 0..7 {
        records.push(record(i, "tv", None, Some("Show")));
    }
    let items = catalog_items(&records);
    assert_eq!(items.len(), 7);
    let text = search_results_message(&items);
    assert_eq!(
        text,
        "Search Results (Top 5):\n1. TV Show: Show (N/A)\n2. TV Show: Show (N/A)\n\
         3. TV Show: Show (N/A)\n4. TV Show: Show (N/A)\n5. TV Show: Show (N/A)\n"
    );
}

#[test]
fn records_that_are_no_titles_are_left_out() {
    let records = vec![
        record(1, "person", None, Some("Somebody")),
        record(2, "tv", None, Some("A Show")),
        record(3, "movie", Some("A Movie"), None),
    ];
    let items = catalog_items(&records);
    assert_eq!(items.len(), 2);
    assert_eq!(items[0].provider_id, 2);
    assert_eq!(items[0].kind, MediaKind::Show);
    assert_eq!(items[1].provider_id, 3);
    assert!(CatalogItem::from_record(&records[0]).is_none());
}

#[test]
fn empty_search_result_is_not_an_error() {
    assert_eq!(answer_search(Some(&Vec::new())), "No results found for your query.");
    assert_eq!(
        answer_search(Some(&vec![record(1, "person", None, None)])),
        "No results found for your query."
    );
    assert_eq!(answer_search(None), "Error searching TMDB. Please try again later.");
}

#[test]
fn year_is_what_stands_before_the_first_separator() {
    assert_eq!(year_of_date("2010-07-15"), "2010");
    assert_eq!(year_of_date("2010"), "2010");
    assert_eq!(year_of_date(""), "");
    assert_eq!(year_of_date("-07"), "");
}

#[test]
fn first_air_date_stands_in_for_release_date() {
    let mut r = record(1396, "tv", None, Some("Breaking Bad"));
    r.first_air_date = Some("2008-01-20".to_string());
    let item = CatalogItem::from_record(&r).unwrap();
    assert_eq!(item.release_year, Some("2008".to_string()));
    assert_eq!(item.primary_title, "Breaking Bad");
    r.release_date = Some("1999-12-31".to_string());
    assert_eq!(
        CatalogItem::from_record(&r).unwrap().release_year,
        Some("1999".to_string())
    );
}

#[test]
fn external_id_resolves_to_first_movie_then_first_show() {
    let movies = vec![record(1, "", Some("M1"), None), record(2, "", Some("M2"), None)];
    let shows = vec![record(3, "", None, Some("S1"))];
    let found = pick_found(&movies, &shows).unwrap();
    assert_eq!((found.provider_id, found.kind), (1, MediaKind::Movie));
    let found = pick_found(&Vec::new(), &shows).unwrap();
    assert_eq!((found.provider_id, found.kind), (3, MediaKind::Show));
    assert_eq!(found.primary_title, "S1");
    assert!(pick_found(&Vec::new(), &Vec::new()).is_none());
}

#[test]
fn same_id_of_another_kind_is_another_title() {
    let movie = CatalogItem::of_kind(&record(7, "", Some("X"), None), MediaKind::Movie);
    let show = CatalogItem::of_kind(&record(7, "", Some("X"), None), MediaKind::Show);
    let again = CatalogItem::of_kind(&record(7, "", Some("Y"), None), MediaKind::Movie);
    assert!(!movie.same_title(&show));
    assert!(movie.same_title(&again));
}

#[test]
fn detail_has_overview_or_placeholder() {
    let mut r = inception();
    let item = CatalogItem::of_kind(&r, MediaKind::Movie);
    assert_eq!(
        item.detail(),
        "**Movie**: Inception (2010)\n**Overview**: No overview available."
    );
    r.overview = Some("A thief.".to_string());
    let item = CatalogItem::of_kind(&r, MediaKind::Movie);
    assert_eq!(item.detail(), "**Movie**: Inception (2010)\n**Overview**: A thief.");
    assert_eq!(
        answer_find(Some((&vec![r], &Vec::new()))),
        "**Movie**: Inception (2010)\n**Overview**: A thief."
    );
    assert_eq!(
        answer_find(Some((&Vec::new(), &Vec::new()))),
        "No media found for that IMDB ID."
    );
    assert_eq!(
        answer_find(None),
        "Error fetching details from TMDB. Please try again later."
    );
}

#[test]
fn provider_addresses() {
    assert_eq!(
        search_url("KEY", "Inception"),
        "https://api.themoviedb.org/3/search/multi?api_key=KEY&query=Inception"
    );
    assert_eq!(
        find_url("KEY", "tt0903747"),
        "https://api.themoviedb.org/3/find/tt0903747?api_key=KEY&external_source=imdb_id"
    );
    assert_eq!(
        show_detail_url("KEY", 1396),
        "https://api.themoviedb.org/3/tv/1396?api_key=KEY"
    );
    assert_eq!(
        season_detail_url("KEY", 1396, 2),
        "https://api.themoviedb.org/3/tv/1396/season/2?api_key=KEY"
    );
    assert_eq!(
        show_detail_url("K", -5),
        "https://api.themoviedb.org/3/tv/-5?api_key=K"
    );
}

#[test]
fn missing_or_empty_key_is_reported_not_fatal() {
    assert_eq!(key_state(None), KeyState::Missing);
    assert_eq!(key_state(Some("")), KeyState::Empty);
    assert_eq!(key_state(Some("k")), KeyState::Present);
    match plan_search("Inception", None) {
        Lookup::Reply(text) => assert_eq!(
            text,
            "TMDB API key not configured. Please contact the bot administrator."
        ),
        Lookup::Fetch(_) => panic!("no key, no request"),
    }
    match plan_search("Inception", Some("")) {
        Lookup::Reply(text) => assert_eq!(
            text,
            "TMDB API key is configured but empty. Please contact the bot administrator."
        ),
        Lookup::Fetch(_) => panic!("empty key, no request"),
    }
    match plan_search("", Some("k")) {
        Lookup::Reply(text) => assert_eq!(text, "Please enter a search query."),
        Lookup::Fetch(_) => panic!("no query, no request"),
    }
    match plan_search("Inception", Some("k")) {
        Lookup::Fetch(url) => assert_eq!(
            url,
            "https://api.themoviedb.org/3/search/multi?api_key=k&query=Inception"
        ),
        Lookup::Reply(_) => panic!("a request was due"),
    }
}

#[test]
fn lookup_checks_the_identifier_first() {
    match plan_find("0903747", None) {
        Lookup::Reply(text) => {
            assert_eq!(text, "Invalid IMDB ID format. It should start with 'tt'.")
        }
        Lookup::Fetch(_) => panic!("bad identifier, no request"),
    }
    match plan_find("tt", Some("k")) {
        Lookup::Reply(text) => {
            assert_eq!(text, "Invalid IMDB ID format. It should start with 'tt'.")
        }
        Lookup::Fetch(_) => panic!("bad identifier, no request"),
    }
    match plan_find("tt0903747", Some("k")) {
        Lookup::Fetch(url) => assert_eq!(
            url,
            "https://api.themoviedb.org/3/find/tt0903747?api_key=k&external_source=imdb_id"
        ),
        Lookup::Reply(_) => panic!("a request was due"),
    }
}

#[test]
fn preview_looks_at_the_first_episode_of_a_show() {
    let movie = CatalogItem::of_kind(&record(27205, "", Some("Inception"), None), MediaKind::Movie);
    let show = CatalogItem::of_kind(&record(1396, "", None, Some("BB")), MediaKind::Show);
    assert_eq!(preview_path_of(&movie), Some("/embed/movie/27205".to_string()));
    assert_eq!(preview_path_of(&show), Some("/embed/tv/1396/1-1".to_string()));
}

#[test]
fn provider_tags_and_identifiers() {
    assert_eq!(MediaKind::from_tag("movie"), Some(MediaKind::Movie));
    assert_eq!(MediaKind::from_tag("tv"), Some(MediaKind::Show));
    assert_eq!(MediaKind::from_tag("person"), None);
    assert_eq!(MediaKind::from_tag("Movie"), None);
    assert_eq!(MediaKind::from_tag(""), None);
    assert_eq!(MediaKind::Movie.label(), "Movie");
    assert_eq!(MediaKind::Show.label(), "TV Show");
    assert_eq!(id_text(27205), "27205");
    assert_eq!(id_text(0), "0");
    assert_eq!(id_text(-7), "-7");
    assert_eq!(id_text(i32::MIN), "-2147483648");
}
