//! The streaming services that the mirror can search: the requests that
//! each of them takes, and what is made of its answers.
//!
//! The requests are sent elsewhere, and their answers are decoded there into
//! the records of this module. A field that the service left out is `None`.

use vstd::prelude::*;
use vstd::string::StringExecFns;
use crate::decimal::{decimal, decimal_string};
use crate::encoding::{
    form_encode, form_text, json_quote, json_string, pair_views, percent_encode, percent_encoded,
};
use crate::markup::{
    all_attrs, nested_attrs, nested_texts, select_all_attr, select_nested_attr,
    select_nested_text,
};
use crate::mirror::{Episode, SearchHit, SeasonOption, ShowResult};
use crate::pattern::{regex_replace_all, regex_replaced};
use crate::text::{chars_of, str_eq, string_of, trim, trimmed};

verus! {

/// How many results a search shows.
pub const RESULT_LIMIT: usize = 9;

/// The selector of a result on the Fasel search page.
pub const FASEL_POST: &'static str = "div.postDiv";

/// The selector of the poster of a result on the Fasel search page.
pub const FASEL_IMAGE: &'static str = "div.imgdiv-class img";

/// The selector of the title inside a result on the Fasel search page.
pub const FASEL_TITLE: &'static str = "div.h1";

/// The regular expression of what is removed from a Fasel title.
pub const ARABIC_LETTERS: &'static str = "[\u{0600}-\u{06FF}]+";

/// The name of the playlist that holds the episodes of a Shahid show.
pub const EPISODES_PLAYLIST: &'static str = "Episodes";

/// Searches the Fasel site.
pub struct FaselSearcher;

/// Searches Netflix.
pub struct NetflixSearcher;

/// Searches Shahid.
pub struct ShahidSearcher;

/// The summary of one Netflix search result.
#[derive(Clone, Debug)]
pub struct NetflixSummary {
    /// The identifier of the title, as JSON text.
    pub entity_id: Option<String>,
    pub img_url: Option<String>,
    pub display_string: Option<String>,
}

/// One Netflix search result.
#[derive(Clone, Debug)]
pub struct NetflixItem {
    pub summary: Option<NetflixSummary>,
}

/// One Netflix search result that is shown.
#[derive(Clone, Debug)]
pub struct Candidate {
    pub entity_id: String,
    pub image_url: String,
    pub title: String,
}

/// One season as Netflix describes it.
#[derive(Clone, Debug)]
pub struct SeasonNode {
    pub title: Option<String>,
    pub video_id: Option<u64>,
}

/// One entry of the list of seasons of a Netflix title.
#[derive(Clone, Debug)]
pub struct SeasonEdge {
    pub node: Option<SeasonNode>,
}

/// One video in the answer to the question whether a title is a show.
#[derive(Clone, Debug)]
pub struct NetflixVideo {
    /// The seasons of the video, where it has any.
    pub season_edges: Option<Vec<SeasonEdge>>,
}

/// One episode as Netflix describes it.
#[derive(Clone, Debug)]
pub struct EpisodeNode {
    pub title: Option<String>,
    pub number: Option<i64>,
    pub video_id: Option<i64>,
}

/// One entry of the list of episodes of a Netflix season.
#[derive(Clone, Debug)]
pub struct EpisodeEdge {
    pub node: Option<EpisodeNode>,
}

/// One playlist of a Shahid product.
#[derive(Clone, Debug)]
pub struct ShahidPlaylist {
    pub title: Option<String>,
    pub id: Option<String>,
}

/// One product in an answer of Shahid.
#[derive(Clone, Debug)]
pub struct ShahidProduct {
    pub title: Option<String>,
    pub product_type: Option<String>,
    /// The playlists of the season of the product, where it has any.
    pub playlists: Option<Vec<ShahidPlaylist>>,
    /// The address of the product.
    pub url: Option<String>,
}

/// One result of a search on Shahid.
#[derive(Clone, Debug)]
pub struct ShahidHit {
    pub title: String,
    pub playlist_id: String,
    pub product_type: String,
    pub is_show: bool,
}

/// One entry of a Shahid playlist.
#[derive(Clone, Debug)]
pub struct PlaylistEntry {
    pub url: String,
    pub title: String,
}

/// What came of asking for one page of a Shahid playlist.
#[derive(Clone, Debug)]
pub enum PlaylistPage {
    /// The answer did not report success.
    Refused,
    /// The answer holds these products; `None` where it holds no list.
    Products(Option<Vec<ShahidProduct>>),
}

/// A walk through the pages of a Shahid playlist.
#[derive(Clone, Debug)]
pub struct PlaylistWalk {
    pub playlist_id: String,
    /// The number of the page that is awaited.
    pub page: usize,
    /// The entries of the pages read so far.
    pub entries: Vec<PlaylistEntry>,
    /// Whether the walk has ended.
    pub done: bool,
}

/// A text that may be missing, with what stands for it then.
pub open spec fn text_or(value: Option<String>, fallback: Seq<char>) -> Seq<char> {
    match value {
        Some(v) => v@,
        None => fallback,
    }
}

/// The address of the Fasel search page for `movie_name`.
pub open spec fn fasel_search_url(movie_name: Seq<char>) -> Seq<char> {
    "https://web184.faselhd.cafe/?s="@ + movie_name
}

/// The address at which Netflix plays the title `entity_id`.
pub open spec fn netflix_watch_url(entity_id: Seq<char>) -> Seq<char> {
    "https://netflix.com/watch/"@ + entity_id
}

/// What all paths of a Netflix search begin with, up to the name.
pub open spec fn path_head(movie_name: Seq<char>) -> Seq<char> {
    "[\"search\",\"query\",\"@@NAPA-49279779-77a7-46f8-a83a-f031d1ef037c\",\""@ + movie_name
        + "\","@
}

/// The fields of the form of a Netflix search for `movie_name`.
pub open spec fn search_form(movie_name: Seq<char>) -> Seq<(Seq<char>, Seq<char>)> {
    seq![
        ("path"@, path_head(movie_name) + "\"summary\"]"@),
        ("path"@, path_head(movie_name) + "{\"from\":0,\"to\":1},\"summary\"]"@),
        (
            "path"@,
            path_head(movie_name) + "{\"from\":0,\"to\":1},{\"from\":0,\"to\":47},\"summary\"]"@,
        ),
        (
            "path"@,
            path_head(movie_name)
                + "{\"from\":0,\"to\":1},{\"from\":0,\"to\":47},\"reference\",[\"availability\",\"episodeCount\",\"inRemindMeList\",\"itemSummary\",\"queue\",\"summary\"]]"@,
        ),
        ("authURL"@, "1739263844285.2XpQna0eN71gFJg+gzS5ycqyaAo="@),
    ]
}

/// The question whether the title `movie_id` is a show.
pub open spec fn show_query_text(movie_id: Seq<char>) -> Seq<char> {
    "{\"operationName\":\"PreviewModalEpisodeSelector\",\"variables\":{\"showId\":"@ + json_string(movie_id) + ",\"seasonCount\":30},\"extensions\":{\"persistedQuery\":{\"id\":\"7515a9d0-9422-4bbd-b7fe-aefa7f17ef5a\",\"version\":102}}}"@
}

/// The question for the episodes of the season `season_id`.
pub open spec fn episodes_query_text(season_id: Seq<char>) -> Seq<char> {
    "{\"operationName\":\"PreviewModalEpisodeSelectorSeasonEpisodes\",\"variables\":{\"seasonId\":"@ + json_string(season_id) + ",\"count\":30,\"opaqueImageFormat\":\"WEBP\",\"artworkContext\":{}},\"extensions\":{\"persistedQuery\":{\"id\":\"380568aa-ec71-479c-832e-2e1f0ec13ec2\",\"version\":102}}}"@
}

/// The request of a Shahid search for `movie_name`.
pub open spec fn shahid_search_request(movie_name: Seq<char>) -> Seq<char> {
    "{\"name\":"@ + json_string(movie_name) + ",\"pageNumber\":0,\"pageSize\":24}"@
}

/// The address of a Shahid search for `movie_name`.
pub open spec fn shahid_search_url(movie_name: Seq<char>) -> Seq<char> {
    "https://api3.shahid.net/proxy/v2.1/t-search?request="@ + percent_encoded(
        shahid_search_request(movie_name),
    ) + "&exactMatch=false&country=EG"@
}

/// The request for page `page_number` of the playlist `playlist_id`.
pub open spec fn playlist_request(playlist_id: Seq<char>, page_number: nat) -> Seq<char> {
    "{\"pageNumber\":"@ + decimal(page_number) + ",\"pageSize\":6,\"playListId\":"@
        + json_string(playlist_id)
        + ",\"sorts\":[{\"order\":\"DESC\",\"type\":\"SORTDATE\"}],\"isDynamicPlaylist\":false}"@
}

/// The address of page `page_number` of the playlist `playlist_id`.
pub open spec fn playlist_url(playlist_id: Seq<char>, page_number: nat) -> Seq<char> {
    "https://api3.shahid.net/proxy/v2.1/product/playlist?request="@ + percent_encoded(
        playlist_request(playlist_id, page_number),
    ) + "&country=EG"@
}

/// Whether a Netflix result is shown: it has a summary with a poster.
pub open spec fn has_poster(item: NetflixItem) -> bool {
    item.summary matches Some(summary) && summary.img_url matches Some(url) && url@.len() > 0
}

/// A candidate as identifier, poster and title.
pub open spec fn candidate_view(c: Candidate) -> (Seq<char>, Seq<char>, Seq<char>) {
    (c.entity_id@, c.image_url@, c.title@)
}

/// The views of a sequence of candidates.
pub open spec fn candidate_views(list: Seq<Candidate>) -> Seq<(Seq<char>, Seq<char>, Seq<char>)> {
    Seq::new(list.len(), |i: int| candidate_view(list[i]))
}

/// The candidate that a summary describes.
pub open spec fn candidate_of(summary: NetflixSummary) -> (Seq<char>, Seq<char>, Seq<char>) {
    (
        text_or(summary.entity_id, Seq::empty()),
        text_or(summary.img_url, Seq::empty()),
        text_or(summary.display_string, Seq::empty()),
    )
}

/// The candidates among the first `upto` results: those with a poster, in
/// order, and no more than nine of them.
pub open spec fn candidates_of(items: Seq<NetflixItem>, upto: int) -> Seq<
    (Seq<char>, Seq<char>, Seq<char>),
>
    decreases upto,
{
    if upto <= 0 {
        Seq::empty()
    } else {
        let before = candidates_of(items, upto - 1);
        if before.len() < RESULT_LIMIT && has_poster(items[upto - 1]) {
            before.push(candidate_of(items[upto - 1].summary->0))
        } else {
            before
        }
    }
}

/// A season as title and identifier.
pub open spec fn season_views(list: Seq<SeasonOption>) -> Seq<(Seq<char>, Seq<char>)> {
    Seq::new(list.len(), |i: int| (list[i].title@, list[i].season_id@))
}

/// The seasons that the first `upto` entries describe: one for each entry
/// that holds a season.
pub open spec fn seasons_of(edges: Seq<SeasonEdge>, upto: int) -> Seq<(Seq<char>, Seq<char>)>
    decreases upto,
{
    if upto <= 0 {
        Seq::empty()
    } else {
        match edges[upto - 1].node {
            Some(node) => seasons_of(edges, upto - 1).push(
                (
                    text_or(node.title, "Unknown Season"@),
                    match node.video_id {
                        Some(id) => decimal(id as nat),
                        None => "Unknown"@,
                    },
                ),
            ),
            None => seasons_of(edges, upto - 1),
        }
    }
}

/// The seasons of a title, from the videos that Netflix answered with: those
/// of the first video, where it has a list of seasons.
pub open spec fn show_seasons(videos: Option<Seq<NetflixVideo>>) -> Option<Seq<SeasonEdge>> {
    match videos {
        Some(list) => if list.len() > 0 {
            match list[0].season_edges {
                Some(edges) => Some(edges@),
                None => None,
            }
        } else {
            None
        },
        None => None,
    }
}

/// An episode as number, title and video.
pub open spec fn episode_views(list: Seq<Episode>) -> Seq<(int, Seq<char>, int)> {
    Seq::new(list.len(), |i: int| (list[i].number as int, list[i].title@, list[i].video_id as int))
}

/// The episodes that the first `upto` entries describe: one for each entry
/// that holds an episode.
pub open spec fn episodes_of(edges: Seq<EpisodeEdge>, upto: int) -> Seq<(int, Seq<char>, int)>
    decreases upto,
{
    if upto <= 0 {
        Seq::empty()
    } else {
        match edges[upto - 1].node {
            Some(node) => episodes_of(edges, upto - 1).push(
                (
                    match node.number {
                        Some(n) => n as int,
                        None => 0,
                    },
                    text_or(node.title, "Unknown"@),
                    match node.video_id {
                        Some(v) => v as int,
                        None => 0,
                    },
                ),
            ),
            None => episodes_of(edges, upto - 1),
        }
    }
}

/// The identifier of the playlist of episodes among the playlists from
/// index `from` on: that of the first playlist named `Episodes`, if it has
/// one.
pub open spec fn episodes_playlist(playlists: Seq<ShahidPlaylist>, from: int) -> Option<Seq<char>>
    decreases playlists.len() - from,
{
    if from < 0 || from >= playlists.len() {
        None
    } else if playlists[from].title matches Some(t) && t@ == EPISODES_PLAYLIST@ {
        playlists[from].id.deep_view()
    } else {
        episodes_playlist(playlists, from + 1)
    }
}

/// A Shahid hit as title, playlist, type and whether it is a show.
pub open spec fn shahid_hit_of(product: ShahidProduct) -> (Seq<char>, Seq<char>, Seq<char>, bool) {
    (
        text_or(product.title, "Unknown"@),
        match product.playlists {
            Some(list) => match episodes_playlist(list@, 0) {
                Some(id) => id,
                None => "No ID found"@,
            },
            None => "No ID found"@,
        },
        text_or(product.product_type, Seq::empty()),
        text_or(product.product_type, Seq::empty()) == "show"@,
    )
}

/// The views of a sequence of Shahid hits.
pub open spec fn shahid_hit_views(list: Seq<ShahidHit>) -> Seq<
    (Seq<char>, Seq<char>, Seq<char>, bool),
> {
    Seq::new(list.len(), |i: int| (list[i].title@, list[i].playlist_id@, list[i].product_type@, list[i].is_show))
}

/// A playlist entry as address and title.
pub open spec fn entry_views(list: Seq<PlaylistEntry>) -> Seq<(Seq<char>, Seq<char>)> {
    Seq::new(list.len(), |i: int| (list[i].url@, list[i].title@))
}

/// The entries of a page of products.
pub open spec fn page_entries(products: Seq<ShahidProduct>) -> Seq<(Seq<char>, Seq<char>)> {
    Seq::new(
        products.len(),
        |i: int| (text_or(products[i].url, Seq::empty()), text_or(products[i].title, Seq::empty())),
    )
}

/// Whether a page goes on the walk: it reports success and holds products.
pub open spec fn page_continues(page: PlaylistPage) -> bool {
    page matches PlaylistPage::Products(Some(products)) && products@.len() > 0
}

/// What a Fasel title is shown as: without the white space around it, and
/// without Arabic letters. `None` where the pattern of Arabic letters does
/// not compile.
pub open spec fn fasel_title(raw: Option<Seq<char>>) -> Option<Seq<char>> {
    regex_replaced(
        ARABIC_LETTERS@,
        match raw {
            Some(t) => trim(t),
            None => "Unknown"@,
        },
        Seq::empty(),
    )
}

/// A hit as link, poster and title.
pub open spec fn hit_views(list: Seq<SearchHit>) -> Seq<(Seq<char>, Seq<char>, Seq<char>)> {
    Seq::new(list.len(), |i: int| (list[i].link@, list[i].image_url@, list[i].title@))
}

/// The number of results and posters that are paired.
pub open spec fn paired_count(posts: int, images: int) -> int {
    let a = if posts < images {
        posts
    } else {
        images
    };
    if a < RESULT_LIMIT {
        a
    } else {
        RESULT_LIMIT as int
    }
}

/// The Fasel hits among the first `upto` pairs of result and poster: one for
/// each result that has a link, with the poster of the same position.
pub open spec fn fasel_hits(
    links: Seq<Option<Seq<char>>>,
    titles: Seq<Option<Seq<char>>>,
    images: Seq<Option<Seq<char>>>,
    upto: int,
) -> Seq<(Seq<char>, Seq<char>, Seq<char>)>
    decreases upto,
{
    if upto <= 0 {
        Seq::empty()
    } else {
        match links[upto - 1] {
            Some(link) => fasel_hits(links, titles, images, upto - 1).push(
                (
                    link,
                    match images[upto - 1] {
                        Some(src) => src,
                        None => Seq::empty(),
                    },
                    match fasel_title(titles[upto - 1]) {
                        Some(t) => t,
                        None => Seq::empty(),
                    },
                ),
            ),
            None => fasel_hits(links, titles, images, upto - 1),
        }
    }
}

/// The Fasel hits of the search page `html`; `None` where the pattern of
/// Arabic letters does not compile.
pub open spec fn fasel_results(html: Seq<char>) -> Option<Seq<(Seq<char>, Seq<char>, Seq<char>)>> {
    let links = nested_attrs(html, FASEL_POST@, "a"@, "href"@);
    let titles = nested_texts(html, FASEL_POST@, FASEL_TITLE@);
    let images = all_attrs(html, FASEL_IMAGE@, "data-src"@);
    if regex_replaced(ARABIC_LETTERS@, Seq::empty(), Seq::empty()) is None || links.len()
        != titles.len() {
        None
    } else {
        Some(fasel_hits(links, titles, images, paired_count(links.len() as int, images.len() as int)))
    }
}

fn text_or_else(value: &Option<String>, fallback: &str) -> (r: String)
    ensures
        r@ == text_or(*value, fallback@),
{
    match value {
        Some(v) => v.clone(),
        None => String::from_str(fallback),
    }
}

fn text_or_empty(value: &Option<String>) -> (r: String)
    ensures
        r@ == text_or(*value, Seq::empty()),
{
    match value {
        Some(v) => v.clone(),
        None => String::new(),
    }
}

fn plain_show(movie_id: &str) -> (r: ShowResult)
    ensures
        !r.is_show,
        r.movie_id@ == movie_id@,
        r.seasons@.len() == 0,
{
    ShowResult { is_show: false, movie_id: String::from_str(movie_id), seasons: Vec::new() }
}

impl FaselSearcher {
    /// The address of the search page for `movie_name`.
    pub fn search_url(movie_name: &str) -> (r: String)
        ensures
            r@ == fasel_search_url(movie_name@),
    {
        let mut out = String::from_str("https://web184.faselhd.cafe/?s=");
        out.append(movie_name);
        out
    }

    /// The hits of a search page: the first nine results are paired with the
    /// first nine posters, and each result that has a link becomes a hit.
    /// None of them is a show.
    pub fn results(html: &str) -> (r: Option<Vec<SearchHit>>)
        ensures
            r is Some <==> fasel_results(html@) is Some,
            r matches Some(hits) ==> {
                &&& Some(hit_views(hits@)) == fasel_results(html@)
                &&& forall|i: int|
                    0 <= i < hits@.len() ==> !(#[trigger] hits@[i]).show.is_show && hits@[i].show.movie_id@
                        == "0"@ && hits@[i].show.seasons@.len() == 0
            },
    {
        if regex_replace_all(ARABIC_LETTERS, "", "").is_none() {
            proof {
                reveal_strlit("");
                assert(""@ =~= Seq::<char>::empty());
            }
            return None;
        }
        proof {
            reveal_strlit("");
            assert(""@ =~= Seq::<char>::empty());
        }
        let links = select_nested_attr(html, FASEL_POST, "a", "href");
        let titles = select_nested_text(html, FASEL_POST, FASEL_TITLE);
        let images = select_all_attr(html, FASEL_IMAGE, "data-src");
        if links.len() != titles.len() {
            return None;
        }
        let mut count: usize = if links.len() < images.len() {
            links.len()
        } else {
            images.len()
        };
        if count > RESULT_LIMIT {
            count = RESULT_LIMIT;
        }
        let mut out: Vec<SearchHit> = Vec::new();
        let mut i: usize = 0;
        while i < count
            invariant
                i <= count,
                count <= links@.len(),
                count <= images@.len(),
                links@.len() == titles@.len(),
                ""@ == Seq::<char>::empty(),
                regex_replaced(ARABIC_LETTERS@, Seq::empty(), Seq::empty()) is Some,
                hit_views(out@) == fasel_hits(
                    links.deep_view(),
                    titles.deep_view(),
                    images.deep_view(),
                    i as int,
                ),
                forall|k: int|
                    0 <= k < out@.len() ==> !(#[trigger] out@[k]).show.is_show && out@[k].show.movie_id@
                        == "0"@ && out@[k].show.seasons@.len() == 0,
            decreases count - i,
        {
            let ghost before = out@;
            match &links[i] {
                Some(link) => {
                    let raw = match &titles[i] {
                        Some(t) => {
                            let chars = chars_of(t.as_str());
                            string_of(trimmed(chars.as_slice()).as_slice())
                        },
                        None => String::from_str("Unknown"),
                    };
                    let title = match regex_replace_all(ARABIC_LETTERS, raw.as_str(), "") {
                        Some(t) => t,
                        None => String::new(),
                    };
                    let image_url = text_or_empty(&images[i]);
                    let hit = SearchHit {
                        link: link.clone(),
                        image_url,
                        title,
                        show: plain_show("0"),
                    };
                    out.push(hit);
                    proof {
                        assert(links.deep_view()[i as int] == Some(link@));
                        assert(titles.deep_view()[i as int] == titles@[i as int].deep_view());
                        assert(images.deep_view()[i as int] == images@[i as int].deep_view());
                        assert(hit_views(out@) =~= hit_views(before).push(
                            (hit.link@, hit.image_url@, hit.title@),
                        ));
                    }
                },
                None => {
                    proof {
                        assert(links.deep_view()[i as int] is None);
                    }
                },
            }
            i += 1;
        }
        Some(out)
    }
}

impl NetflixSearcher {
    /// The address at which the title `entity_id` plays.
    pub fn watch_url(entity_id: &str) -> (r: String)
        ensures
            r@ == netflix_watch_url(entity_id@),
    {
        let mut out = String::from_str("https://netflix.com/watch/");
        out.append(entity_id);
        out
    }

    fn path(movie_name: &str, tail: &str) -> (r: String)
        ensures
            r@ == path_head(movie_name@) + tail@,
    {
        let mut out = String::from_str(
            "[\"search\",\"query\",\"@@NAPA-49279779-77a7-46f8-a83a-f031d1ef037c\",\"",
        );
        out.append(movie_name);
        out.append("\",");
        out.append(tail);
        out
    }

    /// The body of a search for `movie_name`, as a form: always there.
    pub fn create_form_data(movie_name: &str) -> (r: Option<String>)
        ensures
            r.deep_view() == Some(form_text(search_form(movie_name@), 5)),
    {
        let mut fields: Vec<(String, String)> = Vec::new();
        fields.push((String::from_str("path"), Self::path(movie_name, "\"summary\"]")));
        fields.push(
            (String::from_str("path"), Self::path(movie_name, "{\"from\":0,\"to\":1},\"summary\"]")),
        );
        fields.push(
            (
                String::from_str("path"),
                Self::path(movie_name, "{\"from\":0,\"to\":1},{\"from\":0,\"to\":47},\"summary\"]"),
            ),
        );
        fields.push(
            (
                String::from_str("path"),
                Self::path(
                    movie_name,
                    "{\"from\":0,\"to\":1},{\"from\":0,\"to\":47},\"reference\",[\"availability\",\"episodeCount\",\"inRemindMeList\",\"itemSummary\",\"queue\",\"summary\"]]",
                ),
            ),
        );
        fields.push(
            (
                String::from_str("authURL"),
                String::from_str("1739263844285.2XpQna0eN71gFJg+gzS5ycqyaAo="),
            ),
        );
        proof {
            assert(pair_views(fields@) =~= search_form(movie_name@));
        }
        form_encode(&fields)
    }

    /// The question whether the title `movie_id` is a show, as JSON: always
    /// there, whatever the identifier holds.
    pub fn show_query(movie_id: &str) -> (r: Option<String>)
        ensures
            r.deep_view() == Some(show_query_text(movie_id@)),
    {
        match json_quote(movie_id) {
            Some(id) => {
                let mut out = String::from_str("{\"operationName\":\"PreviewModalEpisodeSelector\",\"variables\":{\"showId\":");
                out.append(id.as_str());
                out.append(",\"seasonCount\":30},\"extensions\":{\"persistedQuery\":{\"id\":\"7515a9d0-9422-4bbd-b7fe-aefa7f17ef5a\",\"version\":102}}}");
                Some(out)
            },
            None => None,
        }
    }

    /// The question for the episodes of the season `season_id`, as JSON:
    /// always there, whatever the identifier holds.
    pub fn episodes_query(season_id: &str) -> (r: Option<String>)
        ensures
            r.deep_view() == Some(episodes_query_text(season_id@)),
    {
        match json_quote(season_id) {
            Some(id) => {
                let mut out = String::from_str("{\"operationName\":\"PreviewModalEpisodeSelectorSeasonEpisodes\",\"variables\":{\"seasonId\":");
                out.append(id.as_str());
                out.append(",\"count\":30,\"opaqueImageFormat\":\"WEBP\",\"artworkContext\":{}},\"extensions\":{\"persistedQuery\":{\"id\":\"380568aa-ec71-479c-832e-2e1f0ec13ec2\",\"version\":102}}}");
                Some(out)
            },
            None => None,
        }
    }

    /// The results of a search that are shown: those with a poster, in the
    /// order of the answer, and no more than nine of them.
    pub fn candidates(items: &Vec<NetflixItem>) -> (r: Vec<Candidate>)
        ensures
            candidate_views(r@) == candidates_of(items@, items@.len() as int),
    {
        let mut out: Vec<Candidate> = Vec::new();
        let mut i: usize = 0;
        while i < items.len()
            invariant
                i <= items@.len(),
                candidate_views(out@) == candidates_of(items@, i as int),
            decreases items@.len() - i,
        {
            let ghost before = out@;
            if out.len() < RESULT_LIMIT {
                match &items[i].summary {
                    Some(summary) => {
                        let shown = match &summary.img_url {
                            Some(url) => url.as_str().unicode_len() > 0,
                            None => false,
                        };
                        if shown {
                            let c = Candidate {
                                entity_id: text_or_empty(&summary.entity_id),
                                image_url: text_or_empty(&summary.img_url),
                                title: text_or_empty(&summary.display_string),
                            };
                            out.push(c);
                            proof {
                                assert(candidate_views(out@) =~= candidate_views(before).push(
                                    candidate_view(c),
                                ));
                            }
                        }
                    },
                    None => {},
                }
            }
            i += 1;
        }
        out
    }

    /// What Netflix says of the title `movie_id`, from the videos that it
    /// answered with: the title is a show when the first video has a list of
    /// seasons, and then these are its seasons.
    pub fn is_show(movie_id: &str, videos: Option<&Vec<NetflixVideo>>) -> (r: ShowResult)
        ensures
            r.movie_id@ == movie_id@,
            r.is_show == show_seasons(
                match videos {
                    Some(v) => Some(v@),
                    None => None,
                },
            ) is Some,
            season_views(r.seasons@) == match show_seasons(
                match videos {
                    Some(v) => Some(v@),
                    None => None,
                },
            ) {
                Some(edges) => seasons_of(edges, edges.len() as int),
                None => Seq::empty(),
            },
    {
        let edges = match videos {
            Some(list) => if list.len() > 0 {
                match &list[0].season_edges {
                    Some(edges) => edges,
                    None => {
                        let r = plain_show(movie_id);
                        proof {
                            assert(season_views(r.seasons@) =~= Seq::empty());
                        }
                        return r;
                    },
                }
            } else {
                let r = plain_show(movie_id);
                proof {
                    assert(season_views(r.seasons@) =~= Seq::empty());
                }
                return r;
            },
            None => {
                let r = plain_show(movie_id);
                proof {
                    assert(season_views(r.seasons@) =~= Seq::empty());
                }
                return r;
            },
        };
        let mut seasons: Vec<SeasonOption> = Vec::new();
        let mut i: usize = 0;
        proof {
            assert(season_views(seasons@) =~= Seq::empty());
        }
        while i < edges.len()
            invariant
                i <= edges@.len(),
                season_views(seasons@) == seasons_of(edges@, i as int),
            decreases edges@.len() - i,
        {
            let ghost before = seasons@;
            match &edges[i].node {
                Some(node) => {
                    let option = SeasonOption {
                        title: text_or_else(&node.title, "Unknown Season"),
                        season_id: match node.video_id {
                            Some(id) => decimal_string(id),
                            None => String::from_str("Unknown"),
                        },
                    };
                    seasons.push(option);
                    proof {
                        assert(season_views(seasons@) =~= season_views(before).push(
                            (option.title@, option.season_id@),
                        ));
                    }
                },
                None => {},
            }
            i += 1;
        }
        ShowResult { is_show: true, movie_id: String::from_str(movie_id), seasons }
    }

    /// The episodes of a season, from the entries that Netflix answered
    /// with. What an entry leaves out is filled in: the title with
    /// `Unknown`, the numbers with 0.
    pub fn get_episodes_for_shows(edges: &Vec<EpisodeEdge>) -> (r: Vec<Episode>)
        ensures
            episode_views(r@) == episodes_of(edges@, edges@.len() as int),
    {
        let mut out: Vec<Episode> = Vec::new();
        let mut i: usize = 0;
        proof {
            assert(episode_views(out@) =~= Seq::empty());
        }
        while i < edges.len()
            invariant
                i <= edges@.len(),
                episode_views(out@) == episodes_of(edges@, i as int),
            decreases edges@.len() - i,
        {
            let ghost before = out@;
            match &edges[i].node {
                Some(node) => {
                    let episode = Episode {
                        number: match node.number {
                            Some(n) => n,
                            None => 0,
                        },
                        title: text_or_else(&node.title, "Unknown"),
                        video_id: match node.video_id {
                            Some(v) => v,
                            None => 0,
                        },
                    };
                    out.push(episode);
                    proof {
                        assert(episode_views(out@) =~= episode_views(before).push(
                            (episode.number as int, episode.title@, episode.video_id as int),
                        ));
                    }
                },
                None => {},
            }
            i += 1;
        }
        out
    }

    /// The hit for a candidate, given what Netflix says of it.
    pub fn search(candidate: Candidate, show: ShowResult) -> (r: SearchHit)
        ensures
            r.link@ == netflix_watch_url(candidate.entity_id@),
            r.image_url == candidate.image_url,
            r.title == candidate.title,
            r.show == show,
    {
        SearchHit {
            link: Self::watch_url(candidate.entity_id.as_str()),
            image_url: candidate.image_url,
            title: candidate.title,
            show,
        }
    }
}

impl ShahidSearcher {
    /// The address of a search for `movie_name`: always there, whatever
    /// the name holds.
    pub fn search_url(movie_name: &str) -> (r: Option<String>)
        ensures
            r.deep_view() == Some(shahid_search_url(movie_name@)),
    {
        match json_quote(movie_name) {
            Some(name) => {
                let mut request = String::from_str("{\"name\":");
                request.append(name.as_str());
                request.append(",\"pageNumber\":0,\"pageSize\":24}");
                let mut out = String::from_str(
                    "https://api3.shahid.net/proxy/v2.1/t-search?request=",
                );
                out.append(percent_encode(request.as_str()).as_str());
                out.append("&exactMatch=false&country=EG");
                Some(out)
            },
            None => None,
        }
    }

    /// The address of page `page_number` of the playlist `playlist_id`:
    /// always there, whatever the identifier holds.
    pub fn format_shahid_playlist_url(playlist_id: &str, page_number: usize) -> (r: Option<String>)
        ensures
            r.deep_view() == Some(playlist_url(playlist_id@, page_number as nat)),
    {
        match json_quote(playlist_id) {
            Some(id) => {
                let mut request = String::from_str("{\"pageNumber\":");
                request.append(decimal_string(page_number as u64).as_str());
                request.append(",\"pageSize\":6,\"playListId\":");
                request.append(id.as_str());
                request.append(
                    ",\"sorts\":[{\"order\":\"DESC\",\"type\":\"SORTDATE\"}],\"isDynamicPlaylist\":false}",
                );
                let mut out = String::from_str(
                    "https://api3.shahid.net/proxy/v2.1/product/playlist?request=",
                );
                out.append(percent_encode(request.as_str()).as_str());
                out.append("&country=EG");
                Some(out)
            },
            None => None,
        }
    }

    fn playlist_of(playlists: &Vec<ShahidPlaylist>) -> (r: Option<String>)
        ensures
            r.deep_view() == episodes_playlist(playlists@, 0),
    {
        let mut i: usize = 0;
        while i < playlists.len()
            invariant
                i <= playlists@.len(),
                episodes_playlist(playlists@, 0) == episodes_playlist(playlists@, i as int),
            decreases playlists@.len() - i,
        {
            let named = match &playlists[i].title {
                Some(t) => str_eq(t.as_str(), EPISODES_PLAYLIST),
                None => false,
            };
            if named {
                return match &playlists[i].id {
                    Some(id) => Some(id.clone()),
                    None => None,
                };
            }
            i += 1;
        }
        None
    }

    /// The hit that a product stands for.
    pub fn hit(product: &ShahidProduct) -> (r: ShahidHit)
        ensures
            (r.title@, r.playlist_id@, r.product_type@, r.is_show) == shahid_hit_of(*product),
    {
        let playlist = match &product.playlists {
            Some(list) => Self::playlist_of(list),
            None => None,
        };
        let product_type = text_or_empty(&product.product_type);
        let is_show = str_eq(product_type.as_str(), "show");
        ShahidHit {
            title: text_or_else(&product.title, "Unknown"),
            playlist_id: match playlist {
                Some(id) => id,
                None => String::from_str("No ID found"),
            },
            product_type,
            is_show,
        }
    }

    /// The hits of a search, one for each product of the answer, in order.
    /// An answer without a list of products is an error.
    pub fn search(products: Option<&Vec<ShahidProduct>>) -> (r: Result<Vec<ShahidHit>, String>)
        ensures
            r is Ok <==> products is Some,
            r matches Ok(hits) ==> shahid_hit_views(hits@) == Seq::new(
                products->0@.len(),
                |i: int| shahid_hit_of(products->0@[i]),
            ),
            r matches Err(message) ==> message@ == "No products found"@,
    {
        let list = match products {
            Some(list) => list,
            None => {
                return Err(String::from_str("No products found"));
            },
        };
        let mut out: Vec<ShahidHit> = Vec::new();
        let mut i: usize = 0;
        while i < list.len()
            invariant
                i <= list@.len(),
                out@.len() == i,
                forall|k: int|
                    0 <= k < i ==> (
                        (#[trigger] out@[k]).title@,
                        out@[k].playlist_id@,
                        out@[k].product_type@,
                        out@[k].is_show,
                    ) == shahid_hit_of(list@[k]),
            decreases list@.len() - i,
        {
            out.push(Self::hit(&list[i]));
            i += 1;
        }
        proof {
            assert(shahid_hit_views(out@) =~= Seq::new(
                list@.len(),
                |i: int| shahid_hit_of(list@[i]),
            ));
        }
        Ok(out)
    }
}

impl PlaylistWalk {
    /// Begins a walk through the playlist `playlist_id`, at page 0.
    pub fn fetch_shahid_playlist(playlist_id: String) -> (r: PlaylistWalk)
        ensures
            r.playlist_id == playlist_id,
            r.page == 0,
            r.entries@.len() == 0,
            !r.done,
    {
        PlaylistWalk { playlist_id, page: 0, entries: Vec::new(), done: false }
    }

    /// The address of the page that is awaited; `None` exactly when the
    /// walk has ended.
    pub fn next_request(&self) -> (r: Option<String>)
        ensures
            r.deep_view() == if self.done {
                None
            } else {
                Some(playlist_url(self.playlist_id@, self.page as nat))
            },
    {
        if self.done {
            None
        } else {
            ShahidSearcher::format_shahid_playlist_url(self.playlist_id.as_str(), self.page)
        }
    }

    /// Takes the page that was awaited. A page that holds products adds an
    /// entry for each of them, and the next page is awaited. Any other page
    /// ends the walk, as does the last page that can be counted.
    pub fn absorb(&mut self, page: PlaylistPage)
        ensures
            final(self).playlist_id == old(self).playlist_id,
            old(self).done || !page_continues(page) ==> {
                &&& final(self).done
                &&& final(self).page == old(self).page
                &&& final(self).entries == old(self).entries
            },
            !old(self).done && page_continues(page) ==> {
                &&& entry_views(final(self).entries@) == entry_views(old(self).entries@)
                    + page_entries(page->Products_0->0@)
                &&& final(self).done == (old(self).page == usize::MAX)
                &&& final(self).page == if old(self).page == usize::MAX {
                    old(self).page
                } else {
                    (old(self).page + 1) as usize
                }
            },
    {
        if self.done {
            return ;
        }
        let products = match page {
            PlaylistPage::Products(Some(products)) => products,
            _ => {
                self.done = true;
                return ;
            },
        };
        if products.len() == 0 {
            self.done = true;
            return ;
        }
        let ghost start = self.entries@;
        let mut i: usize = 0;
        while i < products.len()
            invariant
                i <= products@.len(),
                self.playlist_id == old(self).playlist_id,
                self.page == old(self).page,
                self.done == old(self).done,
                entry_views(self.entries@) == entry_views(start) + page_entries(products@).take(
                    i as int,
                ),
            decreases products@.len() - i,
        {
            let ghost before = self.entries@;
            let entry = PlaylistEntry {
                url: text_or_empty(&products[i].url),
                title: text_or_empty(&products[i].title),
            };
            self.entries.push(entry);
            proof {
                assert(entry_views(self.entries@) =~= entry_views(before).push(
                    (entry.url@, entry.title@),
                ));
                assert(page_entries(products@).take(i + 1) =~= page_entries(products@).take(
                    i as int,
                ).push(page_entries(products@)[i as int]));
            }
            i += 1;
        }
        proof {
            assert(page_entries(products@).take(products@.len() as int) =~= page_entries(
                products@,
            ));
        }
        if self.page == usize::MAX {
            self.done = true;
        } else {
            self.page += 1;
        }
    }
}

} // verus!
