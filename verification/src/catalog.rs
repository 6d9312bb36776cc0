//! The catalog client: what the metadata provider is asked, and what is made
//! of its answers.
//!
//! The requests themselves are made elsewhere. This module builds their
//! addresses, turns the provider's records into catalog items, picks the
//! item that an external identifier stands for, and renders items for
//! display.

use vstd::prelude::*;
use vstd::string::StringExecFns;
use crate::decimal::{decimal, decimal_string, push_signed_decimal, signed_decimal};
use crate::text::{chars_of, find, index_of, slice_chars, str_eq, string_of};

verus! {

/// The provider's address, up to the operation.
pub const API_ROOT: &'static str = "https://api.themoviedb.org/3";

/// How many search results are shown.
pub const DISPLAY_LIMIT: usize = 5;

/// What separates the parts of a date.
pub const DATE_SEPARATOR: &'static str = "-";

/// The provider's tag for a movie.
pub const MOVIE_TAG: &'static str = "movie";

/// The provider's tag for a show.
pub const SHOW_TAG: &'static str = "tv";

/// What is shown in place of a title or a year that the provider left out.
pub const NOT_AVAILABLE: &'static str = "N/A";

/// What is shown in place of an overview that the provider left out.
pub const NO_OVERVIEW: &'static str = "No overview available.";

/// The kind of a title.
#[derive(Clone, Copy, Debug, PartialEq, Eq, Structural)]
pub enum MediaKind {
    Movie,
    Show,
}

/// One result as the provider sends it.
#[derive(Clone, Debug)]
pub struct ProviderRecord {
    pub id: i32,
    pub title: Option<String>,
    pub name: Option<String>,
    pub media_type: String,
    pub overview: Option<String>,
    pub release_date: Option<String>,
    pub first_air_date: Option<String>,
}

/// A title of the catalog. Two items are the same title when both their
/// provider id and their kind agree.
#[derive(Clone, Debug)]
pub struct CatalogItem {
    pub provider_id: i32,
    pub kind: MediaKind,
    pub primary_title: String,
    pub overview: Option<String>,
    pub release_year: Option<String>,
}

/// One season in the description of a show.
#[derive(Clone, Debug)]
pub struct SeasonSummary {
    pub season_number: u32,
    pub episode_count: u32,
    pub overview: Option<String>,
}

/// A show with its seasons, in the provider's order. A show may have no
/// seasons listed.
#[derive(Clone, Debug)]
pub struct ShowDetail {
    pub provider_id: i32,
    pub display_name: String,
    pub season_count: u32,
    pub seasons: Vec<SeasonSummary>,
}

/// One episode in the description of a season.
#[derive(Clone, Debug)]
pub struct EpisodeSummary {
    pub episode_number: u32,
    pub title: String,
    pub overview: Option<String>,
}

/// A season with its episodes, in the provider's order. Episode numbers need
/// not start at 1 nor be contiguous.
#[derive(Clone, Debug)]
pub struct SeasonDetail {
    pub season_number: u32,
    pub display_name: String,
    pub episodes: Vec<EpisodeSummary>,
}

/// A catalog item as a mathematical value.
pub struct ItemModel {
    pub provider_id: int,
    pub kind: MediaKind,
    pub primary_title: Seq<char>,
    pub overview: Option<Seq<char>>,
    pub release_year: Option<Seq<char>>,
}

/// A provider record as a mathematical value.
pub struct RecordModel {
    pub id: int,
    pub title: Option<Seq<char>>,
    pub name: Option<Seq<char>>,
    pub media_type: Seq<char>,
    pub overview: Option<Seq<char>>,
    pub release_date: Option<Seq<char>>,
    pub first_air_date: Option<Seq<char>>,
}

impl View for CatalogItem {
    type V = ItemModel;

    open spec fn view(&self) -> ItemModel {
        ItemModel {
            provider_id: self.provider_id as int,
            kind: self.kind,
            primary_title: self.primary_title@,
            overview: self.overview.deep_view(),
            release_year: self.release_year.deep_view(),
        }
    }
}

impl View for ProviderRecord {
    type V = RecordModel;

    open spec fn view(&self) -> RecordModel {
        RecordModel {
            id: self.id as int,
            title: self.title.deep_view(),
            name: self.name.deep_view(),
            media_type: self.media_type@,
            overview: self.overview.deep_view(),
            release_date: self.release_date.deep_view(),
            first_air_date: self.first_air_date.deep_view(),
        }
    }
}

/// The models of a sequence of records.
pub open spec fn record_models(records: Seq<ProviderRecord>) -> Seq<RecordModel> {
    Seq::new(records.len(), |i: int| records[i]@)
}

/// The models of a sequence of items.
pub open spec fn item_models(items: Seq<CatalogItem>) -> Seq<ItemModel> {
    Seq::new(items.len(), |i: int| items[i]@)
}

/// The first of two optional texts that is there.
pub open spec fn first_of(a: Option<Seq<char>>, b: Option<Seq<char>>) -> Option<Seq<char>> {
    if a is Some {
        a
    } else {
        b
    }
}

/// The year of a date: what stands before its first separator, or all of it
/// where it has none.
pub open spec fn year_of(date: Seq<char>) -> Seq<char> {
    match find(date, DATE_SEPARATOR@) {
        Some(i) => date.subrange(0, i),
        None => date,
    }
}

/// The year of the release date or, where there is none, of the first air
/// date.
pub open spec fn release_year_of(record: RecordModel) -> Option<Seq<char>> {
    match first_of(record.release_date, record.first_air_date) {
        Some(date) => Some(year_of(date)),
        None => None,
    }
}

/// The title of a record: its `title`, else its `name`, else a placeholder.
pub open spec fn title_of(record: RecordModel) -> Seq<char> {
    match first_of(record.title, record.name) {
        Some(t) => t,
        None => NOT_AVAILABLE@,
    }
}

/// The kind that a provider tag stands for.
pub open spec fn kind_of_tag(tag: Seq<char>) -> Option<MediaKind> {
    if tag == MOVIE_TAG@ {
        Some(MediaKind::Movie)
    } else if tag == SHOW_TAG@ {
        Some(MediaKind::Show)
    } else {
        None
    }
}

/// The catalog item that a record of kind `kind` describes.
pub open spec fn item_of_kind(record: RecordModel, kind: MediaKind) -> ItemModel {
    ItemModel {
        provider_id: record.id,
        kind,
        primary_title: title_of(record),
        overview: record.overview,
        release_year: release_year_of(record),
    }
}

/// The catalog item that a record describes, where its tag names a movie or
/// a show.
pub open spec fn item_of(record: RecordModel) -> Option<ItemModel> {
    match kind_of_tag(record.media_type) {
        Some(kind) => Some(item_of_kind(record, kind)),
        None => None,
    }
}

/// The items that the first `upto` records describe, in order.
pub open spec fn items_of(records: Seq<RecordModel>, upto: int) -> Seq<ItemModel>
    decreases upto,
{
    if upto <= 0 {
        Seq::empty()
    } else {
        match item_of(records[upto - 1]) {
            Some(item) => items_of(records, upto - 1).push(item),
            None => items_of(records, upto - 1),
        }
    }
}

/// The item that an external identifier stands for: the first movie that
/// the provider found, as a movie; else the first show, as a show.
pub open spec fn found_item(movies: Seq<RecordModel>, shows: Seq<RecordModel>) -> Option<
    ItemModel,
> {
    if movies.len() > 0 {
        Some(item_of_kind(movies[0], MediaKind::Movie))
    } else if shows.len() > 0 {
        Some(item_of_kind(shows[0], MediaKind::Show))
    } else {
        None
    }
}

/// Whether two items are the same title.
pub open spec fn same_title(a: ItemModel, b: ItemModel) -> bool {
    a.provider_id == b.provider_id && a.kind == b.kind
}

/// The address of a text search.
pub open spec fn search_address(api_key: Seq<char>, query: Seq<char>) -> Seq<char> {
    API_ROOT@ + "/search/multi?api_key="@ + api_key + "&query="@ + query
}

/// The address of a lookup by external identifier.
pub open spec fn find_address(api_key: Seq<char>, external_id: Seq<char>) -> Seq<char> {
    API_ROOT@ + "/find/"@ + external_id + "?api_key="@ + api_key + "&external_source=imdb_id"@
}

/// The address of the description of a show.
pub open spec fn show_address(api_key: Seq<char>, provider_id: int) -> Seq<char> {
    API_ROOT@ + "/tv/"@ + signed_decimal(provider_id) + "?api_key="@ + api_key
}

/// The address of the description of one season of a show.
pub open spec fn season_address(api_key: Seq<char>, provider_id: int, season: nat) -> Seq<char> {
    API_ROOT@ + "/tv/"@ + signed_decimal(provider_id) + "/season/"@ + decimal(season)
        + "?api_key="@ + api_key
}

/// How a kind is shown.
pub open spec fn kind_label(kind: MediaKind) -> Seq<char> {
    match kind {
        MediaKind::Movie => "Movie"@,
        MediaKind::Show => "TV Show"@,
    }
}

/// How the year of an item is shown.
pub open spec fn year_label(item: ItemModel) -> Seq<char> {
    match item.release_year {
        Some(y) => y,
        None => NOT_AVAILABLE@,
    }
}

/// One line of a list of results: position, kind, title and year.
pub open spec fn result_line(position: nat, item: ItemModel) -> Seq<char> {
    decimal(position) + ". "@ + kind_label(item.kind) + ": "@ + item.primary_title + " ("@
        + year_label(item) + ")"@
}

/// The lines for the first `upto` items, each ended by a line feed.
pub open spec fn result_lines(items: Seq<ItemModel>, upto: int) -> Seq<char>
    decreases upto,
{
    if upto <= 0 {
        Seq::empty()
    } else {
        result_lines(items, upto - 1) + result_line(upto as nat, items[upto - 1]) + "\n"@
    }
}

/// The number of results that are shown of `n`.
pub open spec fn shown_count(n: int) -> int {
    if n < DISPLAY_LIMIT {
        n
    } else {
        DISPLAY_LIMIT as int
    }
}

/// The list of results as it is shown: a heading and the first results.
pub open spec fn results_text(items: Seq<ItemModel>) -> Seq<char> {
    "Search Results (Top 5):\n"@ + result_lines(items, shown_count(items.len() as int))
}

/// An item as it is shown in full.
pub open spec fn detail_text(item: ItemModel) -> Seq<char> {
    "**"@ + kind_label(item.kind) + "**: "@ + item.primary_title + " ("@ + year_label(item)
        + ")\n**Overview**: "@ + match item.overview {
        Some(o) => o,
        None => NO_OVERVIEW@,
    }
}

fn clone_text(o: &Option<String>) -> (r: Option<String>)
    ensures
        r.deep_view() == o.deep_view(),
{
    match o {
        Some(s) => Some(s.clone()),
        None => None,
    }
}

/// The year of a date.
pub fn year_of_date(date: &str) -> (r: String)
    ensures
        r@ == year_of(date@),
{
    let chars = chars_of(date);
    let sep = chars_of(DATE_SEPARATOR);
    match index_of(chars.as_slice(), sep.as_slice()) {
        Some(i) => {
            proof {
                crate::text::lemma_find_from_is_least(chars@, sep@, 0);
            }
            let head = slice_chars(chars.as_slice(), 0, i);
            string_of(head.as_slice())
        },
        None => String::from_str(date),
    }
}

impl MediaKind {
    /// The kind that a provider tag stands for.
    pub fn from_tag(tag: &str) -> (r: Option<MediaKind>)
        ensures
            r == kind_of_tag(tag@),
    {
        if str_eq(tag, MOVIE_TAG) {
            Some(MediaKind::Movie)
        } else if str_eq(tag, SHOW_TAG) {
            Some(MediaKind::Show)
        } else {
            None
        }
    }

    /// How the kind is shown.
    pub fn label(&self) -> (r: &'static str)
        ensures
            r@ == kind_label(*self),
    {
        match self {
            MediaKind::Movie => "Movie",
            MediaKind::Show => "TV Show",
        }
    }
}

impl CatalogItem {
    /// The item that `record` describes, taken as a title of kind `kind`.
    pub fn of_kind(record: &ProviderRecord, kind: MediaKind) -> (r: CatalogItem)
        ensures
            r@ == item_of_kind(record@, kind),
    {
        let primary_title = match &record.title {
            Some(t) => t.clone(),
            None => match &record.name {
                Some(n) => n.clone(),
                None => String::from_str(NOT_AVAILABLE),
            },
        };
        let release_year = match &record.release_date {
            Some(d) => Some(year_of_date(d.as_str())),
            None => match &record.first_air_date {
                Some(d) => Some(year_of_date(d.as_str())),
                None => None,
            },
        };
        CatalogItem {
            provider_id: record.id,
            kind,
            primary_title,
            overview: clone_text(&record.overview),
            release_year,
        }
    }

    /// The item that `record` describes; `None` where its tag names neither
    /// a movie nor a show.
    pub fn from_record(record: &ProviderRecord) -> (r: Option<CatalogItem>)
        ensures
            r is Some <==> item_of(record@) is Some,
            r matches Some(item) ==> Some(item@) == item_of(record@),
    {
        match MediaKind::from_tag(record.media_type.as_str()) {
            Some(kind) => Some(CatalogItem::of_kind(record, kind)),
            None => None,
        }
    }

    /// Whether `self` and `other` are the same title: the same provider id
    /// and the same kind.
    pub fn same_title(&self, other: &CatalogItem) -> (r: bool)
        ensures
            r == same_title(self@, other@),
    {
        self.provider_id == other.provider_id && self.kind == other.kind
    }

    /// The line for this item at `position` of a list of results.
    pub fn result_line(&self, position: usize) -> (r: String)
        ensures
            r@ == result_line(position as nat, self@),
    {
        let mut out = decimal_string(position as u64);
        out.append(". ");
        out.append(self.kind.label());
        out.append(": ");
        out.append(self.primary_title.as_str());
        out.append(" (");
        match &self.release_year {
            Some(y) => out.append(y.as_str()),
            None => out.append(NOT_AVAILABLE),
        }
        out.append(")");
        out
    }

    /// This item in full.
    pub fn detail(&self) -> (r: String)
        ensures
            r@ == detail_text(self@),
    {
        let mut out = String::from_str("**");
        out.append(self.kind.label());
        out.append("**: ");
        out.append(self.primary_title.as_str());
        out.append(" (");
        match &self.release_year {
            Some(y) => out.append(y.as_str()),
            None => out.append(NOT_AVAILABLE),
        }
        out.append(")\n**Overview**: ");
        match &self.overview {
            Some(o) => out.append(o.as_str()),
            None => out.append(NO_OVERVIEW),
        }
        out
    }
}

/// The catalog items among the results of a text search, in the provider's
/// order. An empty result is no error.
pub fn catalog_items(records: &Vec<ProviderRecord>) -> (r: Vec<CatalogItem>)
    ensures
        item_models(r@) == items_of(record_models(records@), records@.len() as int),
{
    let mut out: Vec<CatalogItem> = Vec::new();
    let mut i: usize = 0;
    while i < records.len()
        invariant
            i <= records@.len(),
            item_models(out@) == items_of(record_models(records@), i as int),
        decreases records@.len() - i,
    {
        let ghost before = out@;
        match CatalogItem::from_record(&records[i]) {
            Some(item) => {
                out.push(item);
                proof {
                    assert(item_models(out@) =~= item_models(before).push(item@));
                }
            },
            None => {},
        }
        i += 1;
    }
    out
}

/// The item that an external identifier stands for, from the movies and the
/// shows that the provider found for it.
pub fn pick_found(movies: &Vec<ProviderRecord>, shows: &Vec<ProviderRecord>) -> (r: Option<
    CatalogItem,
>)
    ensures
        r is Some <==> found_item(record_models(movies@), record_models(shows@)) is Some,
        r matches Some(item) ==> Some(item@) == found_item(
            record_models(movies@),
            record_models(shows@),
        ),
{
    if movies.len() > 0 {
        Some(CatalogItem::of_kind(&movies[0], MediaKind::Movie))
    } else if shows.len() > 0 {
        Some(CatalogItem::of_kind(&shows[0], MediaKind::Show))
    } else {
        None
    }
}

/// The address of a text search for `query`.
pub fn search_url(api_key: &str, query: &str) -> (r: String)
    ensures
        r@ == search_address(api_key@, query@),
{
    let mut out = String::from_str(API_ROOT);
    out.append("/search/multi?api_key=");
    out.append(api_key);
    out.append("&query=");
    out.append(query);
    out
}

/// The address of a lookup by external identifier.
pub fn find_url(api_key: &str, external_id: &str) -> (r: String)
    ensures
        r@ == find_address(api_key@, external_id@),
{
    let mut out = String::from_str(API_ROOT);
    out.append("/find/");
    out.append(external_id);
    out.append("?api_key=");
    out.append(api_key);
    out.append("&external_source=imdb_id");
    out
}

/// The decimal text of a provider id.
pub fn id_text(provider_id: i32) -> (r: String)
    ensures
        r@ == signed_decimal(provider_id as int),
{
    let mut out: Vec<char> = Vec::new();
    push_signed_decimal(&mut out, provider_id as i64);
    string_of(out.as_slice())
}

/// The address of the description of the show `provider_id`.
pub fn show_detail_url(api_key: &str, provider_id: i32) -> (r: String)
    ensures
        r@ == show_address(api_key@, provider_id as int),
{
    let mut out = String::from_str(API_ROOT);
    out.append("/tv/");
    out.append(id_text(provider_id).as_str());
    out.append("?api_key=");
    out.append(api_key);
    out
}

/// The address of the description of season `season` of the show
/// `provider_id`.
pub fn season_detail_url(api_key: &str, provider_id: i32, season: u32) -> (r: String)
    ensures
        r@ == season_address(api_key@, provider_id as int, season as nat),
{
    let mut out = String::from_str(API_ROOT);
    out.append("/tv/");
    out.append(id_text(provider_id).as_str());
    out.append("/season/");
    out.append(decimal_string(season as u64).as_str());
    out.append("?api_key=");
    out.append(api_key);
    out
}

/// The list of results as it is shown: a heading, then a numbered line for
/// each of the first five items.
pub fn search_results_message(items: &Vec<CatalogItem>) -> (r: String)
    ensures
        r@ == results_text(item_models(items@)),
{
    let mut out = String::from_str("Search Results (Top 5):\n");
    let shown: usize = if items.len() < DISPLAY_LIMIT {
        items.len()
    } else {
        DISPLAY_LIMIT
    };
    let mut i: usize = 0;
    while i < shown
        invariant
            i <= shown <= items@.len(),
            out@ == "Search Results (Top 5):\n"@ + result_lines(item_models(items@), i as int),
        decreases shown - i,
    {
        let line = items[i].result_line(i + 1);
        out.append(line.as_str());
        out.append("\n");
        i += 1;
    }
    out
}

} // verus!
