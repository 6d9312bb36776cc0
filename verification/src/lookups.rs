//! The two commands that only ask the catalog: a search by text and a
//! lookup by external identifier. Each is planned before the request and
//! answered after it.

use vstd::prelude::*;
use vstd::string::StringExecFns;
use crate::catalog::{
    catalog_items, detail_text, find_address, find_url, found_item, item_models, items_of,
    pick_found, record_models, results_text, search_address, search_results_message, search_url,
    CatalogItem, ItemModel, MediaKind, ProviderRecord,
};
use crate::commands::{is_external_id, validate_external_id};
use crate::errors::{fault_text, Fault};
use crate::resolver::{embed_path, title_path};

verus! {

/// What is known of the key of the catalog provider.
#[derive(Clone, Copy, Debug, PartialEq, Eq, Structural)]
pub enum KeyState {
    /// No key is configured.
    Missing,
    /// A key is configured, and it is empty.
    Empty,
    /// A key is configured.
    Present,
}

/// What a lookup leads to before anything is asked of the provider.
#[derive(Clone, Debug)]
pub enum Lookup {
    /// Say this and be done.
    Reply(String),
    /// Ask the provider at this address.
    Fetch(String),
}

/// A lookup as a mathematical value.
pub enum LookupModel {
    Reply(Seq<char>),
    Fetch(Seq<char>),
}

impl View for Lookup {
    type V = LookupModel;

    open spec fn view(&self) -> LookupModel {
        match self {
            Lookup::Reply(text) => LookupModel::Reply(text@),
            Lookup::Fetch(url) => LookupModel::Fetch(url@),
        }
    }
}

/// What is known of a key.
pub open spec fn key_state_of(key: Option<Seq<char>>) -> KeyState {
    match key {
        None => KeyState::Missing,
        Some(k) => if k.len() == 0 {
            KeyState::Empty
        } else {
            KeyState::Present
        },
    }
}

/// What the user is told of a key that cannot be used.
pub open spec fn key_text(state: KeyState) -> Seq<char> {
    match state {
        KeyState::Empty =>
            "TMDB API key is configured but empty. Please contact the bot administrator."@,
        _ => "TMDB API key not configured. Please contact the bot administrator."@,
    }
}

/// What a search for `query` leads to: a query without words and a key that
/// cannot be used are answered at once; else the provider is asked.
pub open spec fn search_plan(query: Seq<char>, key: Option<Seq<char>>) -> LookupModel {
    if query.len() == 0 {
        LookupModel::Reply(fault_text(Fault::EmptyQuery))
    } else {
        match key {
            Some(k) => if k.len() > 0 {
                LookupModel::Fetch(search_address(k, query))
            } else {
                LookupModel::Reply(key_text(KeyState::Empty))
            },
            None => LookupModel::Reply(key_text(KeyState::Missing)),
        }
    }
}

/// What a lookup of `id` leads to: an identifier of the wrong form and a key
/// that cannot be used are answered at once; else the provider is asked.
pub open spec fn find_plan(id: Seq<char>, key: Option<Seq<char>>) -> LookupModel {
    if !is_external_id(id) {
        LookupModel::Reply(fault_text(Fault::ExternalId))
    } else {
        match key {
            Some(k) => if k.len() > 0 {
                LookupModel::Fetch(find_address(k, id))
            } else {
                LookupModel::Reply(key_text(KeyState::Empty))
            },
            None => LookupModel::Reply(key_text(KeyState::Missing)),
        }
    }
}

/// What the user is told of the result of a search: the list of the titles
/// among the provider's records, or that there are none.
pub open spec fn search_answer(records: Option<Seq<ProviderRecord>>) -> Seq<char> {
    match records {
        None => "Error searching TMDB. Please try again later."@,
        Some(found) => {
            let items = items_of(record_models(found), found.len() as int);
            if items.len() == 0 {
                "No results found for your query."@
            } else {
                results_text(items)
            }
        },
    }
}

/// What the user is told of the result of a lookup: the title that the
/// identifier stands for, in full, or that there is none.
pub open spec fn find_answer(found: Option<Option<ItemModel>>) -> Seq<char> {
    match found {
        None => "Error fetching details from TMDB. Please try again later."@,
        Some(None) => "No media found for that IMDB ID."@,
        Some(Some(item)) => detail_text(item),
    }
}

/// The path on a mirror at which a title is looked at without a choice of
/// episode: a movie as it is, a show at its first episode.
pub open spec fn preview_path(item: ItemModel) -> Option<Seq<char>> {
    match item.kind {
        MediaKind::Movie => embed_path(item.kind, item.provider_id, None, None),
        MediaKind::Show => embed_path(item.kind, item.provider_id, Some(1nat), Some(1nat)),
    }
}

/// What is known of a key.
pub fn key_state(key: Option<&str>) -> (r: KeyState)
    ensures
        r == key_state_of(
            match key {
                Some(k) => Some(k@),
                None => None,
            },
        ),
{
    match key {
        None => KeyState::Missing,
        Some(k) => if k.unicode_len() == 0 {
            KeyState::Empty
        } else {
            KeyState::Present
        },
    }
}

fn key_reply(state: KeyState) -> (r: String)
    ensures
        r@ == key_text(state),
{
    match state {
        KeyState::Empty => String::from_str(
            "TMDB API key is configured but empty. Please contact the bot administrator.",
        ),
        _ => String::from_str("TMDB API key not configured. Please contact the bot administrator."),
    }
}

/// Plans a search for `query` with the key `key`.
pub fn plan_search(query: &str, key: Option<&str>) -> (r: Lookup)
    ensures
        r@ == search_plan(
            query@,
            match key {
                Some(k) => Some(k@),
                None => None,
            },
        ),
{
    if query.unicode_len() == 0 {
        return Lookup::Reply(Fault::EmptyQuery.message());
    }
    match key {
        Some(k) => {
            if k.unicode_len() > 0 {
                Lookup::Fetch(search_url(k, query))
            } else {
                Lookup::Reply(key_reply(KeyState::Empty))
            }
        },
        None => Lookup::Reply(key_reply(KeyState::Missing)),
    }
}

/// Plans a lookup of the external identifier `id` with the key `key`.
pub fn plan_find(id: &str, key: Option<&str>) -> (r: Lookup)
    ensures
        r@ == find_plan(
            id@,
            match key {
                Some(k) => Some(k@),
                None => None,
            },
        ),
{
    if validate_external_id(id).is_err() {
        return Lookup::Reply(Fault::ExternalId.message());
    }
    match key {
        Some(k) => {
            if k.unicode_len() > 0 {
                Lookup::Fetch(find_url(k, id))
            } else {
                Lookup::Reply(key_reply(KeyState::Empty))
            }
        },
        None => Lookup::Reply(key_reply(KeyState::Missing)),
    }
}

/// What the user is told of the result of a search; `None` stands for a
/// request that failed.
pub fn answer_search(records: Option<&Vec<ProviderRecord>>) -> (r: String)
    ensures
        r@ == search_answer(
            match records {
                Some(found) => Some(found@),
                None => None,
            },
        ),
{
    match records {
        None => String::from_str("Error searching TMDB. Please try again later."),
        Some(found) => {
            let items = catalog_items(found);
            if items.len() == 0 {
                String::from_str("No results found for your query.")
            } else {
                search_results_message(&items)
            }
        },
    }
}

/// What the user is told of the result of a lookup, from the movies and the
/// shows that the provider found; `None` stands for a request that failed.
pub fn answer_find(found: Option<(&Vec<ProviderRecord>, &Vec<ProviderRecord>)>) -> (r: String)
    ensures
        r@ == find_answer(
            match found {
                Some((movies, shows)) => Some(
                    found_item(record_models(movies@), record_models(shows@)),
                ),
                None => None,
            },
        ),
{
    match found {
        None => String::from_str("Error fetching details from TMDB. Please try again later."),
        Some((movies, shows)) => match pick_found(movies, shows) {
            Some(item) => item.detail(),
            None => String::from_str("No media found for that IMDB ID."),
        },
    }
}

/// The path on a mirror at which `item` is looked at without a choice of
/// episode.
pub fn preview_path_of(item: &CatalogItem) -> (r: Option<String>)
    ensures
        r.deep_view() == preview_path(item@),
{
    match item.kind {
        MediaKind::Movie => title_path(item.kind, item.provider_id, None, None),
        MediaKind::Show => title_path(item.kind, item.provider_id, Some(1), Some(1)),
    }
}

} // verus!
